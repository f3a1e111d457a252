//! How a composite action reacts to what its children report from an update.
//!
//! A sequence or a loop updates one child at a time, round after round, within one update of
//! its own: each round hands the child the time that the rounds before left, and the child's
//! report decides whether the composite reports at once or finishes the child and goes on.
//! Concurrent composites update all running branches with the same time.
use vstd::prelude::*;
use crate::base::{ExecutionState, Nanos};
use crate::exception::{ExecutionException, ExecutionExceptionFilter, ExecutionInterruption, UpdateResult, filter_matches};

verus! {

/// One update of a child within an update of its composite: the child's state before, the time
/// it was given, and what it reported.
pub struct Round {
    pub before: ExecutionState,
    pub given: Nanos,
    pub elapsed: Nanos,
    pub result: UpdateResult,
}

/// Every round of `trail` after the first updated a child that the composite had (re)started:
/// it was running.
pub open spec fn rounds_restarted(trail: Seq<Round>) -> bool {
    forall|k: int| 1 <= k < trail.len() ==> (#[trigger] trail[k]).before == ExecutionState::Running
}

/// What a composite does after a child's report.
#[derive(Debug, Clone, Copy, PartialEq, Eq, Structural)]
pub enum Next {
    /// The composite's update ends with this report: the time used, and the result.
    Report(Nanos, UpdateResult),
    /// The child is done: the composite finalizes it and goes on with the time that remains
    /// (first) and the time used so far (second).
    Finished(Nanos, Nanos),
}

/// The decision after a child, given `remaining` of the composite's time, used `elapsed` of it
/// and reported `result`, when the composite had used `total` before. A busy child makes the
/// composite busy; a completed or ready child is done; a break completes the composite where
/// it `breaks` (a loop) and passes on otherwise, as every other interruption and an error do.
pub open spec fn round_next(remaining: Nanos, total: Nanos, elapsed: Nanos, result: UpdateResult, breaks: bool) -> Next {
    let used = (total + elapsed) as u64;
    match result {
        UpdateResult::Busy => Next::Report(used, UpdateResult::Busy),
        UpdateResult::Complete | UpdateResult::Ready => Next::Finished((remaining - elapsed) as u64, used),
        UpdateResult::Interruption(i) => if breaks && i == ExecutionInterruption::Break {
            Next::Report(used, UpdateResult::Complete)
        } else {
            Next::Report(used, UpdateResult::Interruption(i))
        },
        UpdateResult::Error => Next::Report(used, UpdateResult::Error),
    }
}

/// The decision of a sequence after its current step reported; see `round_next`. A break
/// passes on to the loop around the sequence.
pub fn sequence_next(remaining: Nanos, total: Nanos, elapsed: Nanos, result: UpdateResult) -> (n: Next)
    requires
        elapsed <= remaining,
        total + remaining <= u64::MAX,
    ensures
        n == round_next(remaining, total, elapsed, result, false),
{
    next_after(remaining, total, elapsed, result, false)
}

/// The decision of a loop after its body reported; see `round_next`. A break completes the loop.
pub fn loop_next(remaining: Nanos, total: Nanos, elapsed: Nanos, result: UpdateResult) -> (n: Next)
    requires
        elapsed <= remaining,
        total + remaining <= u64::MAX,
    ensures
        n == round_next(remaining, total, elapsed, result, true),
{
    next_after(remaining, total, elapsed, result, true)
}

fn next_after(remaining: Nanos, total: Nanos, elapsed: Nanos, result: UpdateResult, breaks: bool) -> (n: Next)
    requires
        elapsed <= remaining,
        total + remaining <= u64::MAX,
    ensures
        n == round_next(remaining, total, elapsed, result, breaks),
{
    let used = total + elapsed;
    match result {
        UpdateResult::Busy => Next::Report(used, UpdateResult::Busy),
        UpdateResult::Complete | UpdateResult::Ready => Next::Finished(remaining - elapsed, used),
        UpdateResult::Interruption(i) => {
            if breaks && i == ExecutionInterruption::Break {
                Next::Report(used, UpdateResult::Complete)
            } else {
                Next::Report(used, UpdateResult::Interruption(i))
            }
        },
        UpdateResult::Error => Next::Report(used, UpdateResult::Error),
    }
}

/// Where the rounds of `trail` lead within an update of `delta`: each round that finishes its
/// child leads to the next with the time that remains; the first report ends the rounds.
pub open spec fn rounds_outcome(delta: Nanos, trail: Seq<Round>, breaks: bool) -> Next
    decreases trail.len(),
{
    if trail.len() == 0 {
        Next::Finished(delta, 0)
    } else {
        match rounds_outcome(delta, trail.drop_last(), breaks) {
            Next::Finished(remaining, total) => round_next(remaining, total, trail.last().elapsed, trail.last().result, breaks),
            report => report,
        }
    }
}

/// Every round of `trail` followed rounds that finished their child, was given the time those
/// left, and used no more than it was given.
pub open spec fn rounds_handed(delta: Nanos, trail: Seq<Round>, breaks: bool) -> bool {
    forall|k: int| 0 <= k < trail.len() ==> {
        &&& rounds_outcome(delta, #[trigger] trail.take(k), breaks) matches Next::Finished(remaining, _)
        &&& trail[k].given == remaining
        &&& trail[k].elapsed <= remaining
    }
}

/// The number of rounds of `trail` whose child finished.
pub open spec fn rounds_finished(delta: Nanos, trail: Seq<Round>, breaks: bool) -> int {
    if rounds_outcome(delta, trail, breaks) is Finished { trail.len() as int } else { trail.len() - 1 }
}

/// What ran out of rounds leaves: the time used and the time that remains add up to `delta`.
pub open spec fn rounds_balance(delta: Nanos, trail: Seq<Round>, breaks: bool) -> bool {
    rounds_outcome(delta, trail, breaks) matches Next::Finished(remaining, total) ==> remaining + total == delta
}

/// One more round after rounds that finished their child: where the rounds lead, and that the
/// new round was handed the time that remained.
pub proof fn lemma_rounds_push(delta: Nanos, trail: Seq<Round>, round: Round, breaks: bool)
    requires
        rounds_handed(delta, trail, breaks),
        rounds_balance(delta, trail, breaks),
        rounds_outcome(delta, trail, breaks) matches Next::Finished(remaining, _) && round.given == remaining && round.elapsed <= remaining,
    ensures
        rounds_outcome(delta, trail.push(round), breaks) == (match rounds_outcome(delta, trail, breaks) {
            Next::Finished(remaining, total) => round_next(remaining, total, round.elapsed, round.result, breaks),
            report => report,
        }),
        rounds_handed(delta, trail.push(round), breaks),
        rounds_balance(delta, trail.push(round), breaks),
        rounds_restarted(trail) && (trail.len() > 0 ==> round.before == ExecutionState::Running)
            ==> rounds_restarted(trail.push(round)),
{
    let t = trail.push(round);
    assert(t.drop_last() =~= trail);
    assert forall|k: int| 1 <= k < t.len() && rounds_restarted(trail) && (trail.len() > 0 ==> round.before == ExecutionState::Running)
        implies (#[trigger] t[k]).before == ExecutionState::Running by {
        if k < trail.len() {
            assert(t[k] == trail[k]);
        }
    }
    assert forall|k: int| 0 <= k < t.len() implies {
        &&& rounds_outcome(delta, #[trigger] t.take(k), breaks) matches Next::Finished(remaining, _)
        &&& t[k].given == remaining
        &&& t[k].elapsed <= remaining
    } by {
        if k < trail.len() {
            assert(t.take(k) =~= trail.take(k));
        } else {
            assert(t.take(k) =~= trail);
        }
    }
}

/// The report of rounds that ran out of children to finish: the time used, with `result`.
pub open spec fn rounds_report(n: Next, result: UpdateResult) -> (Nanos, UpdateResult) {
    match n {
        Next::Report(t, u) => (t, u),
        Next::Finished(_, t) => (t, result),
    }
}

/// The decision of a try-catch action after its try action, given `delta`, used `elapsed` and
/// reported `result`: busy, complete, an error or an interruption that is not a caught exception
/// are reported as they are (a completion as Complete); an exception that `filter` catches
/// hands over to the catch action with the time that remains, or completes where there is none.
pub open spec fn spec_try_next(mask: u64, has_catch: bool, delta: Nanos, elapsed: Nanos, result: UpdateResult) -> Next {
    match result {
        UpdateResult::Busy => Next::Report(elapsed, UpdateResult::Busy),
        UpdateResult::Complete | UpdateResult::Ready => Next::Report(elapsed, UpdateResult::Complete),
        UpdateResult::Interruption(ExecutionInterruption::Exception(ex)) => if filter_matches(mask, ex.spec_code()) {
            if has_catch { Next::Finished((delta - elapsed) as u64, elapsed) } else { Next::Report(elapsed, UpdateResult::Complete) }
        } else {
            Next::Report(elapsed, result)
        },
        UpdateResult::Interruption(_) => Next::Report(elapsed, result),
        UpdateResult::Error => Next::Report(elapsed, UpdateResult::Error),
    }
}

/// The decision of a try-catch action after its try action reported; see `spec_try_next`.
pub fn try_next(filter: &ExecutionExceptionFilter, has_catch: bool, delta: Nanos, elapsed: Nanos, result: UpdateResult) -> (n: Next)
    requires
        elapsed <= delta,
    ensures
        n == spec_try_next(filter.spec_mask(), has_catch, delta, elapsed, result),
{
    match result {
        UpdateResult::Busy => Next::Report(elapsed, UpdateResult::Busy),
        UpdateResult::Complete | UpdateResult::Ready => Next::Report(elapsed, UpdateResult::Complete),
        UpdateResult::Interruption(interruption) => {
            match interruption {
                ExecutionInterruption::Exception(ex) => {
                    if filter.matches(&ex) {
                        if has_catch {
                            Next::Finished(delta - elapsed, elapsed)
                        } else {
                            Next::Report(elapsed, UpdateResult::Complete)
                        }
                    } else {
                        Next::Report(elapsed, result)
                    }
                },
                _ => Next::Report(elapsed, result),
            }
        },
        UpdateResult::Error => Next::Report(elapsed, UpdateResult::Error),
    }
}

/// The report of a try-catch action after its catch action, started after `total` was used,
/// used `elapsed` and reported `result`: a completion is Complete, everything else passes on.
pub open spec fn spec_catch_report(total: Nanos, elapsed: Nanos, result: UpdateResult) -> (Nanos, UpdateResult) {
    let used = (total + elapsed) as u64;
    match result {
        UpdateResult::Complete | UpdateResult::Ready => (used, UpdateResult::Complete),
        _ => (used, result),
    }
}

/// The report of a try-catch action after its catch action reported; see `spec_catch_report`.
pub fn catch_report(total: Nanos, elapsed: Nanos, result: UpdateResult) -> (r: (Nanos, UpdateResult))
    requires
        total + elapsed <= u64::MAX,
    ensures
        r == spec_catch_report(total, elapsed, result),
{
    match result {
        UpdateResult::Complete | UpdateResult::Ready => (total + elapsed, UpdateResult::Complete),
        _ => (total + elapsed, result),
    }
}

/// What a concurrent composite does after a branch reported.
#[derive(Debug, Clone, Copy, PartialEq, Eq, Structural)]
pub enum BranchNext {
    /// The composite's update ends with this report.
    Report(Nanos, UpdateResult),
    /// The composite goes on to the next branch: whether a branch was busy, the time used
    /// (the longest of the branches), and whether this branch is to be finalized first.
    Go(bool, Nanos, bool),
}

/// The decision of a concurrent composite after a branch, updated with the composite's time,
/// used `elapsed` and reported `result`, when branches before were `busy` and used `total`.
/// The time used is the longest of the branches. A busy branch makes the composite busy; an
/// interruption or an error ends the update. A concurrency (`race` false) finalizes a branch
/// that completed or is ready; a computation (`race` true) completes at once when a branch
/// completes and keeps a ready branch running.
pub open spec fn spec_branch_next(busy: bool, total: Nanos, elapsed: Nanos, result: UpdateResult, race: bool) -> BranchNext {
    let used = if elapsed > total { elapsed } else { total };
    match result {
        UpdateResult::Busy => BranchNext::Go(true, used, false),
        UpdateResult::Complete => if race { BranchNext::Report(used, UpdateResult::Complete) } else { BranchNext::Go(busy, used, true) },
        UpdateResult::Ready => BranchNext::Go(busy, used, !race),
        UpdateResult::Interruption(i) => BranchNext::Report(used, UpdateResult::Interruption(i)),
        UpdateResult::Error => BranchNext::Report(used, UpdateResult::Error),
    }
}

/// The decision of a concurrent composite after a branch reported; see `spec_branch_next`.
pub fn branch_next(busy: bool, total: Nanos, elapsed: Nanos, result: UpdateResult, race: bool) -> (n: BranchNext)
    ensures
        n == spec_branch_next(busy, total, elapsed, result, race),
{
    let used = if elapsed > total { elapsed } else { total };
    match result {
        UpdateResult::Busy => BranchNext::Go(true, used, false),
        UpdateResult::Complete => {
            if race {
                BranchNext::Report(used, UpdateResult::Complete)
            } else {
                BranchNext::Go(busy, used, true)
            }
        },
        UpdateResult::Ready => BranchNext::Go(busy, used, !race),
        UpdateResult::Interruption(i) => BranchNext::Report(used, UpdateResult::Interruption(i)),
        UpdateResult::Error => BranchNext::Report(used, UpdateResult::Error),
    }
}

/// The report of a concurrent composite whose branches all went on: busy where one was busy;
/// otherwise complete for a concurrency and ready for a computation.
pub open spec fn spec_branches_report(busy: bool, total: Nanos, race: bool) -> (Nanos, UpdateResult) {
    if busy { (total, UpdateResult::Busy) } else if race { (total, UpdateResult::Ready) } else { (total, UpdateResult::Complete) }
}

/// A branch's update within an update of a concurrent composite: which branch, the time it was
/// given, and its report.
pub struct BranchRound {
    pub branch: usize,
    pub given: Nanos,
    pub elapsed: Nanos,
    pub result: UpdateResult,
}

/// Where the branch reports of `trail` lead: whether a branch was busy and the time used, or
/// the report that ended the update.
pub open spec fn branches_outcome(trail: Seq<BranchRound>, race: bool) -> BranchNext
    decreases trail.len(),
{
    if trail.len() == 0 {
        BranchNext::Go(false, 0, false)
    } else {
        match branches_outcome(trail.drop_last(), race) {
            BranchNext::Go(busy, total, _) => spec_branch_next(busy, total, trail.last().elapsed, trail.last().result, race),
            report => report,
        }
    }
}

/// Every branch report of `trail` followed reports that went on.
pub open spec fn branches_went_on(trail: Seq<BranchRound>, race: bool) -> bool {
    forall|k: int| 0 <= k < trail.len() ==> branches_outcome(#[trigger] trail.take(k), race) is Go
}

/// One more branch report after reports that went on.
pub proof fn lemma_branches_push(trail: Seq<BranchRound>, round: BranchRound, race: bool)
    requires
        branches_went_on(trail, race),
        branches_outcome(trail, race) is Go,
    ensures
        branches_outcome(trail.push(round), race) == (match branches_outcome(trail, race) {
            BranchNext::Go(busy, total, _) => spec_branch_next(busy, total, round.elapsed, round.result, race),
            report => report,
        }),
        branches_went_on(trail.push(round), race),
{
    let t = trail.push(round);
    assert(t.drop_last() =~= trail);
    assert forall|k: int| 0 <= k < t.len() implies branches_outcome(#[trigger] t.take(k), race) is Go by {
        if k < trail.len() {
            assert(t.take(k) =~= trail.take(k));
        } else {
            assert(t.take(k) =~= trail);
        }
    }
}


/// What a sequence or a loop does with a child's report, over all reports. The time used is
/// always what was used before plus what the child used. A child is finished exactly when it
/// completed or is ready, and then the composite goes on with the time that remains. A busy
/// child makes the composite busy, an error ends it with an error, and every interruption ends
/// the update and passes on unchanged, except a break, which a loop turns into its completion.
/// No report of the composite is Ready.
pub proof fn lemma_round_laws(remaining: Nanos, total: Nanos, elapsed: Nanos, result: UpdateResult, breaks: bool)
    requires
        elapsed <= remaining,
        total + remaining <= u64::MAX,
    ensures
        (round_next(remaining, total, elapsed, result, breaks) is Finished)
            <==> (result == UpdateResult::Complete || result == UpdateResult::Ready),
        (result == UpdateResult::Complete || result == UpdateResult::Ready) ==>
            round_next(remaining, total, elapsed, result, breaks) == Next::Finished((remaining - elapsed) as u64, (total + elapsed) as u64),
        result == UpdateResult::Busy ==>
            round_next(remaining, total, elapsed, result, breaks) == Next::Report((total + elapsed) as u64, UpdateResult::Busy),
        result == UpdateResult::Error ==>
            round_next(remaining, total, elapsed, result, breaks) == Next::Report((total + elapsed) as u64, UpdateResult::Error),
        forall|i: ExecutionInterruption| result == UpdateResult::Interruption(i) && !(breaks && i == ExecutionInterruption::Break)
            ==> round_next(remaining, total, elapsed, result, breaks) == Next::Report((total + elapsed) as u64, result),
        breaks && result == UpdateResult::Interruption(ExecutionInterruption::Break) ==>
            round_next(remaining, total, elapsed, result, breaks) == Next::Report((total + elapsed) as u64, UpdateResult::Complete),
        round_next(remaining, total, elapsed, result, breaks) matches Next::Report(t, u)
            ==> t == total + elapsed && u != UpdateResult::Ready,
{
}

/// What a try-catch action does with its try action's report, over all reports. The time used
/// is the try action's. Only an exception that the filter matches is caught: it hands over to
/// the catch action, with the time that remains, where there is one, and completes the action
/// otherwise. Every other interruption (an exception the filter does not match, or one that is
/// not an exception) passes on unchanged, whether there is a catch action or not. A busy try
/// action keeps the action busy, a completed or ready one completes it, an error is an error.
pub proof fn lemma_try_laws(mask: u64, has_catch: bool, delta: Nanos, elapsed: Nanos, result: UpdateResult)
    requires
        elapsed <= delta,
    ensures
        forall|ex: ExecutionException| result == UpdateResult::Interruption(ExecutionInterruption::Exception(ex))
            && !filter_matches(mask, ex.spec_code()) ==> spec_try_next(mask, has_catch, delta, elapsed, result) == Next::Report(elapsed, result),
        forall|i: ExecutionInterruption| result == UpdateResult::Interruption(i) && !(i is Exception)
            ==> spec_try_next(mask, has_catch, delta, elapsed, result) == Next::Report(elapsed, result),
        forall|ex: ExecutionException| result == UpdateResult::Interruption(ExecutionInterruption::Exception(ex))
            && filter_matches(mask, ex.spec_code()) ==> spec_try_next(mask, has_catch, delta, elapsed, result) == (if has_catch {
                Next::Finished((delta - elapsed) as u64, elapsed)
            } else {
                Next::Report(elapsed, UpdateResult::Complete)
            }),
        spec_try_next(mask, has_catch, delta, elapsed, result) is Finished ==> has_catch && (result matches
            UpdateResult::Interruption(ExecutionInterruption::Exception(ex)) && filter_matches(mask, ex.spec_code())),
        result == UpdateResult::Busy ==> spec_try_next(mask, has_catch, delta, elapsed, result) == Next::Report(elapsed, UpdateResult::Busy),
        result == UpdateResult::Error ==> spec_try_next(mask, has_catch, delta, elapsed, result) == Next::Report(elapsed, UpdateResult::Error),
        (result == UpdateResult::Complete || result == UpdateResult::Ready) ==>
            spec_try_next(mask, has_catch, delta, elapsed, result) == Next::Report(elapsed, UpdateResult::Complete),
        spec_try_next(mask, has_catch, delta, elapsed, result) matches Next::Report(t, u) ==> t == elapsed && u != UpdateResult::Ready,
{
}

/// What a try-catch action reports after its catch action, over all reports: the time used
/// before plus the catch action's, and the catch action's result, a ready one turned into
/// completion; nothing else changes, so an exception of the catch action passes on.
pub proof fn lemma_catch_laws(total: Nanos, elapsed: Nanos, result: UpdateResult)
    requires
        total + elapsed <= u64::MAX,
    ensures
        spec_catch_report(total, elapsed, result).0 == total + elapsed,
        (spec_catch_report(total, elapsed, result).1 == UpdateResult::Complete)
            <==> (result == UpdateResult::Complete || result == UpdateResult::Ready),
        result != UpdateResult::Ready ==> spec_catch_report(total, elapsed, result).1 == result,
{
}

/// What a concurrent composite does with a branch's report, over all reports. The time used is
/// the longest of the branches so far. Every interruption and every error ends the update and
/// passes on unchanged, for a concurrency and a computation alike; such a branch is never
/// finalized and gone past. A busy branch makes the composite busy. A concurrency finalizes a
/// branch that completed or is ready; a computation completes at once with a completed branch
/// and keeps a ready one running. The composite stays busy once a branch was busy.
pub proof fn lemma_branch_laws(busy: bool, total: Nanos, elapsed: Nanos, result: UpdateResult, race: bool)
    ensures
        forall|i: ExecutionInterruption| result == UpdateResult::Interruption(i) ==>
            spec_branch_next(busy, total, elapsed, result, race) == BranchNext::Report(if elapsed > total { elapsed } else { total }, result),
        result == UpdateResult::Error ==>
            spec_branch_next(busy, total, elapsed, result, race) == BranchNext::Report(if elapsed > total { elapsed } else { total }, result),
        spec_branch_next(busy, total, elapsed, result, race) is Go
            <==> (result == UpdateResult::Busy || result == UpdateResult::Ready || (result == UpdateResult::Complete && !race)),
        spec_branch_next(busy, total, elapsed, result, race) matches BranchNext::Go(b, t, fin) ==> {
            &&& b == (busy || result == UpdateResult::Busy)
            &&& t >= total && t >= elapsed && (t == total || t == elapsed)
            &&& fin == (!race && (result == UpdateResult::Complete || result == UpdateResult::Ready))
        },
        spec_branch_next(busy, total, elapsed, result, race) matches BranchNext::Report(t, u) ==> {
            &&& t >= total && t >= elapsed && (t == total || t == elapsed)
            &&& u == result
            &&& (u == UpdateResult::Complete ==> race)
        },
        !busy ==> spec_branches_report(busy, total, race).1 == (if race { UpdateResult::Ready } else { UpdateResult::Complete }),
        busy ==> spec_branches_report(busy, total, race) == (total, UpdateResult::Busy),
{
}

} // verus!
