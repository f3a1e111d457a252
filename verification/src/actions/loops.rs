//! Loops and the break action.
use vstd::prelude::*;
use std::sync::Arc;
use crate::base::{EvalError, ExecutionState, ExecutionTransition, Nanos, StateType, next_state};
use crate::exception::{ExecutionInterruption, UpdateResult};
use crate::variables::{RValue, Variable};
use crate::actions::{Action, ExecutionContext};
use crate::actions::rounds::{
    Next, Round, lemma_rounds_push, loop_next, rounds_balance, rounds_finished, rounds_handed, rounds_outcome, rounds_report,
    rounds_restarted,
};

verus! {

/// The most rounds of a loop body within one update. A body that completes without consuming
/// time would otherwise hold the update forever; after this many rounds the update reports
/// `Busy` and the next update goes on.
pub const MAX_ROUNDS: u64 = 0xFFFF_FFFF_FFFF_FFFF;

/// An action that breaks the loop it is in.
pub struct Break {
    state: ExecutionState,
}

impl Break {
    /// A new break action.
    pub fn new() -> (a: Box<Break>)
        ensures
            a.spec_state() == ExecutionState::Uninitialized,
    {
        Box::new(Break { state: ExecutionState::new() })
    }
}

impl Action for Break {
    closed spec fn spec_state(&self) -> ExecutionState {
        self.state
    }

    fn state(&self) -> (s: ExecutionState) {
        self.state
    }

    fn init(&mut self) -> (s: ExecutionState)
        ensures
            s == next_state(old(self).spec_state(), ExecutionTransition::Init),
            final(self).spec_state() == s,
    {
        let next = self.state.peek_state(ExecutionTransition::Init);
        self.state.transition_to(next)
    }

    fn start(&mut self, ctx: &mut ExecutionContext) -> (s: ExecutionState)
        ensures
            s == next_state(old(self).spec_state(), ExecutionTransition::Start),
            final(self).spec_state() == s,
    {
        let next = self.state.peek_state(ExecutionTransition::Start);
        self.state.transition_to(next)
    }

    /// Signal a break; outside Running the action moves into `Error(Update)`.
    fn update(&mut self, delta: Nanos, ctx: &mut ExecutionContext) -> (r: (Nanos, UpdateResult))
        ensures
            old(self).spec_state() == ExecutionState::Running ==>
                r == (0u64, UpdateResult::Interruption(ExecutionInterruption::Break)) && final(self).spec_state() == old(self).spec_state(),
            old(self).spec_state() != ExecutionState::Running ==>
                final(self).spec_state() == ExecutionState::Error(ExecutionTransition::Update),
    {
        if self.state == ExecutionState::Running {
            (0, UpdateResult::Interruption(ExecutionInterruption::Break))
        } else {
            self.state.transition_to(ExecutionState::Error(ExecutionTransition::Update));
            (0, UpdateResult::Error)
        }
    }

    fn finalize(&mut self, ctx: &mut ExecutionContext) -> (s: ExecutionState)
        ensures
            s == next_state(old(self).spec_state(), ExecutionTransition::Finalize),
            final(self).spec_state() == s,
    {
        let next = self.state.peek_state(ExecutionTransition::Finalize);
        self.state.transition_to(next)
    }

    fn terminate(&mut self) -> (s: ExecutionState)
        ensures
            s == next_state(old(self).spec_state(), ExecutionTransition::Terminate),
            final(self).spec_state() == s,
    {
        let next = self.state.peek_state(ExecutionTransition::Terminate);
        self.state.transition_to(next)
    }
}

/// The common lifecycle of the loops over an optional body: `init`, `start`, `finalize`
/// and `terminate` pass on to the body; `start` runs `reset` first.
pub open spec fn body_lifecycle(
    before: ExecutionState,
    after: ExecutionState,
    s: ExecutionState,
    t: ExecutionTransition,
    target: ExecutionState,
) -> bool {
    &&& next_state(before, t) is Error ==> s == ExecutionState::Error(t) && after == before
    &&& !(next_state(before, t) is Error) ==> after == s && (s == target || s == ExecutionState::Error(t))
}

/// The rounds of a body within an update of a loop, as `trail` records them, that left the
/// loop in `state` and reported `r`: each round after the first updated the body restarted
/// after the round before, each round was handed the time the rounds before left, a
/// report that does not finish the body ends the update (see `loop_next`), and a body that
/// failed to finalize or restart leaves the loop in an error. Where the rounds run out, the
/// loop reports `done` with the time used.
pub open spec fn loop_updated(delta: Nanos, trail: Seq<Round>, state: ExecutionState, r: (Nanos, UpdateResult), done: UpdateResult) -> bool {
    &&& rounds_handed(delta, trail, true)
    &&& rounds_restarted(trail)
    &&& state == ExecutionState::Running ==> r == rounds_report(rounds_outcome(delta, trail, true), done)
    &&& state != ExecutionState::Running ==> rounds_outcome(delta, trail, true) is Finished
        && r == rounds_report(rounds_outcome(delta, trail, true), UpdateResult::Error)
}

/// The rounds of a loop body within one update: run the body, finalizing and restarting it
/// after every round that finishes it, until a report ends the update or `MAX_ROUNDS` rounds
/// have run.
fn loop_rounds(
    state: &mut ExecutionState,
    body: &mut Box<dyn Action>,
    trail: &mut Ghost<Seq<Round>>,
    delta: Nanos,
    ctx: &mut ExecutionContext,
) -> (r: (Nanos, UpdateResult))
    requires
        *old(state) == ExecutionState::Running,
    ensures
        r.0 <= delta,
        *final(state) == ExecutionState::Running || *final(state) == ExecutionState::Error(ExecutionTransition::Update),
        1 <= final(trail)@.len() <= MAX_ROUNDS,
        loop_updated(delta, final(trail)@, *final(state), r, UpdateResult::Busy),
        *final(state) == ExecutionState::Running && rounds_outcome(delta, final(trail)@, true) is Finished
            ==> final(trail)@.len() == MAX_ROUNDS,
{
    let mut remaining: Nanos = delta;
    let mut total_elapsed: Nanos = 0;
    let mut rounds: u64 = 0;
    *trail = Ghost(Seq::empty());
    while rounds < MAX_ROUNDS
        invariant
            total_elapsed + remaining == delta,
            *state == ExecutionState::Running,
            trail@.len() == rounds,
            rounds_outcome(delta, trail@, true) == Next::Finished(remaining, total_elapsed),
            rounds_handed(delta, trail@, true),
            rounds_balance(delta, trail@, true),
            rounds_restarted(trail@),
            trail@.len() > 0 ==> body.spec_state() == ExecutionState::Running,
        decreases MAX_ROUNDS - rounds,
    {
        rounds = rounds + 1;
        let ghost before = body.spec_state();
        let (elapsed, result) = body.update(remaining, ctx);
        let ghost round = Round { before, given: remaining, elapsed, result };
        proof {
            lemma_rounds_push(delta, trail@, round, true);
        }
        *trail = Ghost(trail@.push(round));
        match loop_next(remaining, total_elapsed, elapsed, result) {
            Next::Report(used, report) => {
                return (used, report);
            },
            Next::Finished(left, used) => {
                remaining = left;
                total_elapsed = used;
                if body.finalize(ctx) != ExecutionState::Completed {
                    state.transition_to(ExecutionState::Error(ExecutionTransition::Update));
                    return (total_elapsed, UpdateResult::Error);
                }
                if body.start(ctx) != ExecutionState::Running {
                    state.transition_to(ExecutionState::Error(ExecutionTransition::Update));
                    return (total_elapsed, UpdateResult::Error);
                }
            },
        }
    }
    (total_elapsed, UpdateResult::Busy)
}

/// The rounds of a counted loop within one update: run the body while rounds remain; every
/// round that finishes it counts down, and the body is finalized and restarted only where
/// rounds remain (the last one is finalized with the loop).
fn count_rounds(
    state: &mut ExecutionState,
    iter: &mut usize,
    body: &mut Box<dyn Action>,
    trail: &mut Ghost<Seq<Round>>,
    delta: Nanos,
    ctx: &mut ExecutionContext,
) -> (r: (Nanos, UpdateResult))
    requires
        *old(state) == ExecutionState::Running,
    ensures
        r.0 <= delta,
        *final(state) == ExecutionState::Running || *final(state) == ExecutionState::Error(ExecutionTransition::Update),
        final(trail)@.len() <= *old(iter),
        loop_updated(delta, final(trail)@, *final(state), r, UpdateResult::Complete),
        *old(iter) - *final(iter) == rounds_finished(delta, final(trail)@, true),
        *final(state) == ExecutionState::Running && rounds_outcome(delta, final(trail)@, true) is Finished ==> *final(iter) == 0,
{
    let mut remaining: Nanos = delta;
    let mut total_elapsed: Nanos = 0;
    *trail = Ghost(Seq::empty());
    while *iter > 0
        invariant
            total_elapsed + remaining == delta,
            *state == ExecutionState::Running,
            *iter <= *old(iter),
            trail@.len() == *old(iter) - *iter,
            rounds_outcome(delta, trail@, true) == Next::Finished(remaining, total_elapsed),
            rounds_handed(delta, trail@, true),
            rounds_balance(delta, trail@, true),
            rounds_restarted(trail@),
            trail@.len() > 0 && *iter > 0 ==> body.spec_state() == ExecutionState::Running,
        decreases *iter,
    {
        let ghost before = body.spec_state();
        let (elapsed, result) = body.update(remaining, ctx);
        let ghost round = Round { before, given: remaining, elapsed, result };
        proof {
            lemma_rounds_push(delta, trail@, round, true);
        }
        *trail = Ghost(trail@.push(round));
        match loop_next(remaining, total_elapsed, elapsed, result) {
            Next::Report(used, report) => {
                return (used, report);
            },
            Next::Finished(left, used) => {
                remaining = left;
                total_elapsed = used;
                *iter = *iter - 1;
                if *iter > 0 {
                    if body.finalize(ctx) != ExecutionState::Completed {
                        state.transition_to(ExecutionState::Error(ExecutionTransition::Update));
                        return (total_elapsed, UpdateResult::Error);
                    }
                    if body.start(ctx) != ExecutionState::Running {
                        state.transition_to(ExecutionState::Error(ExecutionTransition::Update));
                        return (total_elapsed, UpdateResult::Error);
                    }
                }
            },
        }
    }
    (total_elapsed, UpdateResult::Complete)
}

/// What the rounds of an iterating loop saw and did: round `k` ran with the iterator at
/// `seen[k].0` below the end value `seen[k].1`, both as the variables evaluated, and every
/// round that finished the body assigned the iterator its value plus one, with result `assigned[k]`.
pub open spec fn iterated(
    iter: &Box<dyn Variable<StateType>>,
    end: &Box<dyn RValue<StateType>>,
    seen: Seq<(StateType, StateType)>,
    assigned: Seq<Result<StateType, EvalError>>,
) -> bool {
    &&& forall|k: int| 0 <= k < seen.len() ==> #[trigger] seen[k].0 < seen[k].1 && iter.eval_result(Ok(seen[k].0)) && end.eval_result(Ok(seen[k].1))
    &&& assigned.len() <= seen.len()
    &&& forall|k: int| 0 <= k < assigned.len() ==> iter.assign_result((seen[k].0 + 1) as i64, #[trigger] assigned[k])
}

/// An iterating loop stopped at `stop`: an iterator value at or beyond the end value, the end
/// value as the end evaluated, and the iterator value as the iterator evaluated or as the last
/// round of `seen` assigned it.
pub open spec fn stopped_at_end(
    iter: &Box<dyn Variable<StateType>>,
    end: &Box<dyn RValue<StateType>>,
    seen: Seq<(StateType, StateType)>,
    stop: Option<(StateType, StateType)>,
) -> bool {
    stop matches Some(st) && st.0 >= st.1 && end.eval_result(Ok(st.1)) && (iter.eval_result(Ok(st.0))
        || (seen.len() > 0 && st.0 == seen.last().0 + 1 && st.1 == seen.last().1))
}

/// The rounds of an iterating loop within one update: while the iterator is below the end
/// value, run the body; every round that finishes it increments the iterator, and the body is
/// finalized and restarted only where the iterator is still below the end. A failed evaluation
/// of the iterator or of the end value is an error.
fn iterate_rounds(
    state: &mut ExecutionState,
    iter: &Box<dyn Variable<StateType>>,
    end: &Box<dyn RValue<StateType>>,
    body: &mut Box<dyn Action>,
    trail: &mut Ghost<Seq<Round>>,
    seen: &mut Ghost<Seq<(StateType, StateType)>>,
    assigned: &mut Ghost<Seq<Result<StateType, EvalError>>>,
    stop: &mut Ghost<Option<(StateType, StateType)>>,
    delta: Nanos,
    ctx: &mut ExecutionContext,
) -> (r: (Nanos, UpdateResult))
    requires
        *old(state) == ExecutionState::Running,
    ensures
        r.0 <= delta,
        *final(state) == ExecutionState::Running || *final(state) == ExecutionState::Error(ExecutionTransition::Update),
        final(trail)@.len() <= MAX_ROUNDS,
        rounds_handed(delta, final(trail)@, true),
        rounds_restarted(final(trail)@),
        final(seen)@.len() == final(trail)@.len(),
        final(assigned)@.len() == rounds_finished(delta, final(trail)@, true),
        iterated(iter, end, final(seen)@, final(assigned)@),
        *final(state) == ExecutionState::Running && rounds_outcome(delta, final(trail)@, true) is Report
            ==> r == rounds_report(rounds_outcome(delta, final(trail)@, true), UpdateResult::Complete),
        *final(state) == ExecutionState::Running && rounds_outcome(delta, final(trail)@, true) is Finished
            ==> (r == rounds_report(rounds_outcome(delta, final(trail)@, true), UpdateResult::Complete)
                || (r == rounds_report(rounds_outcome(delta, final(trail)@, true), UpdateResult::Busy) && final(trail)@.len() == MAX_ROUNDS)),
        *final(state) != ExecutionState::Running ==> rounds_outcome(delta, final(trail)@, true) is Finished
            && r == rounds_report(rounds_outcome(delta, final(trail)@, true), UpdateResult::Error),
        *final(state) == ExecutionState::Running && rounds_outcome(delta, final(trail)@, true) is Finished && r.1 == UpdateResult::Complete
            ==> stopped_at_end(iter, end, final(seen)@, final(stop)@),
{
    let mut remaining: Nanos = delta;
    let mut total_elapsed: Nanos = 0;
    let mut rounds: u64 = 0;
    *trail = Ghost(Seq::empty());
    *seen = Ghost(Seq::empty());
    *assigned = Ghost(Seq::empty());
    *stop = Ghost(None);
    while rounds < MAX_ROUNDS
        invariant
            total_elapsed + remaining == delta,
            *state == ExecutionState::Running,
            trail@.len() == rounds,
            seen@.len() == rounds,
            assigned@.len() == rounds,
            rounds_outcome(delta, trail@, true) == Next::Finished(remaining, total_elapsed),
            rounds_handed(delta, trail@, true),
            rounds_balance(delta, trail@, true),
            rounds_restarted(trail@),
            trail@.len() > 0 ==> body.spec_state() == ExecutionState::Running,
            iterated(iter, end, seen@, assigned@),
        decreases MAX_ROUNDS - rounds,
    {
        let current = match iter.eval() {
            Ok(current) => current,
            Err(_) => {
                state.transition_to(ExecutionState::Error(ExecutionTransition::Update));
                return (total_elapsed, UpdateResult::Error);
            },
        };
        let last = match end.eval() {
            Ok(last) => last,
            Err(_) => {
                state.transition_to(ExecutionState::Error(ExecutionTransition::Update));
                return (total_elapsed, UpdateResult::Error);
            },
        };
        if current >= last {
            *stop = Ghost(Some((current, last)));
            return (total_elapsed, UpdateResult::Complete);
        }
        rounds = rounds + 1;
        let ghost before = body.spec_state();
        let (elapsed, result) = body.update(remaining, ctx);
        let ghost round = Round { before, given: remaining, elapsed, result };
        proof {
            lemma_rounds_push(delta, trail@, round, true);
        }
        *trail = Ghost(trail@.push(round));
        *seen = Ghost(seen@.push((current, last)));
        match loop_next(remaining, total_elapsed, elapsed, result) {
            Next::Report(used, report) => {
                return (used, report);
            },
            Next::Finished(left, used) => {
                remaining = left;
                total_elapsed = used;
                let next = current + 1;
                let res = iter.assign(next);
                *assigned = Ghost(assigned@.push(res));
                if next < last {
                    if body.finalize(ctx) != ExecutionState::Completed {
                        state.transition_to(ExecutionState::Error(ExecutionTransition::Update));
                        return (total_elapsed, UpdateResult::Error);
                    }
                    if body.start(ctx) != ExecutionState::Running {
                        state.transition_to(ExecutionState::Error(ExecutionTransition::Update));
                        return (total_elapsed, UpdateResult::Error);
                    }
                } else {
                    *stop = Ghost(Some((next, last)));
                    return (total_elapsed, UpdateResult::Complete);
                }
            },
        }
    }
    (total_elapsed, UpdateResult::Busy)
}

/// An infinite loop that runs its body until a break or an exception ends it.
///
/// A loop without body completes at once; a loop whose body never breaks never completes.
pub struct Loop {
    state: ExecutionState,
    body: Option<Box<dyn Action>>,
    trail: Ghost<Seq<Round>>,
}

impl Loop {
    /// A new loop without body.
    pub fn new() -> (a: Box<Loop>)
        ensures
            a.spec_state() == ExecutionState::Uninitialized,
            !a.spec_has_body(),
    {
        Box::new(Loop { state: ExecutionState::new(), body: None, trail: Ghost(Seq::empty()) })
    }

    /// This loop with a body; only while uninitialized.
    pub fn with_body(self: Box<Self>, body: Box<dyn Action>) -> (a: Box<Loop>)
        requires
            self.spec_state() == ExecutionState::Uninitialized,
        ensures
            a.spec_state() == ExecutionState::Uninitialized,
            a.spec_has_body(),
    {
        let mut this = self;
        this.body = Some(body);
        this
    }

    /// Whether the loop has a body.
    pub closed spec fn spec_has_body(&self) -> bool {
        self.body is Some
    }

    /// The rounds of the body within the last update, in order.
    pub closed spec fn spec_trail(&self) -> Seq<Round> {
        self.trail@
    }
}

impl Action for Loop {
    closed spec fn spec_state(&self) -> ExecutionState {
        self.state
    }

    fn state(&self) -> (s: ExecutionState) {
        self.state
    }

    fn init(&mut self) -> (s: ExecutionState)
        ensures
            body_lifecycle(old(self).spec_state(), final(self).spec_state(), s, ExecutionTransition::Init, ExecutionState::Ready),
            final(self).spec_has_body() == old(self).spec_has_body(),
    {
        match self.state.peek_state(ExecutionTransition::Init) {
            ExecutionState::Ready => {
                if let Some(body) = &mut self.body {
                    if body.init() != ExecutionState::Ready {
                        return self.state.transition_to(ExecutionState::Error(ExecutionTransition::Init));
                    }
                }
                self.state.transition_to(ExecutionState::Ready)
            },
            _ => ExecutionState::Error(ExecutionTransition::Init),
        }
    }

    fn start(&mut self, ctx: &mut ExecutionContext) -> (s: ExecutionState)
        ensures
            body_lifecycle(old(self).spec_state(), final(self).spec_state(), s, ExecutionTransition::Start, ExecutionState::Running),
            final(self).spec_has_body() == old(self).spec_has_body(),
    {
        match self.state.peek_state(ExecutionTransition::Start) {
            ExecutionState::Running => {
                if let Some(body) = &mut self.body {
                    if body.start(ctx) != ExecutionState::Running {
                        return self.state.transition_to(ExecutionState::Error(ExecutionTransition::Start));
                    }
                }
                self.state.transition_to(ExecutionState::Running)
            },
            _ => ExecutionState::Error(ExecutionTransition::Start),
        }
    }

    /// Run the body round after round, finalizing and restarting it whenever it finishes,
    /// each round with the time the rounds before left (see `loop_next`): a busy body makes
    /// the loop busy, a break completes it, other interruptions and errors pass on.
    fn update(&mut self, delta: Nanos, ctx: &mut ExecutionContext) -> (r: (Nanos, UpdateResult))
        ensures
            final(self).spec_has_body() == old(self).spec_has_body(),
            final(self).spec_state() == old(self).spec_state()
                || final(self).spec_state() == ExecutionState::Error(ExecutionTransition::Update),
            old(self).spec_state() == ExecutionState::Running && !old(self).spec_has_body() ==>
                r == (0u64, UpdateResult::Complete),
            old(self).spec_state() == ExecutionState::Running && old(self).spec_has_body() ==> {
                &&& 1 <= final(self).spec_trail().len() <= MAX_ROUNDS
                &&& loop_updated(delta, final(self).spec_trail(), final(self).spec_state(), r, UpdateResult::Busy)
                &&& final(self).spec_state() == ExecutionState::Running && rounds_outcome(delta, final(self).spec_trail(), true) is Finished
                    ==> final(self).spec_trail().len() == MAX_ROUNDS
            },
    {
        match self.state {
            ExecutionState::Running => {
                match &mut self.body {
                    Some(body) => loop_rounds(&mut self.state, body, &mut self.trail, delta, ctx),
                    None => (0, UpdateResult::Complete),
                }
            },
            _ => (0, UpdateResult::Error),
        }
    }

    fn finalize(&mut self, ctx: &mut ExecutionContext) -> (s: ExecutionState)
        ensures
            body_lifecycle(old(self).spec_state(), final(self).spec_state(), s, ExecutionTransition::Finalize, ExecutionState::Completed),
            final(self).spec_has_body() == old(self).spec_has_body(),
    {
        match self.state.peek_state(ExecutionTransition::Finalize) {
            ExecutionState::Completed => {
                if let Some(body) = &mut self.body {
                    if body.finalize(ctx) != ExecutionState::Completed {
                        return self.state.transition_to(ExecutionState::Error(ExecutionTransition::Finalize));
                    }
                }
                self.state.transition_to(ExecutionState::Completed)
            },
            _ => ExecutionState::Error(ExecutionTransition::Finalize),
        }
    }

    fn terminate(&mut self) -> (s: ExecutionState)
        ensures
            body_lifecycle(old(self).spec_state(), final(self).spec_state(), s, ExecutionTransition::Terminate, ExecutionState::Terminated),
            final(self).spec_has_body() == old(self).spec_has_body(),
    {
        match self.state.peek_state(ExecutionTransition::Terminate) {
            ExecutionState::Terminated => {
                if let Some(body) = &mut self.body {
                    if body.terminate() != ExecutionState::Terminated {
                        return self.state.transition_to(ExecutionState::Error(ExecutionTransition::Terminate));
                    }
                }
                self.state.transition_to(ExecutionState::Terminated)
            },
            _ => ExecutionState::Error(ExecutionTransition::Terminate),
        }
    }
}

/// A loop that runs its body a fixed number of times.
///
/// A break or an exception ends it early; without body it completes at once.
pub struct ForRange {
    state: ExecutionState,
    body: Option<Box<dyn Action>>,
    iter: usize,
    count: usize,
    trail: Ghost<Seq<Round>>,
}

impl ForRange {
    /// A new loop of `count` rounds, without body.
    pub fn new(count: usize) -> (a: Box<ForRange>)
        ensures
            a.spec_state() == ExecutionState::Uninitialized,
            !a.spec_has_body(),
            a.spec_count() == count,
            a.spec_iter() == 0,
    {
        Box::new(ForRange { state: ExecutionState::new(), body: None, iter: 0, count, trail: Ghost(Seq::empty()) })
    }

    /// This loop with a body; only while uninitialized.
    pub fn with_body(self: Box<Self>, body: Box<dyn Action>) -> (a: Box<ForRange>)
        requires
            self.spec_state() == ExecutionState::Uninitialized,
        ensures
            a.spec_state() == ExecutionState::Uninitialized,
            a.spec_has_body(),
            a.spec_count() == self.spec_count(),
            a.spec_iter() == self.spec_iter(),
    {
        let mut this = self;
        this.body = Some(body);
        this
    }

    /// Whether the loop has a body.
    pub closed spec fn spec_has_body(&self) -> bool {
        self.body is Some
    }

    /// The number of rounds.
    pub closed spec fn spec_count(&self) -> usize {
        self.count
    }

    /// The number of rounds still to run.
    pub closed spec fn spec_iter(&self) -> usize {
        self.iter
    }

    /// The rounds of the body within the last update, in order.
    pub closed spec fn spec_trail(&self) -> Seq<Round> {
        self.trail@
    }
}

impl Action for ForRange {
    closed spec fn spec_state(&self) -> ExecutionState {
        self.state
    }

    fn state(&self) -> (s: ExecutionState) {
        self.state
    }

    fn init(&mut self) -> (s: ExecutionState)
        ensures
            body_lifecycle(old(self).spec_state(), final(self).spec_state(), s, ExecutionTransition::Init, ExecutionState::Ready),
            final(self).spec_has_body() == old(self).spec_has_body(),
            final(self).spec_count() == old(self).spec_count(),
            final(self).spec_iter() == old(self).spec_iter(),
    {
        match self.state.peek_state(ExecutionTransition::Init) {
            ExecutionState::Ready => {
                if let Some(body) = &mut self.body {
                    if body.init() != ExecutionState::Ready {
                        return self.state.transition_to(ExecutionState::Error(ExecutionTransition::Init));
                    }
                }
                self.state.transition_to(ExecutionState::Ready)
            },
            _ => ExecutionState::Error(ExecutionTransition::Init),
        }
    }

    /// Start: all `count` rounds are still to run.
    fn start(&mut self, ctx: &mut ExecutionContext) -> (s: ExecutionState)
        ensures
            body_lifecycle(old(self).spec_state(), final(self).spec_state(), s, ExecutionTransition::Start, ExecutionState::Running),
            final(self).spec_has_body() == old(self).spec_has_body(),
            final(self).spec_count() == old(self).spec_count(),
            !(next_state(old(self).spec_state(), ExecutionTransition::Start) is Error) ==> final(self).spec_iter() == old(self).spec_count(),
    {
        match self.state.peek_state(ExecutionTransition::Start) {
            ExecutionState::Running => {
                self.iter = self.count;
                if let Some(body) = &mut self.body {
                    if body.start(ctx) != ExecutionState::Running {
                        return self.state.transition_to(ExecutionState::Error(ExecutionTransition::Start));
                    }
                }
                self.state.transition_to(ExecutionState::Running)
            },
            _ => ExecutionState::Error(ExecutionTransition::Start),
        }
    }

    /// Run rounds of the body while rounds remain, each with the time the rounds before left
    /// (see `loop_next`): every round that finishes the body counts down, and the body is
    /// restarted only where rounds remain; a busy body makes the loop busy, a break completes
    /// it, other interruptions and errors pass on.
    fn update(&mut self, delta: Nanos, ctx: &mut ExecutionContext) -> (r: (Nanos, UpdateResult))
        ensures
            final(self).spec_has_body() == old(self).spec_has_body(),
            final(self).spec_count() == old(self).spec_count(),
            final(self).spec_state() == old(self).spec_state()
                || final(self).spec_state() == ExecutionState::Error(ExecutionTransition::Update),
            old(self).spec_state() == ExecutionState::Running && !old(self).spec_has_body() ==>
                r == (0u64, UpdateResult::Complete) && final(self).spec_iter() == old(self).spec_iter(),
            old(self).spec_state() == ExecutionState::Running && old(self).spec_has_body() ==> {
                &&& final(self).spec_trail().len() <= old(self).spec_iter()
                &&& loop_updated(delta, final(self).spec_trail(), final(self).spec_state(), r, UpdateResult::Complete)
                &&& old(self).spec_iter() - final(self).spec_iter() == rounds_finished(delta, final(self).spec_trail(), true)
                &&& final(self).spec_state() == ExecutionState::Running && rounds_outcome(delta, final(self).spec_trail(), true) is Finished
                    ==> final(self).spec_iter() == 0
            },
            old(self).spec_state() != ExecutionState::Running ==> final(self).spec_iter() == old(self).spec_iter(),
    {
        match self.state {
            ExecutionState::Running => {
                match &mut self.body {
                    Some(body) => count_rounds(&mut self.state, &mut self.iter, body, &mut self.trail, delta, ctx),
                    None => (0, UpdateResult::Complete),
                }
            },
            _ => (0, UpdateResult::Error),
        }
    }

    fn finalize(&mut self, ctx: &mut ExecutionContext) -> (s: ExecutionState)
        ensures
            body_lifecycle(old(self).spec_state(), final(self).spec_state(), s, ExecutionTransition::Finalize, ExecutionState::Completed),
            final(self).spec_has_body() == old(self).spec_has_body(),
            final(self).spec_count() == old(self).spec_count(),
            final(self).spec_iter() == old(self).spec_iter(),
    {
        match self.state.peek_state(ExecutionTransition::Finalize) {
            ExecutionState::Completed => {
                if let Some(body) = &mut self.body {
                    if body.finalize(ctx) != ExecutionState::Completed {
                        return self.state.transition_to(ExecutionState::Error(ExecutionTransition::Finalize));
                    }
                }
                self.state.transition_to(ExecutionState::Completed)
            },
            _ => ExecutionState::Error(ExecutionTransition::Finalize),
        }
    }

    fn terminate(&mut self) -> (s: ExecutionState)
        ensures
            body_lifecycle(old(self).spec_state(), final(self).spec_state(), s, ExecutionTransition::Terminate, ExecutionState::Terminated),
            final(self).spec_has_body() == old(self).spec_has_body(),
            final(self).spec_count() == old(self).spec_count(),
            final(self).spec_iter() == old(self).spec_iter(),
    {
        match self.state.peek_state(ExecutionTransition::Terminate) {
            ExecutionState::Terminated => {
                if let Some(body) = &mut self.body {
                    if body.terminate() != ExecutionState::Terminated {
                        return self.state.transition_to(ExecutionState::Error(ExecutionTransition::Terminate));
                    }
                }
                self.state.transition_to(ExecutionState::Terminated)
            },
            _ => ExecutionState::Error(ExecutionTransition::Terminate),
        }
    }
}

/// A loop over an iterator variable from a begin value up to (not including) an end value.
///
/// A break or an exception ends it early; without body it completes at once.
pub struct For {
    state: ExecutionState,
    body: Option<Box<dyn Action>>,
    iter: Box<dyn Variable<StateType>>,
    begin: Box<dyn RValue<StateType>>,
    end: Box<dyn RValue<StateType>>,
    trail: Ghost<Seq<Round>>,
    seen: Ghost<Seq<(StateType, StateType)>>,
    assigned: Ghost<Seq<Result<StateType, EvalError>>>,
    stop: Ghost<Option<(StateType, StateType)>>,
    reset: Ghost<Option<(Result<StateType, EvalError>, Option<Result<StateType, EvalError>>)>>,
}

impl For {
    /// A new loop of `iter` from `begin` to `end`, without body.
    pub fn new<I: Variable<StateType> + 'static, B: RValue<StateType> + 'static, E: RValue<StateType> + 'static>(
        iter: Arc<I>,
        begin: Arc<B>,
        end: Arc<E>,
    ) -> (a: Box<For>)
        ensures
            a.spec_state() == ExecutionState::Uninitialized,
            !a.spec_has_body(),
    {
        Box::new(For {
            state: ExecutionState::new(),
            body: None,
            iter: Box::new(iter),
            begin: Box::new(begin),
            end: Box::new(end),
            trail: Ghost(Seq::empty()),
            seen: Ghost(Seq::empty()),
            assigned: Ghost(Seq::empty()),
            stop: Ghost(None),
            reset: Ghost(None),
        })
    }

    /// A loop of `count` rounds without iterator variable.
    pub fn range(count: usize) -> (a: Box<ForRange>)
        ensures
            a.spec_state() == ExecutionState::Uninitialized,
            !a.spec_has_body(),
            a.spec_count() == count,
    {
        ForRange::new(count)
    }

    /// This loop with a body; only while uninitialized.
    pub fn with_body(self: Box<Self>, body: Box<dyn Action>) -> (a: Box<For>)
        requires
            self.spec_state() == ExecutionState::Uninitialized,
        ensures
            a.spec_state() == ExecutionState::Uninitialized,
            a.spec_has_body(),
    {
        let mut this = self;
        this.body = Some(body);
        this
    }

    /// Whether the loop has a body.
    pub closed spec fn spec_has_body(&self) -> bool {
        self.body is Some
    }

    /// The rounds of the body within the last update, in order.
    pub closed spec fn spec_trail(&self) -> Seq<Round> {
        self.trail@
    }

    /// The rounds of the last update ran with the iterator values and end values `seen`, and
    /// the rounds that finished the body assigned the iterator its value plus one with the
    /// results `assigned`; see `iterated`.
    pub closed spec fn spec_iterated(&self, seen: Seq<(StateType, StateType)>, assigned: Seq<Result<StateType, EvalError>>) -> bool {
        &&& seen == self.seen@
        &&& assigned == self.assigned@
        &&& iterated(&self.iter, &self.end, seen, assigned)
    }

    /// The last update stopped the rounds at an iterator value at or beyond the end value; see
    /// `stopped_at_end`.
    pub closed spec fn spec_stopped_at_end(&self) -> bool {
        stopped_at_end(&self.iter, &self.end, self.seen@, self.stop@)
    }

    /// The last start evaluated the begin value (first) and, where it gave one, assigned it to
    /// the iterator (second): both results are ones the variables may give.
    pub closed spec fn spec_reset(&self) -> Option<(Result<StateType, EvalError>, Option<Result<StateType, EvalError>>)> {
        self.reset@
    }

    /// Whether `b` is a result that evaluating the begin value may give, and, where it is a
    /// value, `a` one that assigning it to the iterator may give (and no assignment otherwise).
    pub closed spec fn spec_reset_by(&self, b: Result<StateType, EvalError>, a: Option<Result<StateType, EvalError>>) -> bool {
        &&& self.begin.eval_result(b)
        &&& match b {
            Ok(v) => a matches Some(x) && self.iter.assign_result(v, x),
            Err(_) => a is None,
        }
    }
}

impl Action for For {
    closed spec fn spec_state(&self) -> ExecutionState {
        self.state
    }

    fn state(&self) -> (s: ExecutionState) {
        self.state
    }

    fn init(&mut self) -> (s: ExecutionState)
        ensures
            body_lifecycle(old(self).spec_state(), final(self).spec_state(), s, ExecutionTransition::Init, ExecutionState::Ready),
            final(self).spec_has_body() == old(self).spec_has_body(),
    {
        match self.state.peek_state(ExecutionTransition::Init) {
            ExecutionState::Ready => {
                if let Some(body) = &mut self.body {
                    if body.init() != ExecutionState::Ready {
                        return self.state.transition_to(ExecutionState::Error(ExecutionTransition::Init));
                    }
                }
                self.state.transition_to(ExecutionState::Ready)
            },
            _ => ExecutionState::Error(ExecutionTransition::Init),
        }
    }

    /// Start: with a body, the iterator is set to the begin value (where it evaluates) and
    /// the body is started.
    fn start(&mut self, ctx: &mut ExecutionContext) -> (s: ExecutionState)
        ensures
            body_lifecycle(old(self).spec_state(), final(self).spec_state(), s, ExecutionTransition::Start, ExecutionState::Running),
            final(self).spec_has_body() == old(self).spec_has_body(),
            // an admitted start of a loop with body resets the iterator to the begin value
            !(next_state(old(self).spec_state(), ExecutionTransition::Start) is Error) && old(self).spec_has_body()
                ==> (final(self).spec_reset() matches Some(ba) && final(self).spec_reset_by(ba.0, ba.1)),
    {
        match self.state.peek_state(ExecutionTransition::Start) {
            ExecutionState::Running => {
                if let Some(body) = &mut self.body {
                    let begin = self.begin.eval();
                    if let Ok(value) = begin {
                        let assigned = self.iter.assign(value);
                        self.reset = Ghost(Some((begin, Some(assigned))));
                    } else {
                        self.reset = Ghost(Some((begin, None)));
                    }
                    if body.start(ctx) != ExecutionState::Running {
                        return self.state.transition_to(ExecutionState::Error(ExecutionTransition::Start));
                    }
                }
                self.state.transition_to(ExecutionState::Running)
            },
            _ => ExecutionState::Error(ExecutionTransition::Start),
        }
    }

    /// Run rounds of the body while the iterator is below the end value, each with the time
    /// the rounds before left (see `loop_next`): every round that finishes the body increments
    /// the iterator, and the body is restarted only where the iterator is still below the end;
    /// a busy body makes the loop busy, a break completes it, other interruptions and errors
    /// pass on. A failed evaluation of the iterator or of the end value moves the loop into
    /// `Error(Update)`.
    fn update(&mut self, delta: Nanos, ctx: &mut ExecutionContext) -> (r: (Nanos, UpdateResult))
        ensures
            final(self).spec_has_body() == old(self).spec_has_body(),
            final(self).spec_state() == old(self).spec_state()
                || final(self).spec_state() == ExecutionState::Error(ExecutionTransition::Update),
            old(self).spec_state() == ExecutionState::Running && !old(self).spec_has_body() ==>
                r == (0u64, UpdateResult::Complete),
            old(self).spec_state() == ExecutionState::Running && old(self).spec_has_body() ==> ({
                let trail = final(self).spec_trail();
                let outcome = rounds_outcome(delta, trail, true);
                &&& trail.len() <= MAX_ROUNDS
                &&& rounds_handed(delta, trail, true)
                &&& rounds_restarted(trail)
                &&& exists|seen: Seq<(StateType, StateType)>, assigned: Seq<Result<StateType, EvalError>>|
                    #[trigger] final(self).spec_iterated(seen, assigned)
                    && seen.len() == trail.len() && assigned.len() == rounds_finished(delta, trail, true)
                &&& final(self).spec_state() == ExecutionState::Running && outcome is Report
                    ==> r == rounds_report(outcome, UpdateResult::Complete)
                &&& final(self).spec_state() == ExecutionState::Running && outcome is Finished
                    ==> (r == rounds_report(outcome, UpdateResult::Complete)
                        || (r == rounds_report(outcome, UpdateResult::Busy) && trail.len() == MAX_ROUNDS))
                &&& final(self).spec_state() != ExecutionState::Running
                    ==> outcome is Finished && r == rounds_report(outcome, UpdateResult::Error)
                // a loop that ran out of rounds completed only where the iterator reached the end
                &&& final(self).spec_state() == ExecutionState::Running && outcome is Finished && r.1 == UpdateResult::Complete
                    ==> final(self).spec_stopped_at_end()
            }),
    {
        match self.state {
            ExecutionState::Running => {
                match &mut self.body {
                    Some(body) => {
                        let iter = &self.iter;
                        let end = &self.end;
                        let r = iterate_rounds(
                            &mut self.state, iter, end, body, &mut self.trail, &mut self.seen, &mut self.assigned, &mut self.stop,
                            delta, ctx,
                        );
                        assert(self.spec_iterated(self.seen@, self.assigned@));
                        r
                    },
                    None => (0, UpdateResult::Complete),
                }
            },
            _ => (0, UpdateResult::Error),
        }
    }

    fn finalize(&mut self, ctx: &mut ExecutionContext) -> (s: ExecutionState)
        ensures
            body_lifecycle(old(self).spec_state(), final(self).spec_state(), s, ExecutionTransition::Finalize, ExecutionState::Completed),
            final(self).spec_has_body() == old(self).spec_has_body(),
    {
        match self.state.peek_state(ExecutionTransition::Finalize) {
            ExecutionState::Completed => {
                if let Some(body) = &mut self.body {
                    if body.finalize(ctx) != ExecutionState::Completed {
                        return self.state.transition_to(ExecutionState::Error(ExecutionTransition::Finalize));
                    }
                }
                self.state.transition_to(ExecutionState::Completed)
            },
            _ => ExecutionState::Error(ExecutionTransition::Finalize),
        }
    }

    fn terminate(&mut self) -> (s: ExecutionState)
        ensures
            body_lifecycle(old(self).spec_state(), final(self).spec_state(), s, ExecutionTransition::Terminate, ExecutionState::Terminated),
            final(self).spec_has_body() == old(self).spec_has_body(),
    {
        match self.state.peek_state(ExecutionTransition::Terminate) {
            ExecutionState::Terminated => {
                if let Some(body) = &mut self.body {
                    if body.terminate() != ExecutionState::Terminated {
                        return self.state.transition_to(ExecutionState::Error(ExecutionTransition::Terminate));
                    }
                }
                self.state.transition_to(ExecutionState::Terminated)
            },
            _ => ExecutionState::Error(ExecutionTransition::Terminate),
        }
    }
}

} // verus!
