//! Sequential and concurrent composition of actions.
use vstd::prelude::*;
use crate::base::{Error, ExecutionState, ExecutionTransition, Nanos, RtoResult, next_state};
use crate::errors::INVALID_STATE;
use crate::exception::UpdateResult;
use crate::actions::{Action, ExecutionContext};
use crate::actions::loops::body_lifecycle;
use crate::actions::rounds::{
    BranchNext, BranchRound, Next, Round, branch_next, branches_outcome, branches_went_on, lemma_branches_push,
    lemma_rounds_push, rounds_balance, rounds_finished, rounds_handed, rounds_outcome, rounds_report, rounds_restarted, sequence_next,
    spec_branches_report,
};

verus! {

/// No action of `actions` is running.
pub open spec fn none_running(actions: Seq<Box<dyn Action>>) -> bool {
    forall|j: int| 0 <= j < actions.len() ==> #[trigger] actions[j].spec_state() != ExecutionState::Running
}

/// Every action of `actions` is in state `s`.
pub open spec fn all_in_state(actions: Seq<Box<dyn Action>>, s: ExecutionState) -> bool {
    forall|j: int| 0 <= j < actions.len() ==> #[trigger] actions[j].spec_state() == s
}

/// The step `t` failed on an action that went from `before` to `after`: it is left in an
/// error state, or the state machine refused the step and it kept its state.
pub open spec fn failed_step(before: ExecutionState, after: ExecutionState, t: ExecutionTransition) -> bool {
    after is Error || (after == before && next_state(before, t) is Error)
}

/// Append `item` to `items`.
fn push_item<T>(items: &mut Vec<T>, item: T)
    ensures
        final(items)@ == old(items)@.push(item),
{
    items.push(item);
}

/// Initialize every action; stops at the first that does not become Ready.
fn init_all(actions: &mut Vec<Box<dyn Action>>) -> (ok: bool)
    ensures
        final(actions)@.len() == old(actions)@.len(),
        ok ==> all_in_state(final(actions)@, ExecutionState::Ready),
        !ok ==> exists|j: int| 0 <= j < final(actions)@.len()
            && failed_step(old(actions)@[j].spec_state(), #[trigger] final(actions)@[j].spec_state(), ExecutionTransition::Init),
{
    let n = actions.len();
    let mut i: usize = 0;
    while i < n
        invariant
            n == actions@.len(),
            n == old(actions)@.len(),
            forall|j: int| 0 <= j < i ==> #[trigger] actions@[j].spec_state() == ExecutionState::Ready,
            forall|j: int| i <= j < n ==> #[trigger] actions@[j] == old(actions)@[j],
        decreases n - i,
    {
        if actions[i].init() != ExecutionState::Ready {
            assert(failed_step(old(actions)@[i as int].spec_state(), actions@[i as int].spec_state(), ExecutionTransition::Init));
            return false;
        }
        i = i + 1;
    }
    true
}

/// Start every action; stops at the first that does not become Running.
fn start_all(actions: &mut Vec<Box<dyn Action>>, ctx: &mut ExecutionContext) -> (ok: bool)
    ensures
        final(actions)@.len() == old(actions)@.len(),
        ok ==> all_in_state(final(actions)@, ExecutionState::Running),
{
    let n = actions.len();
    let mut i: usize = 0;
    while i < n
        invariant
            n == actions@.len(),
            n == old(actions)@.len(),
            forall|j: int| 0 <= j < i ==> #[trigger] actions@[j].spec_state() == ExecutionState::Running,
        decreases n - i,
    {
        if actions[i].start(ctx) != ExecutionState::Running {
            return false;
        }
        i = i + 1;
    }
    true
}

/// Finalize every running action; stops at the first that does not become Completed.
fn finalize_running(actions: &mut Vec<Box<dyn Action>>, ctx: &mut ExecutionContext) -> (ok: bool)
    ensures
        final(actions)@.len() == old(actions)@.len(),
        ok ==> none_running(final(actions)@),
        !ok ==> exists|j: int| 0 <= j < final(actions)@.len() && old(actions)@[j].spec_state() == ExecutionState::Running
            && (#[trigger] final(actions)@[j].spec_state()) is Error,
{
    let n = actions.len();
    let mut i: usize = 0;
    while i < n
        invariant
            n == actions@.len(),
            n == old(actions)@.len(),
            forall|j: int| 0 <= j < i ==> #[trigger] actions@[j].spec_state() != ExecutionState::Running,
            forall|j: int| i <= j < n ==> #[trigger] actions@[j] == old(actions)@[j],
        decreases n - i,
    {
        if actions[i].state() == ExecutionState::Running {
            if actions[i].finalize(ctx) != ExecutionState::Completed {
                assert((actions@[i as int].spec_state()) is Error);
                return false;
            }
        }
        i = i + 1;
    }
    true
}

/// Terminate every action; stops at the first that does not become Terminated.
fn terminate_all(actions: &mut Vec<Box<dyn Action>>) -> (ok: bool)
    ensures
        final(actions)@.len() == old(actions)@.len(),
        ok ==> all_in_state(final(actions)@, ExecutionState::Terminated),
        !ok ==> exists|j: int| 0 <= j < final(actions)@.len()
            && failed_step(old(actions)@[j].spec_state(), #[trigger] final(actions)@[j].spec_state(), ExecutionTransition::Terminate),
{
    let n = actions.len();
    let mut i: usize = 0;
    while i < n
        invariant
            n == actions@.len(),
            n == old(actions)@.len(),
            forall|j: int| 0 <= j < i ==> #[trigger] actions@[j].spec_state() == ExecutionState::Terminated,
            forall|j: int| i <= j < n ==> #[trigger] actions@[j] == old(actions)@[j],
        decreases n - i,
    {
        if actions[i].terminate() != ExecutionState::Terminated {
            assert(failed_step(old(actions)@[i as int].spec_state(), actions@[i as int].spec_state(), ExecutionTransition::Terminate));
            return false;
        }
        i = i + 1;
    }
    true
}

/// An action that runs its steps one after the other.
pub struct Sequence {
    state: ExecutionState,
    actions: Vec<Box<dyn Action>>,
    current: usize,
    trail: Ghost<Seq<Round>>,
}

impl Sequence {
    /// A new empty sequence.
    pub fn new() -> (a: Box<Sequence>)
        ensures
            a.spec_state() == ExecutionState::Uninitialized,
            a.spec_len() == 0,
            a.spec_current() == 0,
    {
        Box::new(Sequence { state: ExecutionState::new(), actions: Vec::new(), current: 0, trail: Ghost(Seq::empty()) })
    }

    /// A new sequence of the given steps.
    pub fn from_actions(actions: Vec<Box<dyn Action>>) -> (a: Sequence)
        ensures
            a.spec_state() == ExecutionState::Uninitialized,
            a.spec_len() == actions@.len(),
            a.spec_current() == 0,
    {
        Sequence { state: ExecutionState::new(), actions, current: 0, trail: Ghost(Seq::empty()) }
    }

    /// The steps of the sequence.
    pub fn into_actions(self) -> (v: Vec<Box<dyn Action>>)
        ensures
            v@.len() == self.spec_len(),
    {
        self.actions
    }

    /// This sequence with one more step; only while uninitialized.
    pub fn with_step(self: Box<Self>, action: Box<dyn Action>) -> (a: Box<Sequence>)
        requires
            self.spec_state() == ExecutionState::Uninitialized,
        ensures
            a.spec_state() == ExecutionState::Uninitialized,
            a.spec_steps() == self.spec_steps().push(action),
            a.spec_current() == self.spec_current(),
    {
        let mut this = self;
        push_item(&mut this.actions, action);
        this
    }

    /// Add a step; refused with `INVALID_STATE` once the sequence is initialized.
    pub fn add_step(&mut self, action: Box<dyn Action>) -> (r: RtoResult<()>)
        ensures
            old(self).spec_state() == ExecutionState::Uninitialized <==> r is Ok,
            r is Ok ==> final(self).spec_steps() == old(self).spec_steps().push(action),
            r matches Err(e) ==> e.code == INVALID_STATE && final(self).spec_steps() == old(self).spec_steps(),
            final(self).spec_state() == old(self).spec_state(),
            final(self).spec_current() == old(self).spec_current(),
    {
        if self.state != ExecutionState::Uninitialized {
            return Err(Error::new(INVALID_STATE, "Cannot add action to initialized `Sequence` action".to_string()));
        }
        push_item(&mut self.actions, action);
        Ok(())
    }

    /// The number of steps.
    pub closed spec fn spec_len(&self) -> nat {
        self.actions@.len()
    }

    /// The steps, in the order they run.
    pub closed spec fn spec_steps(&self) -> Seq<Box<dyn Action>> {
        self.actions@
    }

    /// The index of the current step.
    pub closed spec fn spec_current(&self) -> usize {
        self.current
    }

    /// The state of step `i`.
    pub closed spec fn spec_step_state(&self, i: int) -> ExecutionState {
        self.actions@[i].spec_state()
    }

    /// The rounds of the steps within the last update, in order.
    pub closed spec fn spec_trail(&self) -> Seq<Round> {
        self.trail@
    }
}

impl Action for Sequence {
    closed spec fn spec_state(&self) -> ExecutionState {
        self.state
    }

    fn state(&self) -> (s: ExecutionState) {
        self.state
    }

    /// Initialize all steps in order. A step that fails moves the sequence into `Error(Init)`.
    fn init(&mut self) -> (s: ExecutionState)
        ensures
            body_lifecycle(old(self).spec_state(), final(self).spec_state(), s, ExecutionTransition::Init, ExecutionState::Ready),
            s == ExecutionState::Ready ==> forall|j: int| 0 <= j < final(self).spec_len() ==> #[trigger] final(self).spec_step_state(j) == ExecutionState::Ready,
            s == ExecutionState::Error(ExecutionTransition::Init) && !(next_state(old(self).spec_state(), ExecutionTransition::Init) is Error) ==>
                exists|j: int| 0 <= j < final(self).spec_len() && failed_step(old(self).spec_step_state(j), #[trigger] final(self).spec_step_state(j), ExecutionTransition::Init),
            final(self).spec_len() == old(self).spec_len(),
            final(self).spec_current() == old(self).spec_current(),
    {
        match self.state.peek_state(ExecutionTransition::Init) {
            ExecutionState::Ready => {
                if !init_all(&mut self.actions) {
                    let r = self.state.transition_to(ExecutionState::Error(ExecutionTransition::Init));
                    proof {
                        let j = choose|j: int| 0 <= j < self.actions@.len()
                            && failed_step(old(self).actions@[j].spec_state(), #[trigger] self.actions@[j].spec_state(), ExecutionTransition::Init);
                        assert(failed_step(old(self).spec_step_state(j), self.spec_step_state(j), ExecutionTransition::Init));
                    }
                    return r;
                }
                self.state.transition_to(ExecutionState::Ready)
            },
            _ => ExecutionState::Error(ExecutionTransition::Init),
        }
    }

    /// Start at the first step.
    fn start(&mut self, ctx: &mut ExecutionContext) -> (s: ExecutionState)
        ensures
            body_lifecycle(old(self).spec_state(), final(self).spec_state(), s, ExecutionTransition::Start, ExecutionState::Running),
            !(next_state(old(self).spec_state(), ExecutionTransition::Start) is Error) ==> final(self).spec_current() == 0,
            s == ExecutionState::Running && final(self).spec_len() > 0 ==> final(self).spec_step_state(0) == ExecutionState::Running,
            final(self).spec_len() == old(self).spec_len(),
    {
        match self.state.peek_state(ExecutionTransition::Start) {
            ExecutionState::Running => {
                self.current = 0;
                if self.current < self.actions.len() && self.actions[self.current].start(ctx) != ExecutionState::Running {
                    return self.state.transition_to(ExecutionState::Error(ExecutionTransition::Start));
                }
                self.state.transition_to(ExecutionState::Running)
            },
            _ => ExecutionState::Error(ExecutionTransition::Start),
        }
    }

    /// Update the current step with the time that remains; a finished step is finalized and
    /// the next one started, within the same update (see `sequence_next`), so that every step
    /// after the first of an update runs when it is updated. Each step is given
    /// the time the steps before left; the first report that does not finish a step ends the
    /// update, and a sequence that runs out of steps completes.
    fn update(&mut self, delta: Nanos, ctx: &mut ExecutionContext) -> (r: (Nanos, UpdateResult))
        ensures
            final(self).spec_len() == old(self).spec_len(),
            final(self).spec_state() == old(self).spec_state()
                || final(self).spec_state() == ExecutionState::Error(ExecutionTransition::Update),
            old(self).spec_state() == ExecutionState::Running ==> ({
                let trail = final(self).spec_trail();
                let outcome = rounds_outcome(delta, trail, false);
                &&& rounds_handed(delta, trail, false)
                &&& rounds_restarted(trail)
                &&& final(self).spec_current() >= old(self).spec_current()
                &&& trail.len() <= final(self).spec_current() - old(self).spec_current() + 1
                &&& forall|j: int| old(self).spec_current() <= j < old(self).spec_current() + rounds_finished(delta, trail, false) - 1
                    ==> #[trigger] final(self).spec_step_state(j) == ExecutionState::Completed
                &&& final(self).spec_state() == ExecutionState::Running ==> {
                    &&& forall|j: int| old(self).spec_current() <= j < final(self).spec_current()
                        ==> #[trigger] final(self).spec_step_state(j) == ExecutionState::Completed
                    &&& r == rounds_report(outcome, UpdateResult::Complete)
                    &&& final(self).spec_current() == old(self).spec_current() + rounds_finished(delta, trail, false)
                    &&& outcome is Finished ==> final(self).spec_current() >= final(self).spec_len()
                    &&& outcome is Report ==> final(self).spec_current() < final(self).spec_len()
                }
                &&& final(self).spec_state() != ExecutionState::Running ==> {
                    &&& outcome is Finished
                    &&& r == rounds_report(outcome, UpdateResult::Error)
                }
            }),
    {
        match self.state {
            ExecutionState::Running => {
                let mut remaining: Nanos = delta;
                let mut total_elapsed: Nanos = 0;
                let n = self.actions.len();
                self.trail = Ghost(Seq::empty());
                while self.current < n
                    invariant
                        n == self.actions@.len(),
                        n == old(self).actions@.len(),
                        total_elapsed + remaining == delta,
                        self.state == ExecutionState::Running,
                        old(self).state == ExecutionState::Running,
                        self.current >= old(self).current,
                        self.trail@.len() == self.current - old(self).current,
                        rounds_outcome(delta, self.trail@, false) == Next::Finished(remaining, total_elapsed),
                        rounds_handed(delta, self.trail@, false),
                        rounds_balance(delta, self.trail@, false),
                        rounds_restarted(self.trail@),
                        self.trail@.len() > 0 && self.current < n ==> self.actions@[self.current as int].spec_state() == ExecutionState::Running,
                        forall|j: int| old(self).current <= j < self.current ==> #[trigger] self.actions@[j].spec_state() == ExecutionState::Completed,
                    decreases n - self.current,
                {
                    let i = self.current;
                    let ghost before = self.actions@[i as int].spec_state();
                    let (elapsed, result) = self.actions[i].update(remaining, ctx);
                    let ghost round = Round { before, given: remaining, elapsed, result };
                    proof {
                        lemma_rounds_push(delta, self.trail@, round, false);
                    }
                    self.trail = Ghost(self.trail@.push(round));
                    match sequence_next(remaining, total_elapsed, elapsed, result) {
                        Next::Report(used, report) => {
                            return (used, report);
                        },
                        Next::Finished(left, used) => {
                            remaining = left;
                            total_elapsed = used;
                            if self.actions[i].finalize(ctx) != ExecutionState::Completed {
                                self.state.transition_to(ExecutionState::Error(ExecutionTransition::Update));
                                return (total_elapsed, UpdateResult::Error);
                            }
                            self.current = i + 1;
                            if self.current < n && self.actions[self.current].start(ctx) != ExecutionState::Running {
                                self.state.transition_to(ExecutionState::Error(ExecutionTransition::Update));
                                return (total_elapsed, UpdateResult::Error);
                            }
                        },
                    }
                }
                (total_elapsed, UpdateResult::Complete)
            },
            _ => (0, UpdateResult::Error),
        }
    }

    /// Finalize the current step, if any.
    fn finalize(&mut self, ctx: &mut ExecutionContext) -> (s: ExecutionState)
        ensures
            body_lifecycle(old(self).spec_state(), final(self).spec_state(), s, ExecutionTransition::Finalize, ExecutionState::Completed),
            s == ExecutionState::Completed && old(self).spec_current() < old(self).spec_len() ==>
                final(self).spec_step_state(old(self).spec_current() as int) == ExecutionState::Completed,
            final(self).spec_len() == old(self).spec_len(),
            final(self).spec_current() == old(self).spec_current(),
    {
        match self.state.peek_state(ExecutionTransition::Finalize) {
            ExecutionState::Completed => {
                let i = self.current;
                if i < self.actions.len() {
                    if self.actions[i].finalize(ctx) != ExecutionState::Completed {
                        return self.state.transition_to(ExecutionState::Error(ExecutionTransition::Finalize));
                    }
                }
                self.state.transition_to(ExecutionState::Completed)
            },
            _ => ExecutionState::Error(ExecutionTransition::Finalize),
        }
    }

    /// Terminate all steps.
    fn terminate(&mut self) -> (s: ExecutionState)
        ensures
            body_lifecycle(old(self).spec_state(), final(self).spec_state(), s, ExecutionTransition::Terminate, ExecutionState::Terminated),
            s == ExecutionState::Terminated ==> forall|j: int| 0 <= j < final(self).spec_len() ==> #[trigger] final(self).spec_step_state(j) == ExecutionState::Terminated,
            final(self).spec_len() == old(self).spec_len(),
            final(self).spec_current() == old(self).spec_current(),
    {
        match self.state.peek_state(ExecutionTransition::Terminate) {
            ExecutionState::Terminated => {
                if !terminate_all(&mut self.actions) {
                    return self.state.transition_to(ExecutionState::Error(ExecutionTransition::Terminate));
                }
                self.state.transition_to(ExecutionState::Terminated)
            },
            _ => ExecutionState::Error(ExecutionTransition::Terminate),
        }
    }
}


/// The branches of `actions` that `trail` reports on, in order: each was running before the
/// update, and each comes after the one before it.
pub open spec fn branches_in_order(actions: Seq<Box<dyn Action>>, trail: Seq<BranchRound>) -> bool {
    &&& forall|k: int| 0 <= k < trail.len() ==> #[trigger] trail[k].branch < actions.len()
        && actions[trail[k].branch as int].spec_state() == ExecutionState::Running
    &&& forall|k: int, l: int| 0 <= k < l < trail.len() ==> #[trigger] trail[k].branch < #[trigger] trail[l].branch
}

/// Every branch that `trail` reports on was given all of `delta`.
pub open spec fn branches_given(trail: Seq<BranchRound>, delta: Nanos) -> bool {
    forall|k: int| 0 <= k < trail.len() ==> (#[trigger] trail[k]).given == delta
}

/// Every branch of `actions` below `end` that was running is reported on in `trail`.
pub open spec fn branches_covered(actions: Seq<Box<dyn Action>>, trail: Seq<BranchRound>, end: int) -> bool {
    forall|j: int| 0 <= j < end && #[trigger] actions[j].spec_state() == ExecutionState::Running
        ==> exists|k: int| 0 <= k < trail.len() && trail[k].branch == j
}

/// Every branch that a decision of `trail` finalized is Completed in `actions`.
pub open spec fn branches_finalized(actions: Seq<Box<dyn Action>>, trail: Seq<BranchRound>, race: bool) -> bool {
    forall|k: int| 0 <= k < trail.len() && (branches_outcome(#[trigger] trail.take(k + 1), race) matches BranchNext::Go(_, _, true))
        ==> actions[trail[k].branch as int].spec_state() == ExecutionState::Completed
}

/// An update of concurrent branches `before`, now `after`, that reported `r` and left the
/// composite in `state`: `trail` lists the reports, in branch order, of branches that were
/// running, each given all of `delta`; the reports decide the result as `branch_next` does, every branch a decision
/// finalized is Completed, and where no report ended the update every running branch was
/// updated. A branch that failed to finalize leaves the composite in an error.
pub open spec fn branches_updated(
    before: Seq<Box<dyn Action>>,
    after: Seq<Box<dyn Action>>,
    trail: Seq<BranchRound>,
    delta: Nanos,
    state: ExecutionState,
    r: (Nanos, UpdateResult),
    race: bool,
) -> bool {
    &&& branches_went_on(trail, race)
    &&& branches_given(trail, delta)
    &&& branches_in_order(before, trail)
    &&& state == ExecutionState::Running ==> {
        &&& branches_finalized(after, trail, race)
        &&& r == (match branches_outcome(trail, race) {
            BranchNext::Report(t, u) => (t, u),
            BranchNext::Go(busy, total, _) => spec_branches_report(busy, total, race),
        })
        &&& branches_outcome(trail, race) is Go ==> branches_covered(before, trail, before.len() as int)
    }
    &&& state != ExecutionState::Running ==> (branches_outcome(trail, race) matches BranchNext::Go(_, total, true)
        && r == (total, UpdateResult::Error))
}

/// One update of concurrent branches: every running branch is updated with the same time,
/// in order, and its report decided on by `branch_next`; `trail` records the reports. A
/// branch that a decision finalizes and that fails to complete moves the whole into
/// `Error(Update)`.
fn update_branches(
    state: &mut ExecutionState,
    actions: &mut Vec<Box<dyn Action>>,
    trail: &mut Ghost<Seq<BranchRound>>,
    delta: Nanos,
    ctx: &mut ExecutionContext,
    race: bool,
) -> (r: (Nanos, UpdateResult))
    requires
        *old(state) == ExecutionState::Running,
    ensures
        r.0 <= delta,
        final(actions)@.len() == old(actions)@.len(),
        *final(state) == ExecutionState::Running || *final(state) == ExecutionState::Error(ExecutionTransition::Update),
        branches_went_on(final(trail)@, race),
        branches_given(final(trail)@, delta),
        branches_in_order(old(actions)@, final(trail)@),
        *final(state) == ExecutionState::Running ==> branches_finalized(final(actions)@, final(trail)@, race),
        *final(state) == ExecutionState::Running ==> r == (match branches_outcome(final(trail)@, race) {
            BranchNext::Report(t, u) => (t, u),
            BranchNext::Go(busy, total, _) => spec_branches_report(busy, total, race),
        }),
        *final(state) == ExecutionState::Running && branches_outcome(final(trail)@, race) is Go
            ==> branches_covered(old(actions)@, final(trail)@, old(actions)@.len() as int),
        *final(state) != ExecutionState::Running ==> (branches_outcome(final(trail)@, race) matches BranchNext::Go(_, total, true)
            && r == (total, UpdateResult::Error)),
{
    let n = actions.len();
    let mut total_elapsed: Nanos = 0;
    let mut busy = false;
    let mut i: usize = 0;
    *trail = Ghost(Seq::empty());
    while i < n
        invariant
            n == actions@.len(),
            n == old(actions)@.len(),
            total_elapsed <= delta,
            *state == ExecutionState::Running,
            branches_outcome(trail@, race) matches BranchNext::Go(b, t, _) && b == busy && t == total_elapsed,
            branches_went_on(trail@, race),
            branches_given(trail@, delta),
            branches_in_order(old(actions)@, trail@),
            forall|k: int| 0 <= k < trail@.len() ==> #[trigger] trail@[k].branch < i,
            forall|j: int| i <= j < n ==> #[trigger] actions@[j] == old(actions)@[j],
            branches_finalized(actions@, trail@, race),
            branches_covered(old(actions)@, trail@, i as int),
        decreases n - i,
    {
        if actions[i].state() == ExecutionState::Running {
            let (elapsed, result) = actions[i].update(delta, ctx);
            let ghost round = BranchRound { branch: i, given: delta, elapsed, result };
            let ghost before = trail@;
            proof {
                lemma_branches_push(trail@, round, race);
            }
            *trail = Ghost(trail@.push(round));
            proof {
                assert(trail@.take(trail@.len() - 1) =~= before);
                assert(trail@.take(trail@.len() as int) =~= trail@);
                assert forall|k: int| 0 <= k < before.len() implies #[trigger] trail@.take(k + 1) == before.take(k + 1) by {
                    assert(trail@.take(k + 1) =~= before.take(k + 1));
                }
                assert(trail@[trail@.len() - 1].branch == i);
            }
            match branch_next(busy, total_elapsed, elapsed, result, race) {
                BranchNext::Report(used, report) => {
                    return (used, report);
                },
                BranchNext::Go(b, used, finish) => {
                    busy = b;
                    total_elapsed = used;
                    if finish {
                        if actions[i].finalize(ctx) != ExecutionState::Completed {
                            state.transition_to(ExecutionState::Error(ExecutionTransition::Update));
                            return (total_elapsed, UpdateResult::Error);
                        }
                    }
                },
            }
        }
        i = i + 1;
    }
    if busy {
        (total_elapsed, UpdateResult::Busy)
    } else if race {
        (total_elapsed, UpdateResult::Ready)
    } else {
        (total_elapsed, UpdateResult::Complete)
    }
}

/// An action that runs its branches concurrently and completes when all have completed.
/// An interruption of one branch interrupts the whole.
pub struct Concurrency {
    state: ExecutionState,
    actions: Vec<Box<dyn Action>>,
    trail: Ghost<Seq<BranchRound>>,
}

impl Concurrency {
    /// A new one without branches.
    pub fn new() -> (a: Box<Concurrency>)
        ensures
            a.spec_state() == ExecutionState::Uninitialized,
            a.spec_len() == 0,
    {
        Box::new(Concurrency { state: ExecutionState::new(), actions: Vec::new(), trail: Ghost(Seq::empty()) })
    }

    /// A new one with the given branches.
    pub fn from_actions(actions: Vec<Box<dyn Action>>) -> (a: Concurrency)
        ensures
            a.spec_state() == ExecutionState::Uninitialized,
            a.spec_len() == actions@.len(),
    {
        Concurrency { state: ExecutionState::new(), actions, trail: Ghost(Seq::empty()) }
    }

    /// The branches.
    pub fn into_actions(self) -> (v: Vec<Box<dyn Action>>)
        ensures
            v@.len() == self.spec_len(),
    {
        self.actions
    }

    /// This one with one more branch; only while uninitialized.
    pub fn with_branch(self: Box<Self>, action: Box<dyn Action>) -> (a: Box<Concurrency>)
        requires
            self.spec_state() == ExecutionState::Uninitialized,
        ensures
            a.spec_state() == ExecutionState::Uninitialized,
            a.spec_branches() == self.spec_branches().push(action),
    {
        let mut this = self;
        push_item(&mut this.actions, action);
        this
    }

    /// Add a branch; refused with `INVALID_STATE` once initialized.
    pub fn add_branch(&mut self, action: Box<dyn Action>) -> (r: RtoResult<()>)
        ensures
            old(self).spec_state() == ExecutionState::Uninitialized <==> r is Ok,
            r is Ok ==> final(self).spec_branches() == old(self).spec_branches().push(action),
            r matches Err(e) ==> e.code == INVALID_STATE && final(self).spec_branches() == old(self).spec_branches(),
            final(self).spec_state() == old(self).spec_state(),
    {
        if self.state != ExecutionState::Uninitialized {
            return Err(Error::new(INVALID_STATE, "Cannot add action to initialized `Concurrency` action".to_string()));
        }
        push_item(&mut self.actions, action);
        Ok(())
    }

    /// The number of branches.
    pub closed spec fn spec_len(&self) -> nat {
        self.actions@.len()
    }

    /// The state of branch `i`.
    pub closed spec fn spec_branch_state(&self, i: int) -> ExecutionState {
        self.actions@[i].spec_state()
    }

    /// The branches.
    pub closed spec fn spec_branches(&self) -> Seq<Box<dyn Action>> {
        self.actions@
    }

    /// The reports of the branches within the last update, in order.
    pub closed spec fn spec_trail(&self) -> Seq<BranchRound> {
        self.trail@
    }
}

impl Action for Concurrency {
    closed spec fn spec_state(&self) -> ExecutionState {
        self.state
    }

    fn state(&self) -> (s: ExecutionState) {
        self.state
    }

    /// Initialize all branches.
    fn init(&mut self) -> (s: ExecutionState)
        ensures
            body_lifecycle(old(self).spec_state(), final(self).spec_state(), s, ExecutionTransition::Init, ExecutionState::Ready),
            s == ExecutionState::Ready ==> forall|j: int| 0 <= j < final(self).spec_len() ==> #[trigger] final(self).spec_branch_state(j) == ExecutionState::Ready,
            final(self).spec_len() == old(self).spec_len(),
    {
        match self.state.peek_state(ExecutionTransition::Init) {
            ExecutionState::Ready => {
                if !init_all(&mut self.actions) {
                    return self.state.transition_to(ExecutionState::Error(ExecutionTransition::Init));
                }
                self.state.transition_to(ExecutionState::Ready)
            },
            _ => ExecutionState::Error(ExecutionTransition::Init),
        }
    }

    /// Start all branches.
    fn start(&mut self, ctx: &mut ExecutionContext) -> (s: ExecutionState)
        ensures
            body_lifecycle(old(self).spec_state(), final(self).spec_state(), s, ExecutionTransition::Start, ExecutionState::Running),
            s == ExecutionState::Running ==> forall|j: int| 0 <= j < final(self).spec_len() ==> #[trigger] final(self).spec_branch_state(j) == ExecutionState::Running,
            final(self).spec_len() == old(self).spec_len(),
    {
        match self.state.peek_state(ExecutionTransition::Start) {
            ExecutionState::Running => {
                if !start_all(&mut self.actions, ctx) {
                    return self.state.transition_to(ExecutionState::Error(ExecutionTransition::Start));
                }
                self.state.transition_to(ExecutionState::Running)
            },
            _ => ExecutionState::Error(ExecutionTransition::Start),
        }
    }

    /// Update all running branches with the same time, in order (see `branch_next`): a busy
    /// branch makes the concurrency busy, a branch that completes or is ready is finalized, an
    /// interruption or an error ends the update; it completes when no branch was busy.
    fn update(&mut self, delta: Nanos, ctx: &mut ExecutionContext) -> (r: (Nanos, UpdateResult))
        ensures
            final(self).spec_len() == old(self).spec_len(),
            final(self).spec_state() == old(self).spec_state()
                || final(self).spec_state() == ExecutionState::Error(ExecutionTransition::Update),
            old(self).spec_state() == ExecutionState::Running ==> branches_updated(old(self).spec_branches(),
                final(self).spec_branches(), final(self).spec_trail(), delta, final(self).spec_state(), r, false),
    {
        match self.state {
            ExecutionState::Running => update_branches(&mut self.state, &mut self.actions, &mut self.trail, delta, ctx, false),
            _ => (0, UpdateResult::Error),
        }
    }

    /// Finalize the branches that still run.
    fn finalize(&mut self, ctx: &mut ExecutionContext) -> (s: ExecutionState)
        ensures
            body_lifecycle(old(self).spec_state(), final(self).spec_state(), s, ExecutionTransition::Finalize, ExecutionState::Completed),
            s == ExecutionState::Completed ==> forall|j: int| 0 <= j < final(self).spec_len() ==> #[trigger] final(self).spec_branch_state(j) != ExecutionState::Running,
            final(self).spec_len() == old(self).spec_len(),
    {
        match self.state.peek_state(ExecutionTransition::Finalize) {
            ExecutionState::Completed => {
                if !finalize_running(&mut self.actions, ctx) {
                    return self.state.transition_to(ExecutionState::Error(ExecutionTransition::Finalize));
                }
                self.state.transition_to(ExecutionState::Completed)
            },
            _ => ExecutionState::Error(ExecutionTransition::Finalize),
        }
    }

    /// Terminate all branches.
    fn terminate(&mut self) -> (s: ExecutionState)
        ensures
            body_lifecycle(old(self).spec_state(), final(self).spec_state(), s, ExecutionTransition::Terminate, ExecutionState::Terminated),
            s == ExecutionState::Terminated ==> forall|j: int| 0 <= j < final(self).spec_len() ==> #[trigger] final(self).spec_branch_state(j) == ExecutionState::Terminated,
            final(self).spec_len() == old(self).spec_len(),
    {
        match self.state.peek_state(ExecutionTransition::Terminate) {
            ExecutionState::Terminated => {
                if !terminate_all(&mut self.actions) {
                    return self.state.transition_to(ExecutionState::Error(ExecutionTransition::Terminate));
                }
                self.state.transition_to(ExecutionState::Terminated)
            },
            _ => ExecutionState::Error(ExecutionTransition::Terminate),
        }
    }
}

/// An action that runs its branches concurrently: it completes as soon as one branch
/// completes, and is ready when all running branches are ready. An interruption of one branch
/// interrupts the whole. A computation models races, such as a routine against a timeout.
pub struct Computation {
    state: ExecutionState,
    actions: Vec<Box<dyn Action>>,
    trail: Ghost<Seq<BranchRound>>,
}

impl Computation {
    /// A new one without branches.
    pub fn new() -> (a: Box<Computation>)
        ensures
            a.spec_state() == ExecutionState::Uninitialized,
            a.spec_len() == 0,
    {
        Box::new(Computation { state: ExecutionState::new(), actions: Vec::new(), trail: Ghost(Seq::empty()) })
    }

    /// A new one with the given branches.
    pub fn from_actions(actions: Vec<Box<dyn Action>>) -> (a: Computation)
        ensures
            a.spec_state() == ExecutionState::Uninitialized,
            a.spec_len() == actions@.len(),
    {
        Computation { state: ExecutionState::new(), actions, trail: Ghost(Seq::empty()) }
    }

    /// The branches.
    pub fn into_actions(self) -> (v: Vec<Box<dyn Action>>)
        ensures
            v@.len() == self.spec_len(),
    {
        self.actions
    }

    /// This one with one more branch; only while uninitialized.
    pub fn with_branch(self: Box<Self>, action: Box<dyn Action>) -> (a: Box<Computation>)
        requires
            self.spec_state() == ExecutionState::Uninitialized,
        ensures
            a.spec_state() == ExecutionState::Uninitialized,
            a.spec_branches() == self.spec_branches().push(action),
    {
        let mut this = self;
        push_item(&mut this.actions, action);
        this
    }

    /// Add a branch; refused with `INVALID_STATE` once initialized.
    pub fn add_branch(&mut self, action: Box<dyn Action>) -> (r: RtoResult<()>)
        ensures
            old(self).spec_state() == ExecutionState::Uninitialized <==> r is Ok,
            r is Ok ==> final(self).spec_branches() == old(self).spec_branches().push(action),
            r matches Err(e) ==> e.code == INVALID_STATE && final(self).spec_branches() == old(self).spec_branches(),
            final(self).spec_state() == old(self).spec_state(),
    {
        if self.state != ExecutionState::Uninitialized {
            return Err(Error::new(INVALID_STATE, "Cannot add action to initialized `Computation` action".to_string()));
        }
        push_item(&mut self.actions, action);
        Ok(())
    }

    /// The number of branches.
    pub closed spec fn spec_len(&self) -> nat {
        self.actions@.len()
    }

    /// The state of branch `i`.
    pub closed spec fn spec_branch_state(&self, i: int) -> ExecutionState {
        self.actions@[i].spec_state()
    }

    /// The branches.
    pub closed spec fn spec_branches(&self) -> Seq<Box<dyn Action>> {
        self.actions@
    }

    /// The reports of the branches within the last update, in order.
    pub closed spec fn spec_trail(&self) -> Seq<BranchRound> {
        self.trail@
    }
}

impl Action for Computation {
    closed spec fn spec_state(&self) -> ExecutionState {
        self.state
    }

    fn state(&self) -> (s: ExecutionState) {
        self.state
    }

    /// Initialize all branches.
    fn init(&mut self) -> (s: ExecutionState)
        ensures
            body_lifecycle(old(self).spec_state(), final(self).spec_state(), s, ExecutionTransition::Init, ExecutionState::Ready),
            s == ExecutionState::Ready ==> forall|j: int| 0 <= j < final(self).spec_len() ==> #[trigger] final(self).spec_branch_state(j) == ExecutionState::Ready,
            final(self).spec_len() == old(self).spec_len(),
    {
        match self.state.peek_state(ExecutionTransition::Init) {
            ExecutionState::Ready => {
                if !init_all(&mut self.actions) {
                    return self.state.transition_to(ExecutionState::Error(ExecutionTransition::Init));
                }
                self.state.transition_to(ExecutionState::Ready)
            },
            _ => ExecutionState::Error(ExecutionTransition::Init),
        }
    }

    /// Start all branches.
    fn start(&mut self, ctx: &mut ExecutionContext) -> (s: ExecutionState)
        ensures
            body_lifecycle(old(self).spec_state(), final(self).spec_state(), s, ExecutionTransition::Start, ExecutionState::Running),
            s == ExecutionState::Running ==> forall|j: int| 0 <= j < final(self).spec_len() ==> #[trigger] final(self).spec_branch_state(j) == ExecutionState::Running,
            final(self).spec_len() == old(self).spec_len(),
    {
        match self.state.peek_state(ExecutionTransition::Start) {
            ExecutionState::Running => {
                if !start_all(&mut self.actions, ctx) {
                    return self.state.transition_to(ExecutionState::Error(ExecutionTransition::Start));
                }
                self.state.transition_to(ExecutionState::Running)
            },
            _ => ExecutionState::Error(ExecutionTransition::Start),
        }
    }

    /// Update all running branches with the same time, in order (see `branch_next`): the
    /// first branch that completes completes the computation at once (branch order matters),
    /// a busy branch makes it busy, a ready branch keeps running, an interruption or an error
    /// ends the update; when no branch was busy, it is ready.
    fn update(&mut self, delta: Nanos, ctx: &mut ExecutionContext) -> (r: (Nanos, UpdateResult))
        ensures
            final(self).spec_len() == old(self).spec_len(),
            final(self).spec_state() == old(self).spec_state()
                || final(self).spec_state() == ExecutionState::Error(ExecutionTransition::Update),
            old(self).spec_state() == ExecutionState::Running ==> branches_updated(old(self).spec_branches(),
                final(self).spec_branches(), final(self).spec_trail(), delta, final(self).spec_state(), r, true),
    {
        match self.state {
            ExecutionState::Running => update_branches(&mut self.state, &mut self.actions, &mut self.trail, delta, ctx, true),
            _ => (0, UpdateResult::Error),
        }
    }

    /// Finalize the branches that still run.
    fn finalize(&mut self, ctx: &mut ExecutionContext) -> (s: ExecutionState)
        ensures
            body_lifecycle(old(self).spec_state(), final(self).spec_state(), s, ExecutionTransition::Finalize, ExecutionState::Completed),
            s == ExecutionState::Completed ==> forall|j: int| 0 <= j < final(self).spec_len() ==> #[trigger] final(self).spec_branch_state(j) != ExecutionState::Running,
            final(self).spec_len() == old(self).spec_len(),
    {
        match self.state.peek_state(ExecutionTransition::Finalize) {
            ExecutionState::Completed => {
                if !finalize_running(&mut self.actions, ctx) {
                    return self.state.transition_to(ExecutionState::Error(ExecutionTransition::Finalize));
                }
                self.state.transition_to(ExecutionState::Completed)
            },
            _ => ExecutionState::Error(ExecutionTransition::Finalize),
        }
    }

    /// Terminate all branches.
    fn terminate(&mut self) -> (s: ExecutionState)
        ensures
            body_lifecycle(old(self).spec_state(), final(self).spec_state(), s, ExecutionTransition::Terminate, ExecutionState::Terminated),
            s == ExecutionState::Terminated ==> forall|j: int| 0 <= j < final(self).spec_len() ==> #[trigger] final(self).spec_branch_state(j) == ExecutionState::Terminated,
            final(self).spec_len() == old(self).spec_len(),
    {
        match self.state.peek_state(ExecutionTransition::Terminate) {
            ExecutionState::Terminated => {
                if !terminate_all(&mut self.actions) {
                    return self.state.transition_to(ExecutionState::Error(ExecutionTransition::Terminate));
                }
                self.state.transition_to(ExecutionState::Terminated)
            },
            _ => ExecutionState::Error(ExecutionTransition::Terminate),
        }
    }
}

} // verus!
