//! Actions: the executable elements of a program, each an instance of the execution
//! lifecycle, composed into trees.
use vstd::prelude::*;
use crate::base::{ExecutionState, ExecutionTransition, Nanos, next_state};
use crate::exception::UpdateResult;

pub mod nop;
pub mod assign;
pub mod sync;
pub mod routines;
pub mod exceptions;
pub mod branches;
pub mod loops;
pub mod flows;
pub mod rounds;

verus! {

/// A unit of work handed to an executor: it runs to its end and reports success.
pub trait Job: Send {
    /// Run the job; `true` on success.
    fn run(&mut self) -> bool;
}

/// A job ready to be handed to an executor.
pub struct BoxedJob {
    pub job: Box<dyn Job>,
}

/// Produces the jobs of an awaited routine, one per start.
pub trait JobFactory: Send {
    /// A new job of the routine.
    fn make(&self) -> BoxedJob;
}

/// The handle of a spawned job.
pub trait JobHandle: Send {
    /// Whether the job has finished, so that taking its outcome does not block.
    fn is_finished(&self) -> bool;

    /// Whether the job is in an error state.
    fn has_error(&self) -> bool;

    /// Wait for the job and take its outcome: `None` where waiting failed, else whether it succeeded.
    fn take_outcome(&mut self) -> Option<bool>;
}

/// What an executor offers to running actions: time, sleeping and spawning jobs.
pub trait ExecutionServices {
    /// The current timepoint, in nanoseconds of the executor's clock.
    fn now(&self) -> (t: Nanos)
        ensures
            self.now_result(t),
    ;

    /// Whether `t` is a timepoint that `now` may give.
    /// Any timepoint, unless the services say more.
    open spec fn now_result(&self, t: Nanos) -> bool {
        true
    }

    /// Sleep until the given timepoint.
    fn sleep_until(&mut self, timepoint: Nanos);

    /// Spawn a job; `None` where the executor refused it.
    fn spawn(&mut self, job: BoxedJob) -> (h: Option<Box<dyn JobHandle>>)
        ensures
            old(self).spawn_result(h),
    ;

    /// Whether `h` is a result that spawning a job may give.
    /// Any result, unless the services say more.
    open spec fn spawn_result(&self, h: Option<Box<dyn JobHandle>>) -> bool {
        true
    }
}

/// The context of a program's execution.
pub struct ExecutionContext {
    services: Box<dyn ExecutionServices>,
}

impl ExecutionContext {
    /// A context over the given executor services.
    pub fn new(services: Box<dyn ExecutionServices>) -> (c: ExecutionContext)
        ensures
            c.is_over(services),
    {
        ExecutionContext { services }
    }

    /// Whether the context's services are `services`.
    pub closed spec fn is_over(&self, services: Box<dyn ExecutionServices>) -> bool {
        self.services == services
    }

    /// A context that runs spawned jobs in place, at spawn, and keeps a logical clock that
    /// only sleeping advances.
    pub fn inline() -> (c: ExecutionContext) {
        ExecutionContext { services: Box::new(InlineServices { clock: 0 }) }
    }

    /// Whether `h` is a result that the services may give for a spawned job.
    pub closed spec fn spawn_result(&self, h: Option<Box<dyn JobHandle>>) -> bool {
        self.services.spawn_result(h)
    }

    /// Whether `t` is a timepoint that the services' clock may give.
    pub closed spec fn now_result(&self, t: Nanos) -> bool {
        self.services.now_result(t)
    }

    /// Spawn a job on the executor: the services spawn it, and their result is returned.
    pub fn spawn(&mut self, job: BoxedJob) -> (h: Option<Box<dyn JobHandle>>)
        ensures
            old(self).spawn_result(h),
    {
        self.services.spawn(job)
    }

    /// The current timepoint, as the services' clock gives it.
    pub fn now(&self) -> (t: Nanos)
        ensures
            self.now_result(t),
    {
        self.services.now()
    }

    /// Sleep until the given timepoint.
    pub fn sleep_until(&mut self, timepoint: Nanos) {
        self.services.sleep_until(timepoint)
    }
}

/// Executor services that run each job in place when it is spawned, with a logical clock.
pub struct InlineServices {
    clock: Nanos,
}

/// The handle of a job that has already run.
pub struct FinishedJob {
    outcome: Option<bool>,
}

impl FinishedJob {
    /// The outcome of the job that is still to be taken.
    pub closed spec fn spec_outcome(&self) -> Option<bool> {
        self.outcome
    }
}

impl JobHandle for FinishedJob {
    /// A job that has run is finished.
    fn is_finished(&self) -> (b: bool)
        ensures
            b,
    {
        true
    }

    /// A job that has run is in no error state; its outcome says whether it succeeded.
    fn has_error(&self) -> (b: bool)
        ensures
            !b,
    {
        false
    }

    /// Take the outcome; a second take finds none.
    fn take_outcome(&mut self) -> (r: Option<bool>)
        ensures
            r == old(self).spec_outcome(),
            final(self).spec_outcome() is None,
    {
        let r = self.outcome;
        self.outcome = None;
        r
    }
}

impl InlineServices {
    /// The logical clock.
    pub closed spec fn spec_clock(&self) -> Nanos {
        self.clock
    }
}

impl ExecutionServices for InlineServices {
    /// The logical clock.
    open spec fn now_result(&self, t: Nanos) -> bool {
        t == self.spec_clock()
    }

    /// The executor never refuses a job.
    open spec fn spawn_result(&self, h: Option<Box<dyn JobHandle>>) -> bool {
        h is Some
    }

    /// The logical clock.
    fn now(&self) -> (t: Nanos)
        ensures
            t == self.spec_clock(),
    {
        self.clock
    }

    /// Sleeping advances the logical clock to `timepoint`, unless it is past it already.
    fn sleep_until(&mut self, timepoint: Nanos)
        ensures
            final(self).spec_clock() == (if timepoint > old(self).spec_clock() { timepoint } else { old(self).spec_clock() }),
    {
        if timepoint > self.clock {
            self.clock = timepoint;
        }
    }

    /// The job runs at once; the executor never refuses it, and its clock stays.
    fn spawn(&mut self, job: BoxedJob) -> (h: Option<Box<dyn JobHandle>>)
        ensures
            h is Some,
            final(self).spec_clock() == old(self).spec_clock(),
    {
        let mut job = job.job;
        let ok = job.run();
        Some(Box::new(FinishedJob { outcome: Some(ok) }))
    }
}

/// `r` is the result of a lifecycle method for transition `t`, which succeeds into `target`,
/// on an action whose state was `before` and is `after`: a success lands in `target`, every
/// result is `target` or an error, and a transition the state machine refuses fails.
pub open spec fn lifecycle_result(
    before: ExecutionState,
    after: ExecutionState,
    r: ExecutionState,
    t: ExecutionTransition,
    target: ExecutionState,
) -> bool {
    &&& (r == target || r is Error)
    &&& (r == target ==> after == target)
    &&& (next_state(before, t) is Error ==> r is Error)
}

/// `after` is the state of an action after a lifecycle method for transition `t` returned `r`
/// on it in state `before`: the action takes the state it reports, unless the state machine
/// refused the transition, where it may keep its state.
pub open spec fn settled(before: ExecutionState, after: ExecutionState, r: ExecutionState, t: ExecutionTransition) -> bool {
    after == r || (after == before && next_state(before, t) is Error)
}

/// The executable element of the runtime orchestration.
///
/// Every action follows the execution lifecycle: `init` from Uninitialized or Terminated to
/// Ready, `start` from Ready or Completed to Running, `update` while Running, `finalize` from
/// Running to Completed, and `terminate` from Ready, Completed or an error to Terminated.
/// An update never reports more elapsed time than it was given.
pub trait Action: Send {
    /// The current state of the action.
    spec fn spec_state(&self) -> ExecutionState;

    /// The current state of the action.
    fn state(&self) -> (s: ExecutionState)
        ensures
            s == self.spec_state(),
    ;

    /// Initialize the action.
    fn init(&mut self) -> (s: ExecutionState)
        ensures
            lifecycle_result(old(self).spec_state(), final(self).spec_state(), s, ExecutionTransition::Init, ExecutionState::Ready),
            settled(old(self).spec_state(), final(self).spec_state(), s, ExecutionTransition::Init),
    ;

    /// Start the action.
    fn start(&mut self, ctx: &mut ExecutionContext) -> (s: ExecutionState)
        ensures
            lifecycle_result(old(self).spec_state(), final(self).spec_state(), s, ExecutionTransition::Start, ExecutionState::Running),
    ;

    /// Update the action with `delta` nanoseconds of time; returns the time consumed and the result.
    fn update(&mut self, delta: Nanos, ctx: &mut ExecutionContext) -> (r: (Nanos, UpdateResult))
        ensures
            r.0 <= delta,
            old(self).spec_state() != ExecutionState::Running ==> r == (0u64, UpdateResult::Error),
    ;

    /// Finalize the action.
    fn finalize(&mut self, ctx: &mut ExecutionContext) -> (s: ExecutionState)
        ensures
            lifecycle_result(old(self).spec_state(), final(self).spec_state(), s, ExecutionTransition::Finalize, ExecutionState::Completed),
            settled(old(self).spec_state(), final(self).spec_state(), s, ExecutionTransition::Finalize),
    ;

    /// Terminate the action.
    fn terminate(&mut self) -> (s: ExecutionState)
        ensures
            lifecycle_result(old(self).spec_state(), final(self).spec_state(), s, ExecutionTransition::Terminate, ExecutionState::Terminated),
            settled(old(self).spec_state(), final(self).spec_state(), s, ExecutionTransition::Terminate),
    ;
}

} // verus!
