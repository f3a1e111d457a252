//! Actions that run user routines: activities, invocations and awaited jobs.
use vstd::prelude::*;
use crate::base::{Error, ExecutionState, ExecutionTransition, Nanos, next_state};
use crate::exception::UpdateResult;
use crate::actions::{Action, ExecutionContext, JobFactory, JobHandle};

verus! {

/// The lifecycle of a user-defined activity.
pub trait ActivityLifecycle: Send {
    fn init(&mut self) -> Result<(), Error>;
    fn start(&mut self) -> Result<(), Error>;
    fn update(&mut self, delta: Nanos) -> (Nanos, UpdateResult);
    fn finalize(&mut self) -> Result<(), Error>;
    fn terminate(&mut self) -> Result<(), Error>;
}

/// The time an update reports, capped at the time it was given.
pub open spec fn capped(elapsed: Nanos, delta: Nanos) -> Nanos {
    if elapsed > delta { delta } else { elapsed }
}

/// `elapsed` capped at `delta`.
fn cap(elapsed: Nanos, delta: Nanos) -> (r: Nanos)
    ensures
        r == capped(elapsed, delta),
{
    if elapsed > delta { delta } else { elapsed }
}

/// `s` is the outcome of a lifecycle step of an action that moves to `target` when the state
/// machine admits transition `t` and the user's step succeeds, and to `Error(t)` otherwise.
pub open spec fn user_step(before: ExecutionState, after: ExecutionState, s: ExecutionState, t: ExecutionTransition, target: ExecutionState) -> bool {
    &&& after == s
    &&& (s == target || s == ExecutionState::Error(t))
    &&& next_state(before, t) is Error ==> s == ExecutionState::Error(t)
}

/// An action that drives a user-implemented lifecycle, keeping the action states itself.
pub struct Activity {
    state: ExecutionState,
    lifecycle: Box<dyn ActivityLifecycle>,
    report: Ghost<Option<(Nanos, UpdateResult)>>,
}

impl Activity {
    /// A new activity over the given lifecycle.
    pub fn new<L: ActivityLifecycle + 'static>(action: L) -> (a: Box<Activity>)
        ensures
            a.spec_state() == ExecutionState::Uninitialized,
    {
        Box::new(Activity { state: ExecutionState::new(), lifecycle: Box::new(action), report: Ghost(None) })
    }

    /// What the user's code reported from the last update, if it was called.
    pub closed spec fn spec_report(&self) -> Option<(Nanos, UpdateResult)> {
        self.report@
    }
}

impl Action for Activity {
    closed spec fn spec_state(&self) -> ExecutionState {
        self.state
    }

    fn state(&self) -> (s: ExecutionState) {
        self.state
    }

    fn init(&mut self) -> (s: ExecutionState)
        ensures
            user_step(old(self).spec_state(), final(self).spec_state(), s, ExecutionTransition::Init, ExecutionState::Ready),
    {
        match self.state.peek_state(ExecutionTransition::Init) {
            ExecutionState::Ready => {
                if self.lifecycle.init().is_err() {
                    self.state.transition_to(ExecutionState::Error(ExecutionTransition::Init))
                } else {
                    self.state.transition_to(ExecutionState::Ready)
                }
            },
            _ => self.state.transition_to(ExecutionState::Error(ExecutionTransition::Init)),
        }
    }

    fn start(&mut self, ctx: &mut ExecutionContext) -> (s: ExecutionState)
        ensures
            user_step(old(self).spec_state(), final(self).spec_state(), s, ExecutionTransition::Start, ExecutionState::Running),
    {
        match self.state.peek_state(ExecutionTransition::Start) {
            ExecutionState::Running => {
                if self.lifecycle.start().is_err() {
                    self.state.transition_to(ExecutionState::Error(ExecutionTransition::Start))
                } else {
                    self.state.transition_to(ExecutionState::Running)
                }
            },
            _ => self.state.transition_to(ExecutionState::Error(ExecutionTransition::Start)),
        }
    }

    /// Pass the update to the lifecycle; the time it reports is capped at `delta`.
    fn update(&mut self, delta: Nanos, ctx: &mut ExecutionContext) -> (r: (Nanos, UpdateResult))
        ensures
            final(self).spec_state() == old(self).spec_state(),
            // a running action reports what the user's lifecycle reported, its time capped at `delta`
            old(self).spec_state() == ExecutionState::Running ==> (final(self).spec_report() matches Some(u)
                && r == (capped(u.0, delta), u.1)),
    {
        match self.state.peek_state(ExecutionTransition::Update) {
            ExecutionState::Running => {
                let (elapsed, result) = self.lifecycle.update(delta);
                self.report = Ghost(Some((elapsed, result)));
                (cap(elapsed, delta), result)
            },
            _ => (0, UpdateResult::Error),
        }
    }

    fn finalize(&mut self, ctx: &mut ExecutionContext) -> (s: ExecutionState)
        ensures
            user_step(old(self).spec_state(), final(self).spec_state(), s, ExecutionTransition::Finalize, ExecutionState::Completed),
    {
        match self.state.peek_state(ExecutionTransition::Finalize) {
            ExecutionState::Completed => {
                if self.lifecycle.finalize().is_err() {
                    self.state.transition_to(ExecutionState::Error(ExecutionTransition::Finalize))
                } else {
                    self.state.transition_to(ExecutionState::Completed)
                }
            },
            _ => self.state.transition_to(ExecutionState::Error(ExecutionTransition::Finalize)),
        }
    }

    fn terminate(&mut self) -> (s: ExecutionState)
        ensures
            user_step(old(self).spec_state(), final(self).spec_state(), s, ExecutionTransition::Terminate, ExecutionState::Terminated),
    {
        match self.state.peek_state(ExecutionTransition::Terminate) {
            ExecutionState::Terminated => {
                if self.lifecycle.terminate().is_err() {
                    self.state.transition_to(ExecutionState::Error(ExecutionTransition::Terminate))
                } else {
                    self.state.transition_to(ExecutionState::Terminated)
                }
            },
            _ => self.state.transition_to(ExecutionState::Error(ExecutionTransition::Terminate)),
        }
    }
}

/// A routine that an invocation calls on each update.
pub trait Routine: Send {
    /// Run the routine with the time given; returns the time consumed and the result.
    fn invoke(&mut self, delta: Nanos) -> (Nanos, UpdateResult);
}

/// A routine given as a closure.
pub struct FnRoutine<F> {
    routine: F,
}

/// Call the user's closure; nothing is known of its result.
#[verifier::external_body]
fn call_routine<F: FnMut(Nanos) -> (Nanos, UpdateResult)>(routine: &mut F, delta: Nanos) -> (Nanos, UpdateResult) {
    routine(delta)
}

impl<F: FnMut(Nanos) -> (Nanos, UpdateResult) + Send> Routine for FnRoutine<F> {
    fn invoke(&mut self, delta: Nanos) -> (Nanos, UpdateResult) {
        call_routine(&mut self.routine, delta)
    }
}

/// An action that calls a user routine synchronously on each update, as a coroutine: the
/// routine returns at once, reporting the time it consumed and whether it is busy, ready,
/// complete or interrupted.
pub struct Invoke {
    state: ExecutionState,
    routine: Box<dyn Routine>,
    report: Ghost<Option<(Nanos, UpdateResult)>>,
}

impl Invoke {
    /// A new invocation of `routine`.
    pub fn new<F: FnMut(Nanos) -> (Nanos, UpdateResult) + Send + 'static>(routine: F) -> (a: Box<Invoke>)
        ensures
            a.spec_state() == ExecutionState::Uninitialized,
    {
        Box::new(Invoke { state: ExecutionState::new(), routine: Box::new(FnRoutine { routine }), report: Ghost(None) })
    }

    /// A new invocation of a routine object.
    pub fn from_routine<R: Routine + 'static>(routine: R) -> (a: Box<Invoke>)
        ensures
            a.spec_state() == ExecutionState::Uninitialized,
    {
        Box::new(Invoke { state: ExecutionState::new(), routine: Box::new(routine), report: Ghost(None) })
    }

    /// What the user's code reported from the last update, if it was called.
    pub closed spec fn spec_report(&self) -> Option<(Nanos, UpdateResult)> {
        self.report@
    }
}

impl Action for Invoke {
    closed spec fn spec_state(&self) -> ExecutionState {
        self.state
    }

    fn state(&self) -> (s: ExecutionState) {
        self.state
    }

    fn init(&mut self) -> (s: ExecutionState)
        ensures
            s == next_state(old(self).spec_state(), ExecutionTransition::Init),
            final(self).spec_state() == s,
    {
        let next = self.state.peek_state(ExecutionTransition::Init);
        self.state.transition_to(next)
    }

    fn start(&mut self, ctx: &mut ExecutionContext) -> (s: ExecutionState)
        ensures
            s == next_state(old(self).spec_state(), ExecutionTransition::Start),
            final(self).spec_state() == s,
    {
        let next = self.state.peek_state(ExecutionTransition::Start);
        self.state.transition_to(next)
    }

    /// Call the routine; the time it reports is capped at `delta`.
    fn update(&mut self, delta: Nanos, ctx: &mut ExecutionContext) -> (r: (Nanos, UpdateResult))
        ensures
            final(self).spec_state() == old(self).spec_state(),
            // a running action reports what the user's routine reported, its time capped at `delta`
            old(self).spec_state() == ExecutionState::Running ==> (final(self).spec_report() matches Some(u)
                && r == (capped(u.0, delta), u.1)),
    {
        match self.state.peek_state(ExecutionTransition::Update) {
            ExecutionState::Running => {
                let (elapsed, result) = self.routine.invoke(delta);
                self.report = Ghost(Some((elapsed, result)));
                (cap(elapsed, delta), result)
            },
            _ => (0, UpdateResult::Error),
        }
    }

    fn finalize(&mut self, ctx: &mut ExecutionContext) -> (s: ExecutionState)
        ensures
            s == next_state(old(self).spec_state(), ExecutionTransition::Finalize),
            final(self).spec_state() == s,
    {
        let next = self.state.peek_state(ExecutionTransition::Finalize);
        self.state.transition_to(next)
    }

    fn terminate(&mut self) -> (s: ExecutionState)
        ensures
            s == next_state(old(self).spec_state(), ExecutionTransition::Terminate),
            final(self).spec_state() == s,
    {
        let next = self.state.peek_state(ExecutionTransition::Terminate);
        self.state.transition_to(next)
    }
}

/// What an update of an awaiting action reports for the status of its job: a finished job is
/// joined and completes the action on success; a failed join, a failed job or a job in error
/// is an error; otherwise the whole time passes busy.
pub open spec fn await_outcome(delta: Nanos, finished: bool, has_error: bool, joined: Option<bool>) -> (Nanos, UpdateResult) {
    if finished {
        match joined {
            Some(true) => (0, UpdateResult::Complete),
            _ => (0, UpdateResult::Error),
        }
    } else if has_error {
        (0, UpdateResult::Error)
    } else {
        (delta, UpdateResult::Busy)
    }
}

/// What an awaiting action reports of its job, over all job states: busy, with all the time,
/// exactly while the job is neither finished nor in error; complete exactly where the finished
/// job was joined and succeeded; an error otherwise; and no time used once the job is finished
/// or in error. A routine's report is capped: never more time than given, its own time where
/// it fits.
pub proof fn lemma_await_laws(delta: Nanos, finished: bool, has_error: bool, joined: Option<bool>, elapsed: Nanos)
    ensures
        (await_outcome(delta, finished, has_error, joined).1 == UpdateResult::Busy) <==> (!finished && !has_error),
        (await_outcome(delta, finished, has_error, joined).1 == UpdateResult::Complete) <==> (finished && joined == Some(true)),
        await_outcome(delta, finished, has_error, joined).1 == UpdateResult::Busy
            || await_outcome(delta, finished, has_error, joined).1 == UpdateResult::Complete
            || await_outcome(delta, finished, has_error, joined).1 == UpdateResult::Error,
        await_outcome(delta, finished, has_error, joined).0 == (if !finished && !has_error { delta } else { 0 }),
        capped(elapsed, delta) <= delta,
        capped(elapsed, delta) <= elapsed,
        elapsed <= delta ==> capped(elapsed, delta) == elapsed,
{
}

/// An action that spawns a job of a user routine on the executor at start and waits, update
/// by update, for it to finish.
pub struct Await {
    state: ExecutionState,
    factory: Box<dyn JobFactory>,
    join_handle: Option<Box<dyn JobHandle>>,
}

impl Await {
    /// A new awaiting action over the jobs of `factory`.
    pub fn new<J: JobFactory + 'static>(factory: J) -> (a: Box<Await>)
        ensures
            a.spec_state() == ExecutionState::Uninitialized,
            !a.spec_has_handle(),
    {
        Box::new(Await { state: ExecutionState::new(), factory: Box::new(factory), join_handle: None })
    }

    /// Whether a spawned job is still to be joined.
    pub closed spec fn spec_has_handle(&self) -> bool {
        self.join_handle is Some
    }
}

impl Action for Await {
    closed spec fn spec_state(&self) -> ExecutionState {
        self.state
    }

    fn state(&self) -> (s: ExecutionState) {
        self.state
    }

    fn init(&mut self) -> (s: ExecutionState)
        ensures
            s == next_state(old(self).spec_state(), ExecutionTransition::Init),
            final(self).spec_state() == s,
            final(self).spec_has_handle() == old(self).spec_has_handle(),
    {
        let next = self.state.peek_state(ExecutionTransition::Init);
        self.state.transition_to(next)
    }

    /// Make a job of the routine and spawn it; a refused spawn is `Error(Start)`.
    fn start(&mut self, ctx: &mut ExecutionContext) -> (s: ExecutionState)
        ensures
            user_step(old(self).spec_state(), final(self).spec_state(), s, ExecutionTransition::Start, ExecutionState::Running),
            s == ExecutionState::Running ==> final(self).spec_has_handle(),
    {
        match self.state.peek_state(ExecutionTransition::Start) {
            ExecutionState::Running => {
                let job = self.factory.make();
                match ctx.spawn(job) {
                    Some(join_handle) => {
                        self.join_handle = Some(join_handle);
                        self.state.transition_to(ExecutionState::Running)
                    },
                    None => self.state.transition_to(ExecutionState::Error(ExecutionTransition::Start)),
                }
            },
            _ => self.state.transition_to(ExecutionState::Error(ExecutionTransition::Start)),
        }
    }

    /// Check on the job: see `await_outcome`. Without a job to wait for, the update is an error.
    fn update(&mut self, delta: Nanos, ctx: &mut ExecutionContext) -> (r: (Nanos, UpdateResult))
        ensures
            final(self).spec_state() == old(self).spec_state(),
            old(self).spec_state() == ExecutionState::Running && !old(self).spec_has_handle() ==> r == (0u64, UpdateResult::Error),
            r.1 == UpdateResult::Complete || r.1 == UpdateResult::Error || r == (delta, UpdateResult::Busy),
            r.1 == UpdateResult::Busy ==> final(self).spec_has_handle(),
            r.1 == UpdateResult::Complete ==> !final(self).spec_has_handle(),
    {
        match self.state.peek_state(ExecutionTransition::Update) {
            ExecutionState::Running => {
                let finished = match &self.join_handle {
                    Some(join_handle) => join_handle.is_finished(),
                    None => {
                        return (0, UpdateResult::Error);
                    },
                };
                if finished {
                    let joined = match self.join_handle.take() {
                        Some(mut join_handle) => join_handle.take_outcome(),
                        None => None,
                    };
                    awaited(delta, true, false, joined)
                } else {
                    let has_error = match &self.join_handle {
                        Some(join_handle) => join_handle.has_error(),
                        None => true,
                    };
                    awaited(delta, false, has_error, None)
                }
            },
            _ => (0, UpdateResult::Error),
        }
    }

    /// Join a job that was not joined yet, then complete.
    fn finalize(&mut self, ctx: &mut ExecutionContext) -> (s: ExecutionState)
        ensures
            user_step(old(self).spec_state(), final(self).spec_state(), s, ExecutionTransition::Finalize, ExecutionState::Completed),
            s == ExecutionState::Completed ==> !final(self).spec_has_handle(),
    {
        match self.state.peek_state(ExecutionTransition::Finalize) {
            ExecutionState::Completed => {
                if let Some(mut join_handle) = self.join_handle.take() {
                    let _ = join_handle.take_outcome();
                }
                self.state.transition_to(ExecutionState::Completed)
            },
            _ => self.state.transition_to(ExecutionState::Error(ExecutionTransition::Finalize)),
        }
    }

    /// Join a job that was not joined yet, then terminate.
    fn terminate(&mut self) -> (s: ExecutionState)
        ensures
            s == next_state(old(self).spec_state(), ExecutionTransition::Terminate),
            final(self).spec_state() == s,
            !final(self).spec_has_handle(),
    {
        if let Some(mut join_handle) = self.join_handle.take() {
            let _ = join_handle.take_outcome();
        }
        let next = self.state.peek_state(ExecutionTransition::Terminate);
        self.state.transition_to(next)
    }
}

/// The report of an awaiting action for the status of its job; see `await_outcome`.
pub fn awaited(delta: Nanos, finished: bool, has_error: bool, joined: Option<bool>) -> (r: (Nanos, UpdateResult))
    ensures
        r == await_outcome(delta, finished, has_error, joined),
{
    if finished {
        match joined {
            Some(true) => (0, UpdateResult::Complete),
            _ => (0, UpdateResult::Error),
        }
    } else if has_error {
        (0, UpdateResult::Error)
    } else {
        (delta, UpdateResult::Busy)
    }
}

} // verus!
