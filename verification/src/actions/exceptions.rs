//! Throwing and catching exceptions.
use vstd::prelude::*;
use crate::base::{ExecutionState, ExecutionTransition, Nanos, next_state};
use crate::exception::{
    ExecutionException, ExecutionExceptionFilter, ExecutionInterruption, UpdateResult,
};
use crate::actions::{Action, ExecutionContext};
use crate::actions::flows::failed_step;
use crate::actions::rounds::{Next, Round, catch_report, spec_catch_report, spec_try_next, try_next};

verus! {

/// An action that throws an exception once its timeout has passed.
pub struct Throw {
    state: ExecutionState,
    exception: ExecutionException,
    timeout: Nanos,
    remaining: Nanos,
}

impl Throw {
    /// An action that throws `exception` on its first update.
    pub fn new(exception: ExecutionException) -> (a: Box<Throw>)
        ensures
            a.spec_state() == ExecutionState::Uninitialized,
            a.spec_exception() == exception,
            a.spec_timeout() == 0,
            a.spec_remaining() == 0,
    {
        Box::new(Throw { state: ExecutionState::new(), exception, timeout: 0, remaining: 0 })
    }

    /// An action that throws the timeout exception once `timeout` nanoseconds have passed.
    pub fn timeout(timeout: Nanos) -> (a: Box<Throw>)
        ensures
            a.spec_state() == ExecutionState::Uninitialized,
            a.spec_exception() == ExecutionException::spec_timeout_exception(),
            a.spec_timeout() == timeout,
            a.spec_remaining() == 0,
    {
        let exception = ExecutionException::timeout();
        Box::new(Throw { state: ExecutionState::new(), exception, timeout, remaining: 0 })
    }

    /// This action with the timeout replaced.
    pub fn with_timeout(self: Box<Self>, timeout: Nanos) -> (a: Box<Throw>)
        ensures
            a.spec_state() == self.spec_state(),
            a.spec_exception() == self.spec_exception(),
            a.spec_timeout() == timeout,
            a.spec_remaining() == self.spec_remaining(),
    {
        let mut this = self;
        this.timeout = timeout;
        this
    }

    /// The exception thrown.
    pub closed spec fn spec_exception(&self) -> ExecutionException {
        self.exception
    }

    /// The time after which the exception is thrown.
    pub closed spec fn spec_timeout(&self) -> Nanos {
        self.timeout
    }

    /// The time that remains until the exception is thrown.
    pub closed spec fn spec_remaining(&self) -> Nanos {
        self.remaining
    }
}

impl Action for Throw {
    closed spec fn spec_state(&self) -> ExecutionState {
        self.state
    }

    fn state(&self) -> (s: ExecutionState) {
        self.state
    }

    fn init(&mut self) -> (s: ExecutionState)
        ensures
            s == next_state(old(self).spec_state(), ExecutionTransition::Init),
            final(self).spec_state() == s,
            final(self).spec_remaining() == old(self).spec_remaining(),
            final(self).spec_timeout() == old(self).spec_timeout(),
            final(self).spec_exception() == old(self).spec_exception(),
    {
        let next = self.state.peek_state(ExecutionTransition::Init);
        self.state.transition_to(next)
    }

    fn start(&mut self, ctx: &mut ExecutionContext) -> (s: ExecutionState)
        ensures
            s == next_state(old(self).spec_state(), ExecutionTransition::Start),
            s == ExecutionState::Running ==> final(self).spec_state() == s && final(self).spec_remaining() == old(self).spec_timeout(),
            s != ExecutionState::Running ==> final(self).spec_state() == old(self).spec_state() && final(self).spec_remaining() == old(self).spec_remaining(),
            final(self).spec_timeout() == old(self).spec_timeout(),
            final(self).spec_exception() == old(self).spec_exception(),
    {
        match self.state.peek_state(ExecutionTransition::Start) {
            ExecutionState::Running => {
                self.remaining = self.timeout;
                self.state.transition_to(ExecutionState::Running)
            },
            _ => ExecutionState::Error(ExecutionTransition::Start),
        }
    }

    fn update(&mut self, delta: Nanos, ctx: &mut ExecutionContext) -> (r: (Nanos, UpdateResult))
        ensures
            final(self).spec_state() == old(self).spec_state(),
            final(self).spec_timeout() == old(self).spec_timeout(),
            final(self).spec_exception() == old(self).spec_exception(),
            old(self).spec_state() == ExecutionState::Running && delta < old(self).spec_remaining() ==> {
                &&& r == (delta, UpdateResult::Busy)
                &&& final(self).spec_remaining() == old(self).spec_remaining() - delta
            },
            old(self).spec_state() == ExecutionState::Running && delta >= old(self).spec_remaining() ==> {
                &&& r == (old(self).spec_remaining(), UpdateResult::Interruption(ExecutionInterruption::Exception(old(self).spec_exception())))
                &&& final(self).spec_remaining() == old(self).spec_remaining()
            },
            old(self).spec_state() != ExecutionState::Running ==> final(self).spec_remaining() == old(self).spec_remaining(),
    {
        match self.state {
            ExecutionState::Running => {
                if delta < self.remaining {
                    self.remaining = self.remaining - delta;
                    (delta, UpdateResult::Busy)
                } else {
                    (self.remaining, UpdateResult::Interruption(ExecutionInterruption::Exception(self.exception)))
                }
            },
            _ => (0, UpdateResult::Error),
        }
    }

    fn finalize(&mut self, ctx: &mut ExecutionContext) -> (s: ExecutionState)
        ensures
            s == next_state(old(self).spec_state(), ExecutionTransition::Finalize),
            final(self).spec_state() == s,
            final(self).spec_remaining() == old(self).spec_remaining(),
            final(self).spec_timeout() == old(self).spec_timeout(),
            final(self).spec_exception() == old(self).spec_exception(),
    {
        let next = self.state.peek_state(ExecutionTransition::Finalize);
        self.state.transition_to(next)
    }

    fn terminate(&mut self) -> (s: ExecutionState)
        ensures
            s == next_state(old(self).spec_state(), ExecutionTransition::Terminate),
            final(self).spec_state() == s,
            final(self).spec_remaining() == old(self).spec_remaining(),
            final(self).spec_timeout() == old(self).spec_timeout(),
            final(self).spec_exception() == old(self).spec_exception(),
    {
        let next = self.state.peek_state(ExecutionTransition::Terminate);
        self.state.transition_to(next)
    }
}

/// An action that runs a try action and, when it throws an exception that the filter
/// matches, the catch action.
pub struct TryCatch {
    state: ExecutionState,
    try_action: Option<Box<dyn Action>>,
    catch_action: Option<Box<dyn Action>>,
    filter: ExecutionExceptionFilter,
    try_active: bool,
    try_round: Ghost<Option<Round>>,
    catch_round: Ghost<Option<Round>>,
}

impl TryCatch {
    /// An empty try-catch action with the given filter.
    pub fn new(filter: ExecutionExceptionFilter) -> (a: Box<TryCatch>)
        ensures
            a.spec_state() == ExecutionState::Uninitialized,
            a.spec_filter() == filter,
            !a.spec_has_try(),
            !a.spec_has_catch(),
            !a.spec_try_active(),
    {
        Box::new(TryCatch { state: ExecutionState::new(), try_action: None, catch_action: None, filter, try_active: false, try_round: Ghost(None), catch_round: Ghost(None) })
    }

    /// An empty try-catch action that catches every exception.
    pub fn catch_all() -> (a: Box<TryCatch>)
        ensures
            a.spec_state() == ExecutionState::Uninitialized,
            a.spec_filter().spec_mask() == 0xFFFF_FFFF_FFFF_FFFFu64,
            !a.spec_has_try(),
            !a.spec_has_catch(),
            !a.spec_try_active(),
    {
        let filter = ExecutionExceptionFilter::for_all();
        Box::new(TryCatch { state: ExecutionState::new(), try_action: None, catch_action: None, filter, try_active: false, try_round: Ghost(None), catch_round: Ghost(None) })
    }

    /// This action with the try action set; only while uninitialized.
    pub fn with_try(self: Box<Self>, action: Box<dyn Action>) -> (a: Box<TryCatch>)
        requires
            self.spec_state() == ExecutionState::Uninitialized,
        ensures
            a.spec_state() == self.spec_state(),
            a.spec_filter() == self.spec_filter(),
            a.spec_has_try(),
            a.spec_has_catch() == self.spec_has_catch(),
            a.spec_try_active() == self.spec_try_active(),
    {
        let mut this = self;
        this.try_action = Some(action);
        this
    }

    /// This action with the catch action set; only while uninitialized.
    pub fn with_catch(self: Box<Self>, action: Box<dyn Action>) -> (a: Box<TryCatch>)
        requires
            self.spec_state() == ExecutionState::Uninitialized,
        ensures
            a.spec_state() == self.spec_state(),
            a.spec_filter() == self.spec_filter(),
            a.spec_has_try() == self.spec_has_try(),
            a.spec_has_catch(),
            a.spec_try_active() == self.spec_try_active(),
    {
        let mut this = self;
        this.catch_action = Some(action);
        this
    }

    /// The filter of caught exceptions.
    pub closed spec fn spec_filter(&self) -> ExecutionExceptionFilter {
        self.filter
    }

    /// Whether a try action is set.
    pub closed spec fn spec_has_try(&self) -> bool {
        self.try_action is Some
    }

    /// Whether a catch action is set.
    pub closed spec fn spec_has_catch(&self) -> bool {
        self.catch_action is Some
    }

    /// Whether the try branch (rather than the catch branch) is the active one.
    pub closed spec fn spec_try_active(&self) -> bool {
        self.try_active
    }

    /// The state of the try action, where there is one.
    pub closed spec fn spec_try_state(&self) -> ExecutionState {
        self.try_action.unwrap().spec_state()
    }

    /// The state of the catch action, where there is one.
    pub closed spec fn spec_catch_state(&self) -> ExecutionState {
        self.catch_action.unwrap().spec_state()
    }

    /// The update of the try action within the last update, where there was one.
    pub closed spec fn spec_try_round(&self) -> Option<Round> {
        self.try_round@
    }

    /// The update of the catch action within the last update, where there was one.
    pub closed spec fn spec_catch_round(&self) -> Option<Round> {
        self.catch_round@
    }
}

/// An update of a try-catch action that catches exceptions of `mask`, has a catch action where
/// `has_catch`, was given `delta`, reported `r`, and updated its try action (`try_round`) and
/// its catch action (`catch_round`), where the catch action was active from the start unless
/// `try_active`. The try action gets all the time; its report decides as `try_next` does; a
/// caught exception finalizes the try action, starts the catch action and updates it with the
/// time that remains (the catch action running), whose report decides as `catch_report` does.
/// An active catch action gets
/// all the time. Finalizing the try action or starting the catch action may fail, which is an
/// error of the try-catch action (`failed`).
pub open spec fn try_catch_updated(
    mask: u64,
    has_try: bool,
    has_catch: bool,
    try_active: bool,
    delta: Nanos,
    try_round: Option<Round>,
    catch_round: Option<Round>,
    failed: bool,
    r: (Nanos, UpdateResult),
) -> bool {
    if try_active {
        if !has_try {
            r == (0u64, UpdateResult::Complete) && !failed
        } else {
            &&& try_round matches Some(tr) && tr.given == delta && tr.elapsed <= delta
            &&& match spec_try_next(mask, has_catch, delta, try_round->0.elapsed, try_round->0.result) {
                Next::Report(t, u) => r == (t, u) && !failed && catch_round is None,
                Next::Finished(left, used) => if failed {
                    r == (used, UpdateResult::Error) && catch_round is None
                } else {
                    &&& catch_round matches Some(cr) && cr.given == left && cr.before == ExecutionState::Running
                    &&& r == spec_catch_report(used, catch_round->0.elapsed, catch_round->0.result)
                },
            }
        }
    } else {
        &&& !failed
        &&& try_round is None
        &&& has_catch ==> (catch_round matches Some(cr) && cr.given == delta
            && r == spec_catch_report(0, cr.elapsed, cr.result))
        &&& !has_catch ==> r == (0u64, UpdateResult::Complete)
    }
}

impl Action for TryCatch {
    closed spec fn spec_state(&self) -> ExecutionState {
        self.state
    }

    fn state(&self) -> (s: ExecutionState) {
        self.state
    }

    fn init(&mut self) -> (s: ExecutionState)
        ensures
            // a refused transition leaves the action and its children as they are
            next_state(old(self).spec_state(), ExecutionTransition::Init) is Error ==>
                s == ExecutionState::Error(ExecutionTransition::Init) && *final(self) == *old(self),
            s == ExecutionState::Ready ==> {
                &&& !final(self).spec_try_active()
                &&& final(self).spec_has_try() ==> final(self).spec_try_state() == ExecutionState::Ready
                &&& final(self).spec_has_catch() ==> final(self).spec_catch_state() == ExecutionState::Ready
            },
            !(next_state(old(self).spec_state(), ExecutionTransition::Init) is Error) ==>
                final(self).spec_state() == s && (s == ExecutionState::Ready || s == ExecutionState::Error(ExecutionTransition::Init)),
            // a failure is that of the try action, which leaves the catch action as it was, or that of the catch action
            s == ExecutionState::Error(ExecutionTransition::Init) && !(next_state(old(self).spec_state(), ExecutionTransition::Init) is Error) ==> {
                ||| old(self).spec_has_try() && failed_step(old(self).spec_try_state(), final(self).spec_try_state(), ExecutionTransition::Init)
                    && (old(self).spec_has_catch() ==> final(self).spec_catch_state() == old(self).spec_catch_state())
                ||| old(self).spec_has_catch() && failed_step(old(self).spec_catch_state(), final(self).spec_catch_state(), ExecutionTransition::Init)
                    && (old(self).spec_has_try() ==> final(self).spec_try_state() == ExecutionState::Ready)
            },
            final(self).spec_filter() == old(self).spec_filter(),
            final(self).spec_has_try() == old(self).spec_has_try(),
            final(self).spec_has_catch() == old(self).spec_has_catch(),
    {
        match self.state.peek_state(ExecutionTransition::Init) {
            ExecutionState::Ready => {
                if let Some(try_action) = &mut self.try_action {
                    if try_action.init() != ExecutionState::Ready {
                        return self.state.transition_to(ExecutionState::Error(ExecutionTransition::Init));
                    }
                }
                if let Some(catch_action) = &mut self.catch_action {
                    if catch_action.init() != ExecutionState::Ready {
                        return self.state.transition_to(ExecutionState::Error(ExecutionTransition::Init));
                    }
                }
                self.try_active = false;
                self.state.transition_to(ExecutionState::Ready)
            },
            _ => ExecutionState::Error(ExecutionTransition::Init),
        }
    }

    fn start(&mut self, ctx: &mut ExecutionContext) -> (s: ExecutionState)
        ensures
            // a refused transition leaves the action and its children as they are
            next_state(old(self).spec_state(), ExecutionTransition::Start) is Error ==>
                s == ExecutionState::Error(ExecutionTransition::Start) && *final(self) == *old(self)
                    && final(self).spec_try_active() == old(self).spec_try_active(),
            s == ExecutionState::Running ==> {
                &&& final(self).spec_try_active()
                &&& final(self).spec_has_try() ==> final(self).spec_try_state() == ExecutionState::Running
            },
            !(next_state(old(self).spec_state(), ExecutionTransition::Start) is Error) ==>
                final(self).spec_state() == s && (s == ExecutionState::Running || s == ExecutionState::Error(ExecutionTransition::Start)),
            final(self).spec_filter() == old(self).spec_filter(),
            final(self).spec_has_try() == old(self).spec_has_try(),
            final(self).spec_has_catch() == old(self).spec_has_catch(),
    {
        match self.state.peek_state(ExecutionTransition::Start) {
            ExecutionState::Running => {
                if let Some(try_action) = &mut self.try_action {
                    if try_action.start(ctx) != ExecutionState::Running {
                        return self.state.transition_to(ExecutionState::Error(ExecutionTransition::Start));
                    }
                }
                self.try_active = true;
                self.state.transition_to(ExecutionState::Running)
            },
            _ => ExecutionState::Error(ExecutionTransition::Start),
        }
    }

    /// Update the active branch; see `try_catch_updated`.
    fn update(&mut self, delta: Nanos, ctx: &mut ExecutionContext) -> (r: (Nanos, UpdateResult))
        ensures
            final(self).spec_filter() == old(self).spec_filter(),
            final(self).spec_has_try() == old(self).spec_has_try(),
            final(self).spec_has_catch() == old(self).spec_has_catch(),
            final(self).spec_state() == old(self).spec_state()
                || final(self).spec_state() == ExecutionState::Error(ExecutionTransition::Update),
            old(self).spec_state() == ExecutionState::Running ==> {
                &&& try_catch_updated(old(self).spec_filter().spec_mask(), old(self).spec_has_try(), old(self).spec_has_catch(),
                    old(self).spec_try_active(), delta, final(self).spec_try_round(), final(self).spec_catch_round(),
                    final(self).spec_state() != ExecutionState::Running, r)
                &&& final(self).spec_try_active() <==> (old(self).spec_try_active() && final(self).spec_catch_round() is None)
                &&& old(self).spec_try_active() && final(self).spec_catch_round() is Some ==> final(self).spec_try_state() == ExecutionState::Completed
            },
            old(self).spec_state() != ExecutionState::Running ==> final(self).spec_try_active() == old(self).spec_try_active(),
    {
        match self.state {
            ExecutionState::Running => {
                let mut total_elapsed: Nanos = 0;
                let mut remaining: Nanos = delta;
                self.try_round = Ghost(None);
                self.catch_round = Ghost(None);
                if self.try_active {
                    let has_catch = self.catch_action.is_some();
                    match &mut self.try_action {
                        Some(try_action) => {
                            let ghost before = try_action.spec_state();
                            let (elapsed, result) = try_action.update(delta, ctx);
                            self.try_round = Ghost(Some(Round { before, given: delta, elapsed, result }));
                            match try_next(&self.filter, has_catch, delta, elapsed, result) {
                                Next::Report(used, report) => {
                                    return (used, report);
                                },
                                Next::Finished(left, used) => {
                                    total_elapsed = used;
                                    remaining = left;
                                    if try_action.finalize(ctx) != ExecutionState::Completed {
                                        self.state.transition_to(ExecutionState::Error(ExecutionTransition::Update));
                                        return (total_elapsed, UpdateResult::Error);
                                    }
                                    match &mut self.catch_action {
                                        Some(catch_action) => {
                                            if catch_action.start(ctx) != ExecutionState::Running {
                                                self.state.transition_to(ExecutionState::Error(ExecutionTransition::Update));
                                                return (total_elapsed, UpdateResult::Error);
                                            }
                                        },
                                        None => {
                                            return (total_elapsed, UpdateResult::Complete);
                                        },
                                    }
                                    // the catch branch takes over
                                    self.try_active = false;
                                },
                            }
                        },
                        None => {
                            return (0, UpdateResult::Complete);
                        },
                    }
                }
                // the catch branch is active
                match &mut self.catch_action {
                    Some(catch_action) => {
                        let ghost before = catch_action.spec_state();
                        let (elapsed, result) = catch_action.update(remaining, ctx);
                        self.catch_round = Ghost(Some(Round { before, given: remaining, elapsed, result }));
                        catch_report(total_elapsed, elapsed, result)
                    },
                    None => (total_elapsed, UpdateResult::Complete),
                }
            },
            _ => (0, UpdateResult::Error),
        }
    }

    fn finalize(&mut self, ctx: &mut ExecutionContext) -> (s: ExecutionState)
        ensures
            // a refused transition leaves the action and its children as they are
            next_state(old(self).spec_state(), ExecutionTransition::Finalize) is Error ==>
                s == ExecutionState::Error(ExecutionTransition::Finalize) && *final(self) == *old(self),
            !(next_state(old(self).spec_state(), ExecutionTransition::Finalize) is Error) ==>
                final(self).spec_state() == s && (s == ExecutionState::Completed || s == ExecutionState::Error(ExecutionTransition::Finalize)),
            s == ExecutionState::Completed && old(self).spec_try_active() && old(self).spec_has_try() ==>
                final(self).spec_try_state() == ExecutionState::Completed,
            s == ExecutionState::Completed && !old(self).spec_try_active() && old(self).spec_has_catch() ==>
                final(self).spec_catch_state() == ExecutionState::Completed,
            // only the active branch is finalized, and its failure is the only one
            old(self).spec_try_active() && old(self).spec_has_catch() ==> final(self).spec_catch_state() == old(self).spec_catch_state(),
            !old(self).spec_try_active() && old(self).spec_has_try() ==> final(self).spec_try_state() == old(self).spec_try_state(),
            s == ExecutionState::Error(ExecutionTransition::Finalize) && !(next_state(old(self).spec_state(), ExecutionTransition::Finalize) is Error) ==> {
                ||| old(self).spec_try_active() && old(self).spec_has_try()
                    && failed_step(old(self).spec_try_state(), final(self).spec_try_state(), ExecutionTransition::Finalize)
                ||| !old(self).spec_try_active() && old(self).spec_has_catch()
                    && failed_step(old(self).spec_catch_state(), final(self).spec_catch_state(), ExecutionTransition::Finalize)
            },
            final(self).spec_filter() == old(self).spec_filter(),
            final(self).spec_has_try() == old(self).spec_has_try(),
            final(self).spec_has_catch() == old(self).spec_has_catch(),
            final(self).spec_try_active() == old(self).spec_try_active(),
    {
        match self.state.peek_state(ExecutionTransition::Finalize) {
            ExecutionState::Completed => {
                if self.try_active {
                    if let Some(try_action) = &mut self.try_action {
                        if try_action.finalize(ctx) != ExecutionState::Completed {
                            return self.state.transition_to(ExecutionState::Error(ExecutionTransition::Finalize));
                        }
                    }
                } else {
                    if let Some(catch_action) = &mut self.catch_action {
                        if catch_action.finalize(ctx) != ExecutionState::Completed {
                            return self.state.transition_to(ExecutionState::Error(ExecutionTransition::Finalize));
                        }
                    }
                }
                self.state.transition_to(ExecutionState::Completed)
            },
            _ => ExecutionState::Error(ExecutionTransition::Finalize),
        }
    }

    fn terminate(&mut self) -> (s: ExecutionState)
        ensures
            // a refused transition leaves the action and its children as they are
            next_state(old(self).spec_state(), ExecutionTransition::Terminate) is Error ==>
                s == ExecutionState::Error(ExecutionTransition::Terminate) && *final(self) == *old(self),
            !(next_state(old(self).spec_state(), ExecutionTransition::Terminate) is Error) ==>
                final(self).spec_state() == s && (s == ExecutionState::Terminated || s == ExecutionState::Error(ExecutionTransition::Terminate)),
            s == ExecutionState::Terminated && old(self).spec_has_try() ==> final(self).spec_try_state() == ExecutionState::Terminated,
            s == ExecutionState::Terminated && old(self).spec_has_catch() ==> final(self).spec_catch_state() == ExecutionState::Terminated,
            final(self).spec_filter() == old(self).spec_filter(),
            final(self).spec_has_try() == old(self).spec_has_try(),
            final(self).spec_has_catch() == old(self).spec_has_catch(),
            final(self).spec_try_active() == old(self).spec_try_active(),
    {
        match self.state.peek_state(ExecutionTransition::Terminate) {
            ExecutionState::Terminated => {
                if let Some(try_action) = &mut self.try_action {
                    if try_action.terminate() != ExecutionState::Terminated {
                        return self.state.transition_to(ExecutionState::Error(ExecutionTransition::Terminate));
                    }
                }
                if let Some(catch_action) = &mut self.catch_action {
                    if catch_action.terminate() != ExecutionState::Terminated {
                        return self.state.transition_to(ExecutionState::Error(ExecutionTransition::Terminate));
                    }
                }
                self.state.transition_to(ExecutionState::Terminated)
            },
            _ => ExecutionState::Error(ExecutionTransition::Terminate),
        }
    }
}

} // verus!
