//! Fibers and the cycle of a program that runs them.
use vstd::prelude::*;
use crate::base::{Error, ExecutionState, ExecutionTransition, Nanos, RtoResult, next_state};
use crate::errors::{INVALID_STATE, PROGRAM_FIBER_FAILED};
use crate::exception::{ExecutionInterruption, UpdateResult};
use crate::actions::{Action, ExecutionContext};

verus! {

/// A lightweight cooperative thread of a program: it runs one action and captures the
/// interruptions that the action leaves unhandled.
pub struct Fiber {
    state: ExecutionState,
    action: Option<Box<dyn Action>>,
    uncaught: Option<ExecutionInterruption>,
    report: Ghost<Option<UpdateResult>>,
    action_report: Ghost<Option<(Nanos, UpdateResult)>>,
    given: Ghost<Option<Nanos>>,
}

/// The report of a fiber whose action reported `result`: Ready and Complete complete the
/// fiber, Busy keeps it busy, and an interruption (left unhandled) or an error fails it.
pub open spec fn fiber_report(result: UpdateResult) -> UpdateResult {
    match result {
        UpdateResult::Ready | UpdateResult::Complete => UpdateResult::Complete,
        UpdateResult::Busy => UpdateResult::Busy,
        _ => UpdateResult::Error,
    }
}

/// What a fiber reports of its action's report, over all reports, and what the program does
/// with a fiber's report. An interruption that reaches the fiber is never handled there: the
/// fiber fails (reports Error, and its update leaves it in `Error(Update)`). A fiber completes
/// exactly when its action completed or is ready, and is busy exactly when its action is. A
/// program finalizes a fiber that completed, leaves a busy one waiting, and terminates a
/// failed one.
pub proof fn lemma_fiber_laws(result: UpdateResult)
    ensures
        forall|i: ExecutionInterruption| result == UpdateResult::Interruption(i) ==> fiber_report(result) == UpdateResult::Error,
        (fiber_report(result) == UpdateResult::Complete) <==> (result == UpdateResult::Complete || result == UpdateResult::Ready),
        (fiber_report(result) == UpdateResult::Busy) <==> result == UpdateResult::Busy,
        fiber_report(result) == UpdateResult::Complete || fiber_report(result) == UpdateResult::Busy
            || fiber_report(result) == UpdateResult::Error,
        (spec_fiber_next(result) == FiberAction::Wait) <==> result == UpdateResult::Busy,
        (spec_fiber_next(result) == FiberAction::Terminate) <==> result == UpdateResult::Error,
        spec_fiber_next(fiber_report(result)) != FiberAction::Finalize ==> result != UpdateResult::Complete && result != UpdateResult::Ready,
{
}

/// What a program does with a fiber after the fiber's update in a cycle.
#[derive(Debug, Clone, Copy, PartialEq, Eq, Structural)]
pub enum FiberAction {
    /// The fiber is done: finalize it.
    Finalize,
    /// The fiber needs more time: leave it for the next cycle.
    Wait,
    /// The fiber failed: terminate it.
    Terminate,
}

/// The decision of a program on a fiber that reported `result`: a ready or complete fiber is
/// finalized, a busy one waits, an interrupted one is finalized, and a failed one terminated.
pub open spec fn spec_fiber_next(result: UpdateResult) -> FiberAction {
    match result {
        UpdateResult::Ready | UpdateResult::Complete => FiberAction::Finalize,
        UpdateResult::Busy => FiberAction::Wait,
        UpdateResult::Interruption(_) => FiberAction::Finalize,
        UpdateResult::Error => FiberAction::Terminate,
    }
}

/// The decision of a program on a fiber that reported `result`; see `spec_fiber_next`.
pub fn fiber_next(result: UpdateResult) -> (a: FiberAction)
    ensures
        a == spec_fiber_next(result),
{
    match result {
        UpdateResult::Ready | UpdateResult::Complete => FiberAction::Finalize,
        UpdateResult::Busy => FiberAction::Wait,
        UpdateResult::Interruption(_) => FiberAction::Finalize,
        UpdateResult::Error => FiberAction::Terminate,
    }
}

/// The state a fiber takes for a lifecycle step `t` that succeeds into `target`: the state
/// machine refuses the step (`Error(t)`), or the fiber has no action (`target`), or it takes
/// the state its action reports, which is `target` or an error.
pub open spec fn fiber_step(before: ExecutionState, s: ExecutionState, has_action: bool, t: ExecutionTransition, target: ExecutionState) -> bool {
    &&& next_state(before, t) is Error ==> s == ExecutionState::Error(t)
    &&& !(next_state(before, t) is Error) && !has_action ==> s == target
    &&& (s == target || s is Error)
}

impl Fiber {
    /// A new fiber without action.
    pub fn new() -> (f: Fiber)
        ensures
            f.spec_state() == ExecutionState::Uninitialized,
            !f.spec_has_action(),
            f.spec_uncaught() is None,
    {
        Fiber { state: ExecutionState::new(), action: None, uncaught: None, report: Ghost(None), action_report: Ghost(None), given: Ghost(None) }
    }

    /// This fiber with its action set; only while uninitialized.
    pub fn with_action(self, action: Box<dyn Action>) -> (f: Fiber)
        requires
            self.spec_state() == ExecutionState::Uninitialized,
        ensures
            f.spec_state() == ExecutionState::Uninitialized,
            f.spec_has_action(),
            f.spec_uncaught() == self.spec_uncaught(),
    {
        let mut this = self;
        this.action = Some(action);
        this
    }

    /// The state of the fiber.
    pub closed spec fn spec_state(&self) -> ExecutionState {
        self.state
    }

    /// Whether the fiber has an action.
    pub closed spec fn spec_has_action(&self) -> bool {
        self.action is Some
    }

    /// The interruption the action left unhandled, if any.
    pub closed spec fn spec_uncaught(&self) -> Option<ExecutionInterruption> {
        self.uncaught
    }

    /// What the fiber reported from its last update, if it was updated.
    pub closed spec fn spec_report(&self) -> Option<UpdateResult> {
        self.report@
    }

    /// The time the fiber's last update was given, if it was updated.
    pub closed spec fn spec_given(&self) -> Option<Nanos> {
        self.given@
    }

    /// What the action reported from the fiber's last update, if it was updated.
    pub closed spec fn spec_action_report(&self) -> Option<(Nanos, UpdateResult)> {
        self.action_report@
    }

    /// The state of the fiber.
    pub fn state(&self) -> (s: ExecutionState)
        ensures
            s == self.spec_state(),
    {
        self.state
    }

    /// The interruption the action left unhandled, if any.
    pub fn uncaught(&self) -> (u: Option<ExecutionInterruption>)
        ensures
            u == self.spec_uncaught(),
    {
        self.uncaught
    }

    /// Initialize the fiber and its action; the fiber takes the state its action reports.
    pub fn init(&mut self) -> (s: ExecutionState)
        ensures
            final(self).spec_state() == s,
            fiber_step(old(self).spec_state(), s, old(self).spec_has_action(), ExecutionTransition::Init, ExecutionState::Ready),
            final(self).spec_has_action() == old(self).spec_has_action(),
            final(self).spec_uncaught() == old(self).spec_uncaught(),
            final(self).spec_report() == old(self).spec_report(),
            final(self).spec_given() == old(self).spec_given(),
    {
        match self.state.peek_state(ExecutionTransition::Init) {
            ExecutionState::Ready => {
                match &mut self.action {
                    Some(action) => {
                        let s = action.init();
                        self.state.transition_to(s)
                    },
                    None => self.state.transition_to(ExecutionState::Ready),
                }
            },
            _ => self.state.transition_to(ExecutionState::Error(ExecutionTransition::Init)),
        }
    }

    /// Start the fiber and its action; the fiber takes the state its action reports.
    pub fn start(&mut self, ctx: &mut ExecutionContext) -> (s: ExecutionState)
        ensures
            final(self).spec_state() == s,
            fiber_step(old(self).spec_state(), s, old(self).spec_has_action(), ExecutionTransition::Start, ExecutionState::Running),
            final(self).spec_has_action() == old(self).spec_has_action(),
            final(self).spec_uncaught() == old(self).spec_uncaught(),
            final(self).spec_report() == old(self).spec_report(),
            final(self).spec_given() == old(self).spec_given(),
    {
        match self.state.peek_state(ExecutionTransition::Start) {
            ExecutionState::Running => {
                match &mut self.action {
                    Some(action) => {
                        let s = action.start(ctx);
                        self.state.transition_to(s)
                    },
                    None => self.state.transition_to(ExecutionState::Running),
                }
            },
            _ => self.state.transition_to(ExecutionState::Error(ExecutionTransition::Start)),
        }
    }

    /// Update the action with all of `delta` and report as `fiber_report` says, with the time
    /// the action used. An interruption the action leaves unhandled is recorded, the action is
    /// finalized, and the fiber turns into `Error(Update)`; so does a failed update. A fiber
    /// without action is complete.
    pub fn update(&mut self, delta: Nanos, ctx: &mut ExecutionContext) -> (r: (Nanos, UpdateResult))
        ensures
            r.0 <= delta,
            final(self).spec_report() == Some(r.1),
            final(self).spec_given() == Some(delta),
            final(self).spec_has_action() == old(self).spec_has_action(),
            !old(self).spec_has_action() ==> r == (0u64, UpdateResult::Complete)
                && final(self).spec_state() == old(self).spec_state() && final(self).spec_uncaught() == old(self).spec_uncaught(),
            old(self).spec_has_action() && old(self).spec_state() != ExecutionState::Running ==>
                r == (0u64, UpdateResult::Error) && final(self).spec_state() == old(self).spec_state()
                && final(self).spec_uncaught() == old(self).spec_uncaught(),
            old(self).spec_has_action() && old(self).spec_state() == ExecutionState::Running ==> {
                &&& final(self).spec_action_report() matches Some(ar) && r == (ar.0, fiber_report(ar.1))
                &&& r.1 == UpdateResult::Error ==> final(self).spec_state() == ExecutionState::Error(ExecutionTransition::Update)
                &&& r.1 != UpdateResult::Error ==> final(self).spec_state() == old(self).spec_state()
                &&& final(self).spec_uncaught() == (match final(self).spec_action_report() {
                    Some((_, UpdateResult::Interruption(i))) => Some(i),
                    _ => old(self).spec_uncaught(),
                })
            },
    {
        self.given = Ghost(Some(delta));
        match &mut self.action {
            Some(action) => {
                match self.state {
                    ExecutionState::Running => {
                        let (elapsed, result) = action.update(delta, ctx);
                        self.action_report = Ghost(Some((elapsed, result)));
                        let r = match result {
                            UpdateResult::Ready | UpdateResult::Complete => (elapsed, UpdateResult::Complete),
                            UpdateResult::Busy => (elapsed, UpdateResult::Busy),
                            UpdateResult::Interruption(inter) => {
                                self.uncaught = Some(inter);
                                let _ = action.finalize(ctx);
                                self.state.transition_to(ExecutionState::Error(ExecutionTransition::Update));
                                (elapsed, UpdateResult::Error)
                            },
                            UpdateResult::Error => {
                                self.state.transition_to(ExecutionState::Error(ExecutionTransition::Update));
                                (elapsed, UpdateResult::Error)
                            },
                        };
                        self.report = Ghost(Some(r.1));
                        r
                    },
                    _ => {
                        self.report = Ghost(Some(UpdateResult::Error));
                        (0, UpdateResult::Error)
                    },
                }
            },
            None => {
                self.report = Ghost(Some(UpdateResult::Complete));
                (0, UpdateResult::Complete)
            },
        }
    }

    /// Finalize the fiber and its action; the fiber takes the state its action reports.
    pub fn finalize(&mut self, ctx: &mut ExecutionContext) -> (s: ExecutionState)
        ensures
            final(self).spec_state() == s,
            fiber_step(old(self).spec_state(), s, old(self).spec_has_action(), ExecutionTransition::Finalize, ExecutionState::Completed),
            final(self).spec_has_action() == old(self).spec_has_action(),
            final(self).spec_uncaught() == old(self).spec_uncaught(),
            final(self).spec_report() == old(self).spec_report(),
            final(self).spec_given() == old(self).spec_given(),
    {
        match self.state.peek_state(ExecutionTransition::Finalize) {
            ExecutionState::Completed => {
                match &mut self.action {
                    Some(action) => {
                        let s = action.finalize(ctx);
                        self.state.transition_to(s)
                    },
                    None => self.state.transition_to(ExecutionState::Completed),
                }
            },
            _ => self.state.transition_to(ExecutionState::Error(ExecutionTransition::Finalize)),
        }
    }

    /// Terminate the fiber and its action; the fiber takes the state its action reports.
    pub fn terminate(&mut self) -> (s: ExecutionState)
        ensures
            final(self).spec_state() == s,
            fiber_step(old(self).spec_state(), s, old(self).spec_has_action(), ExecutionTransition::Terminate, ExecutionState::Terminated),
            final(self).spec_has_action() == old(self).spec_has_action(),
            final(self).spec_uncaught() == old(self).spec_uncaught(),
            final(self).spec_report() == old(self).spec_report(),
            final(self).spec_given() == old(self).spec_given(),
    {
        match self.state.peek_state(ExecutionTransition::Terminate) {
            ExecutionState::Terminated => {
                match &mut self.action {
                    Some(action) => {
                        let s = action.terminate();
                        self.state.transition_to(s)
                    },
                    None => self.state.transition_to(ExecutionState::Terminated),
                }
            },
            _ => self.state.transition_to(ExecutionState::Error(ExecutionTransition::Terminate)),
        }
    }
}

/// The main fiber of a program, whose end ends the program.
pub const MAIN_FIBER: usize = 0;

/// The length of one cycle of a program, in nanoseconds.
pub const CYCLE_PERIOD: Nanos = 10_000_000;

/// Whether a fiber is done: completed or terminated.
pub open spec fn fiber_done(s: ExecutionState) -> bool {
    s == ExecutionState::Completed || s == ExecutionState::Terminated
}

/// Initialize all fibers of a program; stops at the first that does not become Ready.
pub fn init_fibers(fibers: &mut Vec<Fiber>) -> (ok: bool)
    ensures
        final(fibers)@.len() == old(fibers)@.len(),
        ok ==> forall|j: int| 0 <= j < final(fibers)@.len() ==> #[trigger] final(fibers)@[j].spec_state() == ExecutionState::Ready,
        !ok ==> exists|j: int| 0 <= j < final(fibers)@.len() && #[trigger] final(fibers)@[j].spec_state() != ExecutionState::Ready,
{
    let n = fibers.len();
    let mut i: usize = 0;
    while i < n
        invariant
            n == fibers@.len(),
            n == old(fibers)@.len(),
            forall|j: int| 0 <= j < i ==> #[trigger] fibers@[j].spec_state() == ExecutionState::Ready,
        decreases n - i,
    {
        if fibers[i].init() != ExecutionState::Ready {
            assert(fibers@[i as int].spec_state() != ExecutionState::Ready);
            return false;
        }
        i = i + 1;
    }
    true
}

/// Start all fibers of a program; the outcome shows in each fiber's state.
pub fn start_fibers(fibers: &mut Vec<Fiber>, ctx: &mut ExecutionContext)
    ensures
        final(fibers)@.len() == old(fibers)@.len(),
        forall|j: int| 0 <= j < final(fibers)@.len() ==> fiber_step(
            old(fibers)@[j].spec_state(),
            #[trigger] final(fibers)@[j].spec_state(),
            old(fibers)@[j].spec_has_action(),
            ExecutionTransition::Start,
            ExecutionState::Running,
        ),
        forall|j: int| 0 <= j < final(fibers)@.len() ==>
            #[trigger] final(fibers)@[j].spec_has_action() == old(fibers)@[j].spec_has_action(),
        forall|j: int| 0 <= j < final(fibers)@.len() ==>
            #[trigger] final(fibers)@[j].spec_given() == old(fibers)@[j].spec_given(),
{
    let n = fibers.len();
    let mut i: usize = 0;
    while i < n
        invariant
            n == fibers@.len(),
            n == old(fibers)@.len(),
            forall|j: int| 0 <= j < i ==> fiber_step(
                old(fibers)@[j].spec_state(),
                #[trigger] fibers@[j].spec_state(),
                old(fibers)@[j].spec_has_action(),
                ExecutionTransition::Start,
                ExecutionState::Running,
            ),
            forall|j: int| 0 <= j < i ==> #[trigger] fibers@[j].spec_has_action() == old(fibers)@[j].spec_has_action(),
            forall|j: int| 0 <= j < i ==> #[trigger] fibers@[j].spec_given() == old(fibers)@[j].spec_given(),
            forall|j: int| i <= j < n ==> #[trigger] fibers@[j] == old(fibers)@[j],
        decreases n - i,
    {
        let _ = fibers[i].start(ctx);
        i = i + 1;
    }
}

/// What a cycle did to a fiber that was not done, from `before` to `after`: the fiber was
/// updated with the cycle's `period`, and its report decided, as `fiber_next` does, whether it
/// was finalized, left waiting or terminated. A fiber's update keeps its state unless it
/// fails, so the step that followed started from `before`, or from `Error(Update)`.
pub open spec fn fiber_cycled(before: Fiber, after: Fiber, period: Nanos) -> bool {
    &&& after.spec_has_action() == before.spec_has_action()
    &&& after.spec_given() == Some(period)
    &&& after.spec_report() matches Some(u) && match spec_fiber_next(u) {
        FiberAction::Wait => after.spec_state() == before.spec_state(),
        FiberAction::Finalize => fiber_step(before.spec_state(), after.spec_state(), before.spec_has_action(),
            ExecutionTransition::Finalize, ExecutionState::Completed),
        FiberAction::Terminate => after.spec_state() == ExecutionState::Terminated || after.spec_state() is Error,
    }
}

/// One cycle of a program: every fiber that is not done is updated with `period` and handled
/// as `fiber_next` decides on its report; a done fiber is left alone. Returns whether the main
/// fiber is done, which ends the program.
pub fn run_cycle(fibers: &mut Vec<Fiber>, period: Nanos, ctx: &mut ExecutionContext) -> (main_done: bool)
    ensures
        final(fibers)@.len() == old(fibers)@.len(),
        main_done == (final(fibers)@.len() > 0 && fiber_done(final(fibers)@[0].spec_state())),
        forall|j: int| 0 <= j < final(fibers)@.len() && fiber_done(old(fibers)@[j].spec_state())
            ==> #[trigger] final(fibers)@[j] == old(fibers)@[j],
        forall|j: int| 0 <= j < final(fibers)@.len() && !fiber_done(old(fibers)@[j].spec_state())
            ==> fiber_cycled(old(fibers)@[j], #[trigger] final(fibers)@[j], period),
{
    let n = fibers.len();
    let mut i: usize = 0;
    while i < n
        invariant
            n == fibers@.len(),
            n == old(fibers)@.len(),
            forall|j: int| 0 <= j < n && fiber_done(old(fibers)@[j].spec_state()) ==> #[trigger] fibers@[j] == old(fibers)@[j],
            forall|j: int| 0 <= j < i && !fiber_done(old(fibers)@[j].spec_state()) ==> fiber_cycled(old(fibers)@[j], #[trigger] fibers@[j], period),
            forall|j: int| i <= j < n ==> #[trigger] fibers@[j] == old(fibers)@[j],
        decreases n - i,
    {
        let s = fibers[i].state();
        if s != ExecutionState::Completed && s != ExecutionState::Terminated {
            let (_elapsed, result) = fibers[i].update(period, ctx);
            match fiber_next(result) {
                FiberAction::Finalize => {
                    let _ = fibers[i].finalize(ctx);
                },
                FiberAction::Wait => {},
                FiberAction::Terminate => {
                    let _ = fibers[i].terminate();
                },
            }
        }
        i = i + 1;
    }
    if n == 0 {
        return false;
    }
    let s = fibers[MAIN_FIBER].state();
    s == ExecutionState::Completed || s == ExecutionState::Terminated
}

/// The logical time a program still has to catch up: `remaining` advanced by whole periods
/// until it exceeds the clock time `elapsed` of the last cycle.
pub fn catch_up(remaining: Nanos, elapsed: Nanos, period: Nanos) -> (r: Nanos)
    requires
        period > 0,
        elapsed + period <= u64::MAX,
    ensures
        r > elapsed,
        r >= remaining,
        r == remaining || r <= elapsed + period,
        (r - remaining) % (period as int) == 0,
{
    let mut r = remaining;
    proof {
        assert(0int % (period as int) == 0) by (nonlinear_arith) requires period > 0;
    }
    while r <= elapsed
        invariant
            r >= remaining,
            r <= elapsed + period || r == remaining,
            (r - remaining) % (period as int) == 0,
            period > 0,
            elapsed + period <= u64::MAX,
        decreases (elapsed as int) + (period as int) - (r as int),
    {
        proof {
            assert((r + period - remaining) % (period as int) == 0) by (nonlinear_arith)
                requires (r - remaining) % (period as int) == 0, period > 0;
        }
        r = r + period;
    }
    r
}

/// The end of a program: the fibers other than the main one that still run are finalized,
/// and every fiber that is not terminated yet is terminated. Afterwards every fiber is
/// terminated or in an error state.
pub fn finish_fibers(fibers: &mut Vec<Fiber>, ctx: &mut ExecutionContext)
    ensures
        final(fibers)@.len() == old(fibers)@.len(),
        forall|j: int| 0 <= j < final(fibers)@.len() ==> #[trigger] final(fibers)@[j].spec_report() == old(fibers)@[j].spec_report()
            && final(fibers)@[j].spec_given() == old(fibers)@[j].spec_given(),
        forall|j: int| 0 <= j < final(fibers)@.len() ==> {
            let s = #[trigger] final(fibers)@[j].spec_state();
            s == ExecutionState::Terminated || s is Error
        },
{
    let n = fibers.len();
    let mut i: usize = 1;
    while i < n
        invariant
            n == fibers@.len(),
            n == old(fibers)@.len(),
            forall|j: int| 0 <= j < n ==> #[trigger] fibers@[j].spec_report() == old(fibers)@[j].spec_report()
                && fibers@[j].spec_given() == old(fibers)@[j].spec_given(),
        decreases n - i,
    {
        if fibers[i].state() == ExecutionState::Running {
            let _ = fibers[i].finalize(ctx);
        }
        i = i + 1;
    }
    let mut i: usize = 0;
    while i < n
        invariant
            n == fibers@.len(),
            n == old(fibers)@.len(),
            forall|j: int| 0 <= j < i ==> {
                let s = #[trigger] fibers@[j].spec_state();
                s == ExecutionState::Terminated || s is Error
            },
            forall|j: int| 0 <= j < n ==> #[trigger] fibers@[j].spec_report() == old(fibers)@[j].spec_report()
                && fibers@[j].spec_given() == old(fibers)@[j].spec_given(),
        decreases n - i,
    {
        if fibers[i].state() != ExecutionState::Terminated {
            let _ = fibers[i].terminate();
        }
        i = i + 1;
    }
}

/// The most cycles a program runs; at one cycle per period this bound is never reached.
pub const MAX_CYCLES: u64 = 0xFFFF_FFFF_FFFF_FFFF;

/// The cycles of a program on its fibers, the first the main fiber: cycle after cycle until
/// the main fiber is done (or `MAX_CYCLES` cycles have run), each cycle updating the fibers
/// with `CYCLE_PERIOD`. Each cycle counts as one period of logical time; between cycles the
/// logical time catches up with the clock and the program sleeps until the end of the cycle's
/// period. Returns the number of cycles after the first. The loop ends only where the main
/// fiber is completed or terminated, so its last report was not Busy, or the cycles ran out.
pub fn run_cycles(fibers: &mut Vec<Fiber>, ctx: &mut ExecutionContext) -> (cycles: u64)
    requires
        old(fibers)@.len() > 0,
    ensures
        final(fibers)@.len() == old(fibers)@.len(),
        cycles < MAX_CYCLES ==> fiber_done(final(fibers)@[0].spec_state()),
        !fiber_done(old(fibers)@[0].spec_state()) ==> (final(fibers)@[0].spec_report() matches Some(u)
            && final(fibers)@[0].spec_given() == Some(CYCLE_PERIOD)
            && (cycles < MAX_CYCLES ==> u != UpdateResult::Busy)),
        forall|j: int| 0 <= j < final(fibers)@.len() ==> #[trigger] final(fibers)@[j].spec_given() == old(fibers)@[j].spec_given()
            || final(fibers)@[j].spec_given() == Some(CYCLE_PERIOD),
{
    let n = fibers.len();
    let period = CYCLE_PERIOD;
    let mut remaining_logical: Nanos = period;
    let mut cycle_clock = ctx.now();
    let mut until_clock = cycle_clock;
    let mut cycles: u64 = 0;
    while cycles < MAX_CYCLES
        invariant_except_break
            remaining_logical >= period,
            remaining_logical % period == 0,
            cycles == 0 ==> fibers@ == old(fibers)@,
            cycles > 0 ==> !fiber_done(fibers@[0].spec_state()),
        invariant
            n == fibers@.len(),
            n == old(fibers)@.len(),
            n > 0,
            period == CYCLE_PERIOD,
            cycles > 0 && !fiber_done(old(fibers)@[0].spec_state()) ==> (fibers@[0].spec_report() is Some
                && fibers@[0].spec_given() == Some(CYCLE_PERIOD)),
            forall|j: int| 0 <= j < n ==> #[trigger] fibers@[j].spec_given() == old(fibers)@[j].spec_given()
                || fibers@[j].spec_given() == Some(CYCLE_PERIOD),
        ensures
            n == fibers@.len(),
            cycles < MAX_CYCLES ==> fiber_done(fibers@[0].spec_state()),
            !fiber_done(old(fibers)@[0].spec_state()) ==> (fibers@[0].spec_report() matches Some(u)
                && fibers@[0].spec_given() == Some(CYCLE_PERIOD)
                && (cycles < MAX_CYCLES ==> u != UpdateResult::Busy)),
        decreases MAX_CYCLES - cycles,
    {
        until_clock = until_clock.saturating_add(period);
        let ghost before = fibers@;
        let main_done = run_cycle(fibers, period, ctx);
        proof {
            assert(forall|j: int| 0 <= j < n ==> fiber_done(before[j].spec_state()) ==> #[trigger] fibers@[j] == before[j]);
            if !fiber_done(before[0].spec_state()) {
                assert(fiber_cycled(before[0], fibers@[0], period));
            }
        }
        remaining_logical = remaining_logical - period;
        if main_done {
            break;
        }
        let now_clock = ctx.now();
        let elapsed = now_clock.saturating_sub(cycle_clock);
        cycle_clock = now_clock;
        let elapsed = if elapsed > u64::MAX - period { u64::MAX - period } else { elapsed };
        let caught_up = catch_up(remaining_logical, elapsed, period);
        proof {
            let x: int = caught_up - remaining_logical;
            vstd::arithmetic::div_mod::lemma_add_mod_noop(x, remaining_logical as int, period as int);
            assert((x + remaining_logical) % (period as int) == 0);
            if caught_up < period {
                vstd::arithmetic::div_mod::lemma_small_mod(caught_up as nat, period as nat);
            }
        }
        remaining_logical = caught_up;
        ctx.sleep_until(until_clock);
        cycles = cycles + 1;
    }
    cycles
}

/// Run a program on its fibers, the first the main fiber: start them all, run its cycles (see
/// `run_cycles`), and
/// finish the fibers, so that every fiber ends terminated or in an error state. Returns the
/// number of cycles after the first.
pub fn run_program(fibers: &mut Vec<Fiber>, ctx: &mut ExecutionContext) -> (cycles: u64)
    requires
        old(fibers)@.len() > 0,
    ensures
        final(fibers)@.len() == old(fibers)@.len(),
        final(fibers)@[0].spec_report() matches Some(u) && final(fibers)@[0].spec_given() == Some(CYCLE_PERIOD)
            && (cycles < MAX_CYCLES ==> u != UpdateResult::Busy),
        forall|j: int| 0 <= j < final(fibers)@.len() ==> #[trigger] final(fibers)@[j].spec_given() == old(fibers)@[j].spec_given()
            || final(fibers)@[j].spec_given() == Some(CYCLE_PERIOD),
        forall|j: int| 0 <= j < final(fibers)@.len() ==> {
            let s = #[trigger] final(fibers)@[j].spec_state();
            s == ExecutionState::Terminated || s is Error
        },
{
    start_fibers(fibers, ctx);
    let ghost started = fibers@;
    assert(!fiber_done(fibers@[0].spec_state()));
    let cycles = run_cycles(fibers, ctx);
    let ghost cycled = fibers@;
    finish_fibers(fibers, ctx);
    assert forall|j: int| 0 <= j < fibers@.len() implies #[trigger] fibers@[j].spec_given() == old(fibers)@[j].spec_given()
        || fibers@[j].spec_given() == Some(CYCLE_PERIOD) by {
        assert(started[j].spec_given() == old(fibers)@[j].spec_given());
        assert(cycled[j].spec_given() == started[j].spec_given() || cycled[j].spec_given() == Some(CYCLE_PERIOD));
        assert(fibers@[j].spec_report() == cycled[j].spec_report());
        assert(fibers@[j].spec_given() == cycled[j].spec_given());
    }
    cycles
}

/// Append `fiber` to `fibers`.
fn push_fiber(fibers: &mut Vec<Fiber>, fiber: Fiber)
    ensures
        final(fibers)@ == old(fibers)@.push(fiber),
{
    fibers.push(fiber);
}

/// A program runs actions in fibers, cycle by cycle. The first fiber is the main fiber: when it
/// is done the program ends, and the other fibers, daemons, are finished with it.
pub struct Program {
    state: ExecutionState,
    fibers: Vec<Fiber>,
    cycles: Ghost<u64>,
}

impl Program {
    /// A new program without fibers.
    pub fn new() -> (p: Program)
        ensures
            p.spec_state() == ExecutionState::Uninitialized,
            p.spec_fibers() == Seq::<Fiber>::empty(),
    {
        Program { state: ExecutionState::new(), fibers: Vec::new(), cycles: Ghost(0) }
    }

    /// The state of the program.
    pub closed spec fn spec_state(&self) -> ExecutionState {
        self.state
    }

    /// Whether the program has a main fiber, which running it needs.
    pub fn has_main_fiber(&self) -> (b: bool)
        ensures
            b == (self.spec_fibers().len() > 0),
    {
        self.fibers.len() > 0
    }

    /// The number of cycles after the first that the last run ran.
    pub closed spec fn spec_cycles(&self) -> u64 {
        self.cycles@
    }

    /// The fibers of the program, the main fiber first.
    pub closed spec fn spec_fibers(&self) -> Seq<Fiber> {
        self.fibers@
    }

    /// This program with a new fiber that runs `action`; only while uninitialized.
    pub fn with_action(self, action: Box<dyn Action>) -> (p: Program)
        requires
            self.spec_state() == ExecutionState::Uninitialized,
        ensures
            p.spec_state() == ExecutionState::Uninitialized,
            p.spec_fibers().len() == self.spec_fibers().len() + 1,
            p.spec_fibers().drop_last() == self.spec_fibers(),
            p.spec_fibers().last().spec_has_action(),
            p.spec_fibers().last().spec_state() == ExecutionState::Uninitialized,
    {
        self.with_fiber(Fiber::new().with_action(action))
    }

    /// This program with `fiber` added; only while uninitialized.
    pub fn with_fiber(self, fiber: Fiber) -> (p: Program)
        requires
            self.spec_state() == ExecutionState::Uninitialized,
        ensures
            p.spec_state() == ExecutionState::Uninitialized,
            p.spec_fibers() == self.spec_fibers().push(fiber),
    {
        let mut this = self;
        push_fiber(&mut this.fibers, fiber);
        this
    }

    /// The state of the program.
    pub fn state(&self) -> (s: ExecutionState)
        ensures
            s == self.spec_state(),
    {
        self.state
    }

    /// Prepare the program to run: initialize every fiber, after which the program is Ready.
    /// Refused with `INVALID_STATE` unless the program is uninitialized; a fiber that does not
    /// become Ready fails it with `PROGRAM_FIBER_FAILED`, and the program stays uninitialized.
    pub fn prepare(&mut self) -> (r: RtoResult<()>)
        ensures
            final(self).spec_fibers().len() == old(self).spec_fibers().len(),
            old(self).spec_state() != ExecutionState::Uninitialized ==>
                (r matches Err(e) && e.code == INVALID_STATE) && *final(self) == *old(self),
            r is Ok ==> final(self).spec_state() == ExecutionState::Ready
                && forall|j: int| 0 <= j < final(self).spec_fibers().len()
                    ==> #[trigger] final(self).spec_fibers()[j].spec_state() == ExecutionState::Ready,
            old(self).spec_state() == ExecutionState::Uninitialized ==> (r is Ok || (r matches Err(e)
                && e.code == PROGRAM_FIBER_FAILED && final(self).spec_state() == ExecutionState::Uninitialized
                && exists|j: int| 0 <= j < final(self).spec_fibers().len()
                    && #[trigger] final(self).spec_fibers()[j].spec_state() != ExecutionState::Ready)),
    {
        if self.state != ExecutionState::Uninitialized {
            return Err(Error::new(INVALID_STATE, "Cannot spawn program in a state other than `Uninitialized`".to_string()));
        }
        if !init_fibers(&mut self.fibers) {
            return Err(Error::new(PROGRAM_FIBER_FAILED, "Cannot initialize fiber.".to_string()));
        }
        self.state = ExecutionState::Ready;
        Ok(())
    }

    /// Run the prepared program, which has a main fiber, to its end: see `run_program`.
    /// Afterwards the main fiber has run cycles of `CYCLE_PERIOD` until it was done (its last
    /// report not Busy), unless the cycles ran out, and every fiber is terminated or in an
    /// error state.
    pub fn run(&mut self, ctx: &mut ExecutionContext) -> (r: RtoResult<()>)
        requires
            old(self).spec_fibers().len() > 0,
        ensures
            r is Ok,
            final(self).spec_fibers()[0].spec_report() matches Some(u)
                && final(self).spec_fibers()[0].spec_given() == Some(CYCLE_PERIOD)
                && (final(self).spec_cycles() < MAX_CYCLES ==> u != UpdateResult::Busy),
            final(self).spec_state() == old(self).spec_state(),
            final(self).spec_fibers().len() == old(self).spec_fibers().len(),
            forall|j: int| 0 <= j < final(self).spec_fibers().len() ==> {
                let s = #[trigger] final(self).spec_fibers()[j].spec_state();
                s == ExecutionState::Terminated || s is Error
            },
    {
        let cycles = run_program(&mut self.fibers, ctx);
        self.cycles = Ghost(cycles);
        Ok(())
    }
}

} // verus!
