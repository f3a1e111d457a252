use std::sync::atomic::{AtomicBool, AtomicUsize, Ordering};
use std::sync::{Arc, Mutex};

use qor_rto::actions::assign::Assign;
use qor_rto::actions::branches::IfThenElse;
use qor_rto::actions::exceptions::{Throw, TryCatch};
use qor_rto::actions::flows::{Computation, Concurrency, Sequence};
use qor_rto::actions::loops::{Break, For, Loop};
use qor_rto::actions::nop::Nop;
use qor_rto::actions::routines::{Activity, ActivityLifecycle, Await, Invoke};
use qor_rto::actions::sync::{Sleep, Sync, Trigger};
use qor_rto::actions::{
    Action, BoxedJob, ExecutionContext, ExecutionServices, Job, JobFactory, JobHandle,
};
use qor_rto::base::{Error, EvalError, ExecutionState, ExecutionTransition, Nanos};
use qor_rto::errors::FUNCTION_NOT_IMPLEMENTED;
use qor_rto::event::{Listen, Notify, SingleEvent};
use qor_rto::exception::{
    ExecutionException, ExecutionExceptionFilter, ExecutionInterruption, UpdateResult,
};
use qor_rto::expressions::{Constant, Not, Predicate};
use qor_rto::variables::{LValue, VariableStorage};

const MS: Nanos = 1_000_000;

/// Runs the general lifecycle scenarios on actions made by `fab`.
fn test_state_machine(
    fab: impl Fn() -> Box<dyn Action>,
    expected_zero: (Nanos, UpdateResult),
    expected_ten: (Nanos, UpdateResult),
) {
    let mut ctx = ExecutionContext::inline();

    // good: normal execution
    {
        let mut action = fab();
        assert_eq!(action.init(), ExecutionState::Ready);
        assert_eq!(action.start(&mut ctx), ExecutionState::Running);
        assert_eq!(action.update(0, &mut ctx), expected_zero);
        assert_eq!(action.finalize(&mut ctx), ExecutionState::Completed);
        assert_eq!(action.terminate(), ExecutionState::Terminated);
    }

    // good: terminate without start
    {
        let mut action = fab();
        assert_eq!(action.init(), ExecutionState::Ready);
        assert_eq!(action.terminate(), ExecutionState::Terminated);
    }

    // good: finalize without update
    {
        let mut action = fab();
        assert_eq!(action.init(), ExecutionState::Ready);
        assert_eq!(action.start(&mut ctx), ExecutionState::Running);
        assert_eq!(action.finalize(&mut ctx), ExecutionState::Completed);
        assert_eq!(action.terminate(), ExecutionState::Terminated);
    }

    // good: (start-update-finalize) twice
    {
        let mut action = fab();
        assert_eq!(action.init(), ExecutionState::Ready);
        assert_eq!(action.start(&mut ctx), ExecutionState::Running);
        assert_eq!(action.update(0, &mut ctx), expected_zero);
        assert_eq!(action.finalize(&mut ctx), ExecutionState::Completed);
        assert_eq!(action.start(&mut ctx), ExecutionState::Running);
        assert_eq!(action.update(10 * MS, &mut ctx), expected_ten);
        assert_eq!(action.finalize(&mut ctx), ExecutionState::Completed);
        assert_eq!(action.terminate(), ExecutionState::Terminated);
    }

    // wrong: init after start
    {
        let mut action = fab();
        assert_eq!(action.init(), ExecutionState::Ready);
        assert_eq!(action.start(&mut ctx), ExecutionState::Running);
        assert_eq!(action.init(), ExecutionState::Error(ExecutionTransition::Init));
    }

    // wrong: init after finalize
    {
        let mut action = fab();
        assert_eq!(action.init(), ExecutionState::Ready);
        assert_eq!(action.start(&mut ctx), ExecutionState::Running);
        assert_eq!(action.finalize(&mut ctx), ExecutionState::Completed);
        assert_eq!(action.init(), ExecutionState::Error(ExecutionTransition::Init));
    }

    // wrong: start without init
    {
        let mut action = fab();
        assert_eq!(action.start(&mut ctx), ExecutionState::Error(ExecutionTransition::Start));
    }

    // wrong: start after start
    {
        let mut action = fab();
        assert_eq!(action.init(), ExecutionState::Ready);
        assert_eq!(action.start(&mut ctx), ExecutionState::Running);
        assert_eq!(action.start(&mut ctx), ExecutionState::Error(ExecutionTransition::Start));
    }

    // wrong: update without init
    {
        let mut action = fab();
        assert_eq!(action.update(0, &mut ctx), (0, UpdateResult::Error));
    }

    // wrong: update without start
    {
        let mut action = fab();
        assert_eq!(action.init(), ExecutionState::Ready);
        assert_eq!(action.update(0, &mut ctx), (0, UpdateResult::Error));
    }

    // wrong: finalize without init
    {
        let mut action = fab();
        assert_eq!(action.finalize(&mut ctx), ExecutionState::Error(ExecutionTransition::Finalize));
    }

    // wrong: finalize without start
    {
        let mut action = fab();
        assert_eq!(action.init(), ExecutionState::Ready);
        assert_eq!(action.finalize(&mut ctx), ExecutionState::Error(ExecutionTransition::Finalize));
    }

    // wrong: double finalize
    {
        let mut action = fab();
        assert_eq!(action.init(), ExecutionState::Ready);
        assert_eq!(action.start(&mut ctx), ExecutionState::Running);
        assert_eq!(action.update(0, &mut ctx), expected_zero);
        assert_eq!(action.finalize(&mut ctx), ExecutionState::Completed);
        assert_eq!(action.finalize(&mut ctx), ExecutionState::Error(ExecutionTransition::Finalize));
    }

    // wrong: terminate without init
    {
        let mut action = fab();
        assert_eq!(action.terminate(), ExecutionState::Error(ExecutionTransition::Terminate));
    }

    // wrong: terminate on terminate
    {
        let mut action = fab();
        assert_eq!(action.init(), ExecutionState::Ready);
        assert_eq!(action.start(&mut ctx), ExecutionState::Running);
        assert_eq!(action.update(0, &mut ctx), expected_zero);
        assert_eq!(action.finalize(&mut ctx), ExecutionState::Completed);
        assert_eq!(action.terminate(), ExecutionState::Terminated);
        assert_eq!(action.terminate(), ExecutionState::Error(ExecutionTransition::Terminate));
    }
}

#[test]
fn test_nop_stm() {
    test_state_machine(
        || -> Box<dyn Action> { Nop::new() },
        (0, UpdateResult::Complete),
        (0, UpdateResult::Complete),
    );
}

#[test]
fn test_assign_stm() {
    test_state_machine(
        || -> Box<dyn Action> {
            Assign::new(Arc::new(VariableStorage::new(0i64)), Arc::new(Constant::new(42i64)))
        },
        (0, UpdateResult::Ready),
        (0, UpdateResult::Ready),
    );
}

#[test]
fn test_sleep() {
    let mut ctx = ExecutionContext::inline();
    let period = 10 * MS;

    // sleep(0ms): updates, but consumes no time and is never busy
    let mut action = Sleep::new(0);
    assert_eq!(action.init(), ExecutionState::Ready);
    assert_eq!(action.start(&mut ctx), ExecutionState::Running);
    assert_eq!(action.update(period, &mut ctx), (0, UpdateResult::Complete));
    assert_eq!(action.finalize(&mut ctx), ExecutionState::Completed);
    assert_eq!(action.terminate(), ExecutionState::Terminated);

    // sleep(10ms): consumes 10ms in one update
    let mut action = Sleep::new(period);
    assert_eq!(action.init(), ExecutionState::Ready);
    assert_eq!(action.start(&mut ctx), ExecutionState::Running);
    assert_eq!(action.update(period, &mut ctx), (10 * MS, UpdateResult::Complete));
    assert_eq!(action.finalize(&mut ctx), ExecutionState::Completed);
    assert_eq!(action.terminate(), ExecutionState::Terminated);

    // sleep(100ms): consumes 10ms each round and is busy for 90ms
    let mut action = Sleep::new(100 * MS);
    assert_eq!(action.init(), ExecutionState::Ready);
    assert_eq!(action.start(&mut ctx), ExecutionState::Running);
    for _ in 0..9 {
        assert_eq!(action.update(period, &mut ctx), (period, UpdateResult::Busy));
    }
    assert_eq!(action.update(period, &mut ctx), (period, UpdateResult::Complete));
    assert_eq!(action.finalize(&mut ctx), ExecutionState::Completed);
    assert_eq!(action.terminate(), ExecutionState::Terminated);
}

#[test]
fn test_sleep_restarts_with_full_duration() {
    let mut ctx = ExecutionContext::inline();
    let mut action = Sleep::new(30 * MS);
    assert_eq!(action.init(), ExecutionState::Ready);
    assert_eq!(action.start(&mut ctx), ExecutionState::Running);
    assert_eq!(action.update(20 * MS, &mut ctx), (20 * MS, UpdateResult::Busy));
    assert_eq!(action.update(20 * MS, &mut ctx), (10 * MS, UpdateResult::Complete));
    assert_eq!(action.finalize(&mut ctx), ExecutionState::Completed);
    assert_eq!(action.start(&mut ctx), ExecutionState::Running);
    assert_eq!(action.update(20 * MS, &mut ctx), (20 * MS, UpdateResult::Busy));
    assert_eq!(action.update(20 * MS, &mut ctx), (10 * MS, UpdateResult::Complete));
}

#[test]
fn test_sync_stm() {
    let event = SingleEvent::new();
    let listener = event.listener().unwrap();

    test_state_machine(
        || -> Box<dyn Action> { Sync::new(listener.clone()) },
        (0, UpdateResult::Busy),
        (10 * MS, UpdateResult::Busy),
    );
}

#[test]
fn test_sync() {
    let mut ctx = ExecutionContext::inline();
    let period = 10 * MS;

    let event = SingleEvent::new();
    let notifier = event.notifier().unwrap();
    let listener = event.listener().unwrap();

    // sync(event): busy, consuming the period, until notified
    let mut action = Sync::new(listener);
    assert_eq!(action.init(), ExecutionState::Ready);
    assert_eq!(action.start(&mut ctx), ExecutionState::Running);
    assert_eq!(action.update(period, &mut ctx), (period, UpdateResult::Busy));
    assert_eq!(action.update(period, &mut ctx), (period, UpdateResult::Busy));
    notifier.notify();
    assert_eq!(action.update(period, &mut ctx), (0, UpdateResult::Complete));
    assert_eq!(action.finalize(&mut ctx), ExecutionState::Completed);
    assert_eq!(action.terminate(), ExecutionState::Terminated);
}

#[test]
fn test_sync_ignores_notification_before_start() {
    let mut ctx = ExecutionContext::inline();
    let event = SingleEvent::new();
    let notifier = event.notifier().unwrap();
    let listener = event.listener().unwrap();

    let mut action = Sync::new(listener);
    assert_eq!(action.init(), ExecutionState::Ready);
    notifier.notify();
    assert_eq!(action.start(&mut ctx), ExecutionState::Running);
    assert_eq!(action.update(MS, &mut ctx), (MS, UpdateResult::Busy));
}

#[test]
fn test_trigger_stm() {
    let event = SingleEvent::new();
    let notifier = event.notifier().unwrap();

    test_state_machine(
        || -> Box<dyn Action> { Trigger::new(notifier.clone()) },
        (0, UpdateResult::Complete),
        (0, UpdateResult::Complete),
    );
}

#[test]
fn test_trigger() {
    let mut ctx = ExecutionContext::inline();
    let period = 10 * MS;

    let event = SingleEvent::new();
    let notifier = event.notifier().unwrap();
    let listener = event.listener().unwrap();

    // trigger(event): completes at once, consuming no time
    let mut action = Trigger::new(notifier);
    assert_eq!(action.init(), ExecutionState::Ready);
    assert_eq!(action.start(&mut ctx), ExecutionState::Running);
    assert!(!listener.check_and_reset()); // no trigger in start
    assert_eq!(action.update(period, &mut ctx), (0, UpdateResult::Complete));
    assert!(listener.check_and_reset()); // now the trigger is set
    assert_eq!(action.finalize(&mut ctx), ExecutionState::Completed);
    assert_eq!(action.terminate(), ExecutionState::Terminated);
}

//
// Routine actions
//

struct TestActivity {
    /// - 0: no fails;
    /// - 1: fail on init;
    /// - 2: fail on start;
    /// - 3: fail on update,
    /// - 4: first busy then completed,
    /// - 5: fail on finalize,
    /// - 6: fail on terminate
    state: usize,
}

impl TestActivity {
    fn new(state: usize) -> Self {
        TestActivity { state }
    }
}

fn not_implemented() -> Error {
    Error::from_code(FUNCTION_NOT_IMPLEMENTED)
}

impl ActivityLifecycle for TestActivity {
    fn init(&mut self) -> Result<(), Error> {
        if self.state == 1 {
            Err(not_implemented())
        } else {
            Ok(())
        }
    }

    fn start(&mut self) -> Result<(), Error> {
        if self.state == 2 {
            Err(not_implemented())
        } else {
            Ok(())
        }
    }

    fn update(&mut self, elapsed: Nanos) -> (Nanos, UpdateResult) {
        match self.state {
            3 => (0, UpdateResult::Error),
            4 => {
                self.state = 0;
                (elapsed, UpdateResult::Busy)
            }
            _ => (0, UpdateResult::Complete),
        }
    }

    fn finalize(&mut self) -> Result<(), Error> {
        if self.state == 5 {
            Err(not_implemented())
        } else {
            Ok(())
        }
    }

    fn terminate(&mut self) -> Result<(), Error> {
        if self.state == 6 {
            Err(not_implemented())
        } else {
            Ok(())
        }
    }
}

#[test]
fn test_activity_stm() {
    test_state_machine(
        || -> Box<dyn Action> { Activity::new(TestActivity::new(0)) },
        (0, UpdateResult::Complete),
        (0, UpdateResult::Complete),
    );
}

#[test]
fn test_activity() {
    let mut ctx = ExecutionContext::inline();
    let period = 10 * MS;

    {
        // no fails
        let mut action = Activity::new(TestActivity::new(0));
        assert_eq!(action.init(), ExecutionState::Ready);
        assert_eq!(action.start(&mut ctx), ExecutionState::Running);
        assert_eq!(action.update(period, &mut ctx), (0, UpdateResult::Complete));
        assert_eq!(action.finalize(&mut ctx), ExecutionState::Completed);
        assert_eq!(action.terminate(), ExecutionState::Terminated);
    }

    {
        // busy, then complete on update
        let mut action = Activity::new(TestActivity::new(4));
        assert_eq!(action.init(), ExecutionState::Ready);
        assert_eq!(action.start(&mut ctx), ExecutionState::Running);
        assert_eq!(action.update(period, &mut ctx), (period, UpdateResult::Busy));
        assert_eq!(action.update(period, &mut ctx), (0, UpdateResult::Complete));
        assert_eq!(action.finalize(&mut ctx), ExecutionState::Completed);
        assert_eq!(action.terminate(), ExecutionState::Terminated);
    }

    {
        // fail on init
        let mut action = Activity::new(TestActivity::new(1));
        assert_eq!(action.init(), ExecutionState::Error(ExecutionTransition::Init));
    }

    {
        // fail on start
        let mut action = Activity::new(TestActivity::new(2));
        assert_eq!(action.init(), ExecutionState::Ready);
        assert_eq!(action.start(&mut ctx), ExecutionState::Error(ExecutionTransition::Start));
    }

    {
        // fail on update
        let mut action = Activity::new(TestActivity::new(3));
        assert_eq!(action.init(), ExecutionState::Ready);
        assert_eq!(action.start(&mut ctx), ExecutionState::Running);
        assert_eq!(action.update(period, &mut ctx), (0, UpdateResult::Error));
    }

    {
        // fail on finalize
        let mut action = Activity::new(TestActivity::new(5));
        assert_eq!(action.init(), ExecutionState::Ready);
        assert_eq!(action.start(&mut ctx), ExecutionState::Running);
        assert_eq!(action.update(period, &mut ctx), (0, UpdateResult::Complete));
        assert_eq!(action.finalize(&mut ctx), ExecutionState::Error(ExecutionTransition::Finalize));
    }

    {
        // fail on terminate
        let mut action = Activity::new(TestActivity::new(6));
        assert_eq!(action.init(), ExecutionState::Ready);
        assert_eq!(action.start(&mut ctx), ExecutionState::Running);
        assert_eq!(action.update(period, &mut ctx), (0, UpdateResult::Complete));
        assert_eq!(action.finalize(&mut ctx), ExecutionState::Completed);
        assert_eq!(action.terminate(), ExecutionState::Error(ExecutionTransition::Terminate));
    }
}

#[test]
fn test_invoke_stm() {
    test_state_machine(
        || -> Box<dyn Action> { Invoke::new(|_| (0, UpdateResult::Complete)) },
        (0, UpdateResult::Complete),
        (0, UpdateResult::Complete),
    );
}

#[test]
fn test_invoke_with_closure() {
    let mut ctx = ExecutionContext::inline();
    let period = 10 * MS;

    let remaining = Arc::new(Mutex::new(20 * MS));

    let mut action = Invoke::new({
        let remaining = Arc::clone(&remaining);
        move |elapsed| {
            let mut remaining = remaining.lock().unwrap();
            if elapsed < *remaining {
                *remaining -= elapsed;
                (elapsed, UpdateResult::Busy)
            } else {
                (*remaining, UpdateResult::Complete)
            }
        }
    });
    assert_eq!(action.init(), ExecutionState::Ready);
    assert_eq!(action.start(&mut ctx), ExecutionState::Running);
    assert_eq!(action.update(period, &mut ctx), (period, UpdateResult::Busy));
    assert_eq!(action.update(period, &mut ctx), (period, UpdateResult::Complete));
    assert_eq!(action.finalize(&mut ctx), ExecutionState::Completed);
    assert_eq!(action.terminate(), ExecutionState::Terminated);
}

struct TestStm {
    state: usize,
}

impl TestStm {
    fn new() -> Self {
        TestStm { state: 0 }
    }

    fn update(&mut self, _elapsed: Nanos) -> (Nanos, UpdateResult) {
        match self.state {
            0 => {
                self.state = 1;
                (0, UpdateResult::Busy)
            }
            1 => {
                self.state = 2;
                (0, UpdateResult::Complete)
            }
            _ => (0, UpdateResult::Error),
        }
    }
}

#[test]
fn test_invoke_with_stm() {
    let mut ctx = ExecutionContext::inline();
    let period = 10 * MS;

    let mut stm = TestStm::new();
    let mut action = Invoke::new(move |elapsed| stm.update(elapsed));
    assert_eq!(action.init(), ExecutionState::Ready);
    assert_eq!(action.start(&mut ctx), ExecutionState::Running);
    assert_eq!(action.update(period, &mut ctx), (0, UpdateResult::Busy));
    assert_eq!(action.update(period, &mut ctx), (0, UpdateResult::Complete));
    assert_eq!(action.finalize(&mut ctx), ExecutionState::Completed);
    assert_eq!(action.terminate(), ExecutionState::Terminated);
}

#[test]
fn test_invoke_caps_reported_time() {
    let mut ctx = ExecutionContext::inline();
    let mut action = Invoke::new(|_| (50 * MS, UpdateResult::Busy));
    assert_eq!(action.init(), ExecutionState::Ready);
    assert_eq!(action.start(&mut ctx), ExecutionState::Running);
    assert_eq!(action.update(10 * MS, &mut ctx), (10 * MS, UpdateResult::Busy));
}

/// A job that succeeds or fails as told, counting its runs.
struct TestJob {
    runs: Arc<AtomicUsize>,
    ok: bool,
}

impl Job for TestJob {
    fn run(&mut self) -> bool {
        self.runs.fetch_add(1, Ordering::SeqCst);
        self.ok
    }
}

struct TestJobs {
    runs: Arc<AtomicUsize>,
    ok: bool,
}

impl JobFactory for TestJobs {
    fn make(&self) -> BoxedJob {
        BoxedJob { job: Box::new(TestJob { runs: self.runs.clone(), ok: self.ok }) }
    }
}

/// The handle of a job that runs only when it is joined.
struct DeferredHandle {
    job: Option<Box<dyn Job>>,
    outcome: Option<bool>,
}

impl JobHandle for DeferredHandle {
    fn is_finished(&self) -> bool {
        self.outcome.is_some()
    }

    fn has_error(&self) -> bool {
        false
    }

    fn take_outcome(&mut self) -> Option<bool> {
        if let Some(mut job) = self.job.take() {
            self.outcome = Some(job.run());
        }
        self.outcome
    }
}

/// An executor whose jobs run when they are joined, and which refuses jobs on request.
struct DeferredServices {
    refuse: bool,
}

impl ExecutionServices for DeferredServices {
    fn now(&self) -> Nanos {
        0
    }

    fn sleep_until(&mut self, _timepoint: Nanos) {}

    fn spawn(&mut self, job: BoxedJob) -> Option<Box<dyn JobHandle>> {
        if self.refuse {
            None
        } else {
            Some(Box::new(DeferredHandle { job: Some(job.job), outcome: None }))
        }
    }
}

fn deferred_context(refuse: bool) -> ExecutionContext {
    ExecutionContext::new(Box::new(DeferredServices { refuse }))
}

#[test]
fn test_await_stm() {
    let runs = Arc::new(AtomicUsize::new(0));
    let shared = runs.clone();
    let fab = move || -> Box<dyn Action> { Await::new(TestJobs { runs: shared.clone(), ok: true }) };

    // the state machine scenarios, on an executor whose jobs are still running when updated
    let mut ctx = deferred_context(false);
    let mut action = fab();
    assert_eq!(action.init(), ExecutionState::Ready);
    assert_eq!(action.start(&mut ctx), ExecutionState::Running);
    assert_eq!(action.update(0, &mut ctx), (0, UpdateResult::Busy));
    assert_eq!(action.finalize(&mut ctx), ExecutionState::Completed);
    assert_eq!(action.start(&mut ctx), ExecutionState::Running);
    assert_eq!(action.update(10 * MS, &mut ctx), (10 * MS, UpdateResult::Busy));
    assert_eq!(action.finalize(&mut ctx), ExecutionState::Completed);
    assert_eq!(action.terminate(), ExecutionState::Terminated);
    // finalize joined each job
    assert_eq!(runs.load(Ordering::SeqCst), 2);

    let mut action = fab();
    assert_eq!(action.start(&mut ctx), ExecutionState::Error(ExecutionTransition::Start));
    let mut action = fab();
    assert_eq!(action.update(0, &mut ctx), (0, UpdateResult::Error));
    let mut action = fab();
    assert_eq!(action.finalize(&mut ctx), ExecutionState::Error(ExecutionTransition::Finalize));
    let mut action = fab();
    assert_eq!(action.terminate(), ExecutionState::Error(ExecutionTransition::Terminate));
}

#[test]
fn test_await() {
    let mut ctx = ExecutionContext::inline();
    let period = 10 * MS;
    let runs = Arc::new(AtomicUsize::new(0));

    let mut action = Await::new(TestJobs { runs: runs.clone(), ok: true });
    assert_eq!(action.init(), ExecutionState::Ready);
    assert_eq!(action.start(&mut ctx), ExecutionState::Running);

    let mut result = action.update(period, &mut ctx);
    while result.1 == UpdateResult::Busy {
        result = action.update(period, &mut ctx);
    }
    assert_eq!(result, (0, UpdateResult::Complete));
    assert_eq!(action.finalize(&mut ctx), ExecutionState::Completed);
    assert_eq!(action.terminate(), ExecutionState::Terminated);
    assert_eq!(runs.load(Ordering::SeqCst), 1);
}

#[test]
fn test_await_failed_job_is_error() {
    let mut ctx = ExecutionContext::inline();
    let runs = Arc::new(AtomicUsize::new(0));
    let mut action = Await::new(TestJobs { runs, ok: false });
    assert_eq!(action.init(), ExecutionState::Ready);
    assert_eq!(action.start(&mut ctx), ExecutionState::Running);
    assert_eq!(action.update(MS, &mut ctx), (0, UpdateResult::Error));
}

#[test]
fn test_await_refused_spawn_fails_start() {
    let mut ctx = deferred_context(true);
    let runs = Arc::new(AtomicUsize::new(0));
    let mut action = Await::new(TestJobs { runs, ok: true });
    assert_eq!(action.init(), ExecutionState::Ready);
    assert_eq!(action.start(&mut ctx), ExecutionState::Error(ExecutionTransition::Start));
}

//
// Branches
//

#[test]
fn test_ifthenelse_stm() {
    test_state_machine(
        || -> Box<dyn Action> {
            IfThenElse::new(Arc::new(VariableStorage::new(false)))
                .with_then(Nop::new())
                .with_else(Nop::new())
        },
        (0, UpdateResult::Complete),
        (0, UpdateResult::Complete),
    );
}

#[test]
fn test_ifthenelse_empty() {
    let mut ctx = ExecutionContext::inline();
    let period = 10 * MS;
    let condition = Arc::new(VariableStorage::new(false));

    // if (condition) {}
    let mut action = IfThenElse::new(condition.clone());
    assert_eq!(action.init(), ExecutionState::Ready);

    // false condition
    assert_eq!(action.start(&mut ctx), ExecutionState::Running);
    assert_eq!(action.update(period, &mut ctx), (0, UpdateResult::Complete));
    assert_eq!(action.finalize(&mut ctx), ExecutionState::Completed);

    // true condition
    let _ = condition.assign(true);
    assert_eq!(action.start(&mut ctx), ExecutionState::Running);
    assert_eq!(action.update(period, &mut ctx), (0, UpdateResult::Complete));
    assert_eq!(action.finalize(&mut ctx), ExecutionState::Completed);
    assert_eq!(action.terminate(), ExecutionState::Terminated);
}

#[test]
fn test_ifthenelse_then() {
    let mut ctx = ExecutionContext::inline();
    let period = 10 * MS;
    let condition: Arc<VariableStorage<bool>> = Arc::new(VariableStorage::new(true));

    // if (condition) { sleep(2*period) }
    let mut action = IfThenElse::new(condition.clone()).with_then(Sleep::new(2 * period));
    assert_eq!(action.init(), ExecutionState::Ready);

    // true condition: sleep in the then branch
    assert_eq!(action.start(&mut ctx), ExecutionState::Running);
    assert_eq!(action.update(period, &mut ctx), (period, UpdateResult::Busy));
    assert_eq!(action.update(period, &mut ctx), (period, UpdateResult::Complete));
    assert_eq!(action.finalize(&mut ctx), ExecutionState::Completed);

    // false condition: empty else branch
    let _ = condition.assign(false);
    assert_eq!(action.start(&mut ctx), ExecutionState::Running);
    assert_eq!(action.update(period, &mut ctx), (0, UpdateResult::Complete));
    assert_eq!(action.finalize(&mut ctx), ExecutionState::Completed);
    assert_eq!(action.terminate(), ExecutionState::Terminated);
}

#[test]
fn test_ifthenelse_else() {
    let mut ctx = ExecutionContext::inline();
    let period = 10 * MS;
    let condition: Arc<VariableStorage<bool>> = Arc::new(VariableStorage::new(true));

    // if (condition) {} else { sleep(2*period) }
    let mut action = IfThenElse::new(condition.clone()).with_else(Sleep::new(2 * period));
    assert_eq!(action.init(), ExecutionState::Ready);

    // true condition: empty then branch
    assert_eq!(action.start(&mut ctx), ExecutionState::Running);
    assert_eq!(action.update(period, &mut ctx), (0, UpdateResult::Complete));
    assert_eq!(action.finalize(&mut ctx), ExecutionState::Completed);

    // false condition: sleep in the else branch
    let _ = condition.assign(false);
    assert_eq!(action.start(&mut ctx), ExecutionState::Running);
    assert_eq!(action.update(period, &mut ctx), (period, UpdateResult::Busy));
    assert_eq!(action.update(period, &mut ctx), (period, UpdateResult::Complete));
    assert_eq!(action.finalize(&mut ctx), ExecutionState::Completed);
    assert_eq!(action.terminate(), ExecutionState::Terminated);
}

#[test]
fn test_ifthenelse_then_else() {
    let mut ctx = ExecutionContext::inline();
    let period = 10 * MS;
    let condition: Arc<VariableStorage<bool>> = Arc::new(VariableStorage::new(true));

    // if (condition) { sleep(2*period) } else { sleep(3*period) }
    let mut action = IfThenElse::new(condition.clone())
        .with_then(Sleep::new(2 * period))
        .with_else(Sleep::new(3 * period));
    assert_eq!(action.init(), ExecutionState::Ready);

    // then branch
    assert_eq!(action.start(&mut ctx), ExecutionState::Running);
    assert_eq!(action.update(period, &mut ctx), (period, UpdateResult::Busy));

    // switching the condition does not change the branch taken
    let _ = condition.assign(false);
    assert_eq!(action.update(period, &mut ctx), (period, UpdateResult::Complete));
    assert_eq!(action.finalize(&mut ctx), ExecutionState::Completed);

    // else branch (condition already switched)
    assert_eq!(action.start(&mut ctx), ExecutionState::Running);
    assert_eq!(action.update(period, &mut ctx), (period, UpdateResult::Busy));
    let _ = condition.assign(true);
    assert_eq!(action.update(period, &mut ctx), (period, UpdateResult::Busy));
    assert_eq!(action.update(period, &mut ctx), (period, UpdateResult::Complete));
    assert_eq!(action.finalize(&mut ctx), ExecutionState::Completed);
    assert_eq!(action.terminate(), ExecutionState::Terminated);
}

#[test]
fn test_ifthenelse_with_predicate() {
    let mut ctx = ExecutionContext::inline();
    let period = 10 * MS;

    let state = Arc::new(AtomicBool::new(true));
    let state_clone = state.clone();
    let predicate = Arc::new(Predicate::new(move || -> Result<bool, EvalError> {
        Ok(state_clone.load(Ordering::Relaxed))
    }));

    // if (predicate) { sleep(period) } else { sleep(2*period) }
    let mut action = IfThenElse::new(predicate)
        .with_then(Sleep::new(period))
        .with_else(Sleep::new(2 * period));
    assert_eq!(action.init(), ExecutionState::Ready);

    // then branch
    assert_eq!(action.start(&mut ctx), ExecutionState::Running);
    assert_eq!(action.update(period, &mut ctx), (period, UpdateResult::Complete));
    assert_eq!(action.finalize(&mut ctx), ExecutionState::Completed);

    state.store(false, Ordering::Relaxed);

    // else branch
    assert_eq!(action.start(&mut ctx), ExecutionState::Running);
    assert_eq!(action.update(period, &mut ctx), (period, UpdateResult::Busy));
    assert_eq!(action.update(period, &mut ctx), (period, UpdateResult::Complete));
    assert_eq!(action.finalize(&mut ctx), ExecutionState::Completed);
    assert_eq!(action.terminate(), ExecutionState::Terminated);
}

#[test]
fn test_ifthenelse_failed_condition_fails_start() {
    let mut ctx = ExecutionContext::inline();
    let predicate = Arc::new(Predicate::new(|| -> Result<bool, EvalError> { Err(EvalError::Overflow) }));
    let mut action = IfThenElse::new(predicate).with_then(Nop::new());
    assert_eq!(action.init(), ExecutionState::Ready);
    assert_eq!(action.start(&mut ctx), ExecutionState::Error(ExecutionTransition::Start));
}

//
// Exceptions
//

#[test]
fn test_try_catch_empty_bodies_no_throw() {
    let mut ctx = ExecutionContext::inline();
    let period = 10 * MS;

    // try {} catch (_) {}
    let mut action = TryCatch::new(ExecutionExceptionFilter::for_all());
    assert_eq!(action.init(), ExecutionState::Ready);
    assert_eq!(action.start(&mut ctx), ExecutionState::Running);
    assert_eq!(action.update(period, &mut ctx), (0, UpdateResult::Complete));
    assert_eq!(action.finalize(&mut ctx), ExecutionState::Completed);
    assert_eq!(action.terminate(), ExecutionState::Terminated);
}

#[test]
fn test_try_catch_empty_catch_no_throw() {
    let mut ctx = ExecutionContext::inline();
    let period = 10 * MS;

    // try { sleep(10ms) } catch (_) {}
    let mut action = TryCatch::new(ExecutionExceptionFilter::for_all()).with_try(Sleep::new(period));
    assert_eq!(action.init(), ExecutionState::Ready);
    assert_eq!(action.start(&mut ctx), ExecutionState::Running);
    assert_eq!(action.update(period, &mut ctx), (period, UpdateResult::Complete));
    assert_eq!(action.finalize(&mut ctx), ExecutionState::Completed);
    assert_eq!(action.terminate(), ExecutionState::Terminated);
}

#[test]
fn test_try_catch_no_throw() {
    let mut ctx = ExecutionContext::inline();
    let period = 10 * MS;

    // try { sleep(10ms) } catch (_) { sleep(20ms) }
    let mut action = TryCatch::catch_all()
        .with_try(Sleep::new(period))
        .with_catch(Sleep::new(2 * period));
    assert_eq!(action.init(), ExecutionState::Ready);
    assert_eq!(action.start(&mut ctx), ExecutionState::Running);
    assert_eq!(action.update(period, &mut ctx), (period, UpdateResult::Complete));
    assert_eq!(action.finalize(&mut ctx), ExecutionState::Completed);
    assert_eq!(action.terminate(), ExecutionState::Terminated);
}

#[test]
fn test_try_catch_throw_and_catch() {
    let mut ctx = ExecutionContext::inline();
    let period = 10 * MS;

    // try { throw(Timeout) } catch (_) { sleep(20ms) }
    let mut action = TryCatch::catch_all()
        .with_try(Throw::timeout(0))
        .with_catch(Sleep::new(2 * period));
    assert_eq!(action.init(), ExecutionState::Ready);
    assert_eq!(action.start(&mut ctx), ExecutionState::Running);
    assert_eq!(action.update(period, &mut ctx), (period, UpdateResult::Busy));
    assert_eq!(action.update(period, &mut ctx), (period, UpdateResult::Complete));
    assert_eq!(action.finalize(&mut ctx), ExecutionState::Completed);
    assert_eq!(action.terminate(), ExecutionState::Terminated);
}

#[test]
fn test_try_catch_throw_no_catch() {
    let mut ctx = ExecutionContext::inline();
    let period = 10 * MS;

    // try { throw timeout } catch user(1) { sleep(2*period) }
    let mut action = TryCatch::new(ExecutionExceptionFilter::for_exception(ExecutionException::user(1)))
        .with_try(Throw::new(ExecutionException::timeout()))
        .with_catch(Sleep::new(2 * period));
    assert_eq!(action.init(), ExecutionState::Ready);
    assert_eq!(action.start(&mut ctx), ExecutionState::Running);
    // the timeout passes a catch that only catches user(1)
    assert_eq!(
        action.update(period, &mut ctx),
        (0, UpdateResult::Interruption(ExecutionInterruption::Exception(ExecutionException::timeout())))
    );
    assert_eq!(action.finalize(&mut ctx), ExecutionState::Completed);
    assert_eq!(action.terminate(), ExecutionState::Terminated);
}

#[test]
fn test_try_catch_rethrow() {
    let mut ctx = ExecutionContext::inline();
    let period = 10 * MS;

    // try { throw timeout } catch (Timeout) { throw user(1) }
    let mut action = TryCatch::new(ExecutionExceptionFilter::for_timeout())
        .with_try(Throw::new(ExecutionException::timeout()))
        .with_catch(Throw::new(ExecutionException::user(1)));
    assert_eq!(action.init(), ExecutionState::Ready);
    assert_eq!(action.start(&mut ctx), ExecutionState::Running);
    // the timeout is caught, and the catch throws user(1)
    assert_eq!(
        action.update(period, &mut ctx),
        (0, UpdateResult::Interruption(ExecutionInterruption::Exception(ExecutionException::user(1))))
    );
    assert_eq!(action.finalize(&mut ctx), ExecutionState::Completed);
    assert_eq!(action.terminate(), ExecutionState::Terminated);
}

#[test]
fn test_throw_after_timeout() {
    let mut ctx = ExecutionContext::inline();
    let mut action = Throw::timeout(20 * MS);
    assert_eq!(action.init(), ExecutionState::Ready);
    assert_eq!(action.start(&mut ctx), ExecutionState::Running);
    assert_eq!(action.update(15 * MS, &mut ctx), (15 * MS, UpdateResult::Busy));
    assert_eq!(
        action.update(15 * MS, &mut ctx),
        (5 * MS, UpdateResult::Interruption(ExecutionInterruption::Exception(ExecutionException::timeout())))
    );
}

//
// Loops
//

#[test]
fn test_loop_stm() {
    test_state_machine(
        || -> Box<dyn Action> { Loop::new().with_body(Break::new()) },
        (0, UpdateResult::Complete),
        (0, UpdateResult::Complete),
    );
}

#[test]
fn test_for_stm() {
    test_state_machine(
        || -> Box<dyn Action> {
            For::new(
                Arc::new(VariableStorage::new(0i64)),
                Arc::new(Constant::new(0i64)),
                Arc::new(Constant::new(10i64)),
            )
            .with_body(Nop::new())
        },
        (0, UpdateResult::Complete),
        (0, UpdateResult::Complete),
    );
}

#[test]
fn test_for_counts_iterator_to_end() {
    let mut ctx = ExecutionContext::inline();
    let iter = Arc::new(VariableStorage::new(0i64));
    let mut action = For::new(iter.clone(), Arc::new(Constant::new(3i64)), Arc::new(Constant::new(7i64)))
        .with_body(Sleep::new(MS));
    assert_eq!(action.init(), ExecutionState::Ready);
    assert_eq!(action.start(&mut ctx), ExecutionState::Running);
    assert_eq!(iter.read(), 3);
    for _ in 0..3 {
        assert_eq!(action.update(MS, &mut ctx), (MS, UpdateResult::Busy));
    }
    assert_eq!(action.update(MS, &mut ctx), (MS, UpdateResult::Complete));
    assert_eq!(iter.read(), 7);
}

#[test]
fn test_for_range_runs_count_rounds() {
    let mut ctx = ExecutionContext::inline();
    let mut action = For::range(3).with_body(Sleep::new(MS));
    assert_eq!(action.init(), ExecutionState::Ready);
    assert_eq!(action.start(&mut ctx), ExecutionState::Running);
    assert_eq!(action.update(MS, &mut ctx), (MS, UpdateResult::Busy));
    assert_eq!(action.update(MS, &mut ctx), (MS, UpdateResult::Busy));
    assert_eq!(action.update(MS, &mut ctx), (MS, UpdateResult::Complete));
}

#[test]
fn test_break_outside_loop_interrupts() {
    let mut ctx = ExecutionContext::inline();
    let mut action = Break::new();
    assert_eq!(action.init(), ExecutionState::Ready);
    assert_eq!(action.start(&mut ctx), ExecutionState::Running);
    assert_eq!(action.update(MS, &mut ctx), (0, UpdateResult::Interruption(ExecutionInterruption::Break)));
}

//
// Flows
//

#[test]
fn test_sequence_stm() {
    test_state_machine(
        || -> Box<dyn Action> { Sequence::new().with_step(Nop::new()).with_step(Nop::new()) },
        (0, UpdateResult::Complete),
        (0, UpdateResult::Complete),
    );
}

#[test]
fn test_sequence() {
    let mut ctx = ExecutionContext::inline();

    let my_variable = Arc::new(VariableStorage::new(0i64));
    let my_condition = Arc::new(VariableStorage::new(false));
    let period = 10 * MS;

    let mut seq = Sequence::new()
        .with_step(Sleep::new(100 * MS))
        .with_step(Nop::new())
        .with_step(
            For::new(my_variable.clone(), Arc::new(Constant::new(0i64)), Arc::new(Constant::new(10i64)))
                .with_body(Sleep::new(10 * MS)),
        )
        .with_step(
            IfThenElse::new(Arc::new(Not::<bool, VariableStorage<bool>>::new(my_condition.clone())))
                .with_then(Nop::new()),
        );

    assert_eq!(seq.init(), ExecutionState::Ready);
    assert_eq!(seq.start(&mut ctx), ExecutionState::Running);

    // 10 updates for the first sleep(100ms)
    for _ in 0..10 {
        assert_eq!(seq.update(period, &mut ctx), (period, UpdateResult::Busy));
    }

    // 9 updates for the loop 0..10 { sleep(10ms) }
    for _ in 0..9 {
        assert_eq!(seq.update(period, &mut ctx), (period, UpdateResult::Busy));
    }

    // the sequence ends with the final update
    assert_eq!(seq.update(period, &mut ctx), (period, UpdateResult::Complete));
    assert_eq!(seq.finalize(&mut ctx), ExecutionState::Completed);
    assert_eq!(seq.terminate(), ExecutionState::Terminated);
}

#[test]
fn test_concurrency_stm() {
    test_state_machine(
        || -> Box<dyn Action> { Concurrency::new().with_branch(Nop::new()).with_branch(Nop::new()) },
        (0, UpdateResult::Complete),
        (0, UpdateResult::Complete),
    );
}

#[test]
fn test_concurrency() {
    let mut ctx = ExecutionContext::inline();
    let period = 10 * MS;

    let mut action = Concurrency::new()
        .with_branch(Sleep::new(100 * MS))
        .with_branch(Sleep::new(110 * MS));
    assert_eq!(action.init(), ExecutionState::Ready);
    assert_eq!(action.start(&mut ctx), ExecutionState::Running);

    for _ in 0..9 {
        assert_eq!(action.update(period, &mut ctx), (period, UpdateResult::Busy));
    }

    // the first branch ends, the second is still busy
    assert_eq!(action.update(period, &mut ctx), (period, UpdateResult::Busy));

    // now the concurrency ends
    assert_eq!(action.update(period, &mut ctx), (period, UpdateResult::Complete));
    assert_eq!(action.finalize(&mut ctx), ExecutionState::Completed);
    assert_eq!(action.terminate(), ExecutionState::Terminated);
}

#[test]
fn test_computation_stm() {
    test_state_machine(
        || -> Box<dyn Action> { Computation::new().with_branch(Nop::new()).with_branch(Nop::new()) },
        (0, UpdateResult::Complete),
        (0, UpdateResult::Complete),
    );
}

#[test]
fn test_computation() {
    let mut ctx = ExecutionContext::inline();
    let period = 10 * MS;

    {
        // computation { sleep(30ms), throw Timeout after 20ms }
        let mut action = Computation::new()
            .with_branch(Sleep::new(30 * MS))
            .with_branch(Throw::timeout(20 * MS));
        assert_eq!(action.init(), ExecutionState::Ready);
        assert_eq!(action.start(&mut ctx), ExecutionState::Running);
        assert_eq!(action.update(period, &mut ctx), (period, UpdateResult::Busy));
        assert_eq!(
            action.update(period, &mut ctx),
            (period, UpdateResult::Interruption(ExecutionInterruption::Exception(ExecutionException::timeout())))
        );
        assert_eq!(action.finalize(&mut ctx), ExecutionState::Completed);
        assert_eq!(action.terminate(), ExecutionState::Terminated);
    }

    {
        // computation { sleep(20ms), throw Timeout after 30ms }
        let mut action = Computation::new()
            .with_branch(Sleep::new(20 * MS))
            .with_branch(Throw::timeout(30 * MS));
        assert_eq!(action.init(), ExecutionState::Ready);
        assert_eq!(action.start(&mut ctx), ExecutionState::Running);
        assert_eq!(action.update(period, &mut ctx), (period, UpdateResult::Busy));
        assert_eq!(action.update(period, &mut ctx), (period, UpdateResult::Complete));
        assert_eq!(action.finalize(&mut ctx), ExecutionState::Completed);
        assert_eq!(action.terminate(), ExecutionState::Terminated);
    }
}

#[test]
fn test_sequence_add_step_only_before_init() {
    let mut seq = Sequence::new();
    assert!(seq.add_step(Nop::new()).is_ok());
    assert_eq!(seq.init(), ExecutionState::Ready);
    let err = seq.add_step(Nop::new()).unwrap_err();
    assert_eq!(err.code, qor_rto::errors::INVALID_STATE);
}
