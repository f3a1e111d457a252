use qor_rto::actions::loops::Break;
use qor_rto::actions::nop::Nop;
use qor_rto::actions::routines::Invoke;
use qor_rto::actions::sync::Sleep;
use qor_rto::actions::ExecutionContext;
use qor_rto::base::{ExecutionState, ExecutionTransition, Nanos};
use qor_rto::errors::{INVALID_STATE, PROGRAM_FIBER_FAILED};
use qor_rto::exception::{ExecutionInterruption, UpdateResult};
use qor_rto::program::{
    catch_up, finish_fibers, init_fibers, run_cycle, run_program, start_fibers, Fiber, Program,
    CYCLE_PERIOD,
};

const MS: Nanos = 1_000_000;

fn test_state_machine_fiber(
    fab: impl Fn() -> Fiber,
    expected_zero: (Nanos, UpdateResult),
    expected_ten: (Nanos, UpdateResult),
) {
    let mut ctx = ExecutionContext::inline();

    // good: normal execution
    {
        let mut sut = fab();
        assert_eq!(sut.init(), ExecutionState::Ready);
        assert_eq!(sut.start(&mut ctx), ExecutionState::Running);
        assert_eq!(sut.update(0, &mut ctx), expected_zero);
        assert_eq!(sut.finalize(&mut ctx), ExecutionState::Completed);
        assert_eq!(sut.terminate(), ExecutionState::Terminated);
    }

    // good: terminate without start
    {
        let mut sut = fab();
        assert_eq!(sut.init(), ExecutionState::Ready);
        assert_eq!(sut.terminate(), ExecutionState::Terminated);
    }

    // good: finalize without update
    {
        let mut sut = fab();
        assert_eq!(sut.init(), ExecutionState::Ready);
        assert_eq!(sut.start(&mut ctx), ExecutionState::Running);
        assert_eq!(sut.finalize(&mut ctx), ExecutionState::Completed);
        assert_eq!(sut.terminate(), ExecutionState::Terminated);
    }

    // good: (start-update-finalize) twice
    {
        let mut sut = fab();
        assert_eq!(sut.init(), ExecutionState::Ready);
        assert_eq!(sut.start(&mut ctx), ExecutionState::Running);
        assert_eq!(sut.update(0, &mut ctx), expected_zero);
        assert_eq!(sut.finalize(&mut ctx), ExecutionState::Completed);
        assert_eq!(sut.start(&mut ctx), ExecutionState::Running);
        assert_eq!(sut.update(10 * MS, &mut ctx), expected_ten);
        assert_eq!(sut.finalize(&mut ctx), ExecutionState::Completed);
        assert_eq!(sut.terminate(), ExecutionState::Terminated);
    }

    // wrong: init after start
    {
        let mut sut = fab();
        assert_eq!(sut.init(), ExecutionState::Ready);
        assert_eq!(sut.start(&mut ctx), ExecutionState::Running);
        assert_eq!(sut.init(), ExecutionState::Error(ExecutionTransition::Init));
    }

    // wrong: init after finalize
    {
        let mut sut = fab();
        assert_eq!(sut.init(), ExecutionState::Ready);
        assert_eq!(sut.start(&mut ctx), ExecutionState::Running);
        assert_eq!(sut.finalize(&mut ctx), ExecutionState::Completed);
        assert_eq!(sut.init(), ExecutionState::Error(ExecutionTransition::Init));
    }

    // wrong: start without init
    {
        let mut sut = fab();
        assert_eq!(sut.start(&mut ctx), ExecutionState::Error(ExecutionTransition::Start));
    }

    // wrong: start after start
    {
        let mut sut = fab();
        assert_eq!(sut.init(), ExecutionState::Ready);
        assert_eq!(sut.start(&mut ctx), ExecutionState::Running);
        assert_eq!(sut.start(&mut ctx), ExecutionState::Error(ExecutionTransition::Start));
    }

    // wrong: update without init
    {
        let mut sut = fab();
        assert_eq!(sut.update(0, &mut ctx), (0, UpdateResult::Error));
    }

    // wrong: update without start
    {
        let mut sut = fab();
        assert_eq!(sut.init(), ExecutionState::Ready);
        assert_eq!(sut.update(0, &mut ctx), (0, UpdateResult::Error));
    }

    // wrong: finalize without init
    {
        let mut sut = fab();
        assert_eq!(sut.finalize(&mut ctx), ExecutionState::Error(ExecutionTransition::Finalize));
    }

    // wrong: finalize without start
    {
        let mut sut = fab();
        assert_eq!(sut.init(), ExecutionState::Ready);
        assert_eq!(sut.finalize(&mut ctx), ExecutionState::Error(ExecutionTransition::Finalize));
    }

    // wrong: double finalize
    {
        let mut sut = fab();
        assert_eq!(sut.init(), ExecutionState::Ready);
        assert_eq!(sut.start(&mut ctx), ExecutionState::Running);
        assert_eq!(sut.update(0, &mut ctx), expected_zero);
        assert_eq!(sut.finalize(&mut ctx), ExecutionState::Completed);
        assert_eq!(sut.finalize(&mut ctx), ExecutionState::Error(ExecutionTransition::Finalize));
    }

    // wrong: terminate without init
    {
        let mut sut = fab();
        assert_eq!(sut.terminate(), ExecutionState::Error(ExecutionTransition::Terminate));
    }

    // wrong: terminate on terminate
    {
        let mut sut = fab();
        assert_eq!(sut.init(), ExecutionState::Ready);
        assert_eq!(sut.start(&mut ctx), ExecutionState::Running);
        assert_eq!(sut.update(0, &mut ctx), expected_zero);
        assert_eq!(sut.finalize(&mut ctx), ExecutionState::Completed);
        assert_eq!(sut.terminate(), ExecutionState::Terminated);
        assert_eq!(sut.terminate(), ExecutionState::Error(ExecutionTransition::Terminate));
    }
}

#[test]
fn test_fiber_stm() {
    // with a Nop
    test_state_machine_fiber(
        || Fiber::new().with_action(Nop::new()),
        (0, UpdateResult::Complete),
        (0, UpdateResult::Complete),
    );

    // with a Sleep
    test_state_machine_fiber(
        || Fiber::new().with_action(Sleep::new(10 * MS)),
        (0, UpdateResult::Busy),
        (10 * MS, UpdateResult::Complete),
    );

    let ctx = &mut ExecutionContext::inline();

    // with an uncaught interruption
    let mut fiber = Fiber::new().with_action(Break::new());
    assert_eq!(fiber.init(), ExecutionState::Ready);
    assert_eq!(fiber.start(ctx), ExecutionState::Running);
    assert_eq!(fiber.update(0, ctx), (0, UpdateResult::Error));
    assert_eq!(fiber.uncaught(), Some(ExecutionInterruption::Break));
    assert_eq!(fiber.finalize(ctx), ExecutionState::Error(ExecutionTransition::Finalize));
    assert_eq!(fiber.terminate(), ExecutionState::Terminated);
}

#[test]
fn test_fiber_without_action_completes() {
    let ctx = &mut ExecutionContext::inline();
    let mut fiber = Fiber::new();
    assert_eq!(fiber.init(), ExecutionState::Ready);
    assert_eq!(fiber.start(ctx), ExecutionState::Running);
    assert_eq!(fiber.update(10 * MS, ctx), (0, UpdateResult::Complete));
    assert_eq!(fiber.finalize(ctx), ExecutionState::Completed);
}

#[test]
fn test_catch_up_values() {
    // logical time ahead of the clock stays
    assert_eq!(catch_up(20, 10, 10), 20);
    // behind: advanced by whole periods past the clock time
    assert_eq!(catch_up(0, 25, 10), 30);
    assert_eq!(catch_up(0, 30, 10), 40);
    assert_eq!(catch_up(10, 0, 10), 10);
}

#[test]
fn test_run_cycle_ends_with_main_fiber() {
    let ctx = &mut ExecutionContext::inline();
    let mut fibers = vec![
        Fiber::new().with_action(Sleep::new(2 * CYCLE_PERIOD)),
        Fiber::new().with_action(Sleep::new(5 * CYCLE_PERIOD)),
    ];
    assert!(init_fibers(&mut fibers));
    start_fibers(&mut fibers, ctx);
    assert!(!run_cycle(&mut fibers, CYCLE_PERIOD, ctx));
    assert!(run_cycle(&mut fibers, CYCLE_PERIOD, ctx));
    assert_eq!(fibers[0].state(), ExecutionState::Completed);
    assert_eq!(fibers[1].state(), ExecutionState::Running);
    finish_fibers(&mut fibers, ctx);
    assert_eq!(fibers[0].state(), ExecutionState::Terminated);
    assert_eq!(fibers[1].state(), ExecutionState::Terminated);
}

#[test]
fn test_run_cycle_terminates_failed_fiber() {
    let ctx = &mut ExecutionContext::inline();
    let mut fibers = vec![Fiber::new().with_action(Invoke::new(|_| (0, UpdateResult::Error)))];
    assert!(init_fibers(&mut fibers));
    start_fibers(&mut fibers, ctx);
    assert!(!run_cycle(&mut fibers, CYCLE_PERIOD, ctx));
    assert_eq!(fibers[0].state(), ExecutionState::Error(ExecutionTransition::Terminate));
}

#[test]
fn test_run_program_counts_cycles() {
    let ctx = &mut ExecutionContext::inline();
    let mut fibers = vec![
        Fiber::new().with_action(Sleep::new(3 * CYCLE_PERIOD)),
        Fiber::new().with_action(Sleep::new(100 * CYCLE_PERIOD)),
    ];
    assert!(init_fibers(&mut fibers));
    assert_eq!(run_program(&mut fibers, ctx), 2);
    assert_eq!(fibers[0].state(), ExecutionState::Terminated);
    assert_eq!(fibers[1].state(), ExecutionState::Terminated);
    // the inline clock advanced by the periods slept
    assert_eq!(ctx.now(), 2 * CYCLE_PERIOD);
}

#[test]
fn test_program_prepare_and_run() {
    let ctx = &mut ExecutionContext::inline();
    let mut program = Program::new().with_action(Sleep::new(5 * MS));
    assert_eq!(program.state(), ExecutionState::Uninitialized);
    assert!(program.prepare().is_ok());
    assert_eq!(program.state(), ExecutionState::Ready);
    assert!(program.run(ctx).is_ok());

    // a prepared program is not prepared again
    let err = program.prepare().unwrap_err();
    assert_eq!(err.code, INVALID_STATE);
}

#[test]
fn test_program_fiber_that_fails_init() {
    let mut fiber = Fiber::new().with_action(Nop::new());
    assert_eq!(fiber.init(), ExecutionState::Ready);
    let mut program = Program::new().with_fiber(fiber);
    let err = program.prepare().unwrap_err();
    assert_eq!(err.code, PROGRAM_FIBER_FAILED);
    assert_eq!(program.state(), ExecutionState::Uninitialized);
}

#[test]
fn test_program() {
    let ctx = &mut ExecutionContext::inline();

    let mut program = Program::new().with_action(Sleep::new(5_000 * MS));
    assert_eq!(program.state(), ExecutionState::Uninitialized);

    assert!(program.prepare().is_ok());
    let result = program.run(ctx);
    assert!(result.is_ok());
    // the logical clock of the inline context advanced by the sleep's cycles
    assert_eq!(ctx.now(), 5_000 * MS - CYCLE_PERIOD);
}

struct MeasureState {
    now: std::time::Instant,
    turns: u32,
    samples: Vec<std::time::Duration>,
}

impl MeasureState {
    fn new(turns: u32) -> Self {
        Self { now: std::time::Instant::now(), turns, samples: Vec::new() }
    }

    fn update(&mut self, delta: Nanos) -> (Nanos, UpdateResult) {
        let now = std::time::Instant::now();
        let elapsed = now.saturating_duration_since(self.now);
        self.now = now;
        self.samples.push(elapsed);
        let elapsed = u64::try_from(elapsed.as_nanos()).unwrap_or(u64::MAX).min(delta);
        if self.turns > 0 {
            self.turns -= 1;
            (elapsed, UpdateResult::Busy)
        } else {
            (elapsed, UpdateResult::Complete)
        }
    }
}

#[test]
fn test_program_timebox() {
    let ctx = &mut ExecutionContext::inline();

    let mut measure_state = MeasureState::new(500);
    let mut program = Program::new().with_action(Invoke::new(move |delta| measure_state.update(delta)));
    assert_eq!(program.state(), ExecutionState::Uninitialized);

    assert!(program.prepare().is_ok());
    let result = program.run(ctx);
    assert!(result.is_ok());
    // 500 busy cycles, then the completing one
    assert_eq!(ctx.now(), 500 * CYCLE_PERIOD);
}
