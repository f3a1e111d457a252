use std::sync::Arc;

use qor_rto::executor::decimal_text;
use qor_rto::expressions::Constant;
use qor_rto::task::{handle_cancel_outcome, TaskState};
use qor_rto::variables::VariableStorage;
use qor_rto::actions::exceptions::{Throw, TryCatch};
use qor_rto::actions::flows::{Computation, Concurrency, Sequence};
use qor_rto::actions::loops::{Break, For, Loop};
use qor_rto::actions::nop::Nop;
use qor_rto::actions::rounds::{
    branch_next, catch_report, loop_next, sequence_next, try_next, BranchNext, Next,
};
use qor_rto::actions::sync::Sleep;
use qor_rto::actions::{Action, ExecutionContext};
use qor_rto::base::{ExecutionState, ExecutionTransition};
use qor_rto::errors::THREAD_JOIN_ERROR;
use qor_rto::exception::{
    ExecutionException, ExecutionExceptionFilter, ExecutionInterruption, UpdateResult,
};
use qor_rto::executor::{count_join_failure, state_message, EngineLifecycle};
use qor_rto::program::{fiber_next, FiberAction};

const MS: u64 = 1_000_000;

fn timeout() -> UpdateResult {
    UpdateResult::Interruption(ExecutionInterruption::Exception(ExecutionException::timeout()))
}

#[test]
fn test_sequence_next_decisions() {
    // a busy step makes the sequence busy, with the time used so far
    assert_eq!(sequence_next(10, 5, 3, UpdateResult::Busy), Next::Report(8, UpdateResult::Busy));
    // a finished step leaves the time that remains for the next
    assert_eq!(sequence_next(10, 5, 3, UpdateResult::Complete), Next::Finished(7, 8));
    assert_eq!(sequence_next(10, 5, 0, UpdateResult::Ready), Next::Finished(10, 5));
    // a break passes on to the loop around the sequence
    let brk = UpdateResult::Interruption(ExecutionInterruption::Break);
    assert_eq!(sequence_next(10, 0, 0, brk), Next::Report(0, brk));
    assert_eq!(sequence_next(10, 1, 2, UpdateResult::Error), Next::Report(3, UpdateResult::Error));
}

#[test]
fn test_loop_next_decisions() {
    let brk = UpdateResult::Interruption(ExecutionInterruption::Break);
    // a break completes the loop
    assert_eq!(loop_next(10, 4, 2, brk), Next::Report(6, UpdateResult::Complete));
    // other interruptions pass on
    assert_eq!(loop_next(10, 4, 2, timeout()), Next::Report(6, timeout()));
    assert_eq!(loop_next(10, 4, 2, UpdateResult::Busy), Next::Report(6, UpdateResult::Busy));
    assert_eq!(loop_next(10, 4, 2, UpdateResult::Complete), Next::Finished(8, 6));
}

#[test]
fn test_try_next_decisions() {
    let all = ExecutionExceptionFilter::for_all();
    let user = ExecutionExceptionFilter::for_exception(ExecutionException::user(1));
    // a caught exception hands the remaining time to the catch action
    assert_eq!(try_next(&all, true, 10, 4, timeout()), Next::Finished(6, 4));
    // without catch action it completes
    assert_eq!(try_next(&all, false, 10, 4, timeout()), Next::Report(4, UpdateResult::Complete));
    // an exception the filter does not catch passes on
    assert_eq!(try_next(&user, true, 10, 4, timeout()), Next::Report(4, timeout()));
    // a break is no exception: it passes on, even a catch-all
    let brk = UpdateResult::Interruption(ExecutionInterruption::Break);
    assert_eq!(try_next(&all, true, 10, 0, brk), Next::Report(0, brk));
    assert_eq!(try_next(&all, true, 10, 10, UpdateResult::Ready), Next::Report(10, UpdateResult::Complete));
    // the catch action's report: a completion completes, the rest passes on
    assert_eq!(catch_report(4, 6, UpdateResult::Ready), (10, UpdateResult::Complete));
    assert_eq!(catch_report(4, 0, timeout()), (4, timeout()));
}

#[test]
fn test_branch_next_decisions() {
    // the time used is the longest branch
    assert_eq!(branch_next(false, 7, 3, UpdateResult::Busy, false), BranchNext::Go(true, 7, false));
    // a concurrency finalizes a completed branch and goes on
    assert_eq!(branch_next(true, 0, 3, UpdateResult::Complete, false), BranchNext::Go(true, 3, true));
    // a computation completes at once
    assert_eq!(branch_next(true, 0, 3, UpdateResult::Complete, true), BranchNext::Report(3, UpdateResult::Complete));
    // a ready branch of a computation keeps running
    assert_eq!(branch_next(false, 5, 3, UpdateResult::Ready, true), BranchNext::Go(false, 5, false));
    assert_eq!(branch_next(false, 5, 3, UpdateResult::Error, true), BranchNext::Report(5, UpdateResult::Error));
}

#[test]
fn test_fiber_next_decisions() {
    assert_eq!(fiber_next(UpdateResult::Ready), FiberAction::Finalize);
    assert_eq!(fiber_next(UpdateResult::Complete), FiberAction::Finalize);
    assert_eq!(fiber_next(UpdateResult::Busy), FiberAction::Wait);
    assert_eq!(fiber_next(timeout()), FiberAction::Finalize);
    assert_eq!(fiber_next(UpdateResult::Error), FiberAction::Terminate);
}

#[test]
fn test_state_names_and_messages() {
    assert_eq!(ExecutionState::Ready.name(), "Ready");
    assert_eq!(ExecutionState::Error(ExecutionTransition::Init).name(), "Error(>Init)");
    assert_eq!(ExecutionTransition::Finalize.name(), ">Finalize");
    assert_eq!(
        state_message("Cannot join engine in state `", ExecutionState::Error(ExecutionTransition::Start), "`"),
        "Cannot join engine in state `Error(>Start)`"
    );
}

#[test]
fn test_engine_error_messages() {
    let mut engine = EngineLifecycle::new();
    let err = engine.begin_join().unwrap_err();
    assert_eq!(err.message, "Cannot join uninitialized engine");
    assert!(engine.init().is_ok());
    let err = engine.init().unwrap_err();
    assert_eq!(err.message, "Cannot initialize engine from `Ready` state");
    assert!(engine.check_start().is_ok());
    engine.set_running();
    let err = engine.check_start().unwrap_err();
    assert_eq!(err.message, "Cannot start engine while in state `Running`");
    assert_eq!(engine.begin_join().unwrap(), None);
    assert_eq!(engine.end_join(0).unwrap(), ExecutionState::Completed);
    // a completed engine keeps its stop signal
    assert!(engine.stop_signal());
    let err = engine.check_start().unwrap_err();
    assert_eq!(err.message, "Cannot start engine while stop signal is set");
}

#[test]
fn test_join_failures_count() {
    assert_eq!(count_join_failure(0, THREAD_JOIN_ERROR), 2);
    assert_eq!(count_join_failure(3, 1), 4);
    assert_eq!(count_join_failure(usize::MAX, THREAD_JOIN_ERROR), usize::MAX);
}

#[test]
fn test_sequence_init_failure_reports_init() {
    let mut step = Nop::new();
    assert_eq!(step.init(), ExecutionState::Ready);
    let mut sequence = Sequence::new().with_step(step);
    assert_eq!(sequence.init(), ExecutionState::Error(ExecutionTransition::Init));
    assert_eq!(sequence.state(), ExecutionState::Error(ExecutionTransition::Init));
}

#[test]
fn test_try_catch_catch_gets_remaining_time() {
    let mut ctx = ExecutionContext::inline();
    // the try action uses 5ms and throws; the catch action sleeps the remaining 5ms
    let mut action = TryCatch::catch_all().with_try(Throw::timeout(5 * MS)).with_catch(Sleep::new(20 * MS));
    assert_eq!(action.init(), ExecutionState::Ready);
    assert_eq!(action.start(&mut ctx), ExecutionState::Running);
    assert_eq!(action.update(10 * MS, &mut ctx), (10 * MS, UpdateResult::Busy));
}

#[test]
fn test_try_catch_swallows_without_catch() {
    let mut ctx = ExecutionContext::inline();
    let mut action = TryCatch::catch_all().with_try(Throw::new(ExecutionException::timeout()));
    assert_eq!(action.init(), ExecutionState::Ready);
    assert_eq!(action.start(&mut ctx), ExecutionState::Running);
    assert_eq!(action.update(10 * MS, &mut ctx), (0, UpdateResult::Complete));
    assert_eq!(action.finalize(&mut ctx), ExecutionState::Completed);
}

#[test]
fn test_try_catch_passes_break() {
    let mut ctx = ExecutionContext::inline();
    let mut action = TryCatch::catch_all().with_try(Break::new()).with_catch(Sleep::new(20 * MS));
    assert_eq!(action.init(), ExecutionState::Ready);
    assert_eq!(action.start(&mut ctx), ExecutionState::Running);
    assert_eq!(
        action.update(10 * MS, &mut ctx),
        (0, UpdateResult::Interruption(ExecutionInterruption::Break))
    );
}

#[test]
fn test_loop_breaks_and_for_range_breaks() {
    let mut ctx = ExecutionContext::inline();
    let mut action = Loop::new().with_body(Break::new());
    assert_eq!(action.init(), ExecutionState::Ready);
    assert_eq!(action.start(&mut ctx), ExecutionState::Running);
    assert_eq!(action.update(10 * MS, &mut ctx), (0, UpdateResult::Complete));

    // a break ends a counted loop early, and completes it
    let mut action = For::range(5).with_body(Break::new());
    assert_eq!(action.init(), ExecutionState::Ready);
    assert_eq!(action.start(&mut ctx), ExecutionState::Running);
    assert_eq!(action.update(10 * MS, &mut ctx), (0, UpdateResult::Complete));
}

#[test]
fn test_sequence_hands_remaining_time_to_next_step() {
    let mut ctx = ExecutionContext::inline();
    let mut action = Sequence::new().with_step(Sleep::new(4 * MS)).with_step(Sleep::new(20 * MS));
    assert_eq!(action.init(), ExecutionState::Ready);
    assert_eq!(action.start(&mut ctx), ExecutionState::Running);
    // the first step uses 4ms, the second gets the 6ms left
    assert_eq!(action.update(10 * MS, &mut ctx), (10 * MS, UpdateResult::Busy));
    assert_eq!(action.update(14 * MS, &mut ctx), (14 * MS, UpdateResult::Complete));
}

#[test]
fn test_branches_use_longest_time() {
    let mut ctx = ExecutionContext::inline();
    let mut action = Concurrency::new().with_branch(Sleep::new(4 * MS)).with_branch(Sleep::new(20 * MS));
    assert_eq!(action.init(), ExecutionState::Ready);
    assert_eq!(action.start(&mut ctx), ExecutionState::Running);
    assert_eq!(action.update(10 * MS, &mut ctx), (10 * MS, UpdateResult::Busy));
    assert_eq!(action.update(10 * MS, &mut ctx), (10 * MS, UpdateResult::Complete));

    // the first branch to complete completes a computation
    let mut action = Computation::new().with_branch(Sleep::new(20 * MS)).with_branch(Sleep::new(4 * MS));
    assert_eq!(action.init(), ExecutionState::Ready);
    assert_eq!(action.start(&mut ctx), ExecutionState::Running);
    assert_eq!(action.update(10 * MS, &mut ctx), (10 * MS, UpdateResult::Complete));
}

#[test]
fn test_task_queue_holds_its_capacity() {
    let mut queue: qor_rto::queue::TaskQueue<u32> = qor_rto::queue::TaskQueue::with_capacity(8);
    assert_eq!(queue.capacity(), 8);
    for i in 0..8 {
        assert!(queue.push(i).is_ok());
    }
    assert!(queue.push(8).is_err());
    assert_eq!(queue.pop(), Some(0));
}

#[test]
fn test_program_main_fiber() {
    let program = qor_rto::program::Program::new();
    assert!(!program.has_main_fiber());
    let program = program.with_action(Nop::new());
    assert!(program.has_main_fiber());
}

#[test]
fn test_handle_cancel_needs_handler() {
    // without a cancellation handler, a handle's cancel request does nothing
    assert_eq!(handle_cancel_outcome(TaskState::Scheduled, false, None), (None, false));
    assert_eq!(handle_cancel_outcome(TaskState::Running, false, None), (None, false));
    // with one, a scheduled task is cancelled and a running one asks the handler
    assert_eq!(handle_cancel_outcome(TaskState::Scheduled, true, None), (Some(TaskState::Cancelled), true));
    assert_eq!(handle_cancel_outcome(TaskState::Running, true, Some(true)), (Some(TaskState::Cancelling), true));
    assert_eq!(handle_cancel_outcome(TaskState::Running, true, Some(false)), (None, false));
}

#[test]
fn test_decimal_text_and_join_message() {
    assert_eq!(decimal_text(0), "0");
    assert_eq!(decimal_text(7), "7");
    assert_eq!(decimal_text(1203), "1203");
    let mut engine = EngineLifecycle::new();
    assert!(engine.init().is_ok());
    assert_eq!(engine.begin_join().unwrap(), None);
    let err = engine.end_join(3).unwrap_err();
    assert_eq!(err.code, THREAD_JOIN_ERROR);
    assert_eq!(err.message, "3 threads failed to join");
}

#[test]
fn test_for_with_empty_range_runs_no_round() {
    let mut ctx = ExecutionContext::inline();
    let iter = Arc::new(VariableStorage::new(7i64));
    let mut action = For::new(iter.clone(), Arc::new(Constant::new(5i64)), Arc::new(Constant::new(5i64)))
        .with_body(Sleep::new(10 * MS));
    assert_eq!(action.init(), ExecutionState::Ready);
    assert_eq!(action.start(&mut ctx), ExecutionState::Running);
    // the start resets the iterator to the begin value
    assert_eq!(iter.read(), 5);
    // with the iterator at the end no round runs and no time is used
    assert_eq!(action.update(10 * MS, &mut ctx), (0, UpdateResult::Complete));
    assert_eq!(action.finalize(&mut ctx), ExecutionState::Completed);
}

#[test]
fn test_for_runs_all_rounds_in_one_update() {
    let mut ctx = ExecutionContext::inline();
    let iter = Arc::new(VariableStorage::new(0i64));
    let mut action = For::new(iter.clone(), Arc::new(Constant::new(0i64)), Arc::new(Constant::new(10i64)))
        .with_body(Nop::new());
    assert_eq!(action.init(), ExecutionState::Ready);
    assert_eq!(action.start(&mut ctx), ExecutionState::Running);
    assert_eq!(action.update(0, &mut ctx), (0, UpdateResult::Complete));
    assert_eq!(iter.read(), 10);
}
