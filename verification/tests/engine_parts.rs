use qor_rto::base::{ExecutionState, ExecutionTransition};
use qor_rto::errors::{
    COLLECTION_FULL, INVALID_OPERATION, TASK_EMPTY_RESULT, THREAD_JOIN_ERROR, UNSUPPORTED_FEATURE,
};
use qor_rto::executor::{
    clamp, period_of, thread_step, EngineBuilder, EngineLifecycle, Tag, ThreadState, ThreadStep,
    DEFAULT_TASKS, DEFAULT_THREADS, MAX_TASKS, MAX_THREADS, MIN_TASKS,
};
use qor_rto::queue::TaskQueue;
use qor_rto::task::{asks_cancel_handler, cancel_outcome, default_progress, join_step, TaskState};

#[test]
fn test_engine_stm() {
    const NTHREADS: usize = 2;
    const NTASKS: usize = 32;

    let config = EngineBuilder::new().with_threads(NTHREADS).with_tasks(NTASKS).build().unwrap();
    assert_eq!(config.nthreads, NTHREADS);
    assert_eq!(config.ntasks, NTASKS);

    let mut engine = EngineLifecycle::new();
    assert_eq!(engine.state(), ExecutionState::Uninitialized);
    assert!(!engine.is_running());
    assert!(!engine.is_terminating());

    // wrong: join an uninitialized engine
    let err = engine.begin_join().unwrap_err();
    assert_eq!(err.code, INVALID_OPERATION);
    assert_eq!(err.message, "Cannot join uninitialized engine");

    // good: initialize
    assert_eq!(engine.init().unwrap(), ExecutionState::Ready);
    assert_eq!(engine.state(), ExecutionState::Ready);
    assert!(!engine.is_running());
    assert!(!engine.is_terminating());

    // wrong: initialize again
    let err = engine.init().unwrap_err();
    assert_eq!(err.code, INVALID_OPERATION);
    assert_eq!(err.message, "Cannot initialize engine from `Ready` state");

    // good: reset
    assert_eq!(engine.reset().unwrap(), false);
    assert_eq!(engine.state(), ExecutionState::Ready);

    // good: start
    assert!(engine.check_start().is_ok());
    assert_eq!(engine.set_running(), ExecutionState::Running);
    assert_eq!(engine.state(), ExecutionState::Running);
    assert!(engine.is_running());
    assert!(!engine.is_terminating());

    // wrong: start again
    let err = engine.check_start().unwrap_err();
    assert_eq!(err.code, INVALID_OPERATION);
    assert_eq!(err.message, "Cannot start engine while in state `Running`");

    // shutdown in phases
    assert!(engine.signal_stop().is_ok());
    assert_eq!(engine.state(), ExecutionState::Running);
    assert!(!engine.is_running());
    assert!(engine.is_terminating());
    assert!(engine.begin_join().unwrap().is_none());
    assert_eq!(engine.end_join(0).unwrap(), ExecutionState::Completed);
    assert_eq!(engine.state(), ExecutionState::Completed);
    assert!(!engine.is_running());
    assert!(!engine.is_terminating());

    // good: terminate
    assert_eq!(engine.terminate(ExecutionState::Completed), ExecutionState::Terminated);
    assert_eq!(engine.state(), ExecutionState::Terminated);
    assert!(!engine.is_running());
    assert!(!engine.is_terminating());
}

#[test]
fn test_engine_reset_of_running_engine() {
    let mut engine = EngineLifecycle::new();
    assert!(engine.reset().is_err());
    assert!(engine.init().is_ok());
    assert!(engine.check_start().is_ok());
    engine.set_running();
    assert_eq!(engine.reset().unwrap(), true);
    assert_eq!(engine.state(), ExecutionState::Ready);
}

#[test]
fn test_engine_join_errors() {
    let mut engine = EngineLifecycle::new();
    assert!(engine.init().is_ok());
    assert!(engine.begin_join().unwrap().is_none());
    let err = engine.end_join(2).unwrap_err();
    assert_eq!(err.code, THREAD_JOIN_ERROR);
    assert_eq!(err.message, "2 threads failed to join");
    assert_eq!(engine.state(), ExecutionState::Completed);
    // a completed engine has nothing left to join
    assert_eq!(engine.begin_join().unwrap(), Some(ExecutionState::Completed));
}

#[test]
fn test_engine_stop_signal_blocks_start() {
    let mut engine = EngineLifecycle::new();
    assert!(engine.signal_stop().is_err());
    assert!(engine.init().is_ok());
    assert!(engine.signal_stop().is_ok());
    assert!(engine.stop_signal());
    assert_eq!(engine.check_start().unwrap_err().code, INVALID_OPERATION);
    assert!(engine.idle(3));
}

#[test]
fn test_engine_builder_limits() {
    let config = EngineBuilder::new().build().unwrap();
    assert_eq!(config.nthreads, DEFAULT_THREADS);
    assert_eq!(config.ntasks, DEFAULT_TASKS);
    assert_eq!(config.tag.bytes, *b"Engine__");

    let config = EngineBuilder::new()
        .with_tag(Tag::new(*b"StmTest_"))
        .with_threads(0)
        .with_tasks(1)
        .build()
        .unwrap();
    assert_eq!(config.nthreads, 1);
    assert_eq!(config.ntasks, MIN_TASKS);
    assert_eq!(config.tag.bytes, *b"StmTest_");

    let config = EngineBuilder::new().with_threads(10_000).with_tasks(100_000).build().unwrap();
    assert_eq!(config.nthreads, MAX_THREADS);
    assert_eq!(config.ntasks, MAX_TASKS);

    let err = EngineBuilder::new().with_priority(3).build().err().unwrap();
    assert_eq!(err.code, UNSUPPORTED_FEATURE);
    let err = EngineBuilder::new().with_affinity(1).build().err().unwrap();
    assert_eq!(err.code, UNSUPPORTED_FEATURE);
}

#[test]
fn test_clamp_and_period() {
    assert_eq!(clamp(5, 1, 10), 5);
    assert_eq!(clamp(0, 1, 10), 1);
    assert_eq!(clamp(11, 1, 10), 10);
    assert_eq!(period_of(1_000_000_000), 1);
    assert_eq!(period_of(1_000), 1_000_000);
    assert_eq!(period_of(3), 333_333_333);
}

#[test]
fn test_thread_step() {
    assert_eq!(thread_step(ThreadState::Ready, true, true, true), (ThreadState::Stopping, ThreadStep::Exit));
    assert_eq!(thread_step(ThreadState::RunningIdle, false, true, true), (ThreadState::Ready, ThreadStep::Reset));
    assert_eq!(thread_step(ThreadState::Ready, false, false, false), (ThreadState::Ready, ThreadStep::Idle));
    assert_eq!(thread_step(ThreadState::Ready, false, false, true), (ThreadState::RunningIdle, ThreadStep::Serve));
    assert_eq!(thread_step(ThreadState::RunningIdle, false, false, false), (ThreadState::RunningIdle, ThreadStep::Serve));
    assert_eq!(thread_step(ThreadState::Created, false, false, true), (ThreadState::Error, ThreadStep::Exit));
    assert_eq!(thread_step(ThreadState::Error, false, false, true), (ThreadState::Error, ThreadStep::Exit));
}

#[test]
fn test_thread_state_codes() {
    for code in 0..8u32 {
        assert_eq!(ThreadState::from_u32(code).into_u32(), code);
    }
    assert_eq!(ThreadState::from_u32(99), ThreadState::Error);
}

#[test]
fn test_task_queue_fifo_and_full() {
    let mut queue: TaskQueue<u32> = TaskQueue::new(4);
    assert_eq!(queue.capacity(), 3);
    assert!(queue.is_empty());
    assert!(queue.push(1).is_ok());
    assert!(queue.push(2).is_ok());
    assert!(queue.push(3).is_ok());
    assert_eq!(queue.len(), 3);
    assert_eq!(queue.push(4).unwrap_err().code, COLLECTION_FULL);
    assert_eq!(queue.pop(), Some(1));
    assert!(queue.push(4).is_ok());
    assert_eq!(queue.pop(), Some(2));
    assert_eq!(queue.pop(), Some(3));
    assert_eq!(queue.pop(), Some(4));
    assert_eq!(queue.pop(), None);
}

#[test]
fn test_task_queue_clear() {
    let mut queue: TaskQueue<u32> = TaskQueue::new(8);
    for i in 0..5 {
        assert!(queue.push(i).is_ok());
    }
    assert_eq!(queue.pop(), Some(0));
    assert_eq!(queue.clear(), vec![1, 2, 3, 4]);
    assert!(queue.is_empty());
    assert!(queue.push(9).is_ok());
    assert_eq!(queue.pop(), Some(9));
}

#[test]
fn test_task_state_codes() {
    assert_eq!(TaskState::new(), TaskState::Ready);
    for code in 0..7u32 {
        assert_eq!(TaskState::from_u32(code).into_u32(), code);
    }
    assert_eq!(TaskState::from_u32(42), TaskState::Error);
    assert!(TaskState::Completed.is_finished());
    assert!(TaskState::Cancelled.is_finished());
    assert!(!TaskState::Running.is_finished());
    assert!(TaskState::Error.has_error());
    assert!(!TaskState::Completed.has_error());
}

#[test]
fn test_task_cancel_and_join_decisions() {
    assert_eq!(cancel_outcome(TaskState::Scheduled, None), (Some(TaskState::Cancelled), true));
    assert_eq!(cancel_outcome(TaskState::Running, Some(true)), (Some(TaskState::Cancelling), true));
    assert_eq!(cancel_outcome(TaskState::Running, Some(false)), (None, false));
    assert_eq!(cancel_outcome(TaskState::Running, None), (None, false));
    assert_eq!(cancel_outcome(TaskState::Completed, Some(true)), (None, false));
    assert!(asks_cancel_handler(TaskState::Running, true));
    assert!(!asks_cancel_handler(TaskState::Scheduled, true));
    assert_eq!(default_progress(), (0, 0));

    assert_eq!(join_step(Some(42), TaskState::Completed).unwrap().unwrap(), 42);
    assert_eq!(join_step::<i32>(None, TaskState::Cancelled).unwrap().unwrap_err().code, TASK_EMPTY_RESULT);
    assert!(join_step::<i32>(None, TaskState::Running).is_none());
}

#[test]
fn test_execution_state_codes() {
    let states = [
        ExecutionState::Uninitialized,
        ExecutionState::Ready,
        ExecutionState::Running,
        ExecutionState::Completed,
        ExecutionState::Terminated,
    ];
    for s in states {
        assert_eq!(ExecutionState::from_u32(s.into_u32()), s);
    }
    // every error state is stored as one code, read back as the generic error state
    let e = ExecutionState::Error(ExecutionTransition::Start).into_u32();
    assert_eq!(e, ExecutionState::Error(ExecutionTransition::Init).into_u32());
    assert_eq!(ExecutionState::from_u32(e), ExecutionState::Error(ExecutionTransition::Error));
    assert_eq!(ExecutionState::from_u32(17), ExecutionState::Error(ExecutionTransition::Error));
}
