//! The states of tasks and the decisions on cancelling and joining them.
use vstd::prelude::*;
use crate::base::{Error, RtoResult};
use crate::errors::TASK_EMPTY_RESULT;

verus! {

/// The state of a task while the executor processes it.
#[derive(Debug, Clone, Copy, PartialEq, Eq, Structural)]
pub enum TaskState {
    /// Ready to be scheduled.
    Ready,
    /// Scheduled for execution.
    Scheduled,
    /// Running.
    Running,
    /// Cancelling.
    Cancelling,
    /// Terminated by cancellation.
    Cancelled,
    /// Completed successfully.
    Completed,
    /// In an error state.
    Error,
}

/// The number that stands for a task state in atomic storage.
pub open spec fn task_state_code(s: TaskState) -> u32 {
    match s {
        TaskState::Ready => 0,
        TaskState::Scheduled => 1,
        TaskState::Running => 2,
        TaskState::Cancelling => 3,
        TaskState::Cancelled => 4,
        TaskState::Completed => 5,
        TaskState::Error => 6,
    }
}

/// The task state that a number in atomic storage stands for; unknown numbers are errors.
pub open spec fn task_state_of_code(n: u32) -> TaskState {
    if n == 0 {
        TaskState::Ready
    } else if n == 1 {
        TaskState::Scheduled
    } else if n == 2 {
        TaskState::Running
    } else if n == 3 {
        TaskState::Cancelling
    } else if n == 4 {
        TaskState::Cancelled
    } else if n == 5 {
        TaskState::Completed
    } else {
        TaskState::Error
    }
}

impl TaskState {
    /// The state of a new task.
    pub fn new() -> (s: TaskState)
        ensures
            s == TaskState::Ready,
    {
        TaskState::Ready
    }

    /// The task state for a number in atomic storage.
    pub fn from_u32(value: u32) -> (s: TaskState)
        ensures
            s == task_state_of_code(value),
    {
        match value {
            0 => TaskState::Ready,
            1 => TaskState::Scheduled,
            2 => TaskState::Running,
            3 => TaskState::Cancelling,
            4 => TaskState::Cancelled,
            5 => TaskState::Completed,
            _ => TaskState::Error,
        }
    }

    /// The code that stands for this state in atomic storage.
    pub fn into_u32(self) -> (n: u32)
        ensures
            n == task_state_code(self),
    {
        match self {
            TaskState::Ready => 0,
            TaskState::Scheduled => 1,
            TaskState::Running => 2,
            TaskState::Cancelling => 3,
            TaskState::Cancelled => 4,
            TaskState::Completed => 5,
            TaskState::Error => 6,
        }
    }

    /// Whether a task in this state has finished, so that joining it does not block.
    pub fn is_finished(&self) -> (b: bool)
        ensures
            b == (*self == TaskState::Completed || *self == TaskState::Cancelled),
    {
        *self == TaskState::Completed || *self == TaskState::Cancelled
    }

    /// Whether a task in this state is in error.
    pub fn has_error(&self) -> (b: bool)
        ensures
            b == (*self == TaskState::Error),
    {
        *self == TaskState::Error
    }
}

/// Every task state is recovered from its number, and every number up to 6 from its state.
pub proof fn lemma_task_state_code_roundtrip(s: TaskState, n: u32)
    ensures
        task_state_of_code(task_state_code(s)) == s,
        n <= 6 ==> task_state_code(task_state_of_code(n)) == n,
{
}

/// The outcome of a cancel request on a task in state `state`: a scheduled task is
/// cancelled at once; a running task goes to cancelling where its cancel handler agrees
/// (`handler` is `None` where it has none); no other task can be cancelled. Returns the new
/// state, if any, and whether the request was acknowledged.
pub fn cancel_outcome(state: TaskState, handler: Option<bool>) -> (r: (Option<TaskState>, bool))
    ensures
        state == TaskState::Scheduled ==> r == (Some(TaskState::Cancelled), true),
        state == TaskState::Running && handler == Some(true) ==> r == (Some(TaskState::Cancelling), true),
        state == TaskState::Running && handler != Some(true) ==> r == (None::<TaskState>, false),
        state != TaskState::Scheduled && state != TaskState::Running ==> r == (None::<TaskState>, false),
{
    match state {
        TaskState::Scheduled => (Some(TaskState::Cancelled), true),
        TaskState::Running => {
            match handler {
                Some(true) => (Some(TaskState::Cancelling), true),
                _ => (None, false),
            }
        },
        _ => (None, false),
    }
}

/// The outcome of a cancel request through a task's handle: a task without cancel handler
/// is not cancelled and the request is not acknowledged (`has_handler` false); a task with
/// one is cancelled as `cancel_outcome` says, the handler having answered `handler` where it
/// was asked. The engine, which cancels the tasks it removes from its queue, uses
/// `cancel_outcome` directly.
pub fn handle_cancel_outcome(state: TaskState, has_handler: bool, handler: Option<bool>) -> (r: (Option<TaskState>, bool))
    ensures
        !has_handler ==> r == (None::<TaskState>, false),
        has_handler && state == TaskState::Scheduled ==> r == (Some(TaskState::Cancelled), true),
        has_handler && state == TaskState::Running && handler == Some(true) ==> r == (Some(TaskState::Cancelling), true),
        has_handler && state == TaskState::Running && handler != Some(true) ==> r == (None::<TaskState>, false),
        has_handler && state != TaskState::Scheduled && state != TaskState::Running ==> r == (None::<TaskState>, false),
{
    if !has_handler {
        return (None, false);
    }
    cancel_outcome(state, handler)
}

/// Whether a running task's cancel handler is to be asked: only a running task with a
/// handler asks it.
pub fn asks_cancel_handler(state: TaskState, has_handler: bool) -> (b: bool)
    ensures
        b == (state == TaskState::Running && has_handler),
{
    state == TaskState::Running && has_handler
}

/// The progress of a task without progress handler.
pub fn default_progress() -> (p: (usize, usize))
    ensures
        p == (0usize, 0usize),
{
    (0, 0)
}

/// One step of joining a task: a result that is there is taken; a cancelled task without
/// result fails with `TASK_EMPTY_RESULT`; otherwise the joiner waits (`None`).
pub fn join_step<T>(result: Option<T>, state: TaskState) -> (r: Option<RtoResult<T>>)
    ensures
        result is Some ==> r == Some(Ok::<T, Error>(result.unwrap())),
        result is None && state == TaskState::Cancelled ==> (r matches Some(Err(e)) && e.code == TASK_EMPTY_RESULT),
        result is None && state != TaskState::Cancelled ==> r is None,
{
    match result {
        Some(v) => Some(Ok(v)),
        None => {
            if state == TaskState::Cancelled {
                Some(Err(Error::new(TASK_EMPTY_RESULT, "Task was cancelled.".to_string())))
            } else {
                None
            }
        },
    }
}

} // verus!
