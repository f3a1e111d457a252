//! Execution lifecycle, exceptions and update results shared by all executing elements.
use vstd::prelude::*;

verus! {

/// Error codes are plain integers.
pub type ErrorCode = u32;

/// Numeric representation of a state, used with atomic storage.
pub type StateType = i64;

/// Type of boolean conditions.
pub type ConditionType = bool;

/// Time spans of the orchestration, in nanoseconds.
pub type Nanos = u64;

/// Error of the runtime orchestration: an error code and a human readable message.
#[derive(Debug, Clone)]
pub struct Error {
    pub code: ErrorCode,
    pub message: String,
}

impl Error {
    /// Error with the given code and message.
    pub fn new(code: ErrorCode, message: String) -> (e: Error)
        ensures
            e.code == code,
            e.message@ == message@,
    {
        Error { code, message }
    }

    /// Error with the given code and an empty message.
    pub fn from_code(code: ErrorCode) -> (e: Error)
        ensures
            e.code == code,
            e.message@ == Seq::<char>::empty(),
    {
        Error { code, message: String::new() }
    }

    /// The error code.
    pub fn code(&self) -> (c: ErrorCode)
        ensures
            c == self.code,
    {
        self.code
    }
}

/// Result type of the runtime orchestration.
pub type RtoResult<T> = Result<T, Error>;

/// Failure of an expression evaluation.
#[derive(Debug, Clone, Copy, PartialEq, Eq, Structural)]
pub enum EvalError {
    /// Division by zero
    DivisionByZero,
    /// Arithmetic underflow
    Underflow,
    /// Arithmetic overflow
    Overflow,
}

/// Outcome of a wait with timeout.
#[derive(Debug, Clone, Copy, PartialEq, Eq, Structural)]
pub enum TimeoutStatus {
    TimedOut,
    NotTimedOut,
}

/// The transitions between execution states.
#[derive(Debug, Clone, Copy, PartialEq, Eq, Structural)]
pub enum ExecutionTransition {
    /// Uninitialized or Terminated to Ready
    Init,
    /// Ready or Completed to Running
    Start,
    /// Running to Running
    Update,
    /// Running to Completed
    Finalize,
    /// Ready, Completed or an error state to Terminated
    Terminate,
    /// Any state to an error state
    Error,
}

/// The runtime state of executing elements (actions, fibers, programs, engines).
#[derive(Debug, Clone, Copy, PartialEq, Eq, Structural)]
pub enum ExecutionState {
    /// Not initialized yet.
    Uninitialized,
    /// Ready to start.
    Ready,
    /// Running.
    Running,
    /// Completed successfully.
    Completed,
    /// Terminated.
    Terminated,
    /// The state machine refused the given transition.
    Error(ExecutionTransition),
}

/// The name of a transition, as messages print it.
pub open spec fn transition_name(t: ExecutionTransition) -> Seq<char> {
    match t {
        ExecutionTransition::Init => ">Init"@,
        ExecutionTransition::Start => ">Start"@,
        ExecutionTransition::Update => ">Update"@,
        ExecutionTransition::Finalize => ">Finalize"@,
        ExecutionTransition::Terminate => ">Terminate"@,
        ExecutionTransition::Error => ">Error"@,
    }
}

/// The name of a state, as messages print it; an error names the refused transition.
pub open spec fn state_name(s: ExecutionState) -> Seq<char> {
    match s {
        ExecutionState::Uninitialized => "Uninitialized"@,
        ExecutionState::Ready => "Ready"@,
        ExecutionState::Running => "Running"@,
        ExecutionState::Completed => "Completed"@,
        ExecutionState::Terminated => "Terminated"@,
        ExecutionState::Error(t) => "Error("@ + transition_name(t) + ")"@,
    }
}

impl ExecutionTransition {
    /// The name of the transition, as messages print it.
    pub fn name(&self) -> (n: &'static str)
        ensures
            n@ == transition_name(*self),
    {
        match self {
            ExecutionTransition::Init => ">Init",
            ExecutionTransition::Start => ">Start",
            ExecutionTransition::Update => ">Update",
            ExecutionTransition::Finalize => ">Finalize",
            ExecutionTransition::Terminate => ">Terminate",
            ExecutionTransition::Error => ">Error",
        }
    }
}

/// The successor of `s` under transition `t`, as the execution state machine defines it.
pub open spec fn next_state(s: ExecutionState, t: ExecutionTransition) -> ExecutionState {
    match t {
        ExecutionTransition::Init => match s {
            ExecutionState::Uninitialized | ExecutionState::Terminated => ExecutionState::Ready,
            _ => ExecutionState::Error(ExecutionTransition::Init),
        },
        ExecutionTransition::Start => match s {
            ExecutionState::Ready | ExecutionState::Completed => ExecutionState::Running,
            _ => ExecutionState::Error(ExecutionTransition::Start),
        },
        ExecutionTransition::Update => match s {
            ExecutionState::Running => ExecutionState::Running,
            _ => ExecutionState::Error(ExecutionTransition::Update),
        },
        ExecutionTransition::Finalize => match s {
            ExecutionState::Running => ExecutionState::Completed,
            _ => ExecutionState::Error(ExecutionTransition::Finalize),
        },
        ExecutionTransition::Terminate => match s {
            ExecutionState::Ready | ExecutionState::Completed | ExecutionState::Error(_) => ExecutionState::Terminated,
            _ => ExecutionState::Error(ExecutionTransition::Terminate),
        },
        ExecutionTransition::Error => ExecutionState::Error(ExecutionTransition::Error),
    }
}

/// The number that stands for a state in atomic storage.
pub open spec fn state_code(s: ExecutionState) -> u32 {
    match s {
        ExecutionState::Uninitialized => 0,
        ExecutionState::Ready => 1,
        ExecutionState::Running => 2,
        ExecutionState::Completed => 3,
        ExecutionState::Terminated => 4,
        ExecutionState::Error(_) => 0xFFFF_FFFF,
    }
}

/// The state that a number in atomic storage stands for.
pub open spec fn state_of_code(n: u32) -> ExecutionState {
    if n == 0 {
        ExecutionState::Uninitialized
    } else if n == 1 {
        ExecutionState::Ready
    } else if n == 2 {
        ExecutionState::Running
    } else if n == 3 {
        ExecutionState::Completed
    } else if n == 4 {
        ExecutionState::Terminated
    } else {
        ExecutionState::Error(ExecutionTransition::Error)
    }
}

impl ExecutionState {
    /// A new, uninitialized state.
    pub fn new() -> (s: ExecutionState)
        ensures
            s == ExecutionState::Uninitialized,
    {
        ExecutionState::Uninitialized
    }

    /// Whether the state is an error state.
    pub fn is_err(&self) -> (b: bool)
        ensures
            b == (*self is Error),
    {
        match self {
            ExecutionState::Error(_) => true,
            _ => false,
        }
    }

    /// The state that `state` stands for in atomic storage; unknown numbers stand for an error.
    pub fn from_u32(state: u32) -> (s: ExecutionState)
        ensures
            s == state_of_code(state),
    {
        match state {
            0 => ExecutionState::Uninitialized,
            1 => ExecutionState::Ready,
            2 => ExecutionState::Running,
            3 => ExecutionState::Completed,
            4 => ExecutionState::Terminated,
            _ => ExecutionState::Error(ExecutionTransition::Error),
        }
    }

    /// The number that stands for this state in atomic storage; all error states map to `u32::MAX`.
    pub fn into_u32(self) -> (n: u32)
        ensures
            n == state_code(self),
    {
        match self {
            ExecutionState::Uninitialized => 0,
            ExecutionState::Ready => 1,
            ExecutionState::Running => 2,
            ExecutionState::Completed => 3,
            ExecutionState::Terminated => 4,
            ExecutionState::Error(_) => 0xFFFF_FFFF,
        }
    }

    /// The state that follows this one after `transition`.
    pub fn peek_state(&self, transition: ExecutionTransition) -> (s: ExecutionState)
        ensures
            s == next_state(*self, transition),
    {
        match transition {
            ExecutionTransition::Init => match self {
                ExecutionState::Uninitialized | ExecutionState::Terminated => ExecutionState::Ready,
                _ => ExecutionState::Error(ExecutionTransition::Init),
            },
            ExecutionTransition::Start => match self {
                ExecutionState::Ready | ExecutionState::Completed => ExecutionState::Running,
                _ => ExecutionState::Error(ExecutionTransition::Start),
            },
            ExecutionTransition::Update => match self {
                ExecutionState::Running => ExecutionState::Running,
                _ => ExecutionState::Error(ExecutionTransition::Update),
            },
            ExecutionTransition::Finalize => match self {
                ExecutionState::Running => ExecutionState::Completed,
                _ => ExecutionState::Error(ExecutionTransition::Finalize),
            },
            ExecutionTransition::Terminate => match self {
                ExecutionState::Ready | ExecutionState::Completed | ExecutionState::Error(_) => {
                    ExecutionState::Terminated
                },
                _ => ExecutionState::Error(ExecutionTransition::Terminate),
            },
            ExecutionTransition::Error => ExecutionState::Error(ExecutionTransition::Error),
        }
    }

    /// The name of the state, as messages print it; an error names the refused transition.
    pub fn name(&self) -> (n: String)
        ensures
            n@ == state_name(*self),
    {
        match self {
            ExecutionState::Uninitialized => String::from_str("Uninitialized"),
            ExecutionState::Ready => String::from_str("Ready"),
            ExecutionState::Running => String::from_str("Running"),
            ExecutionState::Completed => String::from_str("Completed"),
            ExecutionState::Terminated => String::from_str("Terminated"),
            ExecutionState::Error(t) => {
                let mut n = String::from_str("Error(");
                n.append(t.name());
                n.append(")");
                n
            },
        }
    }

    /// Replace this state with `state` and return it.
    pub fn transition_to(&mut self, state: ExecutionState) -> (s: ExecutionState)
        ensures
            *final(self) == state,
            s == state,
    {
        *self = state;
        *self
    }
}

/// Round trip through the atomic representation: every state other than an error
/// state is recovered from its number, and every number up to 4 from its state.
pub proof fn lemma_state_code_roundtrip(s: ExecutionState, n: u32)
    ensures
        !(s is Error) ==> state_of_code(state_code(s)) == s,
        s is Error ==> state_of_code(state_code(s)) == ExecutionState::Error(ExecutionTransition::Error),
        n <= 4 ==> state_code(state_of_code(n)) == n,
{
}

/// The lifecycle: a transition succeeds exactly from the states the state machine
/// admits; every refused transition `t` yields `Error(t)`, and no successful
/// transition yields an error.
pub proof fn lemma_lifecycle(s: ExecutionState, t: ExecutionTransition)
    ensures
        t != ExecutionTransition::Error ==> (next_state(s, t) is Error <==> next_state(s, t) == ExecutionState::Error(t)),
        next_state(s, ExecutionTransition::Init) == ExecutionState::Ready
            <==> (s == ExecutionState::Uninitialized || s == ExecutionState::Terminated),
        next_state(s, ExecutionTransition::Start) == ExecutionState::Running
            <==> (s == ExecutionState::Ready || s == ExecutionState::Completed),
        next_state(s, ExecutionTransition::Update) == ExecutionState::Running <==> s == ExecutionState::Running,
        next_state(s, ExecutionTransition::Finalize) == ExecutionState::Completed <==> s == ExecutionState::Running,
        next_state(s, ExecutionTransition::Terminate) == ExecutionState::Terminated
            <==> (s == ExecutionState::Ready || s == ExecutionState::Completed || s is Error),
        next_state(s, ExecutionTransition::Error) == ExecutionState::Error(ExecutionTransition::Error),
{
}

} // verus!
