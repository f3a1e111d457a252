use std::sync::Arc;

use qor_rto::base::{Error, EvalError, ExecutionState, ExecutionTransition, TimeoutStatus};
use qor_rto::builder::{BuildStep, ProgramBuilder};
use qor_rto::errors::{EVENT_SUBSCRIBERS_FULL, FUNCTION_NOT_IMPLEMENTED, PROGRAM_BUILD_FAILED};
use qor_rto::event::{Listen, Notify, SingleEvent};
use qor_rto::exception::{ExecutionException, ExecutionExceptionFilter};
use qor_rto::executor::Tag;
use qor_rto::expressions::{
    add_values, div_values, mul_values, neg_value, sub_values, Add, And, Constant, Div, Gt,
    Gte, Lt, Lte, Mul, Neg, Neq, Not, Or, Sub, Xor,
};
use qor_rto::variables::{LValue, RValue, State, StateStorage, VariableStorage};
use qor_rto::waker::Signal;

#[test]
fn test_peek_state_table() {
    type S = ExecutionState;
    type T = ExecutionTransition;
    assert_eq!(S::Uninitialized.peek_state(T::Init), S::Ready);
    assert_eq!(S::Terminated.peek_state(T::Init), S::Ready);
    assert_eq!(S::Ready.peek_state(T::Init), S::Error(T::Init));
    assert_eq!(S::Ready.peek_state(T::Start), S::Running);
    assert_eq!(S::Completed.peek_state(T::Start), S::Running);
    assert_eq!(S::Running.peek_state(T::Start), S::Error(T::Start));
    assert_eq!(S::Running.peek_state(T::Update), S::Running);
    assert_eq!(S::Ready.peek_state(T::Update), S::Error(T::Update));
    assert_eq!(S::Running.peek_state(T::Finalize), S::Completed);
    assert_eq!(S::Completed.peek_state(T::Finalize), S::Error(T::Finalize));
    assert_eq!(S::Ready.peek_state(T::Terminate), S::Terminated);
    assert_eq!(S::Error(T::Start).peek_state(T::Terminate), S::Terminated);
    assert_eq!(S::Running.peek_state(T::Terminate), S::Error(T::Terminate));
    assert!(S::Error(T::Init).is_err());
    assert!(!S::Ready.is_err());
    assert_eq!(S::new(), S::Uninitialized);
}

#[test]
fn test_error_values() {
    let e = Error::new(7, "seven".to_string());
    assert_eq!(e.code(), 7);
    assert_eq!(e.message, "seven");
    let e = Error::from_code(9);
    assert_eq!(e.code, 9);
    assert!(e.message.is_empty());
}

#[test]
fn test_exception_codes() {
    assert_eq!(ExecutionException::new(0).code(), 1);
    assert_eq!(ExecutionException::new(63).code(), 1u64 << 63);
    assert_eq!(ExecutionException::new(64).code(), 0);
    assert_eq!(ExecutionException::timeout().code(), 1u64 << 56);
    assert_eq!(ExecutionException::user(3).code(), 8);
    assert!(!ExecutionException::user(56).is_valid());
    assert!(!ExecutionException::invalid().is_valid());
    assert!(ExecutionException::user(55).is_valid());
}

#[test]
fn test_exception_filters() {
    let timeout = ExecutionException::timeout();
    let user1 = ExecutionException::user(1);
    assert!(ExecutionExceptionFilter::for_all().matches(&timeout));
    assert!(ExecutionExceptionFilter::for_all().matches(&user1));
    assert!(ExecutionExceptionFilter::for_timeout().matches(&timeout));
    assert!(!ExecutionExceptionFilter::for_timeout().matches(&user1));
    assert!(ExecutionExceptionFilter::for_user().matches(&user1));
    assert!(!ExecutionExceptionFilter::for_user().matches(&timeout));
    assert!(ExecutionExceptionFilter::for_system().matches(&timeout));
    assert!(!ExecutionExceptionFilter::new().matches(&timeout));
    let f = ExecutionExceptionFilter::for_exception(user1).and_exception(timeout);
    assert!(f.matches(&user1));
    assert!(f.matches(&timeout));
    assert!(!f.matches(&ExecutionException::user(2)));
    assert!(!ExecutionExceptionFilter::for_all().matches(&ExecutionException::invalid()));
}

#[test]
fn test_arithmetic_values() {
    assert_eq!(add_values(2, 3), Ok(5));
    assert_eq!(add_values(i64::MAX, 1), Err(EvalError::Overflow));
    assert_eq!(add_values(i64::MIN, -1), Err(EvalError::Underflow));
    assert_eq!(sub_values(2, 5), Ok(-3));
    assert_eq!(sub_values(i64::MIN, 1), Err(EvalError::Underflow));
    assert_eq!(sub_values(i64::MAX, -1), Err(EvalError::Overflow));
    assert_eq!(mul_values(-4, 5), Ok(-20));
    assert_eq!(mul_values(i64::MAX, 2), Err(EvalError::Overflow));
    assert_eq!(mul_values(i64::MAX, -2), Err(EvalError::Underflow));
    assert_eq!(div_values(7, 2), Ok(3));
    assert_eq!(div_values(-7, 2), Ok(-3));
    assert_eq!(div_values(7, -2), Ok(-3));
    assert_eq!(div_values(-7, -2), Ok(3));
    assert_eq!(div_values(1, 0), Err(EvalError::DivisionByZero));
    assert_eq!(div_values(i64::MIN, -1), Err(EvalError::Overflow));
    assert_eq!(neg_value(5), Ok(-5));
    assert_eq!(neg_value(i64::MIN), Err(EvalError::Overflow));
}

#[test]
fn test_expression_trees() {
    let a = Arc::new(VariableStorage::new(6i64));
    let b = Arc::new(Constant::new(4i64));
    assert_eq!(qor_rto::expressions::Eq::<i64, bool>::new(a.clone(), b.clone()).eval(), Ok(false));
    assert_eq!(Neq::<i64, bool>::new(a.clone(), b.clone()).eval(), Ok(true));
    assert_eq!(Lt::<i64, bool>::new(a.clone(), b.clone()).eval(), Ok(false));
    assert_eq!(Lte::<i64, bool>::new(a.clone(), a.clone()).eval(), Ok(true));
    assert_eq!(Gt::<i64, bool>::new(a.clone(), b.clone()).eval(), Ok(true));
    assert_eq!(Gte::<i64, bool>::new(b.clone(), a.clone()).eval(), Ok(false));

    let x = Arc::new(VariableStorage::new(6i64));
    let y = Arc::new(VariableStorage::new(4i64));
    assert_eq!(Add::<i64, VariableStorage<i64>>::new(x.clone(), y.clone()).eval(), Ok(10));
    assert_eq!(Sub::<i64, VariableStorage<i64>>::new(x.clone(), y.clone()).eval(), Ok(2));
    assert_eq!(Mul::<i64, VariableStorage<i64>>::new(x.clone(), y.clone()).eval(), Ok(24));
    assert_eq!(Div::<i64, VariableStorage<i64>>::new(x.clone(), y.clone()).eval(), Ok(1));
    assert_eq!(Neg::<i64, VariableStorage<i64>>::new(x.clone()).eval(), Ok(-6));
    assert_eq!(And::<i64, VariableStorage<i64>>::new(x.clone(), y.clone()).eval(), Ok(4));
    assert_eq!(Or::<i64, VariableStorage<i64>>::new(x.clone(), y.clone()).eval(), Ok(6));
    assert_eq!(Xor::<i64, VariableStorage<i64>>::new(x.clone(), y.clone()).eval(), Ok(2));
    assert_eq!(Not::<i64, VariableStorage<i64>>::new(x.clone()).eval(), Ok(!6));

    let zero = Arc::new(VariableStorage::new(0i64));
    assert_eq!(Div::<i64, VariableStorage<i64>>::new(x.clone(), zero).eval(), Err(EvalError::DivisionByZero));

    let t = Arc::new(VariableStorage::new(true));
    let f = Arc::new(VariableStorage::new(false));
    assert_eq!(And::<bool, VariableStorage<bool>>::new(t.clone(), f.clone()).eval(), Ok(false));
    assert_eq!(Or::<bool, VariableStorage<bool>>::new(t.clone(), f.clone()).eval(), Ok(true));
    assert_eq!(Xor::<bool, VariableStorage<bool>>::new(t.clone(), t.clone()).eval(), Ok(false));
    assert_eq!(Not::<bool, VariableStorage<bool>>::new(f.clone()).eval(), Ok(true));
    assert_eq!(qor_rto::expressions::Eq::<bool, bool>::new(t.clone(), f.clone()).eval(), Ok(false));
}

#[test]
fn test_variable_storage_reads_what_was_written() {
    let v = VariableStorage::new(1i64);
    assert_eq!(v.read(), 1);
    v.write(5);
    assert_eq!(v.eval(), Ok(5));
    assert_eq!(v.assign(8), Ok(8));
    assert_eq!(v.read(), 8);
}

#[test]
fn test_state_storage_takes_effect_on_update() {
    let mut s = StateStorage::new(1i64);
    assert_eq!(s.assign(2), Ok(2));
    assert_eq!(s.eval(), Ok(1));
    assert_eq!(s.update(0), Ok(2));
    assert_eq!(s.eval(), Ok(2));
    s.reset(7);
    assert_eq!(s.eval(), Ok(7));
}

#[test]
fn test_single_event_has_one_listener() {
    let event = SingleEvent::new();
    let listener = event.listener().unwrap();
    let err = event.listener().err().unwrap();
    assert_eq!(err.code, EVENT_SUBSCRIBERS_FULL);

    // a dropped listener makes room for another
    drop(listener);
    let listener = event.listener().unwrap();
    let notifier = event.notifier().unwrap();
    let second = event.notifier().unwrap();
    assert!(!listener.check());
    notifier.notify();
    assert!(listener.check());
    assert!(listener.check());
    assert!(listener.check_and_reset());
    assert!(!listener.check());
    second.notify();
    assert!(listener.wait().is_ok());
    assert!(!listener.check());
    assert_eq!(listener.wait_timeout(1_000_000).unwrap(), TimeoutStatus::TimedOut);
    notifier.notify();
    assert_eq!(listener.wait_timeout(1_000_000).unwrap(), TimeoutStatus::NotTimedOut);
}

#[test]
fn test_signal_wakes_waiter() {
    let signal = Signal::new();
    assert!(!signal.wait_timeout(1_000_000));
    signal.wake();
    assert!(signal.wait_timeout(1_000_000));
    assert!(!signal.wait_timeout(1_000_000));
    signal.wake();
    signal.wait();
    assert!(!signal.wait_timeout(1_000_000));
}

#[test]
fn test_build_steps() {
    let _builder = ProgramBuilder::begin();
    let _builder = ProgramBuilder::new();

    let mut start = BuildStep::Start;
    assert!(start.build().is_err());
    assert_eq!(start.build().err().unwrap().code, FUNCTION_NOT_IMPLEMENTED);
    assert_eq!(start.add(Tag::new(*b"Step____"), BuildStep::Start).unwrap_err().code, PROGRAM_BUILD_FAILED);
}
