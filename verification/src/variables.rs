//! Storage for variables and states, shared between actions and their users.
use vstd::prelude::*;
use vstd::rwlock::RwLock;
use crate::base::{EvalError, Nanos};

verus! {

/// An expression that delivers a value of type `T` on request.
pub trait RValue<T>: Send + Sync {
    /// Whether `r` is a result that an evaluation of the expression may give.
    /// Any result, unless the expression says more.
    open spec fn eval_result(&self, r: Result<T, EvalError>) -> bool {
        true
    }

    /// Evaluate the expression.
    fn eval(&self) -> (r: Result<T, EvalError>)
        ensures
            self.eval_result(r),
    ;
}

/// An expression that can be assigned a value. Assignment needs no mutable access, so that
/// shared (`Arc`) storage can be assigned.
pub trait LValue<T>: RValue<T> {
    /// Whether `r` is a result that assigning `value` may give.
    /// Any result, unless the expression says more.
    open spec fn assign_result(&self, value: T, r: Result<T, EvalError>) -> bool {
        true
    }

    /// Assign a value; returns the value assigned.
    fn assign(&self, value: T) -> (r: Result<T, EvalError>)
        ensures
            self.assign_result(value, r),
    ;
}

/// A shared assignable expression assigns through to the expression it shares.
impl<T, L: LValue<T>> LValue<T> for std::sync::Arc<L> {
    open spec fn assign_result(&self, value: T, r: Result<T, EvalError>) -> bool {
        (**self).assign_result(value, r)
    }

    fn assign(&self, value: T) -> (r: Result<T, EvalError>) {
        let inner: &L = &**self;
        inner.assign(value)
    }
}

/// Scalar storage with instant updates.
pub trait Variable<T>: LValue<T> {}

/// Shared variable storage is variable storage.
impl<T, V: Variable<T>> Variable<T> for std::sync::Arc<V> {}

/// Storage whose assigned values take effect at explicit update points.
pub trait State<T>: Variable<T> {
    /// Let the last assigned value take effect; returns it.
    fn update(&mut self, delta: Nanos) -> Result<T, EvalError>;
}

/// The value predicate of variable storage: every value may be stored.
pub open spec fn any_value<T>() -> spec_fn(T) -> bool {
    |v: T| true
}

/// A single value, readable and writable through a shared reference.
#[verifier::reject_recursive_types(T)]
pub struct VariableStorage<T> {
    value: RwLock<T, spec_fn(T) -> bool>,
}

impl<T> VariableStorage<T> {
    /// Every value may be stored.
    #[verifier::type_invariant]
    closed spec fn accepts_all(&self) -> bool {
        self.value.pred() == any_value::<T>()
    }
}

impl<T: Copy> VariableStorage<T> {
    /// New storage holding `value`.
    pub fn new(value: T) -> (v: VariableStorage<T>) {
        VariableStorage { value: RwLock::new(value, Ghost(any_value::<T>())) }
    }

    /// Read the stored value.
    pub fn read(&self) -> (v: T) {
        let handle = self.value.acquire_read();
        let v = *handle.borrow();
        handle.release_read();
        v
    }

    /// Replace the stored value.
    pub fn write(&self, value: T) {
        proof {
            use_type_invariant(self);
        }
        let (_old, handle) = self.value.acquire_write();
        handle.release_write(value);
    }
}

impl<T: Copy + Send + Sync> RValue<T> for VariableStorage<T> {
    /// Any stored value may be read: the storage is shared, and others may write to it.
    open spec fn eval_result(&self, r: Result<T, EvalError>) -> bool {
        r is Ok
    }

    fn eval(&self) -> (r: Result<T, EvalError>)
        ensures
            r is Ok,
    {
        Ok(self.read())
    }
}

impl<T: Copy + Send + Sync> LValue<T> for VariableStorage<T> {
    /// Assignment always succeeds and returns the value assigned.
    open spec fn assign_result(&self, value: T, r: Result<T, EvalError>) -> bool {
        r == Ok::<T, EvalError>(value)
    }

    fn assign(&self, value: T) -> (r: Result<T, EvalError>)
        ensures
            r == Ok::<T, EvalError>(value),
    {
        self.write(value);
        Ok(value)
    }
}

impl<T: Copy + Send + Sync> Variable<T> for VariableStorage<T> {}

/// A state: assigned values are held back and take effect on the next update.
#[verifier::reject_recursive_types(T)]
pub struct StateStorage<T> {
    value: VariableStorage<T>,
    new_value: VariableStorage<T>,
}

impl<T: Copy> StateStorage<T> {
    /// A new state holding `value`.
    pub fn new(value: T) -> (s: StateStorage<T>) {
        StateStorage { value: VariableStorage::new(value), new_value: VariableStorage::new(value) }
    }

    /// Set both the current and the pending value to `value`.
    pub fn reset(&mut self, value: T) {
        self.new_value.write(value);
        self.value.write(value);
    }
}

impl<T: Copy + Send + Sync> RValue<T> for StateStorage<T> {
    /// Any stored value may be read: the storage is shared, and others may write to it.
    open spec fn eval_result(&self, r: Result<T, EvalError>) -> bool {
        r is Ok
    }

    /// The current value; assignments since the last update do not show.
    fn eval(&self) -> (r: Result<T, EvalError>)
        ensures
            r is Ok,
    {
        Ok(self.value.read())
    }
}

impl<T: Copy + Send + Sync> LValue<T> for StateStorage<T> {
    /// Assignment always succeeds and returns the value assigned.
    open spec fn assign_result(&self, value: T, r: Result<T, EvalError>) -> bool {
        r == Ok::<T, EvalError>(value)
    }

    /// Set the pending value.
    fn assign(&self, value: T) -> (r: Result<T, EvalError>)
        ensures
            r == Ok::<T, EvalError>(value),
    {
        self.new_value.write(value);
        Ok(value)
    }
}

impl<T: Copy + Send + Sync> Variable<T> for StateStorage<T> {}

impl<T: Copy + Send + Sync> State<T> for StateStorage<T> {
    /// Let the pending value take effect.
    fn update(&mut self, delta: Nanos) -> (r: Result<T, EvalError>)
        ensures
            r is Ok,
    {
        let v = self.new_value.read();
        self.value.write(v);
        Ok(v)
    }
}

} // verus!
