//! Assignment of an expression's value to a variable.
use vstd::prelude::*;
use std::sync::Arc;
use crate::base::{EvalError, ExecutionState, ExecutionTransition, Nanos, next_state};
use crate::exception::UpdateResult;
use crate::variables::{LValue, RValue};
use crate::actions::{Action, ExecutionContext};

verus! {

/// An action that copies the value of an expression into a variable on each update,
/// as the `=` operator does.
#[verifier::reject_recursive_types(T)]
pub struct Assign<T> {
    state: ExecutionState,
    lhs: Box<dyn LValue<T>>,
    rhs: Box<dyn RValue<T>>,
    evaluated: Ghost<Option<Result<T, EvalError>>>,
    assigned: Ghost<Option<Result<T, EvalError>>>,
}

impl<T: 'static> Assign<T> {
    /// A new assignment of `rhs` to `lhs`.
    pub fn new<L: LValue<T> + 'static, R: RValue<T> + 'static>(lhs: Arc<L>, rhs: Arc<R>) -> (a: Box<Assign<T>>)
        ensures
            a.spec_state() == ExecutionState::Uninitialized,
    {
        Box::new(Assign {
            state: ExecutionState::new(),
            lhs: Box::new(lhs),
            rhs: Box::new(rhs),
            evaluated: Ghost(None),
            assigned: Ghost(None),
        })
    }

    /// What evaluating the expression gave in the last update, if it was evaluated.
    pub closed spec fn spec_evaluated(&self) -> Option<Result<T, EvalError>> {
        self.evaluated@
    }

    /// What assigning the variable gave in the last update, if it was assigned.
    pub closed spec fn spec_assigned(&self) -> Option<Result<T, EvalError>> {
        self.assigned@
    }

    /// Whether `r` is a result that evaluating the expression may give.
    pub closed spec fn spec_rhs_gives(&self, r: Result<T, EvalError>) -> bool {
        self.rhs.eval_result(r)
    }

    /// Whether `r` is a result that assigning `value` to the variable may give.
    pub closed spec fn spec_lhs_takes(&self, value: T, r: Result<T, EvalError>) -> bool {
        self.lhs.assign_result(value, r)
    }
}

impl<T: 'static> Action for Assign<T> {
    closed spec fn spec_state(&self) -> ExecutionState {
        self.state
    }

    fn state(&self) -> (s: ExecutionState) {
        self.state
    }

    fn init(&mut self) -> (s: ExecutionState)
        ensures
            s == next_state(old(self).spec_state(), ExecutionTransition::Init),
            final(self).spec_state() == s,
    {
        let next = self.state.peek_state(ExecutionTransition::Init);
        self.state.transition_to(next)
    }

    fn start(&mut self, ctx: &mut ExecutionContext) -> (s: ExecutionState)
        ensures
            s == next_state(old(self).spec_state(), ExecutionTransition::Start),
            final(self).spec_state() == s,
    {
        let next = self.state.peek_state(ExecutionTransition::Start);
        self.state.transition_to(next)
    }

    /// Evaluate and assign: `Ready` on success; a failed evaluation or assignment is an error
    /// that moves the action into `Error(Update)`.
    fn update(&mut self, delta: Nanos, ctx: &mut ExecutionContext) -> (r: (Nanos, UpdateResult))
        ensures
            old(self).spec_state() == ExecutionState::Running ==> {
                ||| r == (0u64, UpdateResult::Ready) && final(self).spec_state() == ExecutionState::Running
                ||| r == (0u64, UpdateResult::Error) && final(self).spec_state() == ExecutionState::Error(ExecutionTransition::Update)
            },
            // the expression was evaluated, and where it gave a value, the variable was assigned
            // that value: Ready exactly where both succeeded; where it failed, nothing was assigned
            old(self).spec_state() == ExecutionState::Running ==> (final(self).spec_evaluated() matches Some(e)
                && old(self).spec_rhs_gives(e) && match e {
                    Ok(v) => final(self).spec_assigned() matches Some(a) && old(self).spec_lhs_takes(v, a)
                        && (r.1 == UpdateResult::Ready <==> a is Ok),
                    Err(_) => r.1 == UpdateResult::Error && final(self).spec_assigned() is None,
                }),
            old(self).spec_state() != ExecutionState::Running ==> final(self).spec_state() == old(self).spec_state(),
    {
        match self.state {
            ExecutionState::Running => {
                let evaluated = self.rhs.eval();
                self.evaluated = Ghost(Some(evaluated));
                self.assigned = Ghost(None);
                match evaluated {
                    Ok(value) => {
                        let assigned = self.lhs.assign(value);
                        self.assigned = Ghost(Some(assigned));
                        if assigned.is_ok() {
                            (0, UpdateResult::Ready)
                        } else {
                            self.state.transition_to(ExecutionState::Error(ExecutionTransition::Update));
                            (0, UpdateResult::Error)
                        }
                    },
                    Err(_) => {
                        self.state.transition_to(ExecutionState::Error(ExecutionTransition::Update));
                        (0, UpdateResult::Error)
                    },
                }
            },
            _ => (0, UpdateResult::Error),
        }
    }

    fn finalize(&mut self, ctx: &mut ExecutionContext) -> (s: ExecutionState)
        ensures
            s == next_state(old(self).spec_state(), ExecutionTransition::Finalize),
            final(self).spec_state() == s,
    {
        let next = self.state.peek_state(ExecutionTransition::Finalize);
        self.state.transition_to(next)
    }

    fn terminate(&mut self) -> (s: ExecutionState)
        ensures
            s == next_state(old(self).spec_state(), ExecutionTransition::Terminate),
            final(self).spec_state() == s,
    {
        let next = self.state.peek_state(ExecutionTransition::Terminate);
        self.state.transition_to(next)
    }
}

} // verus!
