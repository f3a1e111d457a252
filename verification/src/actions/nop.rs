//! The action that does nothing.
use vstd::prelude::*;
use crate::base::{ExecutionState, ExecutionTransition, Nanos, next_state};
use crate::exception::UpdateResult;
use crate::actions::{Action, ExecutionContext};

verus! {

/// An action that does nothing and completes on its first update.
pub struct Nop {
    state: ExecutionState,
}

impl Nop {
    /// A new no-operation action.
    pub fn new() -> (a: Box<Nop>)
        ensures
            a.spec_state() == ExecutionState::Uninitialized,
    {
        Box::new(Nop { state: ExecutionState::new() })
    }
}

impl Action for Nop {
    closed spec fn spec_state(&self) -> ExecutionState {
        self.state
    }

    fn state(&self) -> (s: ExecutionState) {
        self.state
    }

    fn init(&mut self) -> (s: ExecutionState)
        ensures
            s == next_state(old(self).spec_state(), ExecutionTransition::Init),
            final(self).spec_state() == s,
    {
        let next = self.state.peek_state(ExecutionTransition::Init);
        self.state.transition_to(next)
    }

    fn start(&mut self, ctx: &mut ExecutionContext) -> (s: ExecutionState)
        ensures
            s == next_state(old(self).spec_state(), ExecutionTransition::Start),
            final(self).spec_state() == s,
    {
        let next = self.state.peek_state(ExecutionTransition::Start);
        self.state.transition_to(next)
    }

    fn update(&mut self, delta: Nanos, ctx: &mut ExecutionContext) -> (r: (Nanos, UpdateResult))
        ensures
            old(self).spec_state() == ExecutionState::Running ==> r == (0u64, UpdateResult::Complete),
            final(self).spec_state() == next_state(old(self).spec_state(), ExecutionTransition::Update),
    {
        let next = self.state.peek_state(ExecutionTransition::Update);
        if self.state.transition_to(next) == ExecutionState::Running {
            (0, UpdateResult::Complete)
        } else {
            (0, UpdateResult::Error)
        }
    }

    fn finalize(&mut self, ctx: &mut ExecutionContext) -> (s: ExecutionState)
        ensures
            s == next_state(old(self).spec_state(), ExecutionTransition::Finalize),
            final(self).spec_state() == s,
    {
        let next = self.state.peek_state(ExecutionTransition::Finalize);
        self.state.transition_to(next)
    }

    fn terminate(&mut self) -> (s: ExecutionState)
        ensures
            s == next_state(old(self).spec_state(), ExecutionTransition::Terminate),
            final(self).spec_state() == s,
    {
        let next = self.state.peek_state(ExecutionTransition::Terminate);
        self.state.transition_to(next)
    }
}

} // verus!
