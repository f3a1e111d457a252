//! Conditional execution.
use vstd::prelude::*;
use std::sync::Arc;
use crate::base::{EvalError, ExecutionState, ExecutionTransition, Nanos, next_state};
use crate::exception::UpdateResult;
use crate::variables::RValue;
use crate::actions::{Action, ExecutionContext};
use crate::actions::rounds::Round;

verus! {

/// An action that evaluates a condition at start and runs the then or the else action.
pub struct IfThenElse {
    state: ExecutionState,
    condition: Box<dyn RValue<bool>>,
    then_action: Option<Box<dyn Action>>,
    else_action: Option<Box<dyn Action>>,
    active_branch: bool,
    round: Ghost<Option<Round>>,
    condition_seen: Ghost<Option<Result<bool, EvalError>>>,
}

impl IfThenElse {
    /// A new conditional action with empty branches.
    pub fn new<C: RValue<bool> + 'static>(condition: Arc<C>) -> (a: Box<IfThenElse>)
        ensures
            a.spec_state() == ExecutionState::Uninitialized,
            !a.spec_has_then(),
            !a.spec_has_else(),
    {
        Box::new(IfThenElse {
            state: ExecutionState::new(),
            condition: Box::new(condition),
            then_action: None,
            else_action: None,
            active_branch: false,
            round: Ghost(None),
            condition_seen: Ghost(None),
        })
    }

    /// This action with the then branch set; only while uninitialized.
    pub fn with_then(self: Box<Self>, action: Box<dyn Action>) -> (a: Box<IfThenElse>)
        requires
            self.spec_state() == ExecutionState::Uninitialized,
        ensures
            a.spec_state() == ExecutionState::Uninitialized,
            a.spec_has_then(),
            a.spec_has_else() == self.spec_has_else(),
    {
        let mut this = self;
        this.then_action = Some(action);
        this
    }

    /// This action with the else branch set; only while uninitialized.
    pub fn with_else(self: Box<Self>, action: Box<dyn Action>) -> (a: Box<IfThenElse>)
        requires
            self.spec_state() == ExecutionState::Uninitialized,
        ensures
            a.spec_state() == ExecutionState::Uninitialized,
            a.spec_has_then() == self.spec_has_then(),
            a.spec_has_else(),
    {
        let mut this = self;
        this.else_action = Some(action);
        this
    }

    /// Whether a then action is set.
    pub closed spec fn spec_has_then(&self) -> bool {
        self.then_action is Some
    }

    /// Whether an else action is set.
    pub closed spec fn spec_has_else(&self) -> bool {
        self.else_action is Some
    }

    /// Whether the then branch is the active one.
    pub closed spec fn spec_active_branch(&self) -> bool {
        self.active_branch
    }

    /// Whether the active branch has an action.
    pub open spec fn spec_active_has_action(&self) -> bool {
        if self.spec_active_branch() { self.spec_has_then() } else { self.spec_has_else() }
    }

    /// The state of the action of the active branch, where there is one.
    pub closed spec fn spec_active_state(&self) -> ExecutionState {
        if self.active_branch { self.then_action.unwrap().spec_state() } else { self.else_action.unwrap().spec_state() }
    }

    /// The state of the action of the inactive branch, where there is one.
    pub closed spec fn spec_inactive_state(&self) -> ExecutionState {
        if self.active_branch { self.else_action.unwrap().spec_state() } else { self.then_action.unwrap().spec_state() }
    }

    /// Whether the inactive branch has an action.
    pub open spec fn spec_inactive_has_action(&self) -> bool {
        if self.spec_active_branch() { self.spec_has_else() } else { self.spec_has_then() }
    }

    /// The state of the then action (`then_branch`) or the else action, where there is one.
    pub closed spec fn spec_branch_state(&self, then_branch: bool) -> ExecutionState {
        if then_branch { self.then_action.unwrap().spec_state() } else { self.else_action.unwrap().spec_state() }
    }

    /// The update of the active branch's action within the last update, if there was one.
    pub closed spec fn spec_round(&self) -> Option<Round> {
        self.round@
    }

    /// What evaluating the condition gave at the last start, if it was evaluated.
    pub closed spec fn spec_condition_seen(&self) -> Option<Result<bool, EvalError>> {
        self.condition_seen@
    }

    /// Whether `r` is a result that evaluating the condition may give.
    pub closed spec fn spec_condition_gives(&self, r: Result<bool, EvalError>) -> bool {
        self.condition.eval_result(r)
    }
}

impl Action for IfThenElse {
    closed spec fn spec_state(&self) -> ExecutionState {
        self.state
    }

    fn state(&self) -> (s: ExecutionState) {
        self.state
    }

    fn init(&mut self) -> (s: ExecutionState)
        ensures
            next_state(old(self).spec_state(), ExecutionTransition::Init) is Error ==>
                s == ExecutionState::Error(ExecutionTransition::Init) && final(self).spec_state() == old(self).spec_state(),
            !(next_state(old(self).spec_state(), ExecutionTransition::Init) is Error) ==>
                final(self).spec_state() == s && (s == ExecutionState::Ready || s == ExecutionState::Error(ExecutionTransition::Init)),
            final(self).spec_has_then() == old(self).spec_has_then(),
            final(self).spec_has_else() == old(self).spec_has_else(),
            final(self).spec_active_branch() == old(self).spec_active_branch(),
    {
        match self.state.peek_state(ExecutionTransition::Init) {
            ExecutionState::Ready => {
                if let Some(action) = &mut self.then_action {
                    if action.init() != ExecutionState::Ready {
                        return self.state.transition_to(ExecutionState::Error(ExecutionTransition::Init));
                    }
                }
                if let Some(action) = &mut self.else_action {
                    if action.init() != ExecutionState::Ready {
                        return self.state.transition_to(ExecutionState::Error(ExecutionTransition::Init));
                    }
                }
                self.state.transition_to(ExecutionState::Ready)
            },
            _ => ExecutionState::Error(ExecutionTransition::Init),
        }
    }

    /// Evaluate the condition, choose the branch and start its action. A failed evaluation
    /// refuses the start and leaves the state as it is.
    fn start(&mut self, ctx: &mut ExecutionContext) -> (s: ExecutionState)
        ensures
            next_state(old(self).spec_state(), ExecutionTransition::Start) is Error ==>
                s == ExecutionState::Error(ExecutionTransition::Start) && final(self).spec_state() == old(self).spec_state(),
            s == ExecutionState::Running ==> final(self).spec_state() == s
                && (final(self).spec_active_has_action() ==> final(self).spec_active_state() == ExecutionState::Running),
            s == ExecutionState::Running || s == ExecutionState::Error(ExecutionTransition::Start),
            final(self).spec_state() == s || final(self).spec_state() == old(self).spec_state(),
            final(self).spec_has_then() == old(self).spec_has_then(),
            final(self).spec_has_else() == old(self).spec_has_else(),
            // the branch is the value the condition gave: then where true, else where false
            s == ExecutionState::Running ==> final(self).spec_condition_gives(Ok(final(self).spec_active_branch())),
            // an admitted start evaluates the condition; where that fails, the start fails with
            // `Error(Start)`, the state stays and no branch is started
            !(next_state(old(self).spec_state(), ExecutionTransition::Start) is Error) ==> (final(self).spec_condition_seen() matches Some(c)
                && final(self).spec_condition_gives(c)
                && (c matches Ok(b) ==> final(self).spec_active_branch() == b)
                && (c is Err ==> s == ExecutionState::Error(ExecutionTransition::Start)
                    && final(self).spec_state() == old(self).spec_state()
                    && (final(self).spec_has_then() ==> final(self).spec_branch_state(true) == old(self).spec_branch_state(true))
                    && (final(self).spec_has_else() ==> final(self).spec_branch_state(false) == old(self).spec_branch_state(false)))),
            // only the chosen branch is started
            !(next_state(old(self).spec_state(), ExecutionTransition::Start) is Error) && final(self).spec_inactive_has_action()
                ==> final(self).spec_inactive_state() == (if final(self).spec_active_branch() { old(self).spec_branch_state(false) } else { old(self).spec_branch_state(true) }),
    {
        match self.state.peek_state(ExecutionTransition::Start) {
            ExecutionState::Running => {
                let seen = self.condition.eval();
                self.condition_seen = Ghost(Some(seen));
                match seen {
                    Ok(condition) => {
                        self.active_branch = condition;
                        if self.active_branch {
                            if let Some(action) = &mut self.then_action {
                                if action.start(ctx) != ExecutionState::Running {
                                    return self.state.transition_to(ExecutionState::Error(ExecutionTransition::Start));
                                }
                            }
                        } else {
                            if let Some(action) = &mut self.else_action {
                                if action.start(ctx) != ExecutionState::Running {
                                    return self.state.transition_to(ExecutionState::Error(ExecutionTransition::Start));
                                }
                            }
                        }
                    },
                    Err(_) => {
                        return ExecutionState::Error(ExecutionTransition::Start);
                    },
                }
                self.state.transition_to(ExecutionState::Running)
            },
            _ => ExecutionState::Error(ExecutionTransition::Start),
        }
    }

    /// Update the action of the active branch; an empty branch completes at once.
    fn update(&mut self, delta: Nanos, ctx: &mut ExecutionContext) -> (r: (Nanos, UpdateResult))
        ensures
            final(self).spec_state() == old(self).spec_state(),
            final(self).spec_active_branch() == old(self).spec_active_branch(),
            final(self).spec_has_then() == old(self).spec_has_then(),
            final(self).spec_has_else() == old(self).spec_has_else(),
            old(self).spec_state() == ExecutionState::Running && !old(self).spec_active_has_action() ==>
                r == (0u64, UpdateResult::Complete),
            // the action of the active branch gets all the time, and its report is passed on as it is
            old(self).spec_state() == ExecutionState::Running && old(self).spec_active_has_action() ==>
                (final(self).spec_round() matches Some(rd) && rd.before == old(self).spec_active_state()
                    && rd.given == delta && rd.elapsed == r.0 && rd.result == r.1),
    {
        match self.state {
            ExecutionState::Running => {
                let ghost before = self.spec_active_state();
                let r = if self.active_branch {
                    match &mut self.then_action {
                        Some(action) => action.update(delta, ctx),
                        None => {
                            return (0, UpdateResult::Complete);
                        },
                    }
                } else {
                    match &mut self.else_action {
                        Some(action) => action.update(delta, ctx),
                        None => {
                            return (0, UpdateResult::Complete);
                        },
                    }
                };
                self.round = Ghost(Some(Round { before, given: delta, elapsed: r.0, result: r.1 }));
                r
            },
            _ => (0, UpdateResult::Error),
        }
    }

    fn finalize(&mut self, ctx: &mut ExecutionContext) -> (s: ExecutionState)
        ensures
            next_state(old(self).spec_state(), ExecutionTransition::Finalize) is Error ==>
                s == ExecutionState::Error(ExecutionTransition::Finalize) && final(self).spec_state() == old(self).spec_state(),
            !(next_state(old(self).spec_state(), ExecutionTransition::Finalize) is Error) ==>
                final(self).spec_state() == s && (s == ExecutionState::Completed || s == ExecutionState::Error(ExecutionTransition::Finalize)),
            s == ExecutionState::Completed && old(self).spec_active_has_action() ==>
                final(self).spec_active_state() == ExecutionState::Completed,
            final(self).spec_active_branch() == old(self).spec_active_branch(),
            final(self).spec_has_then() == old(self).spec_has_then(),
            final(self).spec_has_else() == old(self).spec_has_else(),
    {
        match self.state.peek_state(ExecutionTransition::Finalize) {
            ExecutionState::Completed => {
                if self.active_branch {
                    if let Some(action) = &mut self.then_action {
                        if action.finalize(ctx) != ExecutionState::Completed {
                            return self.state.transition_to(ExecutionState::Error(ExecutionTransition::Finalize));
                        }
                    }
                } else {
                    if let Some(action) = &mut self.else_action {
                        if action.finalize(ctx) != ExecutionState::Completed {
                            return self.state.transition_to(ExecutionState::Error(ExecutionTransition::Finalize));
                        }
                    }
                }
                self.state.transition_to(ExecutionState::Completed)
            },
            _ => ExecutionState::Error(ExecutionTransition::Finalize),
        }
    }

    /// Terminate the action of the active branch.
    fn terminate(&mut self) -> (s: ExecutionState)
        ensures
            next_state(old(self).spec_state(), ExecutionTransition::Terminate) is Error ==>
                s == ExecutionState::Error(ExecutionTransition::Terminate) && final(self).spec_state() == old(self).spec_state(),
            !(next_state(old(self).spec_state(), ExecutionTransition::Terminate) is Error) ==>
                final(self).spec_state() == s && (s == ExecutionState::Terminated || s == ExecutionState::Error(ExecutionTransition::Terminate)),
            s == ExecutionState::Terminated && old(self).spec_active_has_action() ==>
                final(self).spec_active_state() == ExecutionState::Terminated,
            final(self).spec_active_branch() == old(self).spec_active_branch(),
            final(self).spec_has_then() == old(self).spec_has_then(),
            final(self).spec_has_else() == old(self).spec_has_else(),
    {
        match self.state.peek_state(ExecutionTransition::Terminate) {
            ExecutionState::Terminated => {
                if self.active_branch {
                    if let Some(action) = &mut self.then_action {
                        if action.terminate() != ExecutionState::Terminated {
                            return self.state.transition_to(ExecutionState::Error(ExecutionTransition::Terminate));
                        }
                    }
                } else {
                    if let Some(action) = &mut self.else_action {
                        if action.terminate() != ExecutionState::Terminated {
                            return self.state.transition_to(ExecutionState::Error(ExecutionTransition::Terminate));
                        }
                    }
                }
                self.state.transition_to(ExecutionState::Terminated)
            },
            _ => ExecutionState::Error(ExecutionTransition::Terminate),
        }
    }
}

} // verus!
