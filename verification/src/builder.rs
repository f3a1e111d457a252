//! Building programs step by step, in a script-like manner.
use vstd::prelude::*;
use crate::actions::Action;
use crate::base::{Error, RtoResult};
use crate::errors::{FUNCTION_NOT_IMPLEMENTED, PROGRAM_BUILD_FAILED};
use crate::executor::Tag;

verus! {

/// Makes the action of a single step.
pub trait MakeAction {
    /// A new action.
    fn make(&self) -> BuiltAction;
}

/// Combines the actions of the nested steps of a chain into one action.
pub trait ComposeActions {
    /// The action made of the given actions, in the order of their steps.
    fn compose(&self, actions: Vec<BuiltAction>) -> BuiltAction;
}

/// The action that a build step produced.
pub struct BuiltAction {
    pub action: Box<dyn Action>,
}

/// A step of the building process.
pub enum BuildStep {
    /// The first step of a builder, before anything was added.
    Start,
    /// A step that makes a single action and takes no nested step.
    Single(Box<dyn MakeAction>),
    /// A chain of nested steps whose actions are combined into one larger action.
    Chain(Box<dyn ComposeActions>, Vec<BuildStep>),
}

/// Append `step` to `chain`.
fn push_step(chain: &mut Vec<BuildStep>, step: BuildStep)
    ensures
        final(chain)@ == old(chain)@.push(step),
{
    chain.push(step);
}

impl BuildStep {
    /// The number of nested steps of a chain; none for the other steps.
    pub open spec fn steps(&self) -> nat {
        match self {
            BuildStep::Chain(_, chain) => chain@.len(),
            _ => 0,
        }
    }

    /// A new chain with no nested step, combined by `builder`.
    pub fn chain(builder: Box<dyn ComposeActions>) -> (s: BuildStep)
        ensures
            s is Chain,
            exists|v: Vec<BuildStep>| #[trigger] v@.len() == 0 && s == BuildStep::Chain(builder, v),
            s.steps() == 0,
    {
        let chain: Vec<BuildStep> = Vec::new();
        assert(chain@.len() == 0);
        BuildStep::Chain(builder, chain)
    }

    /// A new single step made by `builder`.
    pub fn single(builder: Box<dyn MakeAction>) -> (s: BuildStep)
        ensures
            s == BuildStep::Single(builder),
    {
        BuildStep::Single(builder)
    }

    /// Add a nested step under `tag`: a chain appends it; the other steps take no nested step
    /// and fail with `PROGRAM_BUILD_FAILED`, unchanged.
    pub fn add(&mut self, tag: Tag, step: BuildStep) -> (r: RtoResult<()>)
        ensures
            *old(self) is Chain <==> r is Ok,
            r matches Err(e) ==> e.code == PROGRAM_BUILD_FAILED && *final(self) == *old(self),
            *old(self) is Chain ==> *final(self) is Chain && final(self).steps() == old(self).steps() + 1,
    {
        match self {
            BuildStep::Chain(_, chain) => {
                push_step(chain, step);
                Ok(())
            },
            _ => Err(Error::from_code(PROGRAM_BUILD_FAILED)),
        }
    }

    /// Build the action of the step. The start has nothing to build and fails with
    /// `FUNCTION_NOT_IMPLEMENTED`; a single step always succeeds; a chain builds its steps in
    /// order and combines their actions, or returns the error of the first step that fails.
    pub fn build(&self) -> (r: RtoResult<BuiltAction>)
        ensures
            *self is Start ==> r is Err,
            *self is Single ==> r is Ok,
            (*self is Chain && self.steps() == 0) ==> r is Ok,
            r matches Err(e) ==> e.code == FUNCTION_NOT_IMPLEMENTED,
        decreases self,
    {
        match self {
            BuildStep::Start => Err(Error::from_code(FUNCTION_NOT_IMPLEMENTED)),
            BuildStep::Single(builder) => Ok(builder.make()),
            BuildStep::Chain(builder, chain) => {
                proof {
                    assert forall|j: int| 0 <= j < chain@.len() implies decreases_to!(*self => #[trigger] chain@[j]) by {
                        assert(decreases_to!(*self => *chain));
                        assert(decreases_to!(*chain => chain@));
                        assert(decreases_to!(chain@ => chain@[j]));
                    }
                }
                let mut actions: Vec<BuiltAction> = Vec::new();
                let n = chain.len();
                let mut i: usize = 0;
                while i < n
                    invariant
                        i <= n,
                        n == chain@.len(),
                        *self is Chain,
                        self->1 == *chain,
                        self.steps() == n,
                        forall|j: int| 0 <= j < chain@.len() ==> decreases_to!(*self => #[trigger] chain@[j]),
                    decreases n - i,
                {
                    match chain[i].build() {
                        Ok(a) => actions.push(a),
                        Err(e) => {
                            return Err(e);
                        },
                    }
                    i = i + 1;
                }
                Ok(builder.compose(actions))
            },
        }
    }
}

/// Builds a program in a script-like manner.
pub struct ProgramBuilder {
    step: BuildStep,
}

impl ProgramBuilder {
    /// A new builder at its start.
    pub fn new() -> (b: ProgramBuilder)
        ensures
            b.spec_step() is Start,
    {
        ProgramBuilder { step: BuildStep::Start }
    }

    /// A new builder at its start.
    pub fn begin() -> (b: ProgramBuilder)
        ensures
            b.spec_step() is Start,
    {
        ProgramBuilder::new()
    }

    /// The step the builder is at.
    pub closed spec fn spec_step(&self) -> BuildStep {
        self.step
    }
}

} // verus!
