//! Runtime orchestration: actions with a verified lifecycle, composed into programs that
//! an engine executes.
pub mod base;
pub mod errors;
pub mod exception;
pub mod variables;
pub mod expressions;
pub mod event;
pub mod actions;
pub mod program;
pub mod builder;
pub mod queue;
pub mod task;
pub mod executor;
pub mod latch;
pub mod waker;
