//! Error codes of the runtime orchestration.
use vstd::prelude::*;
use crate::base::ErrorCode;

verus! {

/// The first error code of the runtime orchestration.
pub const RTO: ErrorCode = 0x0500;

/// An invalid action was given.
pub const INVALID_ACTION: ErrorCode = 0x0501;

/// An invalid state was given.
pub const INVALID_STATE: ErrorCode = 0x0502;

/// An invalid operation was requested.
pub const INVALID_OPERATION: ErrorCode = 0x0503;

/// The evaluation of an expression failed.
pub const EVALUATION_FAILURE: ErrorCode = 0x0504;

/// The event subscriber was not found.
pub const EVENT_SUBSCRIBER_NOT_FOUND: ErrorCode = 0x0505;

/// The event already has the given subscriber.
pub const EVENT_SUBSCRIBER_ALREADY_EXISTS: ErrorCode = 0x0506;

/// No more subscribers can be added to the event.
pub const EVENT_SUBSCRIBERS_FULL: ErrorCode = 0x0507;

/// Engine error.
pub const ENGINE_ERROR: ErrorCode = 0x0564;

/// An engine thread failed to spawn.
pub const THREAD_SPWAN_ERROR: ErrorCode = 0x05C8;

/// An engine thread failed to join.
pub const THREAD_JOIN_ERROR: ErrorCode = 0x05C9;

/// A task completed without revealing a result.
pub const TASK_EMPTY_RESULT: ErrorCode = 0x062C;

/// A scheduled task received a cancel signal but did not cancel.
pub const TASK_CANCEL_ERROR: ErrorCode = 0x062D;

/// A program misses its binding to an execution engine.
pub const PROGRAM_ENGINE_BINDING_MISSING: ErrorCode = 0x0690;

/// A fiber of a program failed.
pub const PROGRAM_FIBER_FAILED: ErrorCode = 0x0691;

/// Building a program failed.
pub const PROGRAM_BUILD_FAILED: ErrorCode = 0x0692;

/// A lock could not be acquired.
pub const LOCK_ERROR: ErrorCode = 0x0101;

/// A collection is full.
pub const COLLECTION_FULL: ErrorCode = 0x0102;

/// A feature is not supported.
pub const UNSUPPORTED_FEATURE: ErrorCode = 0x0103;

/// A function is not implemented.
pub const FUNCTION_NOT_IMPLEMENTED: ErrorCode = 0x0104;

} // verus!
