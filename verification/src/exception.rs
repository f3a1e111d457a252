//! Exceptions, exception filters, interruptions and update results.
use vstd::prelude::*;
use crate::base::ErrorCode;

verus! {

/// Id of an exception, from 0 to 63.
pub type ExecutionExceptionId = u8;

/// Code of an exception: `1 << id`, or 0 for the invalid exception.
pub type ExecutionExceptionCode = u64;

/// The code of the exception with id `id`: the bit `id` set, or 0 where the id exceeds 63.
pub open spec fn exception_code(id: u8) -> u64 {
    if id > 63 { 0 } else { (1u64 << (id as u64)) }
}

/// An exception thrown during execution. There are 64 codes, of which 56 are user exceptions.
#[derive(Debug, Clone, Copy, PartialEq, Eq, Structural)]
pub struct ExecutionException {
    code: ExecutionExceptionCode,
}

impl ExecutionException {
    /// The invalid exception code.
    pub const INVALID: ExecutionExceptionCode = 0;

    /// The largest exception id.
    pub const MAX: ExecutionExceptionId = 0x3F;

    /// The id of the timeout exception.
    pub const TIMEOUT: ExecutionExceptionId = 0x38;

    /// The first user exception id.
    pub const USER: ExecutionExceptionId = 0x00;

    /// The largest user exception id.
    pub const USER_MAX: ExecutionExceptionId = 0x37;

    /// The spec view of an exception: its code.
    pub closed spec fn spec_code(&self) -> u64 {
        self.code
    }

    /// The exception with id `exception`; invalid where the id exceeds `MAX`.
    pub fn new(exception: ExecutionExceptionId) -> (e: ExecutionException)
        ensures
            e.spec_code() == exception_code(exception),
    {
        if exception > Self::MAX {
            ExecutionException { code: Self::INVALID }
        } else {
            ExecutionException { code: 1u64 << (exception as u64) }
        }
    }

    /// The timeout exception, as a value of the specification.
    pub closed spec fn spec_timeout_exception() -> ExecutionException {
        ExecutionException { code: exception_code(0x38) }
    }

    /// The invalid exception.
    pub fn invalid() -> (e: ExecutionException)
        ensures
            e.spec_code() == 0,
    {
        ExecutionException { code: Self::INVALID }
    }

    /// The timeout exception.
    pub fn timeout() -> (e: ExecutionException)
        ensures
            e.spec_code() == exception_code(0x38),
            e == Self::spec_timeout_exception(),
    {
        Self::new(Self::TIMEOUT)
    }

    /// The user exception `exception`; invalid where it exceeds `USER_MAX`.
    pub fn user(exception: u8) -> (e: ExecutionException)
        ensures
            exception <= 0x37 ==> e.spec_code() == exception_code(exception),
            exception > 0x37 ==> e.spec_code() == 0,
    {
        if exception > Self::USER_MAX {
            ExecutionException { code: Self::INVALID }
        } else {
            Self::new(Self::USER + exception)
        }
    }

    /// Whether the exception is valid.
    pub fn is_valid(&self) -> (b: bool)
        ensures
            b == (self.spec_code() != 0),
    {
        self.code != Self::INVALID
    }

    /// The exception code.
    pub fn code(&self) -> (c: ExecutionExceptionCode)
        ensures
            c == self.spec_code(),
    {
        self.code
    }
}

/// An exception is its code: two exceptions are equal exactly where their codes are, so that
/// an id beyond the largest gives the invalid exception and `timeout` the exception of its id.
pub proof fn lemma_exception_is_its_code(a: ExecutionException, b: ExecutionException)
    ensures
        a == b <==> a.spec_code() == b.spec_code(),
{
}

/// A filter that matches a set of exceptions, given as a bit mask of exception codes.
#[derive(Debug, Clone, Copy, PartialEq, Eq, Structural)]
pub struct ExecutionExceptionFilter {
    mask: ExecutionExceptionCode,
}

/// Whether a filter with mask `mask` matches the exception with code `code`.
pub open spec fn filter_matches(mask: u64, code: u64) -> bool {
    code & mask != 0
}

impl ExecutionExceptionFilter {
    /// The empty mask.
    pub const CLEAR: ExecutionExceptionCode = 0;

    /// The mask of all exceptions.
    pub const ALL: ExecutionExceptionCode = 0xFFFF_FFFF_FFFF_FFFF;

    /// The mask of the system exceptions (ids 56 to 63).
    pub const SYSTEM: ExecutionExceptionCode = 0xFF00_0000_0000_0000;

    /// The mask of the user exceptions (ids 0 to 55).
    pub const USER: ExecutionExceptionCode = 0x00FF_FFFF_FFFF_FFFF;

    /// The spec view of a filter: its mask.
    pub closed spec fn spec_mask(&self) -> u64 {
        self.mask
    }

    /// The filter that matches nothing.
    pub fn new() -> (f: ExecutionExceptionFilter)
        ensures
            f.spec_mask() == 0,
    {
        ExecutionExceptionFilter { mask: Self::CLEAR }
    }

    /// The filter of one exception.
    pub fn for_exception(ex: ExecutionException) -> (f: ExecutionExceptionFilter)
        ensures
            f.spec_mask() == ex.spec_code(),
    {
        ExecutionExceptionFilter { mask: ex.code() }
    }

    /// The filter of the timeout exception.
    pub fn for_timeout() -> (f: ExecutionExceptionFilter)
        ensures
            f.spec_mask() == exception_code(0x38),
    {
        Self::for_exception(ExecutionException::timeout())
    }

    /// The filter of all system exceptions.
    pub fn for_system() -> (f: ExecutionExceptionFilter)
        ensures
            f.spec_mask() == 0xFF00_0000_0000_0000u64,
    {
        ExecutionExceptionFilter { mask: Self::SYSTEM }
    }

    /// The filter of all user exceptions.
    pub fn for_user() -> (f: ExecutionExceptionFilter)
        ensures
            f.spec_mask() == 0x00FF_FFFF_FFFF_FFFFu64,
    {
        ExecutionExceptionFilter { mask: Self::USER }
    }

    /// The filter of all exceptions.
    pub fn for_all() -> (f: ExecutionExceptionFilter)
        ensures
            f.spec_mask() == 0xFFFF_FFFF_FFFF_FFFFu64,
    {
        ExecutionExceptionFilter { mask: Self::ALL }
    }

    /// The filter with a given mask.
    pub fn from_mask(mask: ExecutionExceptionCode) -> (f: ExecutionExceptionFilter)
        ensures
            f.spec_mask() == mask,
    {
        ExecutionExceptionFilter { mask }
    }

    /// This filter extended by one exception.
    pub fn and_exception(self, exception: ExecutionException) -> (f: ExecutionExceptionFilter)
        ensures
            f.spec_mask() == self.spec_mask() | exception.spec_code(),
    {
        ExecutionExceptionFilter { mask: self.mask | exception.code() }
    }

    /// Whether the filter matches the exception.
    pub fn matches(&self, exception: &ExecutionException) -> (b: bool)
        ensures
            b == filter_matches(self.spec_mask(), exception.spec_code()),
    {
        exception.code() & self.mask != 0
    }
}

/// What the bit arithmetic of exceptions and filters gives: every valid exception has
/// a single bit; user exceptions are matched by the user filter and not by the system
/// filter; the timeout is a system exception; the filter of all matches every valid
/// exception; no filter matches the invalid exception; a filter extended by an exception
/// matches it and everything it matched before; and distinct ids give distinct codes.
pub proof fn lemma_exception_filters(id: u8, other: u8, mask: u64)
    ensures
        id <= 63 ==> exception_code(id) != 0,
        id <= 0x37 ==> filter_matches(0x00FF_FFFF_FFFF_FFFFu64, exception_code(id)),
        id <= 0x37 ==> !filter_matches(0xFF00_0000_0000_0000u64, exception_code(id)),
        0x38 <= id <= 63 ==> filter_matches(0xFF00_0000_0000_0000u64, exception_code(id)),
        0x38 <= id <= 63 ==> !filter_matches(0x00FF_FFFF_FFFF_FFFFu64, exception_code(id)),
        id <= 63 ==> filter_matches(0xFFFF_FFFF_FFFF_FFFFu64, exception_code(id)),
        !filter_matches(mask, 0),
        id <= 63 ==> filter_matches(mask | exception_code(id), exception_code(id)),
        id <= 63 ==> filter_matches(exception_code(id), exception_code(id)),
        forall|c: u64| filter_matches(mask, c) ==> #[trigger] filter_matches(mask | exception_code(id), c),
        id <= 63 && other <= 63 && id != other ==> exception_code(id) != exception_code(other),
        id <= 63 && other <= 63 && id != other ==> !filter_matches(exception_code(id), exception_code(other)),
{
    let i = id as u64;
    let o = other as u64;
    if id <= 63 {
        assert(i < 64 ==> (1u64 << i) != 0) by (bit_vector);
        assert(i < 64 ==> (1u64 << i) & 0xFFFF_FFFF_FFFF_FFFFu64 != 0) by (bit_vector);
        assert(i < 64 ==> (1u64 << i) & (mask | (1u64 << i)) != 0) by (bit_vector);
        assert(i < 64 ==> (1u64 << i) & (1u64 << i) != 0) by (bit_vector);
    }
    if id <= 0x37 {
        assert(i < 56 ==> (1u64 << i) & 0x00FF_FFFF_FFFF_FFFFu64 != 0) by (bit_vector);
        assert(i < 56 ==> (1u64 << i) & 0xFF00_0000_0000_0000u64 == 0) by (bit_vector);
    }
    if 0x38 <= id && id <= 63 {
        assert(56 <= i < 64 ==> (1u64 << i) & 0xFF00_0000_0000_0000u64 != 0) by (bit_vector);
        assert(56 <= i < 64 ==> (1u64 << i) & 0x00FF_FFFF_FFFF_FFFFu64 == 0) by (bit_vector);
    }
    assert((0u64 & mask) == 0) by (bit_vector);
    assert forall|c: u64| filter_matches(mask, c) implies #[trigger] filter_matches(mask | exception_code(id), c) by {
        let e = exception_code(id);
        assert(c & mask != 0 ==> c & (mask | e) != 0) by (bit_vector);
    }
    if id <= 63 && other <= 63 && id != other {
        assert(i < 64 && o < 64 && i != o ==> (1u64 << i) != (1u64 << o)) by (bit_vector);
        assert(i < 64 && o < 64 && i != o ==> (1u64 << o) & (1u64 << i) == 0) by (bit_vector);
    }
}

/// Interruptions of the normal flow of execution.
#[derive(Debug, Clone, Copy, PartialEq, Eq, Structural)]
pub enum ExecutionInterruption {
    /// A break action ran.
    Break,
    /// An exception was thrown.
    Exception(ExecutionException),
    /// A runtime failure.
    Failure(ErrorCode),
}

/// Result of an update of an action.
#[derive(Debug, Clone, Copy, PartialEq, Eq, Structural)]
pub enum UpdateResult {
    /// The action needs more time.
    Busy,
    /// The action may update again but need not.
    Ready,
    /// The action has completed.
    Complete,
    /// The action was interrupted.
    Interruption(ExecutionInterruption),
    /// The update was illegal in the action's state.
    Error,
}

} // verus!
