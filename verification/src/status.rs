//! Stable status codes of the C ABI and the failure value carried to it.

use vstd::prelude::*;

verus! {

/// Stable status codes returned across the C ABI.
#[derive(Debug, Clone, Copy, PartialEq, Eq, Structural)]
pub enum CuaDriverStatus {
    Success,
    InvalidArgument,
    NullPointer,
    RuntimeUnavailable,
    Shutdown,
    Cancelled,
    Internal,
    Panic,
    RuntimeConflict,
}

/// The integer that stands for `status` on the C side of the ABI.
pub open spec fn status_code(status: CuaDriverStatus) -> i32 {
    match status {
        CuaDriverStatus::Success => 0,
        CuaDriverStatus::InvalidArgument => 1,
        CuaDriverStatus::NullPointer => 2,
        CuaDriverStatus::RuntimeUnavailable => 3,
        CuaDriverStatus::Shutdown => 4,
        CuaDriverStatus::Cancelled => 5,
        CuaDriverStatus::Internal => 6,
        CuaDriverStatus::Panic => 7,
        CuaDriverStatus::RuntimeConflict => 8,
    }
}

impl CuaDriverStatus {
    /// The stable C value of this status.
    pub fn code(&self) -> (code: i32)
        ensures
            code == status_code(*self),
    {
        match self {
            CuaDriverStatus::Success => 0,
            CuaDriverStatus::InvalidArgument => 1,
            CuaDriverStatus::NullPointer => 2,
            CuaDriverStatus::RuntimeUnavailable => 3,
            CuaDriverStatus::Shutdown => 4,
            CuaDriverStatus::Cancelled => 5,
            CuaDriverStatus::Internal => 6,
            CuaDriverStatus::Panic => 7,
            CuaDriverStatus::RuntimeConflict => 8,
        }
    }

    /// The status whose C value is `code`, if there is one.
    pub fn from_code(code: i32) -> (status: Option<CuaDriverStatus>)
        ensures
            match status {
                Some(s) => status_code(s) == code,
                None => forall|s: CuaDriverStatus| status_code(s) != code,
            },
    {
        match code {
            0 => Some(CuaDriverStatus::Success),
            1 => Some(CuaDriverStatus::InvalidArgument),
            2 => Some(CuaDriverStatus::NullPointer),
            3 => Some(CuaDriverStatus::RuntimeUnavailable),
            4 => Some(CuaDriverStatus::Shutdown),
            5 => Some(CuaDriverStatus::Cancelled),
            6 => Some(CuaDriverStatus::Internal),
            7 => Some(CuaDriverStatus::Panic),
            8 => Some(CuaDriverStatus::RuntimeConflict),
            _ => None,
        }
    }
}

/// Distinct statuses have distinct C values, and every value names at most one status.
pub proof fn lemma_status_codes_distinct(a: CuaDriverStatus, b: CuaDriverStatus)
    ensures
        status_code(a) == status_code(b) <==> a == b,
        0 <= status_code(a) <= 8,
{
}

/// A failure raised inside an ABI entry point: the status returned to the
/// caller and the message written to its error buffer.
#[derive(Debug)]
pub struct AbiFailure {
    pub status: CuaDriverStatus,
    pub message: String,
}

impl AbiFailure {
    pub fn new(status: CuaDriverStatus, message: String) -> (failure: AbiFailure)
        ensures
            failure.status == status,
            failure.message@ == message@,
    {
        AbiFailure { status, message }
    }
}

} // verus!
