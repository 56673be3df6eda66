//! The ABI's error guard and the completion of asynchronous operations.

use vstd::prelude::*;
use vstd::utf8::*;
use crate::status::{AbiFailure, CuaDriverStatus};
use crate::buffer::CuaDriverBuffer;
use crate::text::message;

verus! {

/// How the body of an entry point ended: it returned, or it panicked and the
/// panic was caught at the boundary.
#[derive(Debug)]
pub enum GuardedOutcome {
    Returned(Result<(), AbiFailure>),
    Panicked,
}

/// The text written to the error buffer when the native core panicked.
pub open spec fn panic_message() -> Seq<char> {
    "the native Cua Driver core panicked; no panic crossed the C ABI"@
}

/// The status an entry point returns and the error text written for it:
/// success writes nothing, a failure writes its message, a panic writes a
/// fixed notice.
pub open spec fn guard_report(outcome: GuardedOutcome) -> (CuaDriverStatus, Seq<char>) {
    match outcome {
        GuardedOutcome::Returned(Ok(())) => (CuaDriverStatus::Success, Seq::<char>::empty()),
        GuardedOutcome::Returned(Err(failure)) => (failure.status, failure.message@),
        GuardedOutcome::Panicked => (CuaDriverStatus::Panic, panic_message()),
    }
}

/// Turns the outcome of an entry point's body into the status it returns
/// and the error buffer the caller receives (empty unless something failed).
pub fn ffi_guard_result(outcome: GuardedOutcome) -> (res: (CuaDriverStatus, CuaDriverBuffer))
    ensures
        res.0 == guard_report(outcome).0,
        res.1@ == encode_utf8(guard_report(outcome).1),
        outcome matches GuardedOutcome::Returned(Ok(())) ==> res.0 == CuaDriverStatus::Success && res.1@.len() == 0,
        outcome matches GuardedOutcome::Returned(Err(f)) ==> res.0 == f.status && res.1@ == encode_utf8(f.message@),
        outcome is Panicked ==> res.0 == CuaDriverStatus::Panic && res.1@.len() > 0,
{
    proof {
        lemma_guard_keeps_failure(outcome);
        vstd::utf8::encode_utf8_decode_utf8(guard_report(outcome).1);
        if outcome is Panicked {
            reveal_strlit("the native Cua Driver core panicked; no panic crossed the C ABI");
            assert(encode_utf8(guard_report(outcome).1).len() > 0) by {
                if encode_utf8(guard_report(outcome).1).len() == 0 {
                    assert(decode_utf8(encode_utf8(guard_report(outcome).1)) =~= Seq::<char>::empty());
                }
            }
        }
    }
    match outcome {
        GuardedOutcome::Returned(Ok(())) => {
            assert(encode_utf8(Seq::<char>::empty()) =~= Seq::<u8>::empty());
            (CuaDriverStatus::Success, CuaDriverBuffer::empty())
        },
        GuardedOutcome::Returned(Err(failure)) => {
            let status = failure.status;
            (status, CuaDriverBuffer::from_string(failure.message))
        },
        GuardedOutcome::Panicked => (
            CuaDriverStatus::Panic,
            CuaDriverBuffer::from_string(
                message("the native Cua Driver core panicked; no panic crossed the C ABI"),
            ),
        ),
    }
}

/// A failing body is reported with the failure's own status and message; a
/// successful one with the success status and no text; a panic with the
/// panic status.
pub proof fn lemma_guard_keeps_failure(outcome: GuardedOutcome)
    ensures
        outcome matches GuardedOutcome::Returned(Err(f)) ==> guard_report(outcome) == (f.status, f.message@),
        outcome matches GuardedOutcome::Returned(Ok(())) ==> guard_report(outcome) == (CuaDriverStatus::Success, Seq::<char>::empty()),
        outcome is Panicked ==> guard_report(outcome).0 == CuaDriverStatus::Panic,
{
}

/// An entry point reports success exactly when its body returned without
/// failing (failures never carry the success status), and then writes no
/// error text; every other outcome writes a non-empty error unless a failure
/// carried an empty message.
pub proof fn lemma_guard_reports_success_exactly_on_success(outcome: GuardedOutcome)
    requires
        outcome matches GuardedOutcome::Returned(Err(failure)) ==> failure.status != CuaDriverStatus::Success,
    ensures
        (guard_report(outcome).0 == CuaDriverStatus::Success) <==> (outcome matches GuardedOutcome::Returned(Ok(()))),
        (guard_report(outcome).0 == CuaDriverStatus::Success) ==> guard_report(outcome).1.len() == 0,
        outcome is Panicked ==> guard_report(outcome).1.len() > 0,
{
    if outcome is Panicked {
        reveal_strlit("the native Cua Driver core panicked; no panic crossed the C ABI");
    }
}

/// Before an operation is started: the caller must provide a place for its
/// token, and only then is the shared executor asked for; an executor that
/// cannot be built makes the runtime unavailable.
pub fn spawn_precheck<E, F: FnOnce() -> Result<E, String>>(
    out_operation_present: bool,
    executor: F,
) -> (res: Result<E, AbiFailure>)
    requires
        out_operation_present ==> call_requires(executor, ()),
    ensures
        !out_operation_present ==> (res matches Err(failure)
            && failure.status == CuaDriverStatus::NullPointer
            && failure.message@ == "out_operation must not be null"@),
        out_operation_present ==> exists|built: Result<E, String>|
            call_ensures(executor, (), built) && match built {
                Ok(e) => res == Ok::<E, AbiFailure>(e),
                Err(m) => res matches Err(failure)
                    && failure.status == CuaDriverStatus::RuntimeUnavailable
                    && failure.message@ == m@,
            },
{
    if !out_operation_present {
        return Err(AbiFailure::new(CuaDriverStatus::NullPointer, message("out_operation must not be null")));
    }
    let built = executor();
    match built {
        Ok(e) => Ok(e),
        Err(m) => Err(AbiFailure::new(CuaDriverStatus::RuntimeUnavailable, m)),
    }
}

/// How a started operation ended: with a result text, by cancellation, or
/// with an error of the driver (rendered as text).
#[derive(Debug)]
pub enum OperationOutcome {
    Completed(String),
    Cancelled,
    Failed(String),
}

/// What the completion callback receives. The result and error buffers are
/// caller-owned.
#[derive(Debug)]
pub struct Completion {
    pub status: CuaDriverStatus,
    pub result: CuaDriverBuffer,
    pub error: CuaDriverBuffer,
}

/// The single completion delivered for an operation: its result on success,
/// nothing but the status on cancellation, its error text on failure.
pub fn complete_operation(outcome: OperationOutcome) -> (completion: Completion)
    ensures
        match outcome {
            OperationOutcome::Completed(value) => completion.status == CuaDriverStatus::Success
                && completion.result@ == encode_utf8(value@)
                && completion.error@.len() == 0,
            OperationOutcome::Cancelled => completion.status == CuaDriverStatus::Cancelled
                && completion.result@.len() == 0
                && completion.error@.len() == 0,
            OperationOutcome::Failed(error) => completion.status == CuaDriverStatus::Internal
                && completion.result@.len() == 0
                && completion.error@ == encode_utf8(error@),
        },
{
    match outcome {
        OperationOutcome::Completed(value) => Completion {
            status: CuaDriverStatus::Success,
            result: CuaDriverBuffer::from_string(value),
            error: CuaDriverBuffer::empty(),
        },
        OperationOutcome::Cancelled => Completion {
            status: CuaDriverStatus::Cancelled,
            result: CuaDriverBuffer::empty(),
            error: CuaDriverBuffer::empty(),
        },
        OperationOutcome::Failed(error) => Completion {
            status: CuaDriverStatus::Internal,
            result: CuaDriverBuffer::empty(),
            error: CuaDriverBuffer::from_string(error),
        },
    }
}

/// The result text of a completed shutdown: an empty JSON object.
pub fn shutdown_result() -> (value: String)
    ensures
        value@ == "{}"@,
{
    message("{}")
}

} // verus!
