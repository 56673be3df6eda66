//! Reading what the caller passes in: byte ranges, handles, tool invocations.

use vstd::prelude::*;
use vstd::utf8::*;
use crate::status::{AbiFailure, CuaDriverStatus};
use crate::handles::{CuaDriverHandle, CuaDriverSessionHandle};
use crate::text::{message, utf8_str, utf8_error_message};

verus! {

#[verifier::external_type_specification]
#[verifier::external_body]
pub struct ExJsonValue(serde_json::Value);

/// The message of the error that `serde_json::from_slice::<Value>` reports for
/// `bytes`, or `None` where the bytes are one well-formed JSON document.
pub uninterp spec fn json_rejection(bytes: Seq<u8>) -> Option<Seq<char>>;

/// The JSON value that `serde_json::from_slice::<Value>` makes of `bytes`
/// when it accepts them; it depends on the bytes alone.
pub uninterp spec fn json_value(bytes: Seq<u8>) -> serde_json::Value;

/// Calls `serde_json::from_slice` for a `serde_json::Value` and renders its
/// error with `to_string`. Trusted: serde_json accepts or rejects the same
/// bytes the same way every time and parses them to the same value; what
/// that value is, is only named.
#[verifier::external_body]
fn parse_json_value(bytes: &[u8]) -> (res: Result<serde_json::Value, String>)
    ensures
        match res {
            Ok(v) => json_rejection(bytes@) is None && v == json_value(bytes@),
            Err(m) => json_rejection(bytes@) == Some(m@),
        },
{
    serde_json::from_slice(bytes).map_err(|error| error.to_string())
}

/// A caller's (pointer, length) pair: `None` stands for a null pointer, and
/// otherwise the slice has the given length.
pub open spec fn well_formed_input(data: Option<&[u8]>, len: usize) -> bool {
    data matches Some(d) ==> d@.len() == len
}

/// The bytes a (pointer, length) pair denotes, when it denotes any: an empty
/// range never reads the pointer, and a non-empty range needs one.
pub open spec fn spec_input_bytes(data: Option<&[u8]>, len: usize) -> Option<Seq<u8>> {
    if len == 0 {
        Some(Seq::<u8>::empty())
    } else {
        match data {
            Some(d) => Some(d@),
            None => None,
        }
    }
}

/// The bytes of a (pointer, length) pair; a null pointer with a non-zero
/// length is refused.
pub fn input_bytes<'a>(data: Option<&'a [u8]>, len: usize) -> (res: Result<&'a [u8], AbiFailure>)
    requires
        well_formed_input(data, len),
    ensures
        match res {
            Ok(bytes) => spec_input_bytes(data, len) == Some(bytes@),
            Err(failure) => spec_input_bytes(data, len) is None
                && failure.status == CuaDriverStatus::NullPointer
                && failure.message@ == "non-empty input used a null data pointer"@,
        },
        len == 0 ==> (res is Ok && res->Ok_0@.len() == 0),
        (len != 0 && data is Some) ==> (res is Ok && res->Ok_0@ == data->Some_0@),
        (len != 0 && data is None) ==> (res is Err && res->Err_0.status == CuaDriverStatus::NullPointer),
{
    if len == 0 {
        let empty: &'a [u8] = &[];
        assert(empty@ =~= Seq::<u8>::empty());
        return Ok(empty);
    }
    match data {
        Some(bytes) => Ok(bytes),
        None => Err(
            AbiFailure::new(
                CuaDriverStatus::NullPointer,
                message("non-empty input used a null data pointer"),
            ),
        ),
    }
}

/// The driver handle behind a pointer that must not be null.
pub fn required_handle<'a, R>(handle: Option<&'a CuaDriverHandle<R>>) -> (res: Result<&'a CuaDriverHandle<R>, AbiFailure>)
    ensures
        match handle {
            Some(h) => res matches Ok(r) && r == h,
            None => res matches Err(failure) && failure.status == CuaDriverStatus::NullPointer
                && failure.message@ == "driver handle must not be null"@,
        },
{
    match handle {
        Some(h) => Ok(h),
        None => Err(
            AbiFailure::new(CuaDriverStatus::NullPointer, message("driver handle must not be null")),
        ),
    }
}

/// The session handle behind a pointer that must not be null.
pub fn required_session_handle<'a, S>(handle: Option<&'a CuaDriverSessionHandle<S>>) -> (res: Result<&'a CuaDriverSessionHandle<S>, AbiFailure>)
    ensures
        match handle {
            Some(h) => res matches Ok(r) && r == h,
            None => res matches Err(failure) && failure.status == CuaDriverStatus::NullPointer
                && failure.message@ == "session handle must not be null"@,
        },
{
    match handle {
        Some(h) => Ok(h),
        None => Err(
            AbiFailure::new(CuaDriverStatus::NullPointer, message("session handle must not be null")),
        ),
    }
}

/// The arguments of a tool invocation: no bytes mean an empty JSON object.
#[derive(Debug)]
pub enum InvocationArguments {
    EmptyObject,
    Json(serde_json::Value),
}

/// A tool invocation read from the caller: the tool's name and its arguments.
#[derive(Debug)]
pub struct Invocation {
    pub name: String,
    pub arguments: InvocationArguments,
}

/// Why a tool invocation is refused, in the order the checks are made, or
/// `None` where it is accepted.
pub open spec fn invocation_refusal(
    name: Option<&[u8]>,
    name_len: usize,
    arguments: Option<&[u8]>,
    arguments_len: usize,
) -> Option<(CuaDriverStatus, Seq<char>)> {
    match spec_input_bytes(name, name_len) {
        None => Some((CuaDriverStatus::NullPointer, "non-empty input used a null data pointer"@)),
        Some(name_bytes) => if !valid_utf8(name_bytes) {
            Some((CuaDriverStatus::InvalidArgument, utf8_error_message(name_bytes)))
        } else {
            match spec_input_bytes(arguments, arguments_len) {
                None => Some((CuaDriverStatus::NullPointer, "non-empty input used a null data pointer"@)),
                Some(argument_bytes) => if argument_bytes.len() == 0 {
                    None
                } else {
                    match json_rejection(argument_bytes) {
                        Some(m) => Some((CuaDriverStatus::InvalidArgument, m)),
                        None => None,
                    }
                },
            }
        },
    }
}

/// A tool invocation is refused only for a missing byte range, a name that
/// is not UTF-8, or arguments that are not one JSON document: a UTF-8 name
/// with empty or well-formed JSON arguments is always accepted, and a
/// refusal names the broken input's status.
pub proof fn lemma_invocation_refusals(
    name: Option<&[u8]>,
    name_len: usize,
    arguments: Option<&[u8]>,
    arguments_len: usize,
)
    ensures
        (spec_input_bytes(name, name_len) is Some
            && valid_utf8(spec_input_bytes(name, name_len).unwrap())
            && spec_input_bytes(arguments, arguments_len) is Some
            && (spec_input_bytes(arguments, arguments_len).unwrap().len() == 0
                || json_rejection(spec_input_bytes(arguments, arguments_len).unwrap()) is None))
            ==> invocation_refusal(name, name_len, arguments, arguments_len) is None,
        spec_input_bytes(name, name_len) is None ==> invocation_refusal(name, name_len, arguments, arguments_len)
            == Some((CuaDriverStatus::NullPointer, "non-empty input used a null data pointer"@)),
        (spec_input_bytes(name, name_len) is Some && !valid_utf8(spec_input_bytes(name, name_len).unwrap()))
            ==> invocation_refusal(name, name_len, arguments, arguments_len)
            == Some((CuaDriverStatus::InvalidArgument, utf8_error_message(spec_input_bytes(name, name_len).unwrap()))),
        (spec_input_bytes(name, name_len) is Some && valid_utf8(spec_input_bytes(name, name_len).unwrap())
            && spec_input_bytes(arguments, arguments_len) is None)
            ==> invocation_refusal(name, name_len, arguments, arguments_len)
            == Some((CuaDriverStatus::NullPointer, "non-empty input used a null data pointer"@)),
{
}

/// Reads a tool invocation: the name must be UTF-8 and the arguments, when
/// present, one JSON document.
pub fn read_invocation(
    name: Option<&[u8]>,
    name_len: usize,
    arguments: Option<&[u8]>,
    arguments_len: usize,
) -> (res: Result<Invocation, AbiFailure>)
    requires
        well_formed_input(name, name_len),
        well_formed_input(arguments, arguments_len),
    ensures
        match res {
            Ok(invocation) => {
                &&& invocation_refusal(name, name_len, arguments, arguments_len) is None
                &&& invocation.name@ == decode_utf8(spec_input_bytes(name, name_len).unwrap())
                &&& (invocation.arguments is EmptyObject
                    <==> spec_input_bytes(arguments, arguments_len).unwrap().len() == 0)
                &&& (invocation.arguments matches InvocationArguments::Json(v)
                    ==> v == json_value(spec_input_bytes(arguments, arguments_len).unwrap()))
            },
            Err(failure) => invocation_refusal(name, name_len, arguments, arguments_len)
                == Some((failure.status, failure.message@)),
        },
        (spec_input_bytes(name, name_len) is Some
            && valid_utf8(spec_input_bytes(name, name_len).unwrap())
            && spec_input_bytes(arguments, arguments_len) is Some
            && (spec_input_bytes(arguments, arguments_len).unwrap().len() == 0
                || json_rejection(spec_input_bytes(arguments, arguments_len).unwrap()) is None)) ==> res is Ok,
        spec_input_bytes(name, name_len) is None ==> (res matches Err(f) && f.status == CuaDriverStatus::NullPointer),
        (spec_input_bytes(name, name_len) is Some && !valid_utf8(spec_input_bytes(name, name_len).unwrap()))
            ==> (res matches Err(f) && f.status == CuaDriverStatus::InvalidArgument),
{
    proof {
        lemma_invocation_refusals(name, name_len, arguments, arguments_len);
    }
    let name_bytes = input_bytes(name, name_len)?;
    let name_text = match utf8_str(name_bytes) {
        Ok(text) => text.to_owned(),
        Err(error) => {
            return Err(AbiFailure::new(CuaDriverStatus::InvalidArgument, error));
        },
    };
    let argument_bytes = input_bytes(arguments, arguments_len)?;
    let parsed = if argument_bytes.len() == 0 {
        InvocationArguments::EmptyObject
    } else {
        match parse_json_value(argument_bytes) {
            Ok(value) => InvocationArguments::Json(value),
            Err(error) => {
                return Err(AbiFailure::new(CuaDriverStatus::InvalidArgument, error));
            },
        }
    };
    Ok(Invocation { name: name_text, arguments: parsed })
}

/// A driver-level invocation: the handle must be present, then the
/// invocation must be readable.
pub fn invoke_request<'a, R>(
    handle: Option<&'a CuaDriverHandle<R>>,
    name: Option<&[u8]>,
    name_len: usize,
    arguments: Option<&[u8]>,
    arguments_len: usize,
) -> (res: Result<(&'a CuaDriverHandle<R>, Invocation), AbiFailure>)
    requires
        well_formed_input(name, name_len),
        well_formed_input(arguments, arguments_len),
    ensures
        handle is None ==> (res matches Err(failure) && failure.status == CuaDriverStatus::NullPointer
            && failure.message@ == "driver handle must not be null"@),
        handle matches Some(h) ==> match res {
            Ok((r, invocation)) => r == h
                && invocation_refusal(name, name_len, arguments, arguments_len) is None
                && invocation.name@ == decode_utf8(spec_input_bytes(name, name_len).unwrap())
                && (invocation.arguments is EmptyObject
                    <==> spec_input_bytes(arguments, arguments_len).unwrap().len() == 0)
                    && (invocation.arguments matches InvocationArguments::Json(v)
                        ==> v == json_value(spec_input_bytes(arguments, arguments_len).unwrap())),
            Err(failure) => invocation_refusal(name, name_len, arguments, arguments_len)
                == Some((failure.status, failure.message@)),
        },
        (handle is Some && (spec_input_bytes(name, name_len) is Some
            && valid_utf8(spec_input_bytes(name, name_len).unwrap())
            && spec_input_bytes(arguments, arguments_len) is Some
            && (spec_input_bytes(arguments, arguments_len).unwrap().len() == 0
                || json_rejection(spec_input_bytes(arguments, arguments_len).unwrap()) is None))) ==> res is Ok,
{
    proof {
        lemma_invocation_refusals(name, name_len, arguments, arguments_len);
    }
    let handle = required_handle(handle)?;
    let invocation = read_invocation(name, name_len, arguments, arguments_len)?;
    Ok((handle, invocation))
}

/// A session-level invocation: the session handle must be present, then the
/// invocation must be readable.
pub fn session_invoke_request<'a, S>(
    handle: Option<&'a CuaDriverSessionHandle<S>>,
    name: Option<&[u8]>,
    name_len: usize,
    arguments: Option<&[u8]>,
    arguments_len: usize,
) -> (res: Result<(&'a CuaDriverSessionHandle<S>, Invocation), AbiFailure>)
    requires
        well_formed_input(name, name_len),
        well_formed_input(arguments, arguments_len),
    ensures
        handle is None ==> (res matches Err(failure) && failure.status == CuaDriverStatus::NullPointer
            && failure.message@ == "session handle must not be null"@),
        handle matches Some(h) ==> match res {
            Ok((r, invocation)) => r == h
                && invocation_refusal(name, name_len, arguments, arguments_len) is None
                && invocation.name@ == decode_utf8(spec_input_bytes(name, name_len).unwrap())
                && (invocation.arguments is EmptyObject
                    <==> spec_input_bytes(arguments, arguments_len).unwrap().len() == 0)
                    && (invocation.arguments matches InvocationArguments::Json(v)
                        ==> v == json_value(spec_input_bytes(arguments, arguments_len).unwrap())),
            Err(failure) => invocation_refusal(name, name_len, arguments, arguments_len)
                == Some((failure.status, failure.message@)),
        },
        (handle is Some && (spec_input_bytes(name, name_len) is Some
            && valid_utf8(spec_input_bytes(name, name_len).unwrap())
            && spec_input_bytes(arguments, arguments_len) is Some
            && (spec_input_bytes(arguments, arguments_len).unwrap().len() == 0
                || json_rejection(spec_input_bytes(arguments, arguments_len).unwrap()) is None))) ==> res is Ok,
{
    proof {
        lemma_invocation_refusals(name, name_len, arguments, arguments_len);
    }
    let handle = required_session_handle(handle)?;
    let invocation = read_invocation(name, name_len, arguments, arguments_len)?;
    Ok((handle, invocation))
}

} // verus!
