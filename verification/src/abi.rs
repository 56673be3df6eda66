//! The decisions of the exported entry points: which argument is refused,
//! with which status and message, and what each accepted call asks for next.

use vstd::prelude::*;
use crate::status::{AbiFailure, CuaDriverStatus};
use crate::text::{join_message, message};
use crate::handles::CuaDriverHandle;
use crate::input::{input_bytes, required_handle, spec_input_bytes, well_formed_input};
use crate::authorization::{
    AbiRuntimeAuthorizationOptions, AuthorizationEnvironment, ManifestCheck,
    authorization_sources_verdict, validate_explicit_authorization_sources,
};

verus! {

pub const CUA_DRIVER_ABI_MAJOR: u16 = 1;
pub const CUA_DRIVER_ABI_MINOR: u16 = 1;
pub const CUA_DRIVER_ABI_PATCH: u16 = 0;

/// Version of the implementation-neutral Cua Driver ABI.
#[derive(Debug, Clone, Copy, PartialEq, Eq, Structural)]
pub struct CuaDriverAbiVersion {
    pub struct_size: u32,
    pub major: u16,
    pub minor: u16,
    pub patch: u16,
    pub reserved: u16,
}

/// The size in bytes of the C layout of `CuaDriverAbiVersion`: one `u32`
/// followed by four `u16`, with no padding.
pub const CUA_DRIVER_ABI_VERSION_SIZE: u32 = 12;

/// The ABI version this library implements; `struct_size` is the size of
/// the version record itself.
pub fn cua_driver_abi_version_v1() -> (version: CuaDriverAbiVersion)
    ensures
        version.struct_size == CUA_DRIVER_ABI_VERSION_SIZE,
        version.major == CUA_DRIVER_ABI_MAJOR,
        version.minor == CUA_DRIVER_ABI_MINOR,
        version.patch == CUA_DRIVER_ABI_PATCH,
        version.reserved == 0,
{
    CuaDriverAbiVersion {
        struct_size: CUA_DRIVER_ABI_VERSION_SIZE,
        major: CUA_DRIVER_ABI_MAJOR,
        minor: CUA_DRIVER_ABI_MINOR,
        patch: CUA_DRIVER_ABI_PATCH,
        reserved: 0,
    }
}

/// An output slot the caller must provide: its absence is refused with a
/// message naming the slot.
pub fn required_output(present: bool, slot: &str) -> (res: Result<(), AbiFailure>)
    ensures
        present ==> res is Ok,
        !present ==> (res matches Err(failure) && failure.status == CuaDriverStatus::NullPointer
            && failure.message@ == slot@ + " must not be null"@),
{
    if present {
        Ok(())
    } else {
        Err(AbiFailure::new(CuaDriverStatus::NullPointer, join_message(slot, " must not be null")))
    }
}

/// A refusal of an argument that does not parse or does not validate.
pub fn invalid_argument(message: String) -> (failure: AbiFailure)
    ensures
        failure.status == CuaDriverStatus::InvalidArgument,
        failure.message@ == message@,
{
    AbiFailure::new(CuaDriverStatus::InvalidArgument, message)
}

/// A failure of the core that is not the caller's fault.
pub fn internal_failure(message: String) -> (failure: AbiFailure)
    ensures
        failure.status == CuaDriverStatus::Internal,
        failure.message@ == message@,
{
    AbiFailure::new(CuaDriverStatus::Internal, message)
}

/// Options of `cua_driver_create_v1`. No options bytes mean the defaults.
#[derive(Debug)]
pub struct AbiDriverOptions {
    pub claude_code_compatibility: bool,
    pub authorization: Option<AbiRuntimeAuthorizationOptions>,
}

impl Default for AbiDriverOptions {
    fn default() -> (options: AbiDriverOptions)
        ensures
            !options.claude_code_compatibility,
            options.authorization is None,
    {
        AbiDriverOptions { claude_code_compatibility: false, authorization: None }
    }
}

/// The checks `cua_driver_create_v1` makes before it reads its options: the
/// output slot, then the options bytes. `Ok(None)` means "use the defaults",
/// `Ok(Some(bytes))` means "parse these bytes as options".
pub fn create_request<'a>(
    out_handle_present: bool,
    options_json: Option<&'a [u8]>,
    options_len: usize,
) -> (res: Result<Option<&'a [u8]>, AbiFailure>)
    requires
        well_formed_input(options_json, options_len),
    ensures
        !out_handle_present ==> (res matches Err(failure) && failure.status == CuaDriverStatus::NullPointer
            && failure.message@ == "out_handle must not be null"@),
        out_handle_present ==> match res {
            Ok(None) => spec_input_bytes(options_json, options_len) == Some(Seq::<u8>::empty()),
            Ok(Some(bytes)) => bytes@.len() > 0 && spec_input_bytes(options_json, options_len) == Some(bytes@),
            Err(failure) => spec_input_bytes(options_json, options_len) is None
                && failure.status == CuaDriverStatus::NullPointer
                && failure.message@ == "non-empty input used a null data pointer"@,
        },
{
    proof {
        reveal_strlit("out_handle");
        reveal_strlit(" must not be null");
        reveal_strlit("out_handle must not be null");
        assert("out_handle"@ + " must not be null"@ =~= "out_handle must not be null"@);
    }
    required_output(out_handle_present, "out_handle")?;
    let bytes = input_bytes(options_json, options_len)?;
    if bytes.len() == 0 {
        assert(bytes@ =~= Seq::<u8>::empty());
        Ok(None)
    } else {
        Ok(Some(bytes))
    }
}

/// What the runtime is to be built with, once the options are accepted.
#[derive(Debug)]
pub enum RuntimeOptionsPlan {
    /// An embedded runtime with the environment's own authorization.
    Embedded { claude_code_compatibility: bool },
    /// An embedded runtime with an explicit mode ceiling. The manifest paths
    /// in `manifests` must still agree once resolved on disk.
    WithCeiling {
        claude_code_compatibility: bool,
        authorization: AbiRuntimeAuthorizationOptions,
        manifests: ManifestCheck,
    },
}

/// The first step of turning ABI options into runtime options: options
/// without explicit authorization are used as they are; explicit
/// authorization must agree with the trusted environment.
pub fn runtime_options_from_abi(options: AbiDriverOptions, env: &AuthorizationEnvironment) -> (res: Result<RuntimeOptionsPlan, AbiFailure>)
    ensures
        match options.authorization {
            None => res matches Ok(RuntimeOptionsPlan::Embedded { claude_code_compatibility })
                && claude_code_compatibility == options.claude_code_compatibility,
            Some(authorization) => match res {
                Ok(RuntimeOptionsPlan::WithCeiling { claude_code_compatibility, authorization: kept, manifests }) => {
                    &&& claude_code_compatibility == options.claude_code_compatibility
                    &&& kept == authorization
                    &&& match manifests {
                        ManifestCheck::Settled => authorization_sources_verdict(authorization, *env)
                            == Ok::<Option<(Seq<u8>, Seq<char>)>, (CuaDriverStatus, Seq<char>)>(None),
                        ManifestCheck::Compare { environment, explicit } => authorization_sources_verdict(authorization, *env)
                            == Ok::<Option<(Seq<u8>, Seq<char>)>, (CuaDriverStatus, Seq<char>)>(Some((environment@, explicit@))),
                    }
                },
                Ok(RuntimeOptionsPlan::Embedded { .. }) => false,
                Err(failure) => authorization_sources_verdict(authorization, *env)
                    == Err::<Option<(Seq<u8>, Seq<char>)>, (CuaDriverStatus, Seq<char>)>((failure.status, failure.message@)),
            },
        },
{
    match options.authorization {
        None => Ok(RuntimeOptionsPlan::Embedded { claude_code_compatibility: options.claude_code_compatibility }),
        Some(authorization) => {
            let manifests = validate_explicit_authorization_sources(&authorization, env)?;
            Ok(RuntimeOptionsPlan::WithCeiling {
                claude_code_compatibility: options.claude_code_compatibility,
                authorization,
                manifests,
            })
        },
    }
}

/// How creating the runtime failed: another embedded runtime is active, or
/// the runtime could not be built (with the reason).
#[derive(Debug)]
pub enum RuntimeCreateFailure {
    AlreadyActive,
    Unavailable(String),
}

/// The status reported when the runtime cannot be created.
pub fn runtime_creation_failure(error: RuntimeCreateFailure) -> (failure: AbiFailure)
    ensures
        match error {
            RuntimeCreateFailure::AlreadyActive => failure.status == CuaDriverStatus::RuntimeConflict
                && failure.message@ == "another embedded Cua Driver runtime is already active"@,
            RuntimeCreateFailure::Unavailable(reason) => failure.status == CuaDriverStatus::RuntimeUnavailable
                && failure.message@ == reason@,
        },
{
    match error {
        RuntimeCreateFailure::AlreadyActive => AbiFailure::new(
            CuaDriverStatus::RuntimeConflict,
            message("another embedded Cua Driver runtime is already active"),
        ),
        RuntimeCreateFailure::Unavailable(reason) => AbiFailure::new(CuaDriverStatus::RuntimeUnavailable, reason),
    }
}

/// The checks `cua_driver_session_create_v1` makes before it reads the
/// session options: the output slot, the driver handle, then the options
/// bytes (which are then parsed; there are no default session options).
pub fn session_create_request<'a, 'b, R>(
    out_session_present: bool,
    handle: Option<&'a CuaDriverHandle<R>>,
    options_json: Option<&'b [u8]>,
    options_len: usize,
) -> (res: Result<(&'a CuaDriverHandle<R>, &'b [u8]), AbiFailure>)
    requires
        well_formed_input(options_json, options_len),
    ensures
        !out_session_present ==> (res matches Err(failure) && failure.status == CuaDriverStatus::NullPointer
            && failure.message@ == "out_session must not be null"@),
        out_session_present && handle is None ==> (res matches Err(failure)
            && failure.status == CuaDriverStatus::NullPointer
            && failure.message@ == "driver handle must not be null"@),
        out_session_present ==> (handle matches Some(h) ==> match res {
            Ok((r, bytes)) => r == h && spec_input_bytes(options_json, options_len) == Some(bytes@),
            Err(failure) => spec_input_bytes(options_json, options_len) is None
                && failure.status == CuaDriverStatus::NullPointer
                && failure.message@ == "non-empty input used a null data pointer"@,
        }),
{
    proof {
        reveal_strlit("out_session");
        reveal_strlit(" must not be null");
        reveal_strlit("out_session must not be null");
        assert("out_session"@ + " must not be null"@ =~= "out_session must not be null"@);
    }
    required_output(out_session_present, "out_session")?;
    let handle = required_handle(handle)?;
    let bytes = input_bytes(options_json, options_len)?;
    Ok((handle, bytes))
}

} // verus!
