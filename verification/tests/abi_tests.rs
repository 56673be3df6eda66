use cua_driver_sdk::abi::{
    create_request, cua_driver_abi_version_v1, internal_failure, invalid_argument, required_output,
    runtime_creation_failure, runtime_options_from_abi, session_create_request, AbiDriverOptions,
    RuntimeCreateFailure, RuntimeOptionsPlan, CUA_DRIVER_ABI_VERSION_SIZE,
};
use cua_driver_sdk::authorization::{
    compare_resolved_manifests, validate_explicit_authorization_sources, AbiRuntimeAuthorizationOptions,
    AbiTrustedSessionOptions, AuthorizationEnvironment, ManifestCheck, PermissionMode, ResolvedPath,
};
use cua_driver_sdk::buffer::{copy_and_free_buffer, cua_driver_buffer_free_v1, CuaDriverBuffer};
use cua_driver_sdk::envflag::environment_flag;
use cua_driver_sdk::handles::{
    cua_driver_destroy_v1, cua_driver_operation_release_v1, cua_driver_session_destroy_v1, CuaDriverHandle,
    CuaDriverSessionHandle,
};
use cua_driver_sdk::input::{input_bytes, invoke_request, read_invocation, session_invoke_request, InvocationArguments};
use cua_driver_sdk::operation::{
    complete_operation, ffi_guard_result, shutdown_result, spawn_precheck, GuardedOutcome, OperationOutcome,
};
use cua_driver_sdk::status::{AbiFailure, CuaDriverStatus};

const NULL_INPUT: &str = "non-empty input used a null data pointer";

#[test]
fn status_codes_are_stable() {
    let all = [
        CuaDriverStatus::Success,
        CuaDriverStatus::InvalidArgument,
        CuaDriverStatus::NullPointer,
        CuaDriverStatus::RuntimeUnavailable,
        CuaDriverStatus::Shutdown,
        CuaDriverStatus::Cancelled,
        CuaDriverStatus::Internal,
        CuaDriverStatus::Panic,
        CuaDriverStatus::RuntimeConflict,
    ];
    for (expected, status) in all.iter().enumerate() {
        assert_eq!(status.code(), expected as i32);
        assert_eq!(CuaDriverStatus::from_code(expected as i32), Some(*status));
    }
    assert_eq!(CuaDriverStatus::from_code(9), None);
    assert_eq!(CuaDriverStatus::from_code(-1), None);
}

#[test]
fn abi_version_is_one_one_zero() {
    let v = cua_driver_abi_version_v1();
    assert_eq!((v.major, v.minor, v.patch, v.reserved), (1, 1, 0, 0));
    assert_eq!(v.struct_size, CUA_DRIVER_ABI_VERSION_SIZE);
    assert_eq!(v.struct_size, 12);
}

#[test]
fn buffers_round_trip_text() {
    let mut b = CuaDriverBuffer::from_string("héllo".to_string());
    assert_eq!(b.as_slice(), "héllo".as_bytes());
    assert_eq!(b.len(), 6);
    assert_eq!(copy_and_free_buffer(&mut b), "héllo");
    assert_eq!(b.len(), 0);
    assert_eq!(copy_and_free_buffer(&mut b), "");
    assert_eq!(CuaDriverBuffer::from_string(String::new()).len(), 0);
    assert_eq!(CuaDriverBuffer::empty().len(), 0);
}

#[test]
fn freeing_is_harmless_twice() {
    let mut b = CuaDriverBuffer::from_bytes(vec![1, 2, 3]);
    cua_driver_buffer_free_v1(&mut b);
    assert_eq!(b.len(), 0);
    cua_driver_buffer_free_v1(&mut b);
    assert_eq!(b.into_bytes(), Vec::<u8>::new());
}

#[test]
fn copying_ill_formed_bytes_replaces_them() {
    let mut b = CuaDriverBuffer::from_bytes(vec![0x61, 0xff, 0x62]);
    assert_eq!(copy_and_free_buffer(&mut b), "a\u{fffd}b");
}

#[test]
fn input_bytes_refuses_only_null_non_empty_ranges() {
    assert_eq!(input_bytes(None, 0).unwrap(), &[] as &[u8]);
    assert_eq!(input_bytes(Some(&[9u8][..0]), 0).unwrap(), &[] as &[u8]);
    assert_eq!(input_bytes(Some(&[1u8, 2][..]), 2).unwrap(), &[1u8, 2]);
    let failure = input_bytes(None, 3).unwrap_err();
    assert_eq!(failure.status, CuaDriverStatus::NullPointer);
    assert_eq!(failure.message, NULL_INPUT);
}

#[test]
fn invocations_need_utf8_names_and_json_arguments() {
    let inv = read_invocation(Some(b"click"), 5, None, 0).unwrap();
    assert_eq!(inv.name, "click");
    assert!(matches!(inv.arguments, InvocationArguments::EmptyObject));

    let args = br#"{"x": 1}"#;
    let inv = read_invocation(Some(b"move"), 4, Some(args), args.len()).unwrap();
    match inv.arguments {
        InvocationArguments::Json(v) => assert_eq!(v["x"], 1),
        InvocationArguments::EmptyObject => panic!("arguments were given"),
    }

    let failure = read_invocation(Some(&[0xc3, 0x28]), 2, None, 0).unwrap_err();
    assert_eq!(failure.status, CuaDriverStatus::InvalidArgument);
    assert_eq!(failure.message, std::str::from_utf8(&[0xc3, 0x28]).unwrap_err().to_string());

    let failure = read_invocation(None, 4, None, 0).unwrap_err();
    assert_eq!(failure.status, CuaDriverStatus::NullPointer);
    assert_eq!(failure.message, NULL_INPUT);

    let failure = read_invocation(Some(b"a"), 1, None, 2).unwrap_err();
    assert_eq!(failure.status, CuaDriverStatus::NullPointer);

    let failure = read_invocation(Some(b"a"), 1, Some(b"{x"), 2).unwrap_err();
    assert_eq!(failure.status, CuaDriverStatus::InvalidArgument);
    let expected = serde_json::from_slice::<serde_json::Value>(b"{x").unwrap_err().to_string();
    assert_eq!(failure.message, expected);
}

#[test]
fn invocations_check_the_handle_first() {
    let failure = invoke_request::<u8>(None, None, 4, None, 0).unwrap_err();
    assert_eq!(failure.status, CuaDriverStatus::NullPointer);
    assert_eq!(failure.message, "driver handle must not be null");
    let failure = session_invoke_request::<u8>(None, None, 4, None, 0).unwrap_err();
    assert_eq!(failure.message, "session handle must not be null");

    let handle = CuaDriverHandle::new(7u8);
    let (h, inv) = invoke_request(Some(&handle), Some(b"t"), 1, None, 0).unwrap();
    assert_eq!(**h.runtime(), 7);
    assert_eq!(inv.name, "t");
    let session = CuaDriverSessionHandle::new(String::from("s"));
    let (s, _) = session_invoke_request(Some(&session), None, 0, None, 0).unwrap();
    assert_eq!(s.session().as_str(), "s");
}

#[test]
fn destroying_clears_the_slot() {
    let mut slot = Some(CuaDriverHandle::new(1u32));
    cua_driver_destroy_v1(&mut slot);
    assert!(slot.is_none());
    cua_driver_destroy_v1(&mut slot);
    assert!(slot.is_none());
    let mut session = Some(CuaDriverSessionHandle::new(2u32));
    cua_driver_session_destroy_v1(&mut session);
    assert!(session.is_none());
    let mut op = Some(5u8);
    cua_driver_operation_release_v1(&mut op);
    assert!(op.is_none());
}

#[test]
fn guard_maps_outcomes_to_status_and_error() {
    let (status, error) = ffi_guard_result(GuardedOutcome::Returned(Ok(())));
    assert_eq!(status, CuaDriverStatus::Success);
    assert_eq!(error.len(), 0);
    let failure = AbiFailure::new(CuaDriverStatus::InvalidArgument, "bad".to_string());
    let (status, error) = ffi_guard_result(GuardedOutcome::Returned(Err(failure)));
    assert_eq!(status, CuaDriverStatus::InvalidArgument);
    assert_eq!(error.as_slice(), b"bad");
    let (status, error) = ffi_guard_result(GuardedOutcome::Panicked);
    assert_eq!(status, CuaDriverStatus::Panic);
    assert_eq!(error.as_slice(), b"the native Cua Driver core panicked; no panic crossed the C ABI");
}

#[test]
fn operations_complete_once_with_matching_buffers() {
    let c = complete_operation(OperationOutcome::Completed("{\"ok\":true}".to_string()));
    assert_eq!(c.status, CuaDriverStatus::Success);
    assert_eq!(c.result.as_slice(), b"{\"ok\":true}");
    assert_eq!(c.error.len(), 0);
    let c = complete_operation(OperationOutcome::Cancelled);
    assert_eq!(c.status, CuaDriverStatus::Cancelled);
    assert_eq!((c.result.len(), c.error.len()), (0, 0));
    let c = complete_operation(OperationOutcome::Failed("boom".to_string()));
    assert_eq!(c.status, CuaDriverStatus::Internal);
    assert_eq!(c.result.len(), 0);
    assert_eq!(c.error.as_slice(), b"boom");
    assert_eq!(shutdown_result(), "{}");
}

#[test]
fn spawning_needs_an_operation_slot_then_an_executor() {
    let failure = spawn_precheck(false, || -> Result<u8, String> { panic!("must not be asked") }).unwrap_err();
    assert_eq!(failure.status, CuaDriverStatus::NullPointer);
    assert_eq!(failure.message, "out_operation must not be null");
    assert_eq!(spawn_precheck(true, || Ok::<u8, String>(3)).ok(), Some(3));
    let failure = spawn_precheck(true, || Err::<u8, String>("no threads".to_string())).unwrap_err();
    assert_eq!(failure.status, CuaDriverStatus::RuntimeUnavailable);
    assert_eq!(failure.message, "no threads");
}

#[test]
fn output_slots_are_required() {
    assert!(required_output(true, "out_metadata").is_ok());
    let failure = required_output(false, "out_metadata").unwrap_err();
    assert_eq!(failure.status, CuaDriverStatus::NullPointer);
    assert_eq!(failure.message, "out_metadata must not be null");
    assert_eq!(invalid_argument("x".to_string()).status, CuaDriverStatus::InvalidArgument);
    assert_eq!(internal_failure("y".to_string()).status, CuaDriverStatus::Internal);
}

#[test]
fn create_requests_check_slot_then_bytes() {
    let failure = create_request(false, None, 3).unwrap_err();
    assert_eq!(failure.message, "out_handle must not be null");
    assert_eq!(create_request(true, None, 0).unwrap(), None);
    assert_eq!(create_request(true, Some(b"{}"), 2).unwrap(), Some(&b"{}"[..]));
    assert_eq!(create_request(true, None, 2).unwrap_err().message, NULL_INPUT);
}

#[test]
fn runtime_creation_failures_distinguish_conflicts() {
    let f = runtime_creation_failure(RuntimeCreateFailure::AlreadyActive);
    assert_eq!(f.status, CuaDriverStatus::RuntimeConflict);
    assert_eq!(f.message, "another embedded Cua Driver runtime is already active");
    let f = runtime_creation_failure(RuntimeCreateFailure::Unavailable("no display".to_string()));
    assert_eq!(f.status, CuaDriverStatus::RuntimeUnavailable);
    assert_eq!(f.message, "no display");
}

#[test]
fn session_create_requests_check_slot_handle_then_bytes() {
    let handle = CuaDriverHandle::new(());
    let failure = session_create_request(false, Some(&handle), None, 0).unwrap_err();
    assert_eq!(failure.message, "out_session must not be null");
    let failure = session_create_request::<()>(true, None, None, 0).unwrap_err();
    assert_eq!(failure.message, "driver handle must not be null");
    let failure = session_create_request(true, Some(&handle), None, 1).unwrap_err();
    assert_eq!(failure.message, NULL_INPUT);
    let (_, bytes) = session_create_request(true, Some(&handle), Some(b"{}"), 2).unwrap();
    assert_eq!(bytes, b"{}");
}

#[test]
fn environment_flags_ignore_case_and_surrounding_space() {
    for on in ["1", "true", "TRUE", " Yes\n", "\u{a0}on\u{3000}", "oN"] {
        assert!(environment_flag(Some(on)), "{on:?}");
    }
    for off in ["", "0", "false", "no", "t rue", "yes please", "ON!", "\u{130}"] {
        assert!(!environment_flag(Some(off)), "{off:?}");
    }
    assert!(!environment_flag(None));
}

fn mode(name: &str) -> PermissionMode {
    PermissionMode::new(name.to_string(), name == "unrestricted")
}

fn authorization(primary: Option<&str>, alias: Option<&str>) -> AbiRuntimeAuthorizationOptions {
    AbiRuntimeAuthorizationOptions {
        allowed_modes: vec![mode("read_only"), mode("unrestricted")],
        compatibility_mode: mode("read_only"),
        compatibility_capability_manifest_path: primary.map(str::to_string),
        compatibility_bounded_manifest_path: alias.map(str::to_string),
        unrestricted_acknowledged: true,
        max_session_ttl_seconds: 60,
        max_idle_ttl_seconds: 30,
    }
}

fn quiet_environment() -> AuthorizationEnvironment {
    AuthorizationEnvironment {
        configured_policy: Ok(()),
        compatibility_mode_configured: false,
        configured_mode: Err("unset".to_string()),
        disable_unrestricted: None,
        capability_manifest_file: None,
        session_policy_file: None,
        capability_manifest_approved: None,
        session_policy_approved: None,
    }
}

#[test]
fn manifest_path_aliases_must_agree() {
    assert_eq!(authorization(Some("a"), None).capability_manifest_path().unwrap(), Some("a"));
    assert_eq!(authorization(None, Some("b")).capability_manifest_path().unwrap(), Some("b"));
    assert_eq!(authorization(Some("c"), Some("c")).capability_manifest_path().unwrap(), Some("c"));
    assert_eq!(authorization(None, None).capability_manifest_path().unwrap(), None);
    let failure = authorization(Some("a"), Some("b")).capability_manifest_path().unwrap_err();
    assert_eq!(failure.status, CuaDriverStatus::InvalidArgument);
    assert_eq!(
        failure.message,
        "compatibility capability manifest path conflicts with its deprecated bounded-manifest alias"
    );

    let session = AbiTrustedSessionOptions {
        public_session: "p".to_string(),
        mode: mode("read_only"),
        ttl_seconds: 1,
        idle_ttl_seconds: 1,
        capability_manifest_path: Some("x".to_string()),
        bounded_manifest_path: Some("y".to_string()),
        transport_session: None,
    };
    assert_eq!(
        session.capability_manifest_path().unwrap_err().message,
        "capability manifest path conflicts with its deprecated bounded-manifest alias"
    );
}

fn refusal(auth: &AbiRuntimeAuthorizationOptions, env: &AuthorizationEnvironment) -> String {
    match validate_explicit_authorization_sources(auth, env) {
        Err(failure) => {
            assert_eq!(failure.status, CuaDriverStatus::InvalidArgument);
            failure.message
        }
        Ok(_) => panic!("expected a refusal"),
    }
}

#[test]
fn explicit_authorization_must_agree_with_environment() {
    let auth = authorization(Some("/m.json"), None);
    assert!(matches!(
        validate_explicit_authorization_sources(&auth, &quiet_environment()),
        Ok(ManifestCheck::Settled)
    ));

    let mut env = quiet_environment();
    env.configured_policy = Err("bad policy".to_string());
    assert_eq!(refusal(&auth, &env), "configured policy is invalid: bad policy");

    let mut env = quiet_environment();
    env.compatibility_mode_configured = true;
    assert_eq!(
        refusal(&auth, &env),
        "explicit runtime authorization conflicts with invalid compatibility environment: unset"
    );
    env.configured_mode = Ok(mode("bounded"));
    assert_eq!(
        refusal(&auth, &env),
        "explicit compatibility mode 'read_only' conflicts with trusted environment mode 'bounded'"
    );
    env.configured_mode = Ok(mode("read_only"));
    assert!(validate_explicit_authorization_sources(&auth, &env).is_ok());

    let mut env = quiet_environment();
    env.disable_unrestricted = Some(" YES ".to_string());
    assert_eq!(
        refusal(&auth, &env),
        "explicit runtime ceiling conflicts with managed configuration disabling unrestricted mode"
    );
    let mut limited = authorization(None, None);
    limited.allowed_modes = vec![mode("read_only")];
    assert!(validate_explicit_authorization_sources(&limited, &env).is_ok());

    let mut env = quiet_environment();
    env.capability_manifest_file = Some(b"/a".to_vec());
    env.session_policy_file = Some(b"/b".to_vec());
    assert_eq!(
        refusal(&auth, &env),
        "capability manifest environment path conflicts with its deprecated session-policy alias"
    );
    env.session_policy_file = None;
    match validate_explicit_authorization_sources(&auth, &env) {
        Ok(ManifestCheck::Compare { environment, explicit }) => {
            assert_eq!(environment, b"/a".to_vec());
            assert_eq!(explicit, "/m.json");
        }
        _ => panic!("expected paths to compare"),
    }
    assert_eq!(
        refusal(&authorization(None, None), &env),
        "explicit runtime authorization conflicts with a compatibility capability-manifest environment value"
    );

    let mut env = quiet_environment();
    env.session_policy_approved = Some("on".to_string());
    assert_eq!(
        refusal(&authorization(None, None), &env),
        "explicit runtime authorization conflicts with a compatibility capability-manifest approval"
    );
    assert!(validate_explicit_authorization_sources(&auth, &env).is_ok());
}

#[test]
fn resolved_manifests_must_be_the_same_file() {
    let resolved = |display: &str, r: Result<&[u8], &str>| ResolvedPath {
        display: display.to_string(),
        resolved: r.map(|b| b.to_vec()).map_err(|e| e.to_string()),
    };
    assert!(compare_resolved_manifests(&resolved("e", Ok(b"/x")), &resolved("p", Ok(b"/x"))).is_ok());
    assert_eq!(
        compare_resolved_manifests(&resolved("e", Ok(b"/x")), &resolved("p", Ok(b"/y"))).unwrap_err().message,
        "explicit compatibility capability manifest conflicts with the trusted environment path"
    );
    assert_eq!(
        compare_resolved_manifests(&resolved("/env", Err("gone")), &resolved("p", Err("x"))).unwrap_err().message,
        "canonicalize compatibility capability manifest /env: gone"
    );
    assert_eq!(
        compare_resolved_manifests(&resolved("/env", Ok(b"/x")), &resolved("/p", Err("missing"))).unwrap_err().message,
        "canonicalize explicit compatibility capability manifest /p: missing"
    );
}

#[test]
fn runtime_options_keep_explicit_authorization() {
    let plain = AbiDriverOptions::default();
    assert!(!plain.claude_code_compatibility);
    match runtime_options_from_abi(plain, &quiet_environment()) {
        Ok(RuntimeOptionsPlan::Embedded { claude_code_compatibility }) => assert!(!claude_code_compatibility),
        _ => panic!("expected an embedded runtime"),
    }
    let options = AbiDriverOptions { claude_code_compatibility: true, authorization: Some(authorization(None, None)) };
    match runtime_options_from_abi(options, &quiet_environment()) {
        Ok(RuntimeOptionsPlan::WithCeiling { claude_code_compatibility, authorization, manifests }) => {
            assert!(claude_code_compatibility);
            assert_eq!(authorization.max_session_ttl_seconds, 60);
            assert!(matches!(manifests, ManifestCheck::Settled));
        }
        _ => panic!("expected an explicit ceiling"),
    }
    let mut env = quiet_environment();
    env.configured_policy = Err("p".to_string());
    let options = AbiDriverOptions { claude_code_compatibility: false, authorization: Some(authorization(None, None)) };
    assert!(runtime_options_from_abi(options, &env).is_err());
}
