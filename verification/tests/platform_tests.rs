use cua_driver_sdk::capture::{
    capture_directory_name, check_capture_bytes, check_capture_status, display_capture_arguments,
    encode_capture, window_capture_arguments,
};
use cua_driver_sdk::platform::{
    cursor_overlay_facility_available, tool_registration_with_compat, tool_registration_with_cursor,
    SCShareableContent, SckitVideoBackendFactory,
};

#[test]
fn overlay_requires_both_host_enablement_and_graphic_session_access() {
    assert!(cursor_overlay_facility_available(true, true));
    assert!(!cursor_overlay_facility_available(false, true));
    assert!(!cursor_overlay_facility_available(true, false));
    assert!(!cursor_overlay_facility_available(false, false));
}

#[test]
fn registration_without_cursor_offers_no_overlay() {
    let plan = tool_registration_with_compat(true);
    assert!(plan.compat);
    assert!(!plan.init_cursor_overlay);
    assert!(!plan.cursor_overlay_available);
    assert!(!plan.host_owns_permission_ux);
    assert!(plan.host_bundle_id.is_none());
    let plan = tool_registration_with_compat(false);
    assert!(!plan.compat);
}

#[test]
fn registration_with_cursor_starts_overlay_only_when_available() {
    let plan = tool_registration_with_cursor(true, true, false, true, Some("com.example.host".to_string()));
    assert!(plan.init_cursor_overlay);
    assert!(plan.cursor_overlay_available);
    assert!(plan.host_owns_permission_ux);
    assert_eq!(plan.host_bundle_id.as_deref(), Some("com.example.host"));
    let plan = tool_registration_with_cursor(true, false, true, false, None);
    assert!(!plan.init_cursor_overlay);
    assert!(!plan.cursor_overlay_available);
    assert!(plan.compat);
}

#[test]
fn shareable_content_lists_a_display_only_when_capturable() {
    let granted = SCShareableContent::get(true).unwrap();
    assert_eq!(granted.displays().len(), 1);
    let denied = SCShareableContent::get(false).unwrap();
    assert_eq!(denied.displays().len(), 0);
}

#[test]
fn native_recording_is_refused() {
    let factory = SckitVideoBackendFactory;
    let err = factory.start("/tmp/out.mov").unwrap_err();
    assert_eq!(
        err,
        "native ScreenCaptureKit video recording is unavailable on the macOS 12.7 compatibility build"
    );
}

#[test]
fn window_capture_arguments_name_the_window() {
    let args = window_capture_arguments(4021, "/tmp/x/window.png".to_string());
    assert_eq!(args, vec!["-l", "4021", "-x", "-o", "/tmp/x/window.png"]);
    let args = window_capture_arguments(0, "p".to_string());
    assert_eq!(args[1], "0");
}

#[test]
fn display_capture_arguments_are_silent() {
    assert_eq!(display_capture_arguments("/tmp/d.png".to_string()), vec!["-x", "/tmp/d.png"]);
}

#[test]
fn capture_directory_name_holds_pid_and_token() {
    assert_eq!(capture_directory_name(812, "abc-123"), "cua-driver-rs-capture-812-abc-123");
    assert_eq!(capture_directory_name(u32::MAX, "t"), "cua-driver-rs-capture-4294967295-t");
}

#[test]
fn capture_status_reports_stderr() {
    assert!(check_capture_status(Some(7), true, b"ignored").is_ok());
    assert_eq!(
        check_capture_status(Some(7), false, b"no such window").unwrap_err(),
        "screencapture failed for window 7: no such window"
    );
    assert_eq!(
        check_capture_status(None, false, b"denied").unwrap_err(),
        "screencapture failed: denied"
    );
    assert_eq!(
        check_capture_status(None, false, &[0x66, 0xff]).unwrap_err(),
        "screencapture failed: f\u{fffd}"
    );
}

#[test]
fn empty_capture_is_refused() {
    assert_eq!(check_capture_bytes(Vec::new()).unwrap_err(), "screencapture produced empty output");
    assert_eq!(check_capture_bytes(vec![1, 2, 3]).unwrap(), vec![1, 2, 3]);
}

#[test]
fn capture_payload_is_standard_base64() {
    assert_eq!(encode_capture(b"Man", 3, 4), ("TWFu".to_string(), 3, 4));
    assert_eq!(encode_capture(b"Ma", 1, 1).0, "TWE=");
    assert_eq!(encode_capture(b"M", 1, 1).0, "TQ==");
    assert_eq!(encode_capture(b"", 0, 0).0, "");
    assert_eq!(encode_capture(&[0xfb, 0xff, 0xbf], 0, 0).0, "+/+/");
    assert_eq!(encode_capture(b"hello world~", 0, 0).0.len(), 16);
}
