//! Decisions of the macOS platform backend on the Monterey compatibility
//! build: tool registration, the screen-capture probe, native recording.

use vstd::prelude::*;
use crate::text::message;

verus! {

/// The cursor overlay is offered only when the host enables it and the
/// process has access to a graphic session.
pub fn cursor_overlay_facility_available(enabled: bool, graphic_access: bool) -> (available: bool)
    ensures
        available == (enabled && graphic_access),
{
    enabled && graphic_access
}

/// What registering the tools amounts to: whether the cursor overlay is
/// started first, and the switches the tools are registered with.
#[derive(Debug)]
pub struct ToolRegistrationPlan {
    pub init_cursor_overlay: bool,
    pub compat: bool,
    pub cursor_overlay_available: bool,
    pub host_owns_permission_ux: bool,
    pub host_bundle_id: Option<String>,
}

/// Registration without a cursor overlay, optionally in compatibility mode.
pub fn tool_registration_with_compat(compat: bool) -> (plan: ToolRegistrationPlan)
    ensures
        !plan.init_cursor_overlay,
        plan.compat == compat,
        !plan.cursor_overlay_available,
        !plan.host_owns_permission_ux,
        plan.host_bundle_id is None,
{
    ToolRegistrationPlan {
        init_cursor_overlay: false,
        compat,
        cursor_overlay_available: false,
        host_owns_permission_ux: false,
        host_bundle_id: None,
    }
}

/// Registration with a cursor overlay configuration: the overlay is started,
/// and offered to the tools, exactly when it is available.
pub fn tool_registration_with_cursor(
    cursor_enabled: bool,
    graphic_access: bool,
    compat: bool,
    host_owns_permission_ux: bool,
    host_bundle_id: Option<String>,
) -> (plan: ToolRegistrationPlan)
    ensures
        plan.init_cursor_overlay == (cursor_enabled && graphic_access),
        plan.cursor_overlay_available == (cursor_enabled && graphic_access),
        plan.compat == compat,
        plan.host_owns_permission_ux == host_owns_permission_ux,
        plan.host_bundle_id == host_bundle_id,
{
    let available = cursor_overlay_facility_available(cursor_enabled, graphic_access);
    ToolRegistrationPlan {
        init_cursor_overlay: available,
        compat,
        cursor_overlay_available: available,
        host_owns_permission_ux,
        host_bundle_id,
    }
}

/// Monterey stand-in for ScreenCaptureKit shareable content: it only knows
/// whether the screen can be captured.
#[derive(Debug)]
pub struct SCShareableContent {
    capturable: bool,
}

/// A capturable display.
#[derive(Debug)]
pub struct SCDisplay;

impl SCShareableContent {
    pub closed spec fn spec_capturable(&self) -> bool {
        self.capturable
    }

    /// The shareable content, given whether screen recording is granted.
    pub fn get(screen_recording_granted: bool) -> (res: Result<SCShareableContent, &'static str>)
        ensures
            res matches Ok(content) && content.spec_capturable() == screen_recording_granted,
    {
        Ok(SCShareableContent { capturable: screen_recording_granted })
    }

    /// One display when the screen can be captured, none otherwise.
    pub fn displays(&self) -> (displays: Vec<SCDisplay>)
        ensures
            displays@.len() == if self.spec_capturable() { 1nat } else { 0nat },
    {
        if self.capturable {
            let mut displays = Vec::new();
            displays.push(SCDisplay);
            displays
        } else {
            Vec::new()
        }
    }
}

/// Native ScreenCaptureKit recording, which this build does not offer.
#[derive(Debug)]
pub struct SckitVideoBackendFactory;

/// Why starting a native recording fails on this build.
pub open spec fn native_recording_unavailable() -> Seq<char> {
    "native ScreenCaptureKit video recording is unavailable on the macOS 12.7 compatibility build"@
}

impl SckitVideoBackendFactory {
    /// Starting a recording always fails, whatever the output path.
    pub fn start(&self, output_path: &str) -> (res: Result<(), String>)
        ensures
            res matches Err(reason) && reason@ == native_recording_unavailable(),
    {
        Err(message("native ScreenCaptureKit video recording is unavailable on the macOS 12.7 compatibility build"))
    }
}

} // verus!
