//! Capture capability reports and device descriptions.

use vstd::prelude::*;

verus! {

/// A camera resolution.
#[derive(Clone, Copy, Debug, PartialEq, Eq, Structural)]
pub struct Resolution {
    pub width: u32,
    pub height: u32,
}

/// A camera and what it offers.
#[derive(Clone, Debug)]
pub struct CameraInfo {
    /// Unique device ID.
    pub id: String,
    /// Device name.
    pub name: String,
    /// Supported resolutions.
    pub supported_resolutions: Vec<Resolution>,
}

/// An audio device.
#[derive(Clone, Debug)]
pub struct AudioDeviceInfo {
    /// Unique device ID.
    pub id: String,
    /// Device name.
    pub name: String,
    /// Whether this is an input device.
    pub is_input: bool,
    /// Whether this is the default device.
    pub is_default: bool,
}

/// Basic facts about the machine.
#[derive(Clone, Debug)]
pub struct SystemInfo {
    /// Operating system name.
    pub os: String,
    /// Operating system version.
    pub os_version: String,
    /// Processor architecture.
    pub arch: String,
}

/// Whether camera access is granted. The capture backend requests the
/// permission itself on first use and fails there if it is denied, so
/// this always reports granted.
pub fn has_camera_permission() -> (r: bool)
    ensures
        r == true,
{
    true
}

/// Ask for camera access. The capture backend triggers the system's
/// permission dialog when it first opens the camera, so this only
/// reports that the request is in the backend's hands.
pub fn request_camera_permission() -> (r: bool)
    ensures
        r == true,
{
    true
}

/// Whether system-audio capture is available. The capture backend for it
/// is disabled until its framework requirements are met, so this always
/// reports unavailable.
pub fn is_system_audio_available() -> (r: bool)
    ensures
        r == false,
{
    false
}

/// Whether screen capture is allowed. On this build no explicit
/// screen-recording grant exists to check; the platform backends that
/// need one ask the system themselves and fail there if it is denied.
pub fn has_screen_recording_permission() -> (r: bool)
    ensures
        r == true,
{
    true
}

/// Ask for screen-recording access. With no grant to request on this
/// build, this only reports that recording may proceed.
pub fn request_screen_recording_permission() -> (r: bool)
    ensures
        r == true,
{
    true
}

} // verus!
