//! What can go wrong in a recording session.

use vstd::prelude::*;

verus! {

/// Why a device could not be used once every fallback was tried.
#[derive(Debug, Clone, Copy, PartialEq, Eq, Structural)]
pub enum DeviceFault {
    /// The displays could not be listed.
    ScreenEnumeration,
    /// The chosen display index names no display.
    InvalidScreenIndex,
    /// No display exists.
    NoScreens,
    /// The camera was the only source left and it cannot be opened.
    CameraNotAccessible,
    /// No camera exists.
    NoCamera,
    /// No audio input exists.
    NoAudioInput,
}

/// The failures that reach the caller.
#[derive(Debug, Clone, Copy, PartialEq, Eq, Structural)]
pub enum RecorderError {
    /// No source was selected; raised before any resource is touched.
    Configuration,
    /// A requested device is absent and no fallback is left.
    DeviceUnavailable(DeviceFault),
    /// The encoding tool is missing or does not run.
    BackendUnavailable,
    /// The encoding process could not be launched.
    SpawnFailure,
    /// The encoding process ended before a stop was requested.
    StreamTerminatedUnexpectedly,
}

/// The message of a device fault.
pub open spec fn fault_text(fault: DeviceFault) -> Seq<char> {
    match fault {
        DeviceFault::ScreenEnumeration => "Failed to enumerate screens"@,
        DeviceFault::InvalidScreenIndex => "Invalid screen index"@,
        DeviceFault::NoScreens => "No screens detected"@,
        DeviceFault::CameraNotAccessible => "Video/Webcam output requested but no video stream was configured"@,
        DeviceFault::NoCamera => "No cameras found"@,
        DeviceFault::NoAudioInput => "No input device available"@,
    }
}

/// The message of an error.
pub open spec fn error_text(error: RecorderError) -> Seq<char> {
    match error {
        RecorderError::Configuration => "At least one of audio, video, or webcam capture must be enabled"@,
        RecorderError::DeviceUnavailable(fault) => fault_text(fault),
        RecorderError::BackendUnavailable => "Failed to launch ffmpeg binary"@,
        RecorderError::SpawnFailure => "Failed to spawn ffmpeg process"@,
        RecorderError::StreamTerminatedUnexpectedly => "ffmpeg exited before a stop was requested"@,
    }
}

impl DeviceFault {
    /// The message of this fault.
    pub fn message(&self) -> (text: String)
        ensures
            text@ == fault_text(*self),
    {
        match self {
            DeviceFault::ScreenEnumeration => String::from_str("Failed to enumerate screens"),
            DeviceFault::InvalidScreenIndex => String::from_str("Invalid screen index"),
            DeviceFault::NoScreens => String::from_str("No screens detected"),
            DeviceFault::CameraNotAccessible => String::from_str(
                "Video/Webcam output requested but no video stream was configured",
            ),
            DeviceFault::NoCamera => String::from_str("No cameras found"),
            DeviceFault::NoAudioInput => String::from_str("No input device available"),
        }
    }
}

impl RecorderError {
    /// The message of this error.
    pub fn message(&self) -> (text: String)
        ensures
            text@ == error_text(*self),
    {
        match self {
            RecorderError::Configuration => String::from_str(
                "At least one of audio, video, or webcam capture must be enabled",
            ),
            RecorderError::DeviceUnavailable(fault) => fault.message(),
            RecorderError::BackendUnavailable => String::from_str("Failed to launch ffmpeg binary"),
            RecorderError::SpawnFailure => String::from_str("Failed to spawn ffmpeg process"),
            RecorderError::StreamTerminatedUnexpectedly => String::from_str(
                "ffmpeg exited before a stop was requested",
            ),
        }
    }
}

} // verus!
