//! The data of one recording session: what was asked for, what the host
//! offers, and the plan of the encoder invocation that follows from both.

use crate::config::VideoQuality;
use crate::text::opt_text;
use vstd::prelude::*;

verus! {

/// What one recording session was asked to do. It is fixed once the session
/// starts.
#[derive(Debug, Clone)]
pub struct RecorderOptions {
    pub output_directory: String,
    pub video_quality: VideoQuality,
    pub video_bitrate_kbps: u32,
    pub audio_bitrate_kbps: u32,
    pub audio_sample_rate: u32,
    pub frame_rate: u32,
    pub include_audio: bool,
    pub include_video: bool,
    pub include_webcam: bool,
    pub separate_outputs: bool,
    pub selected_screen: Option<usize>,
    pub audio_device: Option<String>,
    pub webcam_device: Option<String>,
    pub ffmpeg_path: String,
    /// The linear volume factor, ten to the power of a twentieth of the gain
    /// in decibels, as decimal text; `None` for a gain of exactly zero
    /// decibels.
    pub audio_volume: Option<String>,
}

/// The mathematical content of [`RecorderOptions`].
pub ghost struct RecorderOptionsView {
    pub output_directory: Seq<char>,
    pub video_quality: VideoQuality,
    pub video_bitrate_kbps: nat,
    pub audio_bitrate_kbps: nat,
    pub audio_sample_rate: nat,
    pub frame_rate: nat,
    pub include_audio: bool,
    pub include_video: bool,
    pub include_webcam: bool,
    pub separate_outputs: bool,
    pub selected_screen: Option<nat>,
    pub audio_device: Option<Seq<char>>,
    pub webcam_device: Option<Seq<char>>,
    pub ffmpeg_path: Seq<char>,
    pub audio_volume: Option<Seq<char>>,
}

impl View for RecorderOptions {
    type V = RecorderOptionsView;

    open spec fn view(&self) -> RecorderOptionsView {
        RecorderOptionsView {
            output_directory: self.output_directory@,
            video_quality: self.video_quality,
            video_bitrate_kbps: self.video_bitrate_kbps as nat,
            audio_bitrate_kbps: self.audio_bitrate_kbps as nat,
            audio_sample_rate: self.audio_sample_rate as nat,
            frame_rate: self.frame_rate as nat,
            include_audio: self.include_audio,
            include_video: self.include_video,
            include_webcam: self.include_webcam,
            separate_outputs: self.separate_outputs,
            selected_screen: match self.selected_screen {
                Some(i) => Some(i as nat),
                None => None,
            },
            audio_device: opt_text(self.audio_device),
            webcam_device: opt_text(self.webcam_device),
            ffmpeg_path: self.ffmpeg_path@,
            audio_volume: opt_text(self.audio_volume),
        }
    }
}

/// The files that a session writes: a combined file, or a video file and an
/// audio file.
#[derive(Debug, Clone)]
pub struct RecordingOutputs {
    pub combined: Option<String>,
    pub video_only: Option<String>,
    pub audio_only: Option<String>,
}

/// The mathematical content of [`RecordingOutputs`].
pub ghost struct RecordingOutputsView {
    pub combined: Option<Seq<char>>,
    pub video_only: Option<Seq<char>>,
    pub audio_only: Option<Seq<char>>,
}

impl View for RecordingOutputs {
    type V = RecordingOutputsView;

    open spec fn view(&self) -> RecordingOutputsView {
        RecordingOutputsView {
            combined: opt_text(self.combined),
            video_only: opt_text(self.video_only),
            audio_only: opt_text(self.audio_only),
        }
    }
}

/// How many files a set of outputs names.
pub open spec fn output_count(outputs: RecordingOutputsView) -> nat {
    (if outputs.combined is Some { 1nat } else { 0nat })
        + (if outputs.video_only is Some { 1nat } else { 0nat })
        + (if outputs.audio_only is Some { 1nat } else { 0nat })
}

impl RecordingOutputs {
    /// How many files these outputs name.
    pub fn count(&self) -> (n: usize)
        ensures
            n == output_count(self@),
    {
        let mut n: usize = 0;
        if self.combined.is_some() {
            n += 1;
        }
        if self.video_only.is_some() {
            n += 1;
        }
        if self.audio_only.is_some() {
            n += 1;
        }
        n
    }
}

/// The variables of the process environment that the plan depends on.
#[derive(Debug, Clone)]
pub struct CaptureEnvironment {
    /// Whether `WAYLAND_DISPLAY` is set.
    pub wayland_display: bool,
    /// The value of `DISPLAY`.
    pub display: Option<String>,
    /// The value of `OCTOCORD_USE_PIPEWIRE`.
    pub use_pipewire: Option<String>,
    /// The value of `OCTOCORD_AUDIO_BACKEND`.
    pub audio_backend: Option<String>,
    /// The value of `OCTOCORD_AUDIO_HOST`.
    pub audio_host: Option<String>,
}

/// The mathematical content of [`CaptureEnvironment`].
pub ghost struct CaptureEnvironmentView {
    pub wayland_display: bool,
    pub display: Option<Seq<char>>,
    pub use_pipewire: Option<Seq<char>>,
    pub audio_backend: Option<Seq<char>>,
    pub audio_host: Option<Seq<char>>,
}

impl View for CaptureEnvironment {
    type V = CaptureEnvironmentView;

    open spec fn view(&self) -> CaptureEnvironmentView {
        CaptureEnvironmentView {
            wayland_display: self.wayland_display,
            display: opt_text(self.display),
            use_pipewire: opt_text(self.use_pipewire),
            audio_backend: opt_text(self.audio_backend),
            audio_host: opt_text(self.audio_host),
        }
    }
}

/// Which optional input backends the encoding tool supports on this host.
#[derive(Debug, Clone, Copy, PartialEq, Eq, Structural)]
pub struct BackendProbeResult {
    pub pipewire_supported: bool,
    pub pulse_supported: bool,
}

/// The reported resolution of a display.
#[derive(Debug, Clone, Copy, PartialEq, Eq, Structural)]
pub struct ScreenSize {
    pub width: u32,
    pub height: u32,
}

/// A camera device node that exists, and whether the encoding tool can open
/// it.
#[derive(Debug, Clone)]
pub struct VideoDevice {
    pub path: String,
    pub accessible: bool,
}

/// The mathematical content of [`VideoDevice`].
pub ghost struct VideoDeviceView {
    pub path: Seq<char>,
    pub accessible: bool,
}

impl View for VideoDevice {
    type V = VideoDeviceView;

    open spec fn view(&self) -> VideoDeviceView {
        VideoDeviceView { path: self.path@, accessible: self.accessible }
    }
}

/// The displays and camera device nodes found on the host.
#[derive(Debug, Clone)]
pub struct HostDevices {
    /// The displays in their order, or `None` where they could not be listed.
    pub screens: Option<Vec<ScreenSize>>,
    /// The camera device nodes that exist.
    pub video_devices: Vec<VideoDevice>,
}

/// The mathematical content of [`HostDevices`].
pub ghost struct HostDevicesView {
    pub screens: Option<Seq<ScreenSize>>,
    pub video_devices: Seq<VideoDeviceView>,
}

/// The contents of a list of camera device nodes.
pub open spec fn devices_view(devices: Seq<VideoDevice>) -> Seq<VideoDeviceView> {
    Seq::new(devices.len(), |i: int| devices[i]@)
}

impl View for HostDevices {
    type V = HostDevicesView;

    open spec fn view(&self) -> HostDevicesView {
        HostDevicesView {
            screens: match self.screens {
                Some(list) => Some(list@),
                None => None,
            },
            video_devices: devices_view(self.video_devices@),
        }
    }
}

/// The fully resolved invocation of the encoding tool and the files it will
/// write.
#[derive(Debug, Clone)]
pub struct CommandPlan {
    pub program: String,
    pub args: Vec<String>,
    pub outputs: RecordingOutputs,
}

/// The mathematical content of [`CommandPlan`].
pub ghost struct CommandPlanView {
    pub program: Seq<char>,
    pub args: Seq<Seq<char>>,
    pub outputs: RecordingOutputsView,
}

impl View for CommandPlan {
    type V = CommandPlanView;

    open spec fn view(&self) -> CommandPlanView {
        CommandPlanView {
            program: self.program@,
            args: self.args.deep_view(),
            outputs: self.outputs@,
        }
    }
}

} // verus!
