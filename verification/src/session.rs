//! The coordinator of a recording session: the options that follow from the
//! settings, and what becomes of the previews when a recording starts and
//! ends. A device that the encoding process opens for itself must not be
//! held by a preview at that time.

use crate::config::{audio_hz, audio_kbps, video_kbps, Config};
use crate::text::{copy_text, opt_text, same_text};
use crate::video::{RecorderOptions, RecorderOptionsView};
use vstd::prelude::*;

verus! {

/// The frame rate that recordings are made at.
pub const RECORDING_FRAME_RATE: u32 = 60;

/// The options of a session that records what the settings ask for, at the
/// given volume.
pub open spec fn options_of(config: Config, audio_volume: Option<Seq<char>>) -> RecorderOptionsView {
    RecorderOptionsView {
        output_directory: config.output_directory@,
        video_quality: config.video_quality,
        video_bitrate_kbps: video_kbps(config.video_quality),
        audio_bitrate_kbps: audio_kbps(config.audio_quality),
        audio_sample_rate: audio_hz(config.audio_quality),
        frame_rate: RECORDING_FRAME_RATE as nat,
        include_audio: config.record_audio,
        include_video: config.record_video,
        include_webcam: config.record_webcam,
        separate_outputs: config.separate_outputs,
        selected_screen: match config.default_screen {
            Some(i) => Some(i as nat),
            None => None,
        },
        audio_device: opt_text(config.default_audio_device),
        webcam_device: opt_text(config.default_webcam),
        ffmpeg_path: "ffmpeg"@,
        audio_volume,
    }
}

/// The options of a session that records what the settings ask for.
pub fn recorder_options(config: &Config, audio_volume: Option<String>) -> (options: RecorderOptions)
    ensures
        options@ == options_of(*config, opt_text(audio_volume)),
{
    RecorderOptions {
        output_directory: String::from_str(config.output_directory.as_str()),
        video_quality: config.video_quality,
        video_bitrate_kbps: config.get_video_bitrate(),
        audio_bitrate_kbps: config.get_audio_bitrate(),
        audio_sample_rate: config.get_audio_sample_rate(),
        frame_rate: RECORDING_FRAME_RATE,
        include_audio: config.record_audio,
        include_video: config.record_video,
        include_webcam: config.record_webcam,
        separate_outputs: config.separate_outputs,
        selected_screen: config.default_screen,
        audio_device: copy_text(&config.default_audio_device),
        webcam_device: copy_text(&config.default_webcam),
        ffmpeg_path: String::from_str("ffmpeg"),
        audio_volume,
    }
}

/// The device that the level meter listens to: the chosen one, or the
/// logical default where none, or an empty name, is chosen.
pub open spec fn monitor_device_text(device: Option<Seq<char>>) -> Seq<char> {
    match device {
        Some(name) => if name.len() > 0 {
            name
        } else {
            "default"@
        },
        None => "default"@,
    }
}

/// The device that the level meter listens to.
pub fn monitor_device_name(device: &Option<String>) -> (name: String)
    ensures
        name@ == monitor_device_text(opt_text(*device)),
{
    match device {
        Some(chosen) => {
            if chosen.as_str().unicode_len() > 0 {
                String::from_str(chosen.as_str())
            } else {
                String::from_str("default")
            }
        },
        None => String::from_str("default"),
    }
}

/// What is to become of a preview.
#[derive(Debug, Clone, Copy, PartialEq, Eq, Structural)]
pub enum PreviewChange {
    /// Leave it as it is.
    Keep,
    /// Start it.
    Start,
    /// Stop it, then start it on the new device.
    Restart,
    /// Stop it.
    Stop,
}

/// What is to become of a preview: a source that is shown follows the chosen
/// device, and a source that is not shown has no preview.
pub open spec fn preview_change(shown: bool, on_chosen_device: bool, running: bool) -> PreviewChange {
    if shown {
        if on_chosen_device {
            PreviewChange::Keep
        } else if running {
            PreviewChange::Restart
        } else {
            PreviewChange::Start
        }
    } else if running {
        PreviewChange::Stop
    } else {
        PreviewChange::Keep
    }
}

/// What is to become of the display preview, given the display that is
/// chosen and the one that the preview was last started on.
pub fn screen_preview_change(shown: bool, chosen: usize, active: Option<usize>, running: bool) -> (change:
    PreviewChange)
    ensures
        change == preview_change(shown, active == Some(chosen), running),
{
    let on_chosen = match active {
        Some(index) => index == chosen,
        None => false,
    };
    decide_preview(shown, on_chosen, running)
}

/// What is to become of the camera preview, given the camera that is chosen
/// and the one that the preview was last started on.
pub fn webcam_preview_change(shown: bool, chosen: &str, active: &Option<String>, running: bool) -> (change:
    PreviewChange)
    ensures
        change == preview_change(shown, opt_text(*active) == Some(chosen@), running),
{
    let on_chosen = match active {
        Some(name) => same_text(name.as_str(), chosen),
        None => false,
    };
    decide_preview(shown, on_chosen, running)
}

fn decide_preview(shown: bool, on_chosen_device: bool, running: bool) -> (change: PreviewChange)
    ensures
        change == preview_change(shown, on_chosen_device, running),
{
    if shown {
        if on_chosen_device {
            PreviewChange::Keep
        } else if running {
            PreviewChange::Restart
        } else {
            PreviewChange::Start
        }
    } else if running {
        PreviewChange::Stop
    } else {
        PreviewChange::Keep
    }
}

/// What is to become of the two previews at one moment.
#[derive(Debug, Clone, Copy, PartialEq, Eq, Structural)]
pub struct PreviewPlan {
    pub screen: PreviewChange,
    pub webcam: PreviewChange,
}

/// The previews before the encoding process is spawned: the display preview
/// is started where the display is recorded and no preview runs; the camera
/// preview is stopped where the camera is recorded, so that the process finds
/// the camera free.
pub fn previews_before_recording(
    include_video: bool,
    include_webcam: bool,
    screen_running: bool,
    webcam_running: bool,
) -> (plan: PreviewPlan)
    ensures
        plan.screen == (if include_video && !screen_running {
            PreviewChange::Start
        } else {
            PreviewChange::Keep
        }),
        plan.webcam == (if include_webcam && webcam_running {
            PreviewChange::Stop
        } else {
            PreviewChange::Keep
        }),
        include_webcam ==> plan.webcam != PreviewChange::Start && plan.webcam
            != PreviewChange::Restart,
{
    PreviewPlan {
        screen: if include_video && !screen_running {
            PreviewChange::Start
        } else {
            PreviewChange::Keep
        },
        webcam: if include_webcam && webcam_running {
            PreviewChange::Stop
        } else {
            PreviewChange::Keep
        },
    }
}

/// How to take back what was done to the previews for a session that then
/// failed to start: a preview that was started for it is stopped, and one
/// that was stopped for it is started again.
pub open spec fn undone(change: PreviewChange) -> PreviewChange {
    match change {
        PreviewChange::Start => PreviewChange::Stop,
        PreviewChange::Stop => PreviewChange::Start,
        PreviewChange::Restart => PreviewChange::Restart,
        PreviewChange::Keep => PreviewChange::Keep,
    }
}

/// The previews after a session failed to start: the capture sources that
/// were started for it are torn down, and the previews that were stopped for
/// it run again.
pub fn previews_after_failed_start(before: PreviewPlan) -> (plan: PreviewPlan)
    ensures
        plan.screen == undone(before.screen),
        plan.webcam == undone(before.webcam),
{
    PreviewPlan { screen: undo(before.screen), webcam: undo(before.webcam) }
}

fn undo(change: PreviewChange) -> (r: PreviewChange)
    ensures
        r == undone(change),
{
    match change {
        PreviewChange::Start => PreviewChange::Stop,
        PreviewChange::Stop => PreviewChange::Start,
        PreviewChange::Restart => PreviewChange::Restart,
        PreviewChange::Keep => PreviewChange::Keep,
    }
}

/// The previews after a recording has ended and every source was stopped:
/// the display preview is started again where the display is shown and one
/// is chosen, the camera preview where the camera is shown.
pub fn previews_after_recording(
    show_video: bool,
    show_webcam: bool,
    chosen_screen: Option<usize>,
) -> (plan: PreviewPlan)
    ensures
        plan.screen == (if show_video && chosen_screen is Some {
            PreviewChange::Start
        } else {
            PreviewChange::Keep
        }),
        plan.webcam == (if show_webcam {
            PreviewChange::Start
        } else {
            PreviewChange::Keep
        }),
{
    PreviewPlan {
        screen: if show_video && chosen_screen.is_some() {
            PreviewChange::Start
        } else {
            PreviewChange::Keep
        },
        webcam: if show_webcam {
            PreviewChange::Start
        } else {
            PreviewChange::Keep
        },
    }
}

} // verus!
