//! The command builder: from the options of a session, the environment, the
//! probed backends and the devices of the host to the argument vector of the
//! encoding tool and the files it will write.

use crate::config::{crf_for_quality, preset_for_quality, preset_text, rate_factor};
use crate::error::{DeviceFault, RecorderError};
use crate::text::{
    append_args, ascii_folded, concat2, concat3, decimal_string, decimal_text, has_prefix,
    join_path, joined_path, no_args, opt_text, push_arg, same_text,
    same_text_ignoring_ascii_case,
};
use crate::video::{
    BackendProbeResult, CaptureEnvironment, CaptureEnvironmentView, CommandPlan, CommandPlanView,
    HostDevices, HostDevicesView, RecorderOptions, RecorderOptionsView, RecordingOutputs,
    RecordingOutputsView, ScreenSize, VideoDevice, VideoDeviceView, devices_view, output_count,
};
use vstd::prelude::*;

verus! {

/// The empty argument list.
pub open spec fn no_arg_texts() -> Seq<Seq<char>> {
    Seq::<Seq<char>>::empty()
}

/// Whether at least one source is included.
pub open spec fn any_source(o: RecorderOptionsView) -> bool {
    o.include_audio || o.include_video || o.include_webcam
}

/// Whether the portal opt-in variable asks for the portal backend.
pub open spec fn pipewire_requested(flag: Option<Seq<char>>) -> bool {
    match flag {
        Some(v) => v == "1"@ || v == "true"@ || v == "TRUE"@,
        None => false,
    }
}

/// The portal backend is taken in a compositor session that asks for it and
/// has no legacy display.
pub open spec fn uses_portal(env: CaptureEnvironmentView) -> bool {
    env.wayland_display && pipewire_requested(env.use_pipewire) && env.display is None
}

/// The display that is recorded: the chosen one, or the first where none is
/// chosen.
pub open spec fn chosen_screen(screens: Option<Seq<ScreenSize>>, selected: Option<nat>) -> Result<
    ScreenSize,
    RecorderError,
> {
    match screens {
        None => Err(RecorderError::DeviceUnavailable(DeviceFault::ScreenEnumeration)),
        Some(list) => match selected {
            Some(i) => if i < list.len() {
                Ok(list[i as int])
            } else {
                Err(RecorderError::DeviceUnavailable(DeviceFault::InvalidScreenIndex))
            },
            None => if list.len() > 0 {
                Ok(list[0])
            } else {
                Err(RecorderError::DeviceUnavailable(DeviceFault::NoScreens))
            },
        },
    }
}

/// The grab source of a display: the display name, `:0.0` where none is set,
/// and the offset of the origin.
pub open spec fn display_input_text(display: Option<Seq<char>>) -> Seq<char> {
    (match display {
        Some(d) => d,
        None => ":0.0"@,
    }) + "+0,0"@
}

/// A resolution as width, `x`, height.
pub open spec fn size_text(size: ScreenSize) -> Seq<char> {
    decimal_text(size.width as nat) + "x"@ + decimal_text(size.height as nat)
}

/// The flags that stand before every input.
pub open spec fn global_args() -> Seq<Seq<char>> {
    no_arg_texts().push("-y"@).push("-hide_banner"@).push("-loglevel"@).push("warning"@).push(
        "-stats"@,
    ).push("-threads"@).push("0"@)
}

/// The input of the portal backend.
pub open spec fn portal_input_args() -> Seq<Seq<char>> {
    no_arg_texts().push("-thread_queue_size"@).push("2048"@).push("-f"@).push("pipewire"@).push(
        "-i"@,
    ).push("0"@)
}

/// The input of the direct display grab.
pub open spec fn grab_input_args(frame_rate: nat, size: Seq<char>, source: Seq<char>) -> Seq<
    Seq<char>,
> {
    no_arg_texts().push("-thread_queue_size"@).push("2048"@).push("-f"@).push("x11grab"@).push(
        "-framerate"@,
    ).push(decimal_text(frame_rate)).push("-probesize"@).push("50M"@).push("-fflags"@).push(
        "+nobuffer"@,
    ).push("-use_wallclock_as_timestamps"@).push("1"@).push("-video_size"@).push(size).push(
        "-i"@,
    ).push(source)
}

/// The display input, where the display is included and can be resolved.
pub open spec fn video_input_args(
    o: RecorderOptionsView,
    env: CaptureEnvironmentView,
    host: HostDevicesView,
) -> Seq<Seq<char>> {
    if !o.include_video {
        no_arg_texts()
    } else if uses_portal(env) {
        portal_input_args()
    } else {
        match chosen_screen(host.screens, o.selected_screen) {
            Ok(size) => grab_input_args(
                o.frame_rate,
                size_text(size),
                display_input_text(env.display),
            ),
            Err(_) => no_arg_texts(),
        }
    }
}

/// The audio-server backend is taken where the override names it, or, without
/// an override, where the probe found it.
pub open spec fn selects_pulse(env: CaptureEnvironmentView, probe: BackendProbeResult) -> bool {
    match env.audio_backend {
        Some(name) => ascii_folded(name) == ascii_folded("pulse"@),
        None => probe.pulse_supported,
    }
}

/// The audio device handed to the encoding tool: the logical default, unless
/// the audio-server backend is taken with another device named.
pub open spec fn audio_device_text(device: Option<Seq<char>>, pulse: bool) -> Seq<char> {
    match device {
        Some(name) => if pulse && name != "default"@ {
            name
        } else {
            "default"@
        },
        None => "default"@,
    }
}

/// The audio input, where audio is included.
pub open spec fn audio_input_args(
    o: RecorderOptionsView,
    env: CaptureEnvironmentView,
    probe: BackendProbeResult,
) -> Seq<Seq<char>> {
    if !o.include_audio {
        no_arg_texts()
    } else {
        let pulse = selects_pulse(env, probe);
        no_arg_texts().push("-thread_queue_size"@).push("2048"@).push("-f"@).push(
            if pulse {
                "pulse"@
            } else {
                "alsa"@
            },
        ).push("-ac"@).push("2"@).push("-ar"@).push(decimal_text(o.audio_sample_rate)).push(
            "-i"@,
        ).push(audio_device_text(o.audio_device, pulse))
    }
}

/// Whether a device node of this path exists.
pub open spec fn device_listed(devices: Seq<VideoDeviceView>, path: Seq<char>) -> bool {
    exists|i: int| 0 <= i < devices.len() && #[trigger] devices[i].path == path
}

/// Whether a device node of this path exists and can be opened.
pub open spec fn device_accessible(devices: Seq<VideoDeviceView>, path: Seq<char>) -> bool {
    exists|i: int|
        0 <= i < devices.len() && #[trigger] devices[i].path == path && devices[i].accessible
}

/// How many device paths the scan tries.
pub const SCAN_LIMIT: u64 = 10;

/// The path of the scanned device node of a number.
pub open spec fn scan_path(number: nat) -> Seq<char> {
    "/dev/video"@ + decimal_text(number)
}

/// The first scanned path, from `from` on, whose device node exists.
pub open spec fn first_scanned(devices: Seq<VideoDeviceView>, from: nat) -> Option<Seq<char>>
    decreases SCAN_LIMIT - from,
{
    if from >= SCAN_LIMIT {
        None
    } else if device_listed(devices, scan_path(from)) {
        Some(scan_path(from))
    } else {
        first_scanned(devices, from + 1)
    }
}

/// The camera path that is asked for: the configured one, or the first device
/// node.
pub open spec fn requested_webcam(device: Option<Seq<char>>) -> Seq<char> {
    match device {
        Some(path) => path,
        None => "/dev/video0"@,
    }
}

/// The camera path before the accessibility probe: the requested one where it
/// is a video device node that exists, else the first scanned one that does.
pub open spec fn webcam_candidate(device: Option<Seq<char>>, devices: Seq<VideoDeviceView>) -> Option<
    Seq<char>,
> {
    let requested = requested_webcam(device);
    if "/dev/video"@.is_prefix_of(requested) && device_listed(devices, requested) {
        Some(requested)
    } else {
        first_scanned(devices, 0)
    }
}

/// The camera input of the session: the candidate where the camera is
/// included and its device node can be opened.
pub open spec fn resolved_webcam(o: RecorderOptionsView, host: HostDevicesView) -> Option<
    Seq<char>,
> {
    if !o.include_webcam {
        None
    } else {
        match webcam_candidate(o.webcam_device, host.video_devices) {
            Some(path) => if device_accessible(host.video_devices, path) {
                Some(path)
            } else {
                None
            },
            None => None,
        }
    }
}

/// The camera input, where a camera was resolved.
pub open spec fn webcam_input_args(source: Option<Seq<char>>) -> Seq<Seq<char>> {
    match source {
        Some(path) => no_arg_texts().push("-thread_queue_size"@).push("512"@).push("-f"@).push(
            "v4l2"@,
        ).push("-framerate"@).push("30"@).push("-i"@).push(path),
        None => no_arg_texts(),
    }
}

/// The input index of the audio input: the number of inputs before it.
pub open spec fn audio_input_index(include_video: bool) -> nat {
    if include_video {
        1
    } else {
        0
    }
}

/// The input index of the camera: the number of inputs before it.
pub open spec fn webcam_input_index(include_video: bool, include_audio: bool) -> nat {
    (if include_video {
        1nat
    } else {
        0nat
    }) + (if include_audio {
        1nat
    } else {
        0nat
    })
}

/// The scale filter that forces even pixel dimensions.
pub open spec fn even_scale_text() -> Seq<char> {
    "scale=trunc(iw/2)*2:trunc(ih/2)*2"@
}

/// The filter graph that scales the camera to a width of 640, lays it over
/// the display at the bottom right with a margin of 40 pixels, and forces
/// even dimensions.
pub open spec fn overlay_filter_text(webcam_index: nat) -> Seq<char> {
    "["@ + decimal_text(webcam_index)
        + ":v]scale=640:-1[cam_scaled];[0:v][cam_scaled]overlay=W-w-40:H-h-40[overlayed];[overlayed]scale=trunc(iw/2)*2:trunc(ih/2)*2[vout]"@
}

/// The video filters: the overlay graph where display and camera are both
/// present; the even-dimension scale for a video stream that does not pass
/// through that graph, the display alone or the camera alone; none without
/// video.
pub open spec fn filter_args(o: RecorderOptionsView, webcam_on: bool) -> Seq<Seq<char>> {
    if o.include_video && webcam_on {
        no_arg_texts().push("-filter_complex"@).push(
            overlay_filter_text(webcam_input_index(o.include_video, o.include_audio)),
        )
    } else if o.include_video || webcam_on {
        no_arg_texts().push("-vf"@).push(even_scale_text())
    } else {
        no_arg_texts()
    }
}

/// The stream that is encoded as video, if any.
pub open spec fn video_map_text(o: RecorderOptionsView, webcam_on: bool) -> Option<Seq<char>> {
    if o.include_video {
        if webcam_on {
            Some("[vout]"@)
        } else {
            Some("0:v"@)
        }
    } else if webcam_on {
        Some(decimal_text(webcam_input_index(o.include_video, o.include_audio)) + ":v"@)
    } else {
        None
    }
}

/// The stream that is encoded as audio.
pub open spec fn audio_map_text(o: RecorderOptionsView) -> Seq<char> {
    decimal_text(audio_input_index(o.include_video)) + ":a"@
}

/// The audio volume filter: none at a gain of zero decibels, else the linear
/// factor.
pub open spec fn gain_args(o: RecorderOptionsView) -> Seq<Seq<char>> {
    if !o.include_audio {
        no_arg_texts()
    } else {
        match o.audio_volume {
            Some(factor) => no_arg_texts().push("-filter:a"@).push("volume="@ + factor),
            None => no_arg_texts(),
        }
    }
}

/// Whether video and audio go to two files.
pub open spec fn splits_outputs(o: RecorderOptionsView, any_video: bool) -> bool {
    o.separate_outputs && o.include_audio && any_video
}

/// The name of a recording file without its extension.
pub open spec fn base_name(stamp: Seq<char>) -> Seq<char> {
    "recording_"@ + stamp
}

/// The files of a session: none without a source, a video file and an audio
/// file where the outputs are split, else one combined file, a video container
/// where there is video and an audio file where there is none.
pub open spec fn output_paths(o: RecorderOptionsView, any_video: bool, stamp: Seq<char>) -> RecordingOutputsView {
    if !any_video && !o.include_audio {
        RecordingOutputsView { combined: None, video_only: None, audio_only: None }
    } else if splits_outputs(o, any_video) {
        RecordingOutputsView {
            combined: None,
            video_only: Some(joined_path(o.output_directory, base_name(stamp) + ".video.mkv"@)),
            audio_only: Some(joined_path(o.output_directory, base_name(stamp) + ".audio.flac"@)),
        }
    } else {
        RecordingOutputsView {
            combined: Some(
                joined_path(
                    o.output_directory,
                    base_name(stamp) + (if any_video {
                        ".mkv"@
                    } else {
                        ".flac"@
                    }),
                ),
            ),
            video_only: None,
            audio_only: None,
        }
    }
}

/// The mapping and codec flags of a video stream.
pub open spec fn video_codec_args(o: RecorderOptionsView, stream: Seq<char>) -> Seq<Seq<char>> {
    no_arg_texts().push("-map"@).push(stream).push("-c:v"@).push("libx264"@).push("-preset"@).push(
        preset_text(o.video_quality),
    ).push("-crf"@).push(decimal_text(rate_factor(o.video_quality))).push("-pix_fmt"@).push(
        "yuv420p"@,
    ).push("-b:v"@).push(decimal_text(o.video_bitrate_kbps) + "k"@)
}

/// The mapping and codec flags of an audio stream that is stored losslessly.
pub open spec fn flac_codec_args(o: RecorderOptionsView) -> Seq<Seq<char>> {
    no_arg_texts().push("-map"@).push(audio_map_text(o)).push("-c:a"@).push("flac"@).push(
        "-ar"@,
    ).push(decimal_text(o.audio_sample_rate))
}

/// The mapping and codec flags of an audio stream that goes beside video.
pub open spec fn aac_codec_args(o: RecorderOptionsView) -> Seq<Seq<char>> {
    no_arg_texts().push("-map"@).push(audio_map_text(o)).push("-c:a"@).push("aac"@).push(
        "-b:a"@,
    ).push(decimal_text(o.audio_bitrate_kbps) + "k"@).push("-ar"@).push(
        decimal_text(o.audio_sample_rate),
    )
}

/// The text of an optional path; empty where there is none.
pub open spec fn path_or_empty(path: Option<Seq<char>>) -> Seq<char> {
    match path {
        Some(p) => p,
        None => Seq::<char>::empty(),
    }
}

/// The stream mappings, codec flags and output files.
pub open spec fn output_args(o: RecorderOptionsView, webcam_on: bool, stamp: Seq<char>) -> Seq<
    Seq<char>,
> {
    let any_video = o.include_video || webcam_on;
    let outputs = output_paths(o, any_video, stamp);
    let stream = path_or_empty(video_map_text(o, webcam_on));
    if splits_outputs(o, any_video) {
        video_codec_args(o, stream).push(path_or_empty(outputs.video_only)) + flac_codec_args(
            o,
        ).push(path_or_empty(outputs.audio_only))
    } else {
        ((if any_video {
            video_codec_args(o, stream)
        } else {
            no_arg_texts()
        }) + (if !o.include_audio {
            no_arg_texts()
        } else if any_video {
            aac_codec_args(o)
        } else {
            flac_codec_args(o)
        })).push(path_or_empty(outputs.combined))
    }
}

/// Why no plan can be made, if so: no source is selected; the display is
/// grabbed directly and cannot be resolved; or the camera was the only source
/// and cannot be used.
pub open spec fn plan_error(
    o: RecorderOptionsView,
    env: CaptureEnvironmentView,
    host: HostDevicesView,
) -> Option<RecorderError> {
    if !any_source(o) {
        Some(RecorderError::Configuration)
    } else if o.include_video && !uses_portal(env) && chosen_screen(
        host.screens,
        o.selected_screen,
    ) is Err {
        Some(chosen_screen(host.screens, o.selected_screen)->Err_0)
    } else if !o.include_video && !o.include_audio && resolved_webcam(o, host) is None {
        Some(RecorderError::DeviceUnavailable(DeviceFault::CameraNotAccessible))
    } else {
        None
    }
}

/// The argument vector of the encoding tool: the global flags, the inputs in
/// the order display, audio, camera, the video filters, the volume filter,
/// and the mappings with the output files.
pub open spec fn command_args(
    o: RecorderOptionsView,
    env: CaptureEnvironmentView,
    probe: BackendProbeResult,
    host: HostDevicesView,
    stamp: Seq<char>,
) -> Seq<Seq<char>> {
    let webcam = resolved_webcam(o, host);
    global_args() + video_input_args(o, env, host) + audio_input_args(o, env, probe)
        + webcam_input_args(webcam) + filter_args(o, webcam is Some) + gain_args(o)
        + no_arg_texts().push("-shortest"@) + output_args(o, webcam is Some, stamp)
}

/// The plan of a session whose inputs allow one.
pub open spec fn command_plan(
    o: RecorderOptionsView,
    env: CaptureEnvironmentView,
    probe: BackendProbeResult,
    host: HostDevicesView,
    stamp: Seq<char>,
) -> CommandPlanView {
    CommandPlanView {
        program: o.ffmpeg_path,
        args: command_args(o, env, probe, host, stamp),
        outputs: output_paths(o, o.include_video || resolved_webcam(o, host) is Some, stamp),
    }
}

/// Whether the portal opt-in variable asks for the portal backend.
pub fn pipewire_flag_set(flag: &Option<String>) -> (r: bool)
    ensures
        r == pipewire_requested(opt_text(*flag)),
{
    match flag {
        Some(v) => same_text(v.as_str(), "1") || same_text(v.as_str(), "true") || same_text(
            v.as_str(),
            "TRUE",
        ),
        None => false,
    }
}

/// Whether the display is captured through the portal backend.
pub fn portal_selected(env: &CaptureEnvironment) -> (r: bool)
    ensures
        r == uses_portal(env@),
{
    env.wayland_display && pipewire_flag_set(&env.use_pipewire) && env.display.is_none()
}

/// The grab source and the capture size of the display that is recorded.
#[derive(Debug, Clone)]
pub struct ScreenCaptureInput {
    pub display_input: String,
    pub video_size: String,
}

/// Picks the display to record, the chosen one or the first, and renders its
/// grab source and its resolution.
pub fn determine_screen_input(
    display: &Option<String>,
    screens: &Option<Vec<ScreenSize>>,
    screen_index: Option<usize>,
) -> (r: Result<ScreenCaptureInput, RecorderError>)
    ensures
        match r {
            Ok(input) => {
                let found = chosen_screen(
                    match *screens {
                        Some(list) => Some(list@),
                        None => None,
                    },
                    match screen_index {
                        Some(i) => Some(i as nat),
                        None => None,
                    },
                );
                &&& found is Ok
                &&& input.display_input@ == display_input_text(opt_text(*display))
                &&& input.video_size@ == size_text(found->Ok_0)
            },
            Err(e) => chosen_screen(
                match *screens {
                    Some(list) => Some(list@),
                    None => None,
                },
                match screen_index {
                    Some(i) => Some(i as nat),
                    None => None,
                },
            ) == Err::<ScreenSize, RecorderError>(e),
        },
{
    let list = match screens {
        Some(list) => list,
        None => {
            return Err(RecorderError::DeviceUnavailable(DeviceFault::ScreenEnumeration));
        },
    };
    let size = match screen_index {
        Some(i) => {
            if i < list.len() {
                list[i]
            } else {
                return Err(RecorderError::DeviceUnavailable(DeviceFault::InvalidScreenIndex));
            }
        },
        None => {
            if list.len() > 0 {
                list[0]
            } else {
                return Err(RecorderError::DeviceUnavailable(DeviceFault::NoScreens));
            }
        },
    };
    let display_input = match display {
        Some(d) => concat2(d.as_str(), "+0,0"),
        None => concat2(":0.0", "+0,0"),
    };
    let width = decimal_string(size.width as u64);
    let height = decimal_string(size.height as u64);
    let video_size = concat3(width.as_str(), "x", height.as_str());
    Ok(ScreenCaptureInput { display_input, video_size })
}

fn video_input(options: &RecorderOptions, env: &CaptureEnvironment, host: &HostDevices) -> (r:
    Result<Vec<String>, RecorderError>)
    ensures
        match r {
            Ok(args) => {
                &&& args.deep_view() == video_input_args(options@, env@, host@)
                &&& !(options.include_video && !uses_portal(env@) && chosen_screen(
                    host@.screens,
                    options@.selected_screen,
                ) is Err)
            },
            Err(e) => {
                &&& options.include_video
                &&& !uses_portal(env@)
                &&& chosen_screen(host@.screens, options@.selected_screen) == Err::<
                    ScreenSize,
                    RecorderError,
                >(e)
            },
        },
{
    let mut args = no_args();
    if !options.include_video {
        return Ok(args);
    }
    if portal_selected(env) {
        push_arg(&mut args, "-thread_queue_size");
        push_arg(&mut args, "2048");
        push_arg(&mut args, "-f");
        push_arg(&mut args, "pipewire");
        push_arg(&mut args, "-i");
        push_arg(&mut args, "0");
        return Ok(args);
    }
    let input = match determine_screen_input(&env.display, &host.screens, options.selected_screen) {
        Ok(input) => input,
        Err(e) => {
            return Err(e);
        },
    };
    let rate = decimal_string(options.frame_rate as u64);
    push_arg(&mut args, "-thread_queue_size");
    push_arg(&mut args, "2048");
    push_arg(&mut args, "-f");
    push_arg(&mut args, "x11grab");
    push_arg(&mut args, "-framerate");
    push_arg(&mut args, rate.as_str());
    push_arg(&mut args, "-probesize");
    push_arg(&mut args, "50M");
    push_arg(&mut args, "-fflags");
    push_arg(&mut args, "+nobuffer");
    push_arg(&mut args, "-use_wallclock_as_timestamps");
    push_arg(&mut args, "1");
    push_arg(&mut args, "-video_size");
    push_arg(&mut args, input.video_size.as_str());
    push_arg(&mut args, "-i");
    push_arg(&mut args, input.display_input.as_str());
    Ok(args)
}

/// Whether the audio-server backend is taken.
pub fn pulse_selected(env: &CaptureEnvironment, probe: BackendProbeResult) -> (r: bool)
    ensures
        r == selects_pulse(env@, probe),
{
    match &env.audio_backend {
        Some(name) => same_text_ignoring_ascii_case(name.as_str(), "pulse"),
        None => probe.pulse_supported,
    }
}

fn audio_input(options: &RecorderOptions, env: &CaptureEnvironment, probe: BackendProbeResult) -> (args:
    Vec<String>)
    ensures
        args.deep_view() == audio_input_args(options@, env@, probe),
{
    let mut args = no_args();
    if !options.include_audio {
        return args;
    }
    let pulse = pulse_selected(env, probe);
    let rate = decimal_string(options.audio_sample_rate as u64);
    push_arg(&mut args, "-thread_queue_size");
    push_arg(&mut args, "2048");
    push_arg(&mut args, "-f");
    if pulse {
        push_arg(&mut args, "pulse");
    } else {
        push_arg(&mut args, "alsa");
    }
    push_arg(&mut args, "-ac");
    push_arg(&mut args, "2");
    push_arg(&mut args, "-ar");
    push_arg(&mut args, rate.as_str());
    push_arg(&mut args, "-i");
    match &options.audio_device {
        Some(name) => {
            if pulse && !same_text(name.as_str(), "default") {
                push_arg(&mut args, name.as_str());
            } else {
                push_arg(&mut args, "default");
            }
        },
        None => {
            push_arg(&mut args, "default");
        },
    }
    args
}

/// Whether a device node of this path exists on the host.
pub fn device_is_listed(devices: &Vec<VideoDevice>, path: &str) -> (r: bool)
    ensures
        r == device_listed(devices_view(devices@), path@),
{
    let mut i: usize = 0;
    while i < devices.len()
        invariant
            i <= devices.len(),
            forall|k: int| 0 <= k < i ==> (#[trigger] devices_view(devices@)[k]).path != path@,
        decreases devices.len() - i,
    {
        if same_text(devices[i].path.as_str(), path) {
            assert(devices_view(devices@)[i as int].path == path@);
            return true;
        }
        i += 1;
    }
    false
}

/// Whether a device node of this path exists on the host and can be opened.
pub fn device_is_accessible(devices: &Vec<VideoDevice>, path: &str) -> (r: bool)
    ensures
        r == device_accessible(devices_view(devices@), path@),
{
    let mut i: usize = 0;
    while i < devices.len()
        invariant
            i <= devices.len(),
            forall|k: int|
                0 <= k < i ==> !((#[trigger] devices_view(devices@)[k]).path == path@
                    && devices_view(devices@)[k].accessible),
        decreases devices.len() - i,
    {
        if devices[i].accessible && same_text(devices[i].path.as_str(), path) {
            assert(devices_view(devices@)[i as int].path == path@);
            return true;
        }
        i += 1;
    }
    false
}

/// The path of the scanned device node of a number.
pub fn scanned_path(number: u64) -> (path: String)
    ensures
        path@ == scan_path(number as nat),
{
    let digits = decimal_string(number);
    concat2("/dev/video", digits.as_str())
}

/// The first scanned path whose device node exists.
pub fn first_existing_scanned(devices: &Vec<VideoDevice>) -> (r: Option<String>)
    ensures
        opt_text(r) == first_scanned(devices_view(devices@), 0),
{
    let mut number: u64 = 0;
    while number < SCAN_LIMIT
        invariant
            number <= SCAN_LIMIT,
            first_scanned(devices_view(devices@), 0) == first_scanned(
                devices_view(devices@),
                number as nat,
            ),
        decreases SCAN_LIMIT - number,
    {
        let path = scanned_path(number);
        if device_is_listed(devices, path.as_str()) {
            return Some(path);
        }
        number += 1;
    }
    None
}

/// The device paths that matter to a session: the configured one, if any,
/// and then the scanned ones in their order.
pub open spec fn device_paths_of_interest(device: Option<Seq<char>>) -> Seq<Seq<char>> {
    (match device {
        Some(path) => no_arg_texts().push(path),
        None => no_arg_texts(),
    }) + Seq::new(SCAN_LIMIT as nat, |i: int| scan_path(i as nat))
}

/// The device paths whose existence is to be looked up for a session.
pub fn webcam_paths_of_interest(device: &Option<String>) -> (paths: Vec<String>)
    ensures
        paths.deep_view() == device_paths_of_interest(opt_text(*device)),
{
    let mut paths = no_args();
    match device {
        Some(path) => {
            push_arg(&mut paths, path.as_str());
        },
        None => {},
    }
    let ghost head = paths.deep_view();
    let mut number: u64 = 0;
    while number < SCAN_LIMIT
        invariant
            number <= SCAN_LIMIT,
            paths.deep_view() == head + Seq::new(number as nat, |i: int| scan_path(i as nat)),
        decreases SCAN_LIMIT - number,
    {
        let ghost before = paths.deep_view();
        let path = scanned_path(number);
        push_arg(&mut paths, path.as_str());
        assert(paths.deep_view() =~= head + Seq::new(
            (number + 1) as nat,
            |i: int| scan_path(i as nat),
        ));
        number += 1;
    }
    paths
}

/// The camera path before the accessibility probe.
pub fn webcam_candidate_path(device: &Option<String>, devices: &Vec<VideoDevice>) -> (r: Option<
    String,
>)
    ensures
        opt_text(r) == webcam_candidate(opt_text(*device), devices_view(devices@)),
{
    let requested = match device {
        Some(path) => String::from_str(path.as_str()),
        None => String::from_str("/dev/video0"),
    };
    if has_prefix(requested.as_str(), "/dev/video") && device_is_listed(
        devices,
        requested.as_str(),
    ) {
        Some(requested)
    } else {
        first_existing_scanned(devices)
    }
}

/// The camera input of the session, or `None` where the camera is left out:
/// it is not included, no device node is found, or the one found cannot be
/// opened.
pub fn resolve_webcam(options: &RecorderOptions, host: &HostDevices) -> (r: Option<String>)
    ensures
        opt_text(r) == resolved_webcam(options@, host@),
{
    if !options.include_webcam {
        return None;
    }
    match webcam_candidate_path(&options.webcam_device, &host.video_devices) {
        Some(path) => {
            if device_is_accessible(&host.video_devices, path.as_str()) {
                Some(path)
            } else {
                None
            }
        },
        None => None,
    }
}

fn webcam_input(source: &Option<String>) -> (args: Vec<String>)
    ensures
        args.deep_view() == webcam_input_args(opt_text(*source)),
{
    let mut args = no_args();
    match source {
        Some(path) => {
            push_arg(&mut args, "-thread_queue_size");
            push_arg(&mut args, "512");
            push_arg(&mut args, "-f");
            push_arg(&mut args, "v4l2");
            push_arg(&mut args, "-framerate");
            push_arg(&mut args, "30");
            push_arg(&mut args, "-i");
            push_arg(&mut args, path.as_str());
        },
        None => {},
    }
    args
}

/// The input index of the audio input.
pub fn audio_index(include_video: bool) -> (index: u64)
    ensures
        index == audio_input_index(include_video),
{
    if include_video {
        1
    } else {
        0
    }
}

/// The input index of the camera: the number of inputs that stand before it.
pub fn webcam_index(include_video: bool, include_audio: bool) -> (index: u64)
    ensures
        index == webcam_input_index(include_video, include_audio),
        index == (if include_video { 1nat } else { 0nat }) + (if include_audio { 1nat } else { 0nat }),
{
    let mut index: u64 = 0;
    if include_video {
        index += 1;
    }
    if include_audio {
        index += 1;
    }
    index
}

/// The camera follows the inputs that are included before it: its index is 0
/// with neither display nor audio, 1 with one of them, and 2 with both.
pub proof fn webcam_index_counts_earlier_inputs(include_video: bool, include_audio: bool)
    ensures
        !include_video && !include_audio ==> webcam_input_index(include_video, include_audio) == 0,
        include_video != include_audio ==> webcam_input_index(include_video, include_audio) == 1,
        include_video && include_audio ==> webcam_input_index(include_video, include_audio) == 2,
        include_audio ==> webcam_input_index(include_video, include_audio) == audio_input_index(
            include_video,
        ) + 1,
{
}

fn video_filters(options: &RecorderOptions, webcam_on: bool) -> (args: Vec<String>)
    ensures
        args.deep_view() == filter_args(options@, webcam_on),
{
    let mut args = no_args();
    if !options.include_video && !webcam_on {
        return args;
    }
    if options.include_video && webcam_on {
        let index = decimal_string(webcam_index(options.include_video, options.include_audio));
        let graph = concat3(
            "[",
            index.as_str(),
            ":v]scale=640:-1[cam_scaled];[0:v][cam_scaled]overlay=W-w-40:H-h-40[overlayed];[overlayed]scale=trunc(iw/2)*2:trunc(ih/2)*2[vout]",
        );
        push_arg(&mut args, "-filter_complex");
        push_arg(&mut args, graph.as_str());
    } else {
        push_arg(&mut args, "-vf");
        push_arg(&mut args, "scale=trunc(iw/2)*2:trunc(ih/2)*2");
    }
    args
}

fn video_stream(options: &RecorderOptions, webcam_on: bool) -> (r: Option<String>)
    ensures
        opt_text(r) == video_map_text(options@, webcam_on),
{
    if options.include_video {
        if webcam_on {
            Some(String::from_str("[vout]"))
        } else {
            Some(String::from_str("0:v"))
        }
    } else if webcam_on {
        let index = decimal_string(webcam_index(options.include_video, options.include_audio));
        Some(concat2(index.as_str(), ":v"))
    } else {
        None
    }
}

fn audio_stream(options: &RecorderOptions) -> (r: String)
    ensures
        r@ == audio_map_text(options@),
{
    let index = decimal_string(audio_index(options.include_video));
    concat2(index.as_str(), ":a")
}

fn gain_filter(options: &RecorderOptions) -> (args: Vec<String>)
    ensures
        args.deep_view() == gain_args(options@),
{
    let mut args = no_args();
    if !options.include_audio {
        return args;
    }
    match &options.audio_volume {
        Some(factor) => {
            let filter = concat2("volume=", factor.as_str());
            push_arg(&mut args, "-filter:a");
            push_arg(&mut args, filter.as_str());
        },
        None => {},
    }
    args
}

/// The files of a session named after the given timestamp.
pub fn output_paths_for(options: &RecorderOptions, any_video: bool, stamp: &str) -> (outputs:
    RecordingOutputs)
    ensures
        outputs@ == output_paths(options@, any_video, stamp@),
{
    if !any_video && !options.include_audio {
        return RecordingOutputs { combined: None, video_only: None, audio_only: None };
    }
    let dir = options.output_directory.as_str();
    if options.separate_outputs && options.include_audio && any_video {
        let video_name = concat3("recording_", stamp, ".video.mkv");
        let audio_name = concat3("recording_", stamp, ".audio.flac");
        RecordingOutputs {
            combined: None,
            video_only: Some(join_path(dir, video_name.as_str())),
            audio_only: Some(join_path(dir, audio_name.as_str())),
        }
    } else {
        let name = if any_video {
            concat3("recording_", stamp, ".mkv")
        } else {
            concat3("recording_", stamp, ".flac")
        };
        RecordingOutputs {
            combined: Some(join_path(dir, name.as_str())),
            video_only: None,
            audio_only: None,
        }
    }
}

/// The number of files follows from the three flags alone: none without a
/// source, two where audio and video are both present and the outputs are
/// split, one in every other case.
pub proof fn output_count_follows_the_flags(o: RecorderOptionsView, any_video: bool, stamp: Seq<char>)
    ensures
        !o.include_audio && !any_video ==> output_count(output_paths(o, any_video, stamp)) == 0,
        o.separate_outputs && o.include_audio && any_video ==> {
            &&& output_count(output_paths(o, any_video, stamp)) == 2
            &&& output_paths(o, any_video, stamp).combined is None
            &&& output_paths(o, any_video, stamp).video_only is Some
            &&& output_paths(o, any_video, stamp).audio_only is Some
        },
        (o.include_audio || any_video) && !(o.separate_outputs && o.include_audio && any_video) ==> {
            &&& output_count(output_paths(o, any_video, stamp)) == 1
            &&& output_paths(o, any_video, stamp).combined is Some
            &&& output_paths(o, any_video, stamp).video_only is None
            &&& output_paths(o, any_video, stamp).audio_only is None
        },
{
}

/// The pattern of the timestamp in a file name: year, month, day, an
/// underscore, hour, minute, second.
pub open spec fn timestamp_pattern() -> Seq<char> {
    "%Y%m%d_%H%M%S"@
}

/// Calls `chrono::Local::now` and renders the moment with `DateTime::format`
/// in the given pattern. The answer depends on the clock and the time zone
/// of the host, so nothing is claimed of it. A pattern that chrono does not
/// know would panic, so only the pattern of the file names is let in; chrono
/// also panics where the clock of the host stands before the year 1970.
#[verifier::external_body]
pub(crate) fn local_timestamp(pattern: &str) -> (stamp: String)
    requires
        pattern@ == timestamp_pattern(),
{
    chrono::Local::now().format(pattern).to_string()
}

/// The files of a session that starts now: they are named after the local
/// time.
pub fn prepare_output_paths_effective(options: &RecorderOptions, any_video: bool) -> (outputs:
    RecordingOutputs)
    ensures
        exists|stamp: Seq<char>| outputs@ == output_paths(options@, any_video, stamp),
{
    let stamp = local_timestamp("%Y%m%d_%H%M%S");
    output_paths_for(options, any_video, stamp.as_str())
}

fn video_codec(options: &RecorderOptions, stream: &str) -> (args: Vec<String>)
    ensures
        args.deep_view() == video_codec_args(options@, stream@),
{
    let crf = decimal_string(crf_for_quality(options.video_quality) as u64);
    let kbps = decimal_string(options.video_bitrate_kbps as u64);
    let rate = concat2(kbps.as_str(), "k");
    let mut args = no_args();
    push_arg(&mut args, "-map");
    push_arg(&mut args, stream);
    push_arg(&mut args, "-c:v");
    push_arg(&mut args, "libx264");
    push_arg(&mut args, "-preset");
    push_arg(&mut args, preset_for_quality(options.video_quality));
    push_arg(&mut args, "-crf");
    push_arg(&mut args, crf.as_str());
    push_arg(&mut args, "-pix_fmt");
    push_arg(&mut args, "yuv420p");
    push_arg(&mut args, "-b:v");
    push_arg(&mut args, rate.as_str());
    args
}

fn flac_codec(options: &RecorderOptions) -> (args: Vec<String>)
    ensures
        args.deep_view() == flac_codec_args(options@),
{
    let stream = audio_stream(options);
    let rate = decimal_string(options.audio_sample_rate as u64);
    let mut args = no_args();
    push_arg(&mut args, "-map");
    push_arg(&mut args, stream.as_str());
    push_arg(&mut args, "-c:a");
    push_arg(&mut args, "flac");
    push_arg(&mut args, "-ar");
    push_arg(&mut args, rate.as_str());
    args
}

fn aac_codec(options: &RecorderOptions) -> (args: Vec<String>)
    ensures
        args.deep_view() == aac_codec_args(options@),
{
    let stream = audio_stream(options);
    let kbps = decimal_string(options.audio_bitrate_kbps as u64);
    let bitrate = concat2(kbps.as_str(), "k");
    let rate = decimal_string(options.audio_sample_rate as u64);
    let mut args = no_args();
    push_arg(&mut args, "-map");
    push_arg(&mut args, stream.as_str());
    push_arg(&mut args, "-c:a");
    push_arg(&mut args, "aac");
    push_arg(&mut args, "-b:a");
    push_arg(&mut args, bitrate.as_str());
    push_arg(&mut args, "-ar");
    push_arg(&mut args, rate.as_str());
    args
}

fn text_or_empty(path: &Option<String>) -> (text: String)
    ensures
        text@ == path_or_empty(opt_text(*path)),
{
    match path {
        Some(p) => String::from_str(p.as_str()),
        None => String::new(),
    }
}

fn output_section(options: &RecorderOptions, webcam_on: bool, outputs: &RecordingOutputs, stamp: &str) -> (args:
    Vec<String>)
    requires
        outputs@ == output_paths(options@, options.include_video || webcam_on, stamp@),
    ensures
        args.deep_view() == output_args(options@, webcam_on, stamp@),
{
    let any_video = options.include_video || webcam_on;
    let stream = text_or_empty(&video_stream(options, webcam_on));
    if options.separate_outputs && options.include_audio && any_video {
        let mut args = video_codec(options, stream.as_str());
        push_arg(&mut args, text_or_empty(&outputs.video_only).as_str());
        let mut audio = flac_codec(options);
        push_arg(&mut audio, text_or_empty(&outputs.audio_only).as_str());
        append_args(&mut args, audio);
        args
    } else {
        let mut args = if any_video {
            video_codec(options, stream.as_str())
        } else {
            no_args()
        };
        let audio = if !options.include_audio {
            no_args()
        } else if any_video {
            aac_codec(options)
        } else {
            flac_codec(options)
        };
        append_args(&mut args, audio);
        push_arg(&mut args, text_or_empty(&outputs.combined).as_str());
        args
    }
}

fn global_flags() -> (args: Vec<String>)
    ensures
        args.deep_view() == global_args(),
{
    let mut args = no_args();
    push_arg(&mut args, "-y");
    push_arg(&mut args, "-hide_banner");
    push_arg(&mut args, "-loglevel");
    push_arg(&mut args, "warning");
    push_arg(&mut args, "-stats");
    push_arg(&mut args, "-threads");
    push_arg(&mut args, "0");
    args
}

/// Builds the plan of a session from its options, the environment, the probed
/// backends, the devices of the host and the timestamp that names the files.
/// The plan is a function of these inputs alone. No plan is made where no
/// source is selected, where the display is grabbed directly and cannot be
/// resolved, or where the camera was the only source and cannot be used.
pub fn build_ffmpeg(
    options: &RecorderOptions,
    env: &CaptureEnvironment,
    probe: BackendProbeResult,
    host: &HostDevices,
    stamp: &str,
) -> (r: Result<CommandPlan, RecorderError>)
    ensures
        match r {
            Ok(plan) => {
                &&& plan_error(options@, env@, host@) is None
                &&& plan@ == command_plan(options@, env@, probe, host@, stamp@)
            },
            Err(e) => plan_error(options@, env@, host@) == Some(e),
        },
{
    if !options.include_audio && !options.include_video && !options.include_webcam {
        return Err(RecorderError::Configuration);
    }
    let mut args = global_flags();
    let video = match video_input(options, env, host) {
        Ok(video) => video,
        Err(e) => {
            return Err(e);
        },
    };
    append_args(&mut args, video);
    append_args(&mut args, audio_input(options, env, probe));
    let webcam = resolve_webcam(options, host);
    let webcam_on = webcam.is_some();
    if !options.include_video && !options.include_audio && !webcam_on {
        return Err(RecorderError::DeviceUnavailable(DeviceFault::CameraNotAccessible));
    }
    append_args(&mut args, webcam_input(&webcam));
    append_args(&mut args, video_filters(options, webcam_on));
    append_args(&mut args, gain_filter(options));
    let mut tail = no_args();
    push_arg(&mut tail, "-shortest");
    append_args(&mut args, tail);
    let outputs = output_paths_for(options, options.include_video || webcam_on, stamp);
    append_args(&mut args, output_section(options, webcam_on, &outputs, stamp));
    Ok(CommandPlan { program: String::from_str(options.ffmpeg_path.as_str()), args, outputs })
}

/// Builds the plan of a session that starts now: the files are named after
/// the local time, and everything else follows from the inputs as in
/// [`build_ffmpeg`].
pub fn plan_recording(
    options: &RecorderOptions,
    env: &CaptureEnvironment,
    probe: BackendProbeResult,
    host: &HostDevices,
) -> (r: Result<CommandPlan, RecorderError>)
    ensures
        match r {
            Ok(plan) => {
                &&& plan_error(options@, env@, host@) is None
                &&& exists|stamp: Seq<char>|
                    plan@ == command_plan(options@, env@, probe, host@, stamp)
            },
            Err(e) => plan_error(options@, env@, host@) == Some(e),
        },
{
    let stamp = local_timestamp("%Y%m%d_%H%M%S");
    build_ffmpeg(options, env, probe, host, stamp.as_str())
}

/// Equal inputs give equal plans, and equal refusals.
pub proof fn plan_is_a_function_of_its_inputs(
    first: RecorderOptions,
    second: RecorderOptions,
    first_env: CaptureEnvironment,
    second_env: CaptureEnvironment,
    probe: BackendProbeResult,
    first_host: HostDevices,
    second_host: HostDevices,
    stamp: Seq<char>,
)
    requires
        first@ == second@,
        first_env@ == second_env@,
        first_host@ == second_host@,
    ensures
        plan_error(first@, first_env@, first_host@) == plan_error(
            second@,
            second_env@,
            second_host@,
        ),
        command_plan(first@, first_env@, probe, first_host@, stamp) == command_plan(
            second@,
            second_env@,
            probe,
            second_host@,
            stamp,
        ),
{
}

/// A camera that cannot be resolved changes nothing: the plan is that of the
/// same options with the camera left out.
pub proof fn unresolved_webcam_is_left_out(
    o: RecorderOptionsView,
    env: CaptureEnvironmentView,
    probe: BackendProbeResult,
    host: HostDevicesView,
    stamp: Seq<char>,
)
    requires
        o.include_webcam,
        resolved_webcam(o, host) is None,
    ensures
        command_plan(o, env, probe, host, stamp) == command_plan(
            RecorderOptionsView { include_webcam: false, ..o },
            env,
            probe,
            host,
            stamp,
        ),
{
}

} // verus!
