use discord_recorder::command::{
    audio_index, build_ffmpeg, determine_screen_input, device_is_accessible, device_is_listed,
    first_existing_scanned, output_paths_for, pipewire_flag_set, plan_recording, portal_selected,
    prepare_output_paths_effective, pulse_selected, resolve_webcam, scanned_path,
    webcam_candidate_path, webcam_index, webcam_paths_of_interest,
};
use discord_recorder::config::VideoQuality;
use discord_recorder::error::{DeviceFault, RecorderError};
use discord_recorder::video::{
    BackendProbeResult, CaptureEnvironment, CommandPlan, HostDevices, RecorderOptions, ScreenSize,
    VideoDevice,
};

const STAMP: &str = "20240102_030405";
const EVEN_SCALE: &str = "scale=trunc(iw/2)*2:trunc(ih/2)*2";

fn options(audio: bool, video: bool, webcam: bool, separate: bool) -> RecorderOptions {
    RecorderOptions {
        output_directory: "/tmp/rec".to_string(),
        video_quality: VideoQuality::High,
        video_bitrate_kbps: 5000,
        audio_bitrate_kbps: 256,
        audio_sample_rate: 48000,
        frame_rate: 60,
        include_audio: audio,
        include_video: video,
        include_webcam: webcam,
        separate_outputs: separate,
        selected_screen: None,
        audio_device: None,
        webcam_device: None,
        ffmpeg_path: "ffmpeg".to_string(),
        audio_volume: None,
    }
}

fn x11_env() -> CaptureEnvironment {
    CaptureEnvironment {
        wayland_display: false,
        display: Some(":0".to_string()),
        use_pipewire: None,
        audio_backend: None,
        audio_host: None,
    }
}

fn probe(pulse: bool) -> BackendProbeResult {
    BackendProbeResult { pipewire_supported: false, pulse_supported: pulse }
}

fn host_with(devices: Vec<(&str, bool)>) -> HostDevices {
    HostDevices {
        screens: Some(vec![ScreenSize { width: 1920, height: 1080 }]),
        video_devices: devices
            .into_iter()
            .map(|(path, accessible)| VideoDevice { path: path.to_string(), accessible })
            .collect(),
    }
}

fn words(text: &str) -> Vec<String> {
    text.split(' ').map(|w| w.to_string()).collect()
}

fn plan_of(o: &RecorderOptions, host: &HostDevices) -> CommandPlan {
    build_ffmpeg(o, &x11_env(), probe(true), host, STAMP).unwrap()
}

fn position(args: &[String], word: &str) -> Option<usize> {
    args.iter().position(|a| a == word)
}

const GLOBAL: &str = "-y -hide_banner -loglevel warning -stats -threads 0";
const GRAB: &str = "-thread_queue_size 2048 -f x11grab -framerate 60 -probesize 50M -fflags +nobuffer -use_wallclock_as_timestamps 1 -video_size 1920x1080 -i :0+0,0";
const PULSE: &str = "-thread_queue_size 2048 -f pulse -ac 2 -ar 48000 -i default";
const VIDEO_CODEC: &str = "-c:v libx264 -preset veryfast -crf 20 -pix_fmt yuv420p -b:v 5000k";

#[test]
fn scenario_video_and_audio_combined() {
    let plan = plan_of(&options(true, true, false, false), &host_with(vec![]));
    let expected = format!(
        "{GLOBAL} {GRAB} {PULSE} -vf {EVEN_SCALE} -shortest -map 0:v {VIDEO_CODEC} -map 1:a -c:a aac -b:a 256k -ar 48000 /tmp/rec/recording_20240102_030405.mkv"
    );
    assert_eq!(plan.args, words(&expected));
    assert_eq!(plan.program, "ffmpeg");
    assert_eq!(plan.outputs.combined.as_deref(), Some("/tmp/rec/recording_20240102_030405.mkv"));
    assert_eq!(plan.outputs.video_only, None);
    assert_eq!(plan.outputs.audio_only, None);
    assert_eq!(plan.outputs.count(), 1);
    let crf = position(&plan.args, "-crf").unwrap();
    assert_eq!(plan.args[crf + 1], "20");
    let codec = position(&plan.args, "-c:a").unwrap();
    assert_eq!(plan.args[codec + 1], "aac");
}

#[test]
fn scenario_audio_only() {
    let plan = plan_of(&options(true, false, false, false), &host_with(vec![]));
    let expected = format!(
        "{GLOBAL} {PULSE} -shortest -map 0:a -c:a flac -ar 48000 /tmp/rec/recording_20240102_030405.flac"
    );
    assert_eq!(plan.args, words(&expected));
    assert_eq!(plan.outputs.combined.as_deref(), Some("/tmp/rec/recording_20240102_030405.flac"));
    assert_eq!(plan.outputs.count(), 1);
    assert_eq!(position(&plan.args, "-c:v"), None);
    assert_eq!(position(&plan.args, "-vf"), None);
}

#[test]
fn scenario_missing_webcam_is_left_out() {
    let mut with_webcam = options(true, true, true, false);
    with_webcam.webcam_device = Some("/dev/video7".to_string());
    let without = options(true, true, false, false);
    let host = host_with(vec![]);
    let a = plan_of(&with_webcam, &host);
    let b = plan_of(&without, &host);
    assert_eq!(a.args, b.args);
    assert_eq!(a.program, b.program);
    assert_eq!(a.outputs.combined, b.outputs.combined);
    assert_eq!(a.outputs.video_only, b.outputs.video_only);
    assert_eq!(a.outputs.audio_only, b.outputs.audio_only);
    assert_eq!(position(&a.args, "v4l2"), None);
    assert_eq!(position(&a.args, "-filter_complex"), None);
}

#[test]
fn inaccessible_webcam_is_left_out() {
    let mut with_webcam = options(true, true, true, false);
    with_webcam.webcam_device = Some("/dev/video1".to_string());
    let host = host_with(vec![("/dev/video1", false)]);
    let a = plan_of(&with_webcam, &host);
    let b = plan_of(&options(true, true, false, false), &host);
    assert_eq!(a.args, b.args);
}

#[test]
fn no_source_is_a_configuration_error() {
    let r = build_ffmpeg(&options(false, false, false, false), &x11_env(), probe(true), &host_with(vec![]), STAMP);
    assert_eq!(r.err(), Some(RecorderError::Configuration));
    let r = build_ffmpeg(&options(false, false, false, true), &x11_env(), probe(false), &host_with(vec![("/dev/video0", true)]), STAMP);
    assert_eq!(r.err(), Some(RecorderError::Configuration));
    let r = plan_recording(&options(false, false, false, false), &x11_env(), probe(true), &host_with(vec![]));
    assert_eq!(r.err(), Some(RecorderError::Configuration));
}

#[test]
fn webcam_alone_that_cannot_be_used_is_refused() {
    let r = build_ffmpeg(&options(false, false, true, false), &x11_env(), probe(true), &host_with(vec![]), STAMP);
    assert_eq!(r.err(), Some(RecorderError::DeviceUnavailable(DeviceFault::CameraNotAccessible)));
    let r = build_ffmpeg(&options(false, false, true, false), &x11_env(), probe(true), &host_with(vec![("/dev/video0", false)]), STAMP);
    assert_eq!(r.err(), Some(RecorderError::DeviceUnavailable(DeviceFault::CameraNotAccessible)));
}

#[test]
fn screen_faults() {
    let o = options(false, true, false, false);
    let mut host = host_with(vec![]);
    host.screens = None;
    let r = build_ffmpeg(&o, &x11_env(), probe(true), &host, STAMP);
    assert_eq!(r.err(), Some(RecorderError::DeviceUnavailable(DeviceFault::ScreenEnumeration)));
    host.screens = Some(vec![]);
    let r = build_ffmpeg(&o, &x11_env(), probe(true), &host, STAMP);
    assert_eq!(r.err(), Some(RecorderError::DeviceUnavailable(DeviceFault::NoScreens)));
    let mut chosen = options(false, true, false, false);
    chosen.selected_screen = Some(1);
    let r = build_ffmpeg(&chosen, &x11_env(), probe(true), &host_with(vec![]), STAMP);
    assert_eq!(r.err(), Some(RecorderError::DeviceUnavailable(DeviceFault::InvalidScreenIndex)));
}

#[test]
fn the_plan_is_a_function_of_its_inputs() {
    let mut o = options(true, true, true, true);
    o.audio_volume = Some("1.995".to_string());
    let host = host_with(vec![("/dev/video0", true)]);
    let a = plan_of(&o, &host);
    let b = plan_of(&o.clone(), &host.clone());
    assert_eq!(a.args, b.args);
    assert_eq!(a.program, b.program);
    assert_eq!(a.outputs.combined, b.outputs.combined);
    assert_eq!(a.outputs.video_only, b.outputs.video_only);
    assert_eq!(a.outputs.audio_only, b.outputs.audio_only);
}

#[test]
fn output_files_for_all_flag_combinations() {
    for separate in [false, true] {
        for audio in [false, true] {
            for any_video in [false, true] {
                let o = options(audio, any_video, false, separate);
                let out = output_paths_for(&o, any_video, STAMP);
                let base = "/tmp/rec/recording_20240102_030405";
                if !audio && !any_video {
                    assert_eq!(out.count(), 0);
                    assert_eq!(out.combined, None);
                    assert_eq!(out.video_only, None);
                    assert_eq!(out.audio_only, None);
                } else if separate && audio && any_video {
                    assert_eq!(out.count(), 2);
                    assert_eq!(out.combined, None);
                    assert_eq!(out.video_only, Some(format!("{base}.video.mkv")));
                    assert_eq!(out.audio_only, Some(format!("{base}.audio.flac")));
                } else if any_video {
                    assert_eq!(out.count(), 1);
                    assert_eq!(out.combined, Some(format!("{base}.mkv")));
                    assert_eq!(out.video_only, None);
                    assert_eq!(out.audio_only, None);
                } else {
                    assert_eq!(out.count(), 1);
                    assert_eq!(out.combined, Some(format!("{base}.flac")));
                    assert_eq!(out.video_only, None);
                    assert_eq!(out.audio_only, None);
                }
            }
        }
    }
}

#[test]
fn separate_outputs_map_each_stream_to_its_file() {
    let plan = plan_of(&options(true, true, false, true), &host_with(vec![]));
    let expected = format!(
        "{GLOBAL} {GRAB} {PULSE} -vf {EVEN_SCALE} -shortest -map 0:v {VIDEO_CODEC} /tmp/rec/recording_20240102_030405.video.mkv -map 1:a -c:a flac -ar 48000 /tmp/rec/recording_20240102_030405.audio.flac"
    );
    assert_eq!(plan.args, words(&expected));
    assert_eq!(plan.outputs.count(), 2);
}

#[test]
fn webcam_index_for_all_combinations() {
    assert_eq!(webcam_index(false, false), 0);
    assert_eq!(webcam_index(true, false), 1);
    assert_eq!(webcam_index(false, true), 1);
    assert_eq!(webcam_index(true, true), 2);
    assert_eq!(audio_index(false), 0);
    assert_eq!(audio_index(true), 1);
    let host = host_with(vec![("/dev/video0", true)]);
    let cam = "-thread_queue_size 512 -f v4l2 -framerate 30 -i /dev/video0";
    let graph = |i: u32| {
        format!(
            "[{i}:v]scale=640:-1[cam_scaled];[0:v][cam_scaled]overlay=W-w-40:H-h-40[overlayed];[overlayed]scale=trunc(iw/2)*2:trunc(ih/2)*2[vout]"
        )
    };

    let plan = plan_of(&options(true, true, true, false), &host);
    let expected = format!(
        "{GLOBAL} {GRAB} {PULSE} {cam} -filter_complex {} -shortest -map [vout] {VIDEO_CODEC} -map 1:a -c:a aac -b:a 256k -ar 48000 /tmp/rec/recording_20240102_030405.mkv",
        graph(2)
    );
    assert_eq!(plan.args, words(&expected));

    let plan = plan_of(&options(false, true, true, false), &host);
    let expected = format!(
        "{GLOBAL} {GRAB} {cam} -filter_complex {} -shortest -map [vout] {VIDEO_CODEC} /tmp/rec/recording_20240102_030405.mkv",
        graph(1)
    );
    assert_eq!(plan.args, words(&expected));

    let plan = plan_of(&options(true, false, true, false), &host);
    let expected = format!(
        "{GLOBAL} {PULSE} {cam} -vf {EVEN_SCALE} -shortest -map 1:v {VIDEO_CODEC} -map 0:a -c:a aac -b:a 256k -ar 48000 /tmp/rec/recording_20240102_030405.mkv"
    );
    assert_eq!(plan.args, words(&expected));

    let plan = plan_of(&options(false, false, true, false), &host);
    let expected = format!(
        "{GLOBAL} {cam} -vf {EVEN_SCALE} -shortest -map 0:v {VIDEO_CODEC} /tmp/rec/recording_20240102_030405.mkv"
    );
    assert_eq!(plan.args, words(&expected));
}

#[test]
fn gain_filter_for_representative_gains() {
    for db in [-30.0f32, -6.0, 0.0, 6.0, 12.0] {
        let linear = 10f32.powf(db / 20.0);
        let mut o = options(true, false, false, false);
        o.audio_volume = if db == 0.0 { None } else { Some(format!("{:.3}", linear)) };
        let plan = plan_of(&o, &host_with(vec![]));
        match position(&plan.args, "-filter:a") {
            None => assert_eq!(db, 0.0),
            Some(at) => {
                assert_ne!(db, 0.0);
                let text = plan.args[at + 1].strip_prefix("volume=").unwrap().to_string();
                let value: f32 = text.parse().unwrap();
                assert!((value - linear).abs() < 0.001);
                assert_eq!(plan.args[at + 2], "-shortest");
            }
        }
    }
    let mut o = options(true, false, false, false);
    o.audio_volume = Some("1.995".to_string());
    let plan = plan_of(&o, &host_with(vec![]));
    let expected = format!(
        "{GLOBAL} {PULSE} -filter:a volume=1.995 -shortest -map 0:a -c:a flac -ar 48000 /tmp/rec/recording_20240102_030405.flac"
    );
    assert_eq!(plan.args, words(&expected));
    let mut o = options(false, true, false, false);
    o.audio_volume = Some("0.501".to_string());
    let plan = plan_of(&o, &host_with(vec![]));
    assert_eq!(position(&plan.args, "-filter:a"), None);
}

#[test]
fn portal_backend_needs_all_three_conditions() {
    let mut env = CaptureEnvironment {
        wayland_display: true,
        display: None,
        use_pipewire: Some("1".to_string()),
        audio_backend: None,
        audio_host: None,
    };
    assert!(portal_selected(&env));
    let mut host = host_with(vec![]);
    host.screens = None;
    let plan = build_ffmpeg(&options(false, true, false, false), &env, probe(false), &host, STAMP).unwrap();
    let expected = format!(
        "{GLOBAL} -thread_queue_size 2048 -f pipewire -i 0 -vf {EVEN_SCALE} -shortest -map 0:v {VIDEO_CODEC} /tmp/rec/recording_20240102_030405.mkv"
    );
    assert_eq!(plan.args, words(&expected));
    env.display = Some(":1".to_string());
    assert!(!portal_selected(&env));
    env.display = None;
    env.use_pipewire = Some("yes".to_string());
    assert!(!portal_selected(&env));
    env.use_pipewire = Some("TRUE".to_string());
    assert!(portal_selected(&env));
    env.wayland_display = false;
    assert!(!portal_selected(&env));
    assert!(pipewire_flag_set(&Some("true".to_string())));
    assert!(!pipewire_flag_set(&Some("True".to_string())));
    assert!(!pipewire_flag_set(&None));
}

#[test]
fn audio_backend_and_device() {
    let mut env = x11_env();
    assert!(pulse_selected(&env, probe(true)));
    assert!(!pulse_selected(&env, probe(false)));
    env.audio_backend = Some("PULSE".to_string());
    assert!(pulse_selected(&env, probe(false)));
    env.audio_backend = Some("alsa".to_string());
    assert!(!pulse_selected(&env, probe(true)));
    env.audio_backend = Some("jack".to_string());
    assert!(!pulse_selected(&env, probe(true)));

    let mut o = options(true, false, false, false);
    o.audio_device = Some("alsa_input.usb".to_string());
    let plan = build_ffmpeg(&o, &x11_env(), probe(true), &host_with(vec![]), STAMP).unwrap();
    let at = position(&plan.args, "pulse").unwrap();
    assert_eq!(plan.args[at + 5..at + 7], ["-i".to_string(), "alsa_input.usb".to_string()]);
    let plan = build_ffmpeg(&o, &x11_env(), probe(false), &host_with(vec![]), STAMP).unwrap();
    let at = position(&plan.args, "alsa").unwrap();
    assert_eq!(plan.args[at + 5..at + 7], ["-i".to_string(), "default".to_string()]);
    o.audio_device = Some("default".to_string());
    let plan = build_ffmpeg(&o, &x11_env(), probe(true), &host_with(vec![]), STAMP).unwrap();
    let at = position(&plan.args, "pulse").unwrap();
    assert_eq!(plan.args[at + 6], "default");
}

#[test]
fn screen_input_is_rendered() {
    let screens = Some(vec![ScreenSize { width: 1280, height: 720 }, ScreenSize { width: 2560, height: 1440 }]);
    let input = determine_screen_input(&None, &screens, Some(1)).unwrap();
    assert_eq!(input.display_input, ":0.0+0,0");
    assert_eq!(input.video_size, "2560x1440");
    let input = determine_screen_input(&Some(":1".to_string()), &screens, None).unwrap();
    assert_eq!(input.display_input, ":1+0,0");
    assert_eq!(input.video_size, "1280x720");
    assert_eq!(
        determine_screen_input(&None, &screens, Some(2)).err(),
        Some(RecorderError::DeviceUnavailable(DeviceFault::InvalidScreenIndex))
    );
}

#[test]
fn webcam_resolution_falls_back_to_the_scan() {
    let host = host_with(vec![("/dev/video3", true), ("/dev/video5", true), ("/dev/video12", true), ("/tmp/cam", true)]);
    assert!(device_is_listed(&host.video_devices, "/dev/video3"));
    assert!(!device_is_listed(&host.video_devices, "/dev/video0"));
    assert!(device_is_accessible(&host.video_devices, "/dev/video5"));
    assert_eq!(scanned_path(7), "/dev/video7");
    assert_eq!(first_existing_scanned(&host.video_devices), Some("/dev/video3".to_string()));
    assert_eq!(webcam_candidate_path(&None, &host.video_devices), Some("/dev/video3".to_string()));
    assert_eq!(
        webcam_candidate_path(&Some("/dev/video12".to_string()), &host.video_devices),
        Some("/dev/video12".to_string())
    );
    assert_eq!(
        webcam_candidate_path(&Some("/tmp/cam".to_string()), &host.video_devices),
        Some("/dev/video3".to_string())
    );
    assert_eq!(
        webcam_candidate_path(&Some("/dev/video5".to_string()), &host.video_devices),
        Some("/dev/video5".to_string())
    );
    let only_far = host_with(vec![("/dev/video12", true)]);
    assert_eq!(first_existing_scanned(&only_far.video_devices), None);
    let mut o = options(false, false, true, false);
    assert_eq!(resolve_webcam(&o, &host), Some("/dev/video3".to_string()));
    o.include_webcam = false;
    assert_eq!(resolve_webcam(&o, &host), None);
    o.include_webcam = true;
    let closed = host_with(vec![("/dev/video0", false), ("/dev/video1", true)]);
    assert_eq!(resolve_webcam(&o, &closed), None);
}

#[test]
fn device_paths_to_look_up() {
    let scanned: Vec<String> = (0..10).map(|i| format!("/dev/video{i}")).collect();
    assert_eq!(webcam_paths_of_interest(&None), scanned);
    let mut with_requested = vec!["/dev/video12".to_string()];
    with_requested.extend(scanned);
    assert_eq!(webcam_paths_of_interest(&Some("/dev/video12".to_string())), with_requested);
}

#[test]
fn files_are_named_after_the_local_time() {
    let o = options(true, true, false, false);
    let out = prepare_output_paths_effective(&o, true);
    let path = out.combined.unwrap();
    let name = path.strip_prefix("/tmp/rec/recording_").unwrap();
    let stamp = name.strip_suffix(".mkv").unwrap();
    assert_eq!(stamp.len(), 15);
    for (i, c) in stamp.chars().enumerate() {
        if i == 8 {
            assert_eq!(c, '_');
        } else {
            assert!(c.is_ascii_digit());
        }
    }
    let plan = plan_recording(&o, &x11_env(), probe(true), &host_with(vec![])).unwrap();
    assert_eq!(plan.args.last(), plan.outputs.combined.as_ref());
    assert!(plan.outputs.combined.unwrap().starts_with("/tmp/rec/recording_"));
}
