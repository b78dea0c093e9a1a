use discord_recorder::audio::{pick_best_input_host, AudioHost, AudioProcessor, HostChoice};
use discord_recorder::devices::{
    find_audio_device, find_camera_index, get_available_devices, get_available_screens,
    get_available_webcams, resolve_device,
};
use discord_recorder::error::{DeviceFault, RecorderError};
use discord_recorder::session::{
    monitor_device_name, previews_after_failed_start, previews_after_recording,
    previews_before_recording, recorder_options, screen_preview_change, webcam_preview_change,
    PreviewChange,
};
use discord_recorder::config::{settings_path_below, Config, VideoQuality};
use discord_recorder::text::{
    chars_of, concat2, concat3, copy_text, decimal_string, has_prefix, has_substring, join_path, same_text,
    same_text_ignoring_ascii_case,
};
use discord_recorder::video::ScreenSize;

fn names(list: &[&str]) -> Vec<String> {
    list.iter().map(|n| n.to_string()).collect()
}

#[test]
fn device_resolution_has_three_tiers() {
    let cams = names(&["HD Webcam C920", "C920", "Integrated Camera"]);
    assert_eq!(resolve_device(&cams, "C920"), Some(1));
    assert_eq!(resolve_device(&cams, "Webcam"), Some(0));
    assert_eq!(resolve_device(&cams, "Camera"), Some(2));
    assert_eq!(resolve_device(&cams, "camera"), Some(0));
    assert_eq!(resolve_device(&cams, "Nothing"), Some(0));
    assert_eq!(resolve_device(&cams, ""), Some(0));
    assert_eq!(resolve_device(&names(&[]), "C920"), None);
    assert_eq!(find_camera_index(&cams, "Integrated"), Ok(2));
    assert_eq!(
        find_camera_index(&names(&[]), "Integrated"),
        Err(RecorderError::DeviceUnavailable(DeviceFault::NoCamera))
    );
    let inputs = names(&["default", "pulse", "hw:0,0"]);
    assert_eq!(find_audio_device(&inputs, "pulse"), Ok(1));
    assert_eq!(find_audio_device(&inputs, "hw"), Ok(2));
    assert_eq!(find_audio_device(&inputs, "jack"), Ok(0));
    assert_eq!(
        find_audio_device(&names(&[]), "default"),
        Err(RecorderError::DeviceUnavailable(DeviceFault::NoAudioInput))
    );
}

#[test]
fn device_lists_never_come_empty() {
    assert_eq!(get_available_webcams(vec![]), vec!["Default Webcam"]);
    assert_eq!(get_available_webcams(names(&["A", "B"])), vec!["A", "B"]);
    assert_eq!(get_available_devices(vec![]), vec!["default"]);
    assert_eq!(get_available_devices(vec![vec![], vec![]]), vec!["default"]);
    assert_eq!(
        get_available_devices(vec![vec![], names(&["mic", "line"]), names(&["other"])]),
        vec!["mic", "line"]
    );
    assert_eq!(get_available_screens(&vec![]), vec!["Primary Screen"]);
    assert_eq!(
        get_available_screens(&vec![
            ScreenSize { width: 1920, height: 1080 },
            ScreenSize { width: 1280, height: 1024 }
        ]),
        vec!["Screen 0 (1920x1080", "Screen 1 (1280x1024"]
    );
}

#[test]
fn audio_host_is_picked_alsa_first() {
    let alsa = |usable, has_input| AudioHost { is_alsa: true, usable, has_input };
    let other = |usable, has_input| AudioHost { is_alsa: false, usable, has_input };
    let force = Some("ALSA".to_string());
    assert_eq!(pick_best_input_host(&None, &vec![]), HostChoice::Default);
    assert_eq!(pick_best_input_host(&None, &vec![other(true, true), alsa(true, true)]), HostChoice::Listed(1));
    assert_eq!(pick_best_input_host(&None, &vec![other(true, true), alsa(true, false)]), HostChoice::Listed(0));
    assert_eq!(pick_best_input_host(&force, &vec![other(true, true), alsa(true, false)]), HostChoice::Listed(1));
    assert_eq!(pick_best_input_host(&force, &vec![other(true, true), alsa(false, true)]), HostChoice::Listed(0));
    assert_eq!(
        pick_best_input_host(&Some("jack".to_string()), &vec![other(true, false), other(true, true)]),
        HostChoice::Listed(1)
    );
    assert_eq!(pick_best_input_host(&None, &vec![other(false, true), alsa(true, false)]), HostChoice::Default);
}

#[test]
fn mono_length_counts_frames() {
    let stereo = AudioProcessor::new(48000, 2);
    assert_eq!(stereo.sample_rate, 48000);
    assert_eq!(stereo.channels, 2);
    assert_eq!(stereo.mono_len(0), Some(0));
    assert_eq!(stereo.mono_len(6), Some(3));
    assert_eq!(stereo.mono_len(7), Some(4));
    assert_eq!(AudioProcessor::new(44100, 1).mono_len(5), Some(5));
    assert_eq!(AudioProcessor::new(44100, 0).mono_len(5), None);
    assert_eq!(AudioProcessor::new(44100, 3).mono_len(usize::MAX), Some(usize::MAX / 3));
}

#[test]
fn text_helpers() {
    assert_eq!(decimal_string(0), "0");
    assert_eq!(decimal_string(7), "7");
    assert_eq!(decimal_string(10), "10");
    assert_eq!(decimal_string(48000), "48000");
    assert_eq!(decimal_string(u64::MAX), "18446744073709551615");
    assert_eq!(chars_of("añb"), vec!['a', 'ñ', 'b']);
    assert!(same_text("abc", "abc"));
    assert!(!same_text("abc", "abd"));
    assert!(!same_text("abc", "ab"));
    assert!(same_text_ignoring_ascii_case("PuLsE", "pulse"));
    assert!(!same_text_ignoring_ascii_case("pulse", "pulsé"));
    assert!(!same_text_ignoring_ascii_case("[", "{"));
    assert!(has_prefix("/dev/video0", "/dev/video"));
    assert!(!has_prefix("/dev/vide", "/dev/video"));
    assert!(has_prefix("abc", ""));
    assert!(has_substring("HD Webcam", "Web"));
    assert!(has_substring("HD Webcam", "cam"));
    assert!(has_substring("HD Webcam", ""));
    assert!(!has_substring("HD Webcam", "web"));
    assert!(!has_substring("cam", "camera"));
    assert_eq!(join_path("/home/ann", "Videos"), "/home/ann/Videos");
    assert_eq!(join_path("/home/ann/", "Videos"), "/home/ann/Videos");
    assert_eq!(join_path("", "Videos"), "Videos");
    assert_eq!(join_path("/home/ann", "/etc"), "/etc");
    assert_eq!(join_path("/", "etc"), "/etc");
    assert_eq!(copy_text(&Some("ab".to_string())), Some("ab".to_string()));
    assert_eq!(copy_text(&None), None);
    assert_eq!(concat2("ab", "cd"), "abcd");
    assert_eq!(concat3("ab", "cd", "ef"), "abcdef");
}

#[test]
fn options_follow_the_settings() {
    let mut config = Config::with_home(Some("/home/ann".to_string()));
    config.video_quality = VideoQuality::Ultra;
    config.record_webcam = true;
    config.separate_outputs = true;
    config.default_screen = Some(1);
    config.default_webcam = Some("/dev/video2".to_string());
    let options = recorder_options(&config, Some("0.501".to_string()));
    assert_eq!(options.output_directory, "/home/ann/Videos/discord-recordings");
    assert_eq!(options.video_quality, VideoQuality::Ultra);
    assert_eq!(options.video_bitrate_kbps, 10000);
    assert_eq!(options.audio_bitrate_kbps, 256);
    assert_eq!(options.audio_sample_rate, 48000);
    assert_eq!(options.frame_rate, 60);
    assert!(options.include_audio && options.include_video && options.include_webcam);
    assert!(options.separate_outputs);
    assert_eq!(options.selected_screen, Some(1));
    assert_eq!(options.audio_device, None);
    assert_eq!(options.webcam_device.as_deref(), Some("/dev/video2"));
    assert_eq!(options.ffmpeg_path, "ffmpeg");
    assert_eq!(options.audio_volume.as_deref(), Some("0.501"));
    assert_eq!(monitor_device_name(&None), "default");
    assert_eq!(monitor_device_name(&Some(String::new())), "default");
    assert_eq!(monitor_device_name(&Some("mic".to_string())), "mic");
}

#[test]
fn previews_follow_the_selection() {
    assert_eq!(screen_preview_change(true, 1, Some(1), true), PreviewChange::Keep);
    assert_eq!(screen_preview_change(true, 1, Some(0), true), PreviewChange::Restart);
    assert_eq!(screen_preview_change(true, 1, None, false), PreviewChange::Start);
    assert_eq!(screen_preview_change(false, 1, Some(1), true), PreviewChange::Stop);
    assert_eq!(screen_preview_change(false, 1, None, false), PreviewChange::Keep);
    let active = Some("C920".to_string());
    assert_eq!(webcam_preview_change(true, "C920", &active, true), PreviewChange::Keep);
    assert_eq!(webcam_preview_change(true, "Other", &active, true), PreviewChange::Restart);
    assert_eq!(webcam_preview_change(true, "Other", &None, false), PreviewChange::Start);
    assert_eq!(webcam_preview_change(false, "C920", &active, true), PreviewChange::Stop);
}

#[test]
fn camera_preview_stops_before_the_recording() {
    let plan = previews_before_recording(true, true, false, true);
    assert_eq!(plan.screen, PreviewChange::Start);
    assert_eq!(plan.webcam, PreviewChange::Stop);
    let plan = previews_before_recording(true, false, true, true);
    assert_eq!(plan.screen, PreviewChange::Keep);
    assert_eq!(plan.webcam, PreviewChange::Keep);
    let plan = previews_before_recording(false, true, false, false);
    assert_eq!(plan.screen, PreviewChange::Keep);
    assert_eq!(plan.webcam, PreviewChange::Keep);
    let undo = previews_after_failed_start(previews_before_recording(true, true, false, true));
    assert_eq!(undo.screen, PreviewChange::Stop);
    assert_eq!(undo.webcam, PreviewChange::Start);
    let undo = previews_after_failed_start(previews_before_recording(true, false, true, true));
    assert_eq!(undo.screen, PreviewChange::Keep);
    assert_eq!(undo.webcam, PreviewChange::Keep);
    let plan = previews_after_recording(true, true, Some(0));
    assert_eq!(plan.screen, PreviewChange::Start);
    assert_eq!(plan.webcam, PreviewChange::Start);
    let plan = previews_after_recording(true, false, None);
    assert_eq!(plan.screen, PreviewChange::Keep);
    assert_eq!(plan.webcam, PreviewChange::Keep);
}

#[test]
fn settings_path_lies_below_the_config_directory() {
    assert_eq!(settings_path_below(Some("/home/ann/.config".to_string())), "/home/ann/.config/discord-recorder/config.json");
    assert_eq!(settings_path_below(None), "discord-recorder/config.json");
    assert!(Config::get_config_path().ends_with("discord-recorder/config.json"));
}
