use discord_recorder::config::{
    crf_for_quality, get_video_bitrate, get_video_encoder_settings, preset_for_quality,
    AudioQuality, Config, VideoQuality,
};

#[test]
fn test_video_quality_settings() {
    let low_res = get_video_encoder_settings(VideoQuality::Low);
    assert_eq!(low_res, (1280, 720));
}

#[test]
fn test_config_creation() {
    let config = Config::default();
    assert!(!config.output_directory.is_empty());
}

#[test]
fn config_default_creates_output_dir() {
    let config = Config::default();
    assert!(!config.output_directory.is_empty());
}

#[test]
fn frame_sizes_of_all_tiers() {
    assert_eq!(get_video_encoder_settings(VideoQuality::Medium), (1920, 1080));
    assert_eq!(get_video_encoder_settings(VideoQuality::High), (2560, 1440));
    assert_eq!(get_video_encoder_settings(VideoQuality::Ultra), (3840, 2160));
}

#[test]
fn rate_factor_falls_and_bitrate_rises() {
    let tiers = [VideoQuality::Low, VideoQuality::Medium, VideoQuality::High, VideoQuality::Ultra];
    let factors: Vec<u8> = tiers.iter().map(|q| crf_for_quality(*q)).collect();
    assert_eq!(factors, vec![28, 23, 20, 18]);
    let bits: Vec<u32> = tiers.iter().map(|q| get_video_bitrate(*q)).collect();
    assert_eq!(bits, vec![1_000_000, 2_500_000, 5_000_000, 10_000_000]);
    for pair in factors.windows(2) {
        assert!(pair[0] > pair[1]);
    }
    for pair in bits.windows(2) {
        assert!(pair[0] < pair[1]);
    }
    for q in tiers {
        assert_eq!(preset_for_quality(q), "veryfast");
    }
}

#[test]
fn config_bitrates_and_sample_rates() {
    let mut config = Config::with_home(Some("/home/ann".to_string()));
    assert_eq!(config.output_directory, "/home/ann/Videos/discord-recordings");
    assert_eq!(config.get_video_bitrate(), 5000);
    assert_eq!(config.get_audio_sample_rate(), 48000);
    assert_eq!(config.get_audio_bitrate(), 256);
    config.video_quality = VideoQuality::Low;
    config.audio_quality = AudioQuality::Lossless;
    assert_eq!(config.get_video_bitrate(), 1000);
    assert_eq!(config.get_audio_sample_rate(), 96000);
    assert_eq!(config.get_audio_bitrate(), 320);
    config.audio_quality = AudioQuality::Low;
    assert_eq!(config.get_audio_sample_rate(), 22050);
    assert_eq!(config.get_audio_bitrate(), 64);
    config.audio_quality = AudioQuality::Medium;
    assert_eq!(config.get_audio_sample_rate(), 44100);
    assert_eq!(config.get_audio_bitrate(), 128);
    config.video_quality = VideoQuality::Medium;
    assert_eq!(config.get_video_bitrate(), 2500);
    config.video_quality = VideoQuality::Ultra;
    assert_eq!(config.get_video_bitrate(), 10000);
    config.set_output_directory("/tmp/out".to_string());
    assert_eq!(config.get_output_directory(), "/tmp/out");
}

#[test]
fn config_without_home_is_relative() {
    let config = Config::with_home(None);
    assert_eq!(config.output_directory, "Videos/discord-recordings");
    assert!(config.record_audio);
    assert!(config.record_video);
    assert!(!config.record_webcam);
    assert!(!config.separate_outputs);
}
