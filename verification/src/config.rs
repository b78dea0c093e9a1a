//! Settings of the recorder and the quality tiers with what each stands for.

use crate::text::{join_path, joined_path, opt_text};
use vstd::prelude::*;

verus! {

/// Quality tiers of the recorded video, lowest first.
#[derive(Debug, Clone, Copy, PartialEq, Eq, Structural)]
pub enum VideoQuality {
    Low,
    Medium,
    High,
    Ultra,
}

/// Quality tiers of the recorded audio, lowest first.
#[derive(Debug, Clone, Copy, PartialEq, Eq, Structural)]
pub enum AudioQuality {
    Low,
    Medium,
    High,
    Lossless,
}

/// Colour themes of the window.
#[derive(Debug, Clone, Copy, PartialEq, Eq, Structural)]
pub enum DiscordTheme {
    Dark,
    Light,
    AMOLED,
}

/// The settings that are kept between runs.
#[derive(Debug, Clone)]
pub struct Config {
    pub output_directory: String,
    pub video_quality: VideoQuality,
    pub audio_quality: AudioQuality,
    pub default_screen: Option<usize>,
    pub default_audio_device: Option<String>,
    pub default_webcam: Option<String>,
    pub record_audio: bool,
    pub record_video: bool,
    pub record_webcam: bool,
    pub discord_theme: DiscordTheme,
    pub separate_outputs: bool,
    pub use_pipewire_on_wayland: bool,
    pub enable_preview_overlay: bool,
}

/// Position of a video tier in the order lowest to highest.
pub open spec fn video_rank(quality: VideoQuality) -> nat {
    match quality {
        VideoQuality::Low => 0,
        VideoQuality::Medium => 1,
        VideoQuality::High => 2,
        VideoQuality::Ultra => 3,
    }
}

/// Constant rate factor of a video tier; a lower factor is a higher quality.
pub open spec fn rate_factor(quality: VideoQuality) -> nat {
    match quality {
        VideoQuality::Low => 28,
        VideoQuality::Medium => 23,
        VideoQuality::High => 20,
        VideoQuality::Ultra => 18,
    }
}

/// Target video bitrate of a tier, in kilobits per second.
pub open spec fn video_kbps(quality: VideoQuality) -> nat {
    match quality {
        VideoQuality::Low => 1000,
        VideoQuality::Medium => 2500,
        VideoQuality::High => 5000,
        VideoQuality::Ultra => 10000,
    }
}

/// Frame size of a tier, width first.
pub open spec fn frame_size(quality: VideoQuality) -> (nat, nat) {
    match quality {
        VideoQuality::Low => (1280, 720),
        VideoQuality::Medium => (1920, 1080),
        VideoQuality::High => (2560, 1440),
        VideoQuality::Ultra => (3840, 2160),
    }
}

/// Sample rate of an audio tier, in hertz.
pub open spec fn audio_hz(quality: AudioQuality) -> nat {
    match quality {
        AudioQuality::Low => 22050,
        AudioQuality::Medium => 44100,
        AudioQuality::High => 48000,
        AudioQuality::Lossless => 96000,
    }
}

/// Audio bitrate of a tier, in kilobits per second.
pub open spec fn audio_kbps(quality: AudioQuality) -> nat {
    match quality {
        AudioQuality::Low => 64,
        AudioQuality::Medium => 128,
        AudioQuality::High => 256,
        AudioQuality::Lossless => 320,
    }
}

/// Across the video tiers from lowest to highest the rate factor strictly
/// falls and the bitrate strictly rises.
pub proof fn quality_mapping_is_monotonic(lower: VideoQuality, higher: VideoQuality)
    requires
        video_rank(lower) < video_rank(higher),
    ensures
        rate_factor(lower) > rate_factor(higher),
        video_kbps(lower) < video_kbps(higher),
{
}

/// The encoder preset is the same for every tier.
pub open spec fn preset_text(quality: VideoQuality) -> Seq<char> {
    "veryfast"@
}

/// Constant rate factor handed to the encoder for a tier.
pub fn crf_for_quality(quality: VideoQuality) -> (crf: u8)
    ensures
        crf == rate_factor(quality),
{
    match quality {
        VideoQuality::Low => 28,
        VideoQuality::Medium => 23,
        VideoQuality::High => 20,
        VideoQuality::Ultra => 18,
    }
}

/// Encoder preset for a tier.
pub fn preset_for_quality(quality: VideoQuality) -> (preset: &'static str)
    ensures
        preset@ == preset_text(quality),
{
    "veryfast"
}

/// Frame size of a tier, width first.
pub fn get_video_encoder_settings(quality: VideoQuality) -> (size: (u32, u32))
    ensures
        (size.0 as nat, size.1 as nat) == frame_size(quality),
{
    match quality {
        VideoQuality::Low => (1280, 720),
        VideoQuality::Medium => (1920, 1080),
        VideoQuality::High => (2560, 1440),
        VideoQuality::Ultra => (3840, 2160),
    }
}

/// Target video bitrate of a tier, in bits per second.
pub fn get_video_bitrate(quality: VideoQuality) -> (bits: u32)
    ensures
        bits == 1000 * video_kbps(quality),
{
    match quality {
        VideoQuality::Low => 1_000_000,
        VideoQuality::Medium => 2_500_000,
        VideoQuality::High => 5_000_000,
        VideoQuality::Ultra => 10_000_000,
    }
}

/// Calls `dirs::home_dir` and renders the path as text. The answer depends on
/// the user's environment, so nothing is claimed of it.
#[verifier::external_body]
fn home_directory() -> (home: Option<String>) {
    dirs::home_dir().map(|p| p.to_string_lossy().to_string())
}

/// The recordings directory below a home directory; without a home directory
/// it is relative.
pub open spec fn recordings_directory(home: Option<Seq<char>>) -> Seq<char> {
    let base = match home {
        Some(h) => h,
        None => Seq::<char>::empty(),
    };
    joined_path(joined_path(base, "Videos"@), "discord-recordings"@)
}

/// The recordings directory below the given home directory.
pub fn default_output_directory(home: Option<String>) -> (dir: String)
    ensures
        dir@ == recordings_directory(opt_text(home)),
        dir@.len() > 0,
{
    proof {
        reveal_strlit("");
        reveal_strlit("Videos");
        reveal_strlit("discord-recordings");
    }
    let videos = match &home {
        Some(h) => join_path(h.as_str(), "Videos"),
        None => {
            assert(""@ =~= Seq::<char>::empty());
            join_path("", "Videos")
        },
    };
    join_path(videos.as_str(), "discord-recordings")
}

/// Calls `dirs::config_dir` and renders the path as text. The answer depends
/// on the user's environment, so nothing is claimed of it.
#[verifier::external_body]
fn config_directory() -> (dir: Option<String>) {
    dirs::config_dir().map(|p| p.to_string_lossy().to_string())
}

/// The settings file below a configuration directory; without such a
/// directory it is relative.
pub open spec fn settings_path(config_dir: Option<Seq<char>>) -> Seq<char> {
    let base = match config_dir {
        Some(d) => d,
        None => Seq::<char>::empty(),
    };
    joined_path(joined_path(base, "discord-recorder"@), "config.json"@)
}

/// The settings file below the given configuration directory.
pub fn settings_path_below(config_dir: Option<String>) -> (path: String)
    ensures
        path@ == settings_path(opt_text(config_dir)),
{
    proof {
        reveal_strlit("");
    }
    let folder = match &config_dir {
        Some(d) => join_path(d.as_str(), "discord-recorder"),
        None => {
            assert(""@ =~= Seq::<char>::empty());
            join_path("", "discord-recorder")
        },
    };
    join_path(folder.as_str(), "config.json")
}

/// Whether a configuration holds the initial settings, whatever its output
/// directory.
pub open spec fn has_initial_settings(c: Config) -> bool {
    &&& c.video_quality == VideoQuality::High
    &&& c.audio_quality == AudioQuality::High
    &&& c.default_screen is None
    &&& c.default_audio_device is None
    &&& c.default_webcam is None
    &&& c.record_audio
    &&& c.record_video
    &&& !c.record_webcam
    &&& c.discord_theme == DiscordTheme::Dark
    &&& !c.separate_outputs
    &&& !c.use_pipewire_on_wayland
    &&& !c.enable_preview_overlay
}

impl Config {
    /// The initial settings with the recordings directory below `home`.
    pub fn with_home(home: Option<String>) -> (c: Config)
        ensures
            has_initial_settings(c),
            c.output_directory@ == recordings_directory(opt_text(home)),
            c.output_directory@.len() > 0,
    {
        Config {
            output_directory: default_output_directory(home),
            video_quality: VideoQuality::High,
            audio_quality: AudioQuality::High,
            default_screen: None,
            default_audio_device: None,
            default_webcam: None,
            record_audio: true,
            record_video: true,
            record_webcam: false,
            discord_theme: DiscordTheme::Dark,
            separate_outputs: false,
            use_pipewire_on_wayland: false,
            enable_preview_overlay: false,
        }
    }

    /// The settings file of the user, below the configuration directory as
    /// the host reports it.
    pub fn get_config_path() -> (path: String)
        ensures
            exists|dir: Option<Seq<char>>| path@ == settings_path(dir),
    {
        let dir = config_directory();
        let ghost shown = opt_text(dir);
        let path = settings_path_below(dir);
        assert(path@ == settings_path(shown));
        path
    }

    /// The directory that recordings are written to.
    pub fn get_output_directory(&self) -> (dir: &str)
        ensures
            dir@ == self.output_directory@,
    {
        self.output_directory.as_str()
    }

    /// Replaces the directory that recordings are written to.
    pub fn set_output_directory(&mut self, path: String)
        ensures
            *final(self) == (Config { output_directory: path, ..*old(self) }),
    {
        self.output_directory = path;
    }

    /// Target video bitrate of the chosen tier, in kilobits per second.
    pub fn get_video_bitrate(&self) -> (kbps: u32)
        ensures
            kbps == video_kbps(self.video_quality),
    {
        match self.video_quality {
            VideoQuality::Low => 1000,
            VideoQuality::Medium => 2500,
            VideoQuality::High => 5000,
            VideoQuality::Ultra => 10000,
        }
    }

    /// Sample rate of the chosen audio tier, in hertz.
    pub fn get_audio_sample_rate(&self) -> (hz: u32)
        ensures
            hz == audio_hz(self.audio_quality),
    {
        match self.audio_quality {
            AudioQuality::Low => 22050,
            AudioQuality::Medium => 44100,
            AudioQuality::High => 48000,
            AudioQuality::Lossless => 96000,
        }
    }

    /// Bitrate of the chosen audio tier, in kilobits per second.
    pub fn get_audio_bitrate(&self) -> (kbps: u32)
        ensures
            kbps == audio_kbps(self.audio_quality),
    {
        match self.audio_quality {
            AudioQuality::Low => 64,
            AudioQuality::Medium => 128,
            AudioQuality::High => 256,
            AudioQuality::Lossless => 320,
        }
    }
}

impl Default for Config {
    /// The initial settings, with the recordings directory below the user's
    /// home directory as the host reports it.
    fn default() -> (c: Config)
        ensures
            has_initial_settings(c),
            c.output_directory@.len() > 0,
            exists|home: Option<Seq<char>>| c.output_directory@ == recordings_directory(home),
    {
        let home = home_directory();
        let ghost shown = opt_text(home);
        let c = Config::with_home(home);
        assert(c.output_directory@ == recordings_directory(shown));
        c
    }
}

} // verus!
