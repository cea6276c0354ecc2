//! A download request as the caller submits it.
use vstd::prelude::*;

verus! {

/// One download request: what to fetch, where to put it and how.
#[derive(Clone, Debug)]
pub struct DownloadPayload {
    pub url: String,
    /// `video` or `audio`.
    pub format: String,
    /// Destination directory.
    pub location: String,
    pub args: Vec<String>,
    pub options: FormatOptions,
    pub advanced_options: AdvancedOptionsState,
    pub video_conversion: Option<VideoConversionOptions>,
    /// Output file name template; empty for the default one.
    pub output_template: String,
    pub notifications_enabled: bool,
}

/// Format and quality choices.
#[derive(Clone, Debug)]
pub struct FormatOptions {
    /// `video` or `audio`.
    pub type_: String,
    pub video_container: String,
    /// `best`, or a height such as `1080p`.
    pub video_resolution: String,
    pub audio_format: String,
    pub audio_bitrate: String,
    pub audio_sample_rate: String,
    pub audio_bit_depth: String,
}

/// Optional behaviour of the fetch tool.
#[derive(Clone, Debug)]
pub struct AdvancedOptionsState {
    pub embed_thumbnail: bool,
    pub add_metadata: bool,
    pub embed_subs: bool,
    pub write_auto_sub: bool,
    pub split_chapters: bool,
    /// `default`, `single` or `playlist`.
    pub playlist: String,
    /// A browser to take cookies from, or `none`.
    pub cookies_browser: String,
    pub time_range: Option<TimeRange>,
}

/// A clip of the media, between two time stamps.
#[derive(Clone, Debug)]
pub struct TimeRange {
    pub enabled: bool,
    pub start: String,
    pub end: String,
}

/// Conversion after download. Codec and hardware encoder mapping is not
/// performed: these options are carried but not turned into arguments.
#[derive(Clone, Debug)]
pub struct VideoConversionOptions {
    pub enabled: bool,
    pub video_codec: String,
    pub video_bitrate: String,
    pub audio_codec: String,
    pub audio_bitrate: String,
    pub hw_encoder: Option<String>,
}

} // verus!
