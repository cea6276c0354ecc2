use ytgrab::args::{build_ytdlp_args, transcode_location};
use ytgrab::request::{
    AdvancedOptionsState, DownloadPayload, FormatOptions, TimeRange, VideoConversionOptions,
};

fn payload(format: &str) -> DownloadPayload {
    DownloadPayload {
        url: "https://example.com/watch?v=abc".to_string(),
        format: format.to_string(),
        location: "/downloads".to_string(),
        args: Vec::new(),
        options: FormatOptions {
            type_: format.to_string(),
            video_container: "mp4".to_string(),
            video_resolution: "best".to_string(),
            audio_format: "mp3".to_string(),
            audio_bitrate: "192k".to_string(),
            audio_sample_rate: "44100".to_string(),
            audio_bit_depth: "16".to_string(),
        },
        advanced_options: AdvancedOptionsState {
            embed_thumbnail: false,
            add_metadata: false,
            embed_subs: false,
            write_auto_sub: false,
            split_chapters: false,
            playlist: "default".to_string(),
            cookies_browser: "none".to_string(),
            time_range: None,
        },
        video_conversion: None,
        output_template: String::new(),
        notifications_enabled: false,
    }
}

fn build(p: &DownloadPayload) -> Vec<String> {
    let (prog, args) = build_ytdlp_args(p, "/bin/yt-dlp", None, false).unwrap();
    assert_eq!(prog, "/bin/yt-dlp");
    args
}

fn followed_by(args: &[String], a: &str, b: &str) -> bool {
    args.windows(2).any(|w| w[0] == a && w[1] == b)
}

#[test]
fn fixed_prefix_in_order() {
    let args = build(&payload("video"));
    let expected: Vec<&str> = vec![
        "https://example.com/watch?v=abc",
        "-o",
        "/downloads/%(title)s.%(ext)s",
        "--no-mtime",
        "--print",
        "after_move:filepath",
        "--print",
        "title",
        "--extractor-args",
        "youtube:player_client=default",
        "--encoding",
        "utf-8",
        "-f",
        "bestvideo+bestaudio/best",
        "--merge-output-format",
        "mp4",
    ];
    assert_eq!(args, expected);
}

#[test]
fn custom_template_is_joined_to_location() {
    let mut p = payload("video");
    p.output_template = "%(id)s.%(ext)s".to_string();
    let args = build(&p);
    assert_eq!(args[2], "/downloads/%(id)s.%(ext)s");
}

#[test]
fn same_request_gives_same_arguments() {
    let mut p = payload("video");
    p.advanced_options.embed_thumbnail = true;
    p.advanced_options.cookies_browser = "firefox".to_string();
    let ff = "/data/bin/ffmpeg".to_string();
    let a = build_ytdlp_args(&p, "/bin/yt-dlp", Some(&ff), false).unwrap();
    let b = build_ytdlp_args(&p, "/bin/yt-dlp", Some(&ff), false).unwrap();
    assert_eq!(a, b);
}

#[test]
fn video_resolution_caps_height() {
    let mut p = payload("video");
    p.options.video_resolution = "1080p".to_string();
    let args = build(&p);
    assert!(followed_by(&args, "-f", "bestvideo[height<=1080]+bestaudio/best"));
    assert!(followed_by(&args, "--merge-output-format", "mp4"));
}

#[test]
fn audio_wav_has_no_quality_flag() {
    let mut p = payload("audio");
    p.options.audio_format = "wav".to_string();
    let args = build(&p);
    let n = args.len();
    assert_eq!(&args[n - 3..], &["-x", "--audio-format", "wav"]);
    assert!(!args.iter().any(|a| a == "--audio-quality"));
}

#[test]
fn audio_mp3_has_quality_flag() {
    let p = payload("audio");
    let args = build(&p);
    let n = args.len();
    assert_eq!(&args[n - 5..], &["-x", "--audio-format", "mp3", "--audio-quality", "192k"]);
    assert!(!args.iter().any(|a| a == "-f"));
}

#[test]
fn time_range_adds_sections() {
    let mut p = payload("video");
    p.advanced_options.time_range = Some(TimeRange {
        enabled: true,
        start: "00:01:00".to_string(),
        end: "00:02:00".to_string(),
    });
    let args = build(&p);
    assert!(followed_by(&args, "--download-sections", "*00:01:00 - 00:02:00"));
    assert!(args.iter().any(|a| a == "--force-keyframes-at-cuts"));
}

#[test]
fn time_range_needs_both_ends_and_enabled() {
    let mut p = payload("video");
    p.advanced_options.time_range = Some(TimeRange {
        enabled: true,
        start: "00:01:00".to_string(),
        end: String::new(),
    });
    assert!(!build(&p).iter().any(|a| a == "--download-sections"));
    p.advanced_options.time_range = Some(TimeRange {
        enabled: false,
        start: "00:01:00".to_string(),
        end: "00:02:00".to_string(),
    });
    assert!(!build(&p).iter().any(|a| a == "--download-sections"));
}

#[test]
fn optional_flags_in_order_for_video() {
    let mut p = payload("video");
    p.advanced_options = AdvancedOptionsState {
        embed_thumbnail: true,
        add_metadata: true,
        embed_subs: true,
        write_auto_sub: true,
        split_chapters: true,
        playlist: "single".to_string(),
        cookies_browser: "chrome".to_string(),
        time_range: None,
    };
    let args = build(&p);
    let expected: Vec<&str> = vec![
        "--embed-thumbnail",
        "--add-metadata",
        "--embed-subs",
        "--write-auto-sub",
        "--split-chapters",
        "--cookies-from-browser",
        "chrome",
        "--no-playlist",
    ];
    assert_eq!(&args[12..20], &expected[..]);
}

#[test]
fn subtitle_flags_only_for_video() {
    let mut p = payload("audio");
    p.advanced_options.embed_subs = true;
    p.advanced_options.write_auto_sub = true;
    p.advanced_options.split_chapters = true;
    p.advanced_options.playlist = "playlist".to_string();
    let args = build(&p);
    assert!(!args.iter().any(|a| a == "--embed-subs"));
    assert!(!args.iter().any(|a| a == "--split-chapters"));
    assert!(args.iter().any(|a| a == "--yes-playlist"));
}

#[test]
fn transcode_tool_location_is_its_directory() {
    let p = payload("video");
    let ff = "/data/bin/ffmpeg".to_string();
    let (_, args) = build_ytdlp_args(&p, "/bin/yt-dlp", Some(&ff), false).unwrap();
    assert!(followed_by(&args, "--ffmpeg-location", "/data/bin"));
    let (_, args) = build_ytdlp_args(&p, "/bin/yt-dlp", Some(&ff), true).unwrap();
    assert!(followed_by(&args, "--ffmpeg-location", "/data/bin/ffmpeg"));
}

#[test]
fn transcode_location_of_file_and_directory() {
    assert_eq!(transcode_location("/opt/tools/ffmpeg", false), "/opt/tools");
    assert_eq!(transcode_location("/opt/tools", true), "/opt/tools");
    assert_eq!(transcode_location("/", false), "/");
}

#[test]
fn conversion_options_add_nothing() {
    let mut p = payload("video");
    let before = build(&p);
    p.video_conversion = Some(VideoConversionOptions {
        enabled: true,
        video_codec: "h264".to_string(),
        video_bitrate: "5M".to_string(),
        audio_codec: "aac".to_string(),
        audio_bitrate: "192k".to_string(),
        hw_encoder: Some("nvenc".to_string()),
    });
    assert_eq!(build(&p), before);
}

#[test]
fn empty_url_passes_through() {
    let mut p = payload("video");
    p.url = String::new();
    assert_eq!(build(&p)[0], "");
}
