use ytgrab::info::{
    available_hw_encoders, check_binaries, fetch_video_info, first_line, get_binary_versions,
    pick_version, version_flag, version_from_output, version_query, video_info_args,
    video_info_command,
};
use ytgrab::provision::ManagedTool;
use ytgrab::job::{completion_result, start_download, DownloadJob, ExitOutcome, JobError, JobPhase};
use ytgrab::request::{AdvancedOptionsState, DownloadPayload, FormatOptions};
use ytgrab::text::{contains_text, remove_char, starts_with_text, text_eq};

fn payload() -> DownloadPayload {
    DownloadPayload {
        url: "https://example.com/v".to_string(),
        format: "video".to_string(),
        location: "/dl".to_string(),
        args: Vec::new(),
        options: FormatOptions {
            type_: "video".to_string(),
            video_container: "mkv".to_string(),
            video_resolution: "720p".to_string(),
            audio_format: "mp3".to_string(),
            audio_bitrate: "128k".to_string(),
            audio_sample_rate: "48000".to_string(),
            audio_bit_depth: "16".to_string(),
        },
        advanced_options: AdvancedOptionsState {
            embed_thumbnail: false,
            add_metadata: false,
            embed_subs: false,
            write_auto_sub: false,
            split_chapters: false,
            playlist: "default".to_string(),
            cookies_browser: "none".to_string(),
            time_range: None,
        },
        video_conversion: None,
        output_template: String::new(),
        notifications_enabled: true,
    }
}

#[test]
fn absent_fetch_tool_is_not_found() {
    let r = start_download(&payload(), None, Some("/bin/ffmpeg".to_string()), false);
    assert!(matches!(r, Err(JobError::ToolNotFound)));
    assert_eq!(JobError::ToolNotFound.message(), "yt-dlp not found");
    let job = DownloadJob::new();
    assert_eq!(job.on_line("x".to_string()), None);
    let mut job = job;
    assert!(job.on_exit(&ExitOutcome::Exited(Some(1))).is_none());
}

#[test]
fn launch_carries_program_arguments_and_announcement() {
    let l = start_download(&payload(), Some("/bin/yt-dlp".to_string()), None, false).unwrap();
    assert_eq!(l.program, "/bin/yt-dlp");
    assert_eq!(l.announcement, "Starting download for https://example.com/v");
    assert_eq!(l.args[0], "https://example.com/v");
    assert!(l.args.iter().any(|a| a == "bestvideo[height<=720]+bestaudio/best"));
}

#[test]
fn spawn_failure_is_reported() {
    let mut job = DownloadJob::new();
    let r = job.spawned(Err("permission denied".to_string()));
    match r {
        Err(e) => assert_eq!(e.message(), "Failed to spawn yt-dlp: permission denied"),
        Ok(()) => panic!("expected a spawn failure"),
    }
    assert_eq!(job.phase, JobPhase::SpawnFailed);
    assert_eq!(job.on_line("late".to_string()), None);
    assert!(job.on_exit(&ExitOutcome::Exited(Some(0))).is_none());
}

#[test]
fn nonzero_exit_ends_once_with_failure() {
    let mut job = DownloadJob::new();
    job.spawned(Ok(())).unwrap();
    assert_eq!(job.on_line("[download] 10%".to_string()), Some("[download] 10%".to_string()));
    let r = job.on_exit(&ExitOutcome::Exited(Some(2))).unwrap();
    assert!(!r.success);
    assert_eq!(r.message, "Download failed");
    assert!(job.on_exit(&ExitOutcome::Exited(Some(0))).is_none());
    assert!(job.cancel().is_none());
    assert_eq!(job.on_line("tail".to_string()), Some("tail".to_string()));
}

#[test]
fn zero_exit_is_success() {
    let r = completion_result(&ExitOutcome::Exited(Some(0)));
    assert!(r.success);
    assert_eq!(r.message, "Download complete");
    assert!(r.title.is_none() && r.filename.is_none() && r.file_size.is_none());
    let r = completion_result(&ExitOutcome::Exited(None));
    assert!(!r.success);
    let r = completion_result(&ExitOutcome::WaitFailed("boom".to_string()));
    assert!(!r.success);
    assert_eq!(r.message, "Process error: boom");
}

#[test]
fn cancel_ends_running_job() {
    let mut job = DownloadJob::new();
    job.spawned(Ok(())).unwrap();
    let r = job.cancel().unwrap();
    assert!(!r.success);
    assert_eq!(r.message, "Download cancelled");
    assert!(job.on_exit(&ExitOutcome::Exited(Some(0))).is_none());
}

#[test]
fn version_of_transcode_tool() {
    let out = "ffmpeg version 6.1-tessus  https://evermeet.cx/ffmpeg/  Copyright (c)\nbuilt with clang\n";
    assert_eq!(version_from_output(out, ManagedTool::TranscodeTool), "6.1-tessus");
    assert_eq!(version_from_output("", ManagedTool::TranscodeTool), "Unknown");
}

#[test]
fn version_of_fetch_tool() {
    let f = ManagedTool::FetchTool;
    assert_eq!(version_from_output("  2024.08.06\r\n", f), "2024.08.06");
    assert_eq!(version_from_output("2024.08.06\nextra", f), "2024.08.06");
    assert_eq!(version_from_output("   \n ", f), "Unknown");
    assert_eq!(version_from_output("", f), "Unknown");
    assert_eq!(version_from_output("ffmpeg version 6.1 x", f), "ffmpeg version 6.1 x");
}

#[test]
fn version_queries() {
    assert_eq!(version_query(false, "2024.08.06", ManagedTool::FetchTool), None);
    assert_eq!(
        version_query(true, "2024.08.06\n", ManagedTool::FetchTool),
        Some("2024.08.06".to_string())
    );
    assert_eq!(version_flag(ManagedTool::FetchTool), "--version");
    assert_eq!(version_flag(ManagedTool::TranscodeTool), "-version");
}

#[test]
fn video_info_needs_fetch_tool() {
    assert_eq!(video_info_command(None, "https://x/y"), Err("yt-dlp not found".to_string()));
    let (prog, args) = video_info_command(Some("/bin/yt-dlp".to_string()), "https://x/y").unwrap();
    assert_eq!(prog, "/bin/yt-dlp");
    assert_eq!(args, vec!["-J", "--flat-playlist", "--no-warnings", "https://x/y"]);
}

#[test]
fn version_picking() {
    assert_eq!(pick_version("ffmpeg version 7.0 x", Some("7.0".to_string())), "7.0");
    assert_eq!(pick_version("ffmpeg version", None), "ffmpeg version");
    assert_eq!(pick_version("other 1 2", Some("2".to_string())), "other 1 2");
}

#[test]
fn first_line_cases() {
    assert_eq!(first_line(""), None);
    assert_eq!(first_line("abc"), Some("abc".to_string()));
    assert_eq!(first_line("a\r\nb"), Some("a".to_string()));
    assert_eq!(first_line("\nb"), Some("".to_string()));
}

#[test]
fn versions_default_to_not_detected() {
    let v = get_binary_versions(Some("2024.08.06".to_string()), None);
    assert_eq!(v.yt_dlp, "2024.08.06");
    assert_eq!(v.ffmpeg, "Not detected");
}

#[test]
fn binary_status() {
    let s = check_binaries("/data/bin", true, false);
    assert!(s.ytdlp);
    assert!(!s.ffmpeg);
    assert_eq!(s.path, "/data/bin");
}

#[test]
fn hardware_encoders_detected() {
    let out = " V....D h264_nvenc   NVIDIA\n V....D hevc_videotoolbox  VT\n";
    assert_eq!(available_hw_encoders(out), vec!["nvenc", "videotoolbox"]);
    assert_eq!(available_hw_encoders("hevc_qsv h264_amf"), vec!["qsv", "amf"]);
    assert!(available_hw_encoders("libx264").is_empty());
}

#[test]
fn video_info_arguments() {
    assert_eq!(
        video_info_args("https://x/y"),
        vec!["-J", "--flat-playlist", "--no-warnings", "https://x/y"]
    );
}

#[test]
fn video_info_parses_or_reports() {
    let v = fetch_video_info(true, "{\"title\": \"T\", \"n\": 3}", "").unwrap();
    assert_eq!(v.get("title").and_then(|t| t.as_str()), Some("T"));
    assert_eq!(v.get("n").and_then(|t| t.as_u64()), Some(3));
    assert!(fetch_video_info(true, "not json", "").is_err());
    assert_eq!(fetch_video_info(false, "{}", "ERROR: bad url").unwrap_err(), "ERROR: bad url");
}

#[test]
fn text_helpers() {
    assert!(text_eq("video", "video"));
    assert!(!text_eq("video", "audio"));
    assert!(starts_with_text("ffmpeg version 6", "ffmpeg version"));
    assert!(!starts_with_text("ffm", "ffmpeg"));
    assert!(contains_text("abc h264_qsv", "h264_qsv"));
    assert!(contains_text("abc", ""));
    assert!(!contains_text("ab", "abc"));
    assert_eq!(remove_char("1080p", 'p'), "1080");
    assert_eq!(remove_char("pp", 'p'), "");
}
