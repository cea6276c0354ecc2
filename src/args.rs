//! The command line handed to the fetch tool for a download request.
use vstd::prelude::*;

use crate::paths::{join_path, joined_path, parent_of, parent_path};
use crate::request::{AdvancedOptionsState, DownloadPayload, TimeRange};
use crate::text::{remove_char, text_eq, without_char};

verus! {

/// The texts held by a vector of strings.
pub open spec fn views(v: Seq<String>) -> Seq<Seq<char>> {
    v.map_values(|s: String| s@)
}

/// The output template, with the default one for an empty template.
pub open spec fn spec_output_template(p: DownloadPayload) -> Seq<char> {
    if p.output_template@.len() == 0 {
        "%(title)s.%(ext)s"@
    } else {
        p.output_template@
    }
}

/// The URL, the output path and the flags passed on every run.
pub open spec fn spec_fixed_args(p: DownloadPayload) -> Seq<Seq<char>> {
    seq![
        p.url@,
        "-o"@,
        joined_path(p.location@, spec_output_template(p)),
        "--no-mtime"@,
        "--print"@,
        "after_move:filepath"@,
        "--print"@,
        "title"@,
        "--extractor-args"@,
        "youtube:player_client=default"@,
        "--encoding"@,
        "utf-8"@,
    ]
}

/// The directory handed to the fetch tool for a transcode tool at `path`:
/// the path itself if it is a directory, else its parent.
pub open spec fn spec_transcode_location(path: Seq<char>, is_dir: bool) -> Seq<char> {
    if is_dir {
        path
    } else {
        match parent_of(path) {
            Some(q) => q,
            None => path,
        }
    }
}

pub open spec fn spec_transcode_args(path: Option<Seq<char>>, is_dir: bool) -> Seq<Seq<char>> {
    match path {
        Some(f) => seq!["--ffmpeg-location"@, spec_transcode_location(f, is_dir)],
        None => seq![],
    }
}

/// `f` alone if `on`, else nothing.
pub open spec fn flag(on: bool, f: Seq<char>) -> Seq<Seq<char>> {
    if on {
        seq![f]
    } else {
        seq![]
    }
}

pub open spec fn spec_cookie_args(a: AdvancedOptionsState) -> Seq<Seq<char>> {
    if a.cookies_browser@ != "none"@ {
        seq!["--cookies-from-browser"@, a.cookies_browser@]
    } else {
        seq![]
    }
}

pub open spec fn spec_playlist_args(a: AdvancedOptionsState) -> Seq<Seq<char>> {
    if a.playlist@ == "single"@ {
        seq!["--no-playlist"@]
    } else if a.playlist@ == "playlist"@ {
        seq!["--yes-playlist"@]
    } else {
        seq![]
    }
}

/// The time range is applied only if enabled with both ends given.
pub open spec fn spec_range_applies(t: TimeRange) -> bool {
    t.enabled && t.start@.len() > 0 && t.end@.len() > 0
}

/// The section selector for a time range: `*start - end`.
pub open spec fn spec_section(t: TimeRange) -> Seq<char> {
    "*"@ + t.start@ + " - "@ + t.end@
}

pub open spec fn spec_range_args(a: AdvancedOptionsState) -> Seq<Seq<char>> {
    match a.time_range {
        Some(t) => if spec_range_applies(t) {
            seq!["--download-sections"@, spec_section(t), "--force-keyframes-at-cuts"@]
        } else {
            seq![]
        },
        None => seq![],
    }
}

/// The optional flags, in their fixed order.
pub open spec fn spec_option_args(p: DownloadPayload) -> Seq<Seq<char>> {
    let a = p.advanced_options;
    spec_flag_args(p) + spec_cookie_args(a) + spec_playlist_args(a) + spec_range_args(a)
}

/// The format selector for a resolution: capped at its height, or the best
/// available.
pub open spec fn spec_format_selector(resolution: Seq<char>) -> Seq<char> {
    if resolution == "best"@ {
        "bestvideo+bestaudio/best"@
    } else {
        "bestvideo[height<="@ + without_char(resolution, 'p') + "]+bestaudio/best"@
    }
}

/// The arguments that depend on the mode: audio extraction, or the video
/// format and container.
pub open spec fn spec_mode_args(p: DownloadPayload) -> Seq<Seq<char>> {
    let o = p.options;
    if p.format@ == "audio"@ {
        seq!["-x"@, "--audio-format"@, o.audio_format@] + if o.audio_format@ == "wav"@ {
            seq![]
        } else {
            seq!["--audio-quality"@, o.audio_bitrate@]
        }
    } else {
        seq![
            "-f"@,
            spec_format_selector(o.video_resolution@),
            "--merge-output-format"@,
            o.video_container@,
        ]
    }
}

/// The whole argument list for a request.
pub open spec fn spec_ytdlp_args(
    p: DownloadPayload,
    transcode_path: Option<Seq<char>>,
    transcode_is_dir: bool,
) -> Seq<Seq<char>> {
    spec_fixed_args(p) + spec_transcode_args(transcode_path, transcode_is_dir) + spec_option_args(p)
        + spec_mode_args(p)
}

fn push_arg(args: &mut Vec<String>, s: &str)
    ensures
        views(final(args)@) == views(old(args)@).push(s@),
{
    args.push(String::from_str(s));
    assert(views(args@) =~= views(old(args)@).push(s@));
}

fn push_flag(args: &mut Vec<String>, on: bool, s: &str)
    ensures
        views(final(args)@) == views(old(args)@) + flag(on, s@),
{
    if on {
        push_arg(args, s);
        assert(views(args@) =~= views(old(args)@) + flag(on, s@));
    } else {
        assert(views(args@) =~= views(old(args)@) + flag(on, s@));
    }
}

fn push_fixed(args: &mut Vec<String>, p: &DownloadPayload)
    ensures
        views(final(args)@) == views(old(args)@) + spec_fixed_args(*p),
{
    let template: &str = if p.output_template.as_str().unicode_len() == 0 {
        "%(title)s.%(ext)s"
    } else {
        p.output_template.as_str()
    };
    let output_path = join_path(p.location.as_str(), template);
    push_arg(args, p.url.as_str());
    push_arg(args, "-o");
    push_arg(args, output_path.as_str());
    push_arg(args, "--no-mtime");
    push_arg(args, "--print");
    push_arg(args, "after_move:filepath");
    push_arg(args, "--print");
    push_arg(args, "title");
    push_arg(args, "--extractor-args");
    push_arg(args, "youtube:player_client=default");
    push_arg(args, "--encoding");
    push_arg(args, "utf-8");
    assert(views(args@) =~= views(old(args)@) + spec_fixed_args(*p));
}

/// The directory handed to the fetch tool for the transcode tool at `path`:
/// `path` itself when it is a directory, else its parent directory.
pub fn transcode_location(path: &str, is_dir: bool) -> (r: String)
    ensures
        r@ == spec_transcode_location(path@, is_dir),
{
    if is_dir {
        String::from_str(path)
    } else {
        match parent_path(path) {
            Some(q) => q,
            None => String::from_str(path),
        }
    }
}

/// The flags that stand alone, in their fixed order.
pub open spec fn spec_flag_args(p: DownloadPayload) -> Seq<Seq<char>> {
    let a = p.advanced_options;
    let video = p.format@ == "video"@;
    flag(a.embed_thumbnail, "--embed-thumbnail"@) + flag(a.add_metadata, "--add-metadata"@)
        + flag(video && a.embed_subs, "--embed-subs"@) + flag(
        video && a.write_auto_sub,
        "--write-auto-sub"@,
    ) + flag(video && a.split_chapters, "--split-chapters"@)
}

fn push_flags(args: &mut Vec<String>, p: &DownloadPayload)
    ensures
        views(final(args)@) == views(old(args)@) + spec_flag_args(*p),
{
    let ghost s0 = views(args@);
    let a = &p.advanced_options;
    let video = text_eq(p.format.as_str(), "video");
    push_flag(args, a.embed_thumbnail, "--embed-thumbnail");
    push_flag(args, a.add_metadata, "--add-metadata");
    push_flag(args, video && a.embed_subs, "--embed-subs");
    push_flag(args, video && a.write_auto_sub, "--write-auto-sub");
    push_flag(args, video && a.split_chapters, "--split-chapters");
    assert(views(args@) =~= s0 + spec_flag_args(*p));
}

fn push_cookies(args: &mut Vec<String>, a: &AdvancedOptionsState)
    ensures
        views(final(args)@) == views(old(args)@) + spec_cookie_args(*a),
{
    if !text_eq(a.cookies_browser.as_str(), "none") {
        push_arg(args, "--cookies-from-browser");
        push_arg(args, a.cookies_browser.as_str());
    }
    assert(views(args@) =~= views(old(args)@) + spec_cookie_args(*a));
}

fn push_playlist(args: &mut Vec<String>, a: &AdvancedOptionsState)
    ensures
        views(final(args)@) == views(old(args)@) + spec_playlist_args(*a),
{
    if text_eq(a.playlist.as_str(), "single") {
        push_arg(args, "--no-playlist");
    } else if text_eq(a.playlist.as_str(), "playlist") {
        push_arg(args, "--yes-playlist");
    }
    assert(views(args@) =~= views(old(args)@) + spec_playlist_args(*a));
}

fn push_range(args: &mut Vec<String>, a: &AdvancedOptionsState)
    ensures
        views(final(args)@) == views(old(args)@) + spec_range_args(*a),
{
    match &a.time_range {
        Some(range) => {
            if range.enabled && range.start.as_str().unicode_len() > 0
                && range.end.as_str().unicode_len() > 0 {
                let mut section = String::from_str("*");
                section.append(range.start.as_str());
                section.append(" - ");
                section.append(range.end.as_str());
                push_arg(args, "--download-sections");
                push_arg(args, section.as_str());
                push_arg(args, "--force-keyframes-at-cuts");
            }
        },
        None => {},
    }
    assert(views(args@) =~= views(old(args)@) + spec_range_args(*a));
}

proof fn lemma_add_assoc(a: Seq<Seq<char>>, b: Seq<Seq<char>>, c: Seq<Seq<char>>)
    ensures
        (a + b) + c == a + (b + c),
{
    assert((a + b) + c =~= a + (b + c));
}

fn push_options(args: &mut Vec<String>, p: &DownloadPayload)
    ensures
        views(final(args)@) == views(old(args)@) + spec_option_args(*p),
{
    let ghost s0 = views(args@);
    push_flags(args, p);
    push_cookies(args, &p.advanced_options);
    push_playlist(args, &p.advanced_options);
    push_range(args, &p.advanced_options);
    proof {
        let a = p.advanced_options;
        let f = spec_flag_args(*p);
        let c = spec_cookie_args(a);
        let l = spec_playlist_args(a);
        lemma_add_assoc(s0, f, c);
        lemma_add_assoc(s0, f + c, l);
        lemma_add_assoc(s0, f + c + l, spec_range_args(a));
    }
}

fn push_mode(args: &mut Vec<String>, p: &DownloadPayload)
    ensures
        views(final(args)@) == views(old(args)@) + spec_mode_args(*p),
{
    let o = &p.options;
    if text_eq(p.format.as_str(), "audio") {
        push_arg(args, "-x");
        push_arg(args, "--audio-format");
        push_arg(args, o.audio_format.as_str());
        if !text_eq(o.audio_format.as_str(), "wav") {
            push_arg(args, "--audio-quality");
            push_arg(args, o.audio_bitrate.as_str());
        }
    } else {
        push_arg(args, "-f");
        if text_eq(o.video_resolution.as_str(), "best") {
            push_arg(args, "bestvideo+bestaudio/best");
        } else {
            let height = remove_char(o.video_resolution.as_str(), 'p');
            let mut selector = String::from_str("bestvideo[height<=");
            selector.append(height.as_str());
            selector.append("]+bestaudio/best");
            push_arg(args, selector.as_str());
        }
        push_arg(args, "--merge-output-format");
        push_arg(args, o.video_container.as_str());
    }
    assert(views(args@) =~= views(old(args)@) + spec_mode_args(*p));
}

/// The argument list for the fetch tool at `yt_dlp_path` on request
/// `payload`, with the transcode tool at `ffmpeg_path` if it is installed;
/// `ffmpeg_is_dir` tells whether that path is a directory. Always succeeds:
/// the request is passed through unchecked.
pub fn build_ytdlp_args(
    payload: &DownloadPayload,
    yt_dlp_path: &str,
    ffmpeg_path: Option<&String>,
    ffmpeg_is_dir: bool,
) -> (r: Result<(String, Vec<String>), String>)
    ensures
        r matches Ok((prog, args)) && prog@ == yt_dlp_path@ && views(args@) == spec_ytdlp_args(
            *payload,
            match ffmpeg_path {
                Some(f) => Some(f@),
                None => None,
            },
            ffmpeg_is_dir,
        ),
{
    Ok((String::from_str(yt_dlp_path), ytdlp_args(payload, ffmpeg_path, ffmpeg_is_dir)))
}

/// The argument list for the fetch tool on request `payload`, with the
/// transcode tool at `ffmpeg_path` if it is installed; `ffmpeg_is_dir`
/// tells whether that path is a directory.
pub fn ytdlp_args(payload: &DownloadPayload, ffmpeg_path: Option<&String>, ffmpeg_is_dir: bool) -> (r:
    Vec<String>)
    ensures
        views(r@) == spec_ytdlp_args(
            *payload,
            match ffmpeg_path {
                Some(f) => Some(f@),
                None => None,
            },
            ffmpeg_is_dir,
        ),
{
    let mut args: Vec<String> = Vec::new();
    assert(views(args@) =~= Seq::<Seq<char>>::empty());
    push_fixed(&mut args, payload);
    let ghost after_fixed = views(args@);
    match ffmpeg_path {
        Some(ff) => {
            let location = transcode_location(ff.as_str(), ffmpeg_is_dir);
            push_arg(&mut args, "--ffmpeg-location");
            push_arg(&mut args, location.as_str());
        },
        None => {},
    }
    let ghost tpath = match ffmpeg_path {
        Some(f) => Some(f@),
        None => None,
    };
    assert(views(args@) =~= after_fixed + spec_transcode_args(tpath, ffmpeg_is_dir));
    push_options(&mut args, payload);
    push_mode(&mut args, payload);
    assert(views(args@) =~= spec_ytdlp_args(*payload, tpath, ffmpeg_is_dir));
    args
}

/// The argument list is a function of the request and the tool paths: two
/// builds from the same inputs give the same list, string for string.
pub proof fn build_is_deterministic(
    p1: DownloadPayload,
    p2: DownloadPayload,
    transcode_path: Option<Seq<char>>,
    transcode_is_dir: bool,
    r1: Seq<Seq<char>>,
    r2: Seq<Seq<char>>,
)
    requires
        p1 == p2,
        r1 == spec_ytdlp_args(p1, transcode_path, transcode_is_dir),
        r2 == spec_ytdlp_args(p2, transcode_path, transcode_is_dir),
    ensures
        r1 == r2,
{
}

} // verus!
