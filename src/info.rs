//! What is learnt from running the managed tools: their versions, the
//! hardware encoders the transcode tool offers, and media information.
use vstd::prelude::*;

use crate::args::views;
use crate::provision::ManagedTool;
use crate::text::{contains_text, has_prefix, has_substring, starts_with_text};

verus! {

#[verifier::external_type_specification]
#[verifier::external_body]
pub struct ExJsonValue(serde_json::Value);

/// What `str::trim` gives: the text without leading and trailing white
/// space.
pub uninterp spec fn trimmed(s: Seq<char>) -> Seq<char>;

/// What `str::split_whitespace` gives at position `n`, if there is a word
/// there.
pub uninterp spec fn word_at(s: Seq<char>, n: usize) -> Option<Seq<char>>;

/// What `serde_json::from_str` reports for text that is not a JSON
/// document: `None` if it parses, else the error's message.
pub uninterp spec fn json_error(s: Seq<char>) -> Option<Seq<char>>;

/// Relies on `str::trim`: the text without its leading and trailing white
/// space.
#[verifier::external_body]
fn trim_text(s: &str) -> (r: String)
    ensures
        r@ == trimmed(s@),
{
    s.trim().to_string()
}

/// Relies on `str::split_whitespace` and `Iterator::nth`: the `n`-th word
/// of the text, counting from 0.
#[verifier::external_body]
fn nth_word(s: &str, n: usize) -> (r: Option<String>)
    ensures
        r matches Some(w) ==> word_at(s@, n) == Some(w@),
        r is None ==> word_at(s@, n) is None,
{
    s.split_whitespace().nth(n).map(|w| w.to_string())
}

/// Relies on `serde_json::from_str` into a `serde_json::Value`: it parses
/// or reports an error, whose message the result carries.
#[verifier::external_body]
fn parse_json(s: &str) -> (r: Result<serde_json::Value, String>)
    ensures
        r is Ok <==> json_error(s@) is None,
        r matches Err(m) ==> json_error(s@) == Some(m@),
{
    serde_json::from_str::<serde_json::Value>(s).map_err(|e| e.to_string())
}

/// The first line of `s`, without its line ending (`\n` or `\r\n`); none
/// for an empty text.
pub open spec fn spec_first_line(s: Seq<char>) -> Option<Seq<char>> {
    if s.len() == 0 {
        None
    } else {
        let k = if exists|i: int| 0 <= i < s.len() && s[i] == '\n' {
            choose|i: int| 0 <= i < s.len() && s[i] == '\n' && forall|j: int| 0 <= j < i ==> s[j] != '\n'
        } else {
            s.len() as int
        };
        if k < s.len() && k > 0 && s[k - 1] == '\r' {
            Some(s.subrange(0, k - 1))
        } else {
            Some(s.subrange(0, k))
        }
    }
}

/// The line the version is read from: the first line, or `Unknown`.
pub open spec fn spec_version_line(s: Seq<char>) -> Seq<char> {
    match spec_first_line(s) {
        Some(l) => l,
        None => "Unknown"@,
    }
}

/// The version shown by a line: for the transcode tool's
/// `ffmpeg version X ...` its third word `third`, else the whole line.
pub open spec fn spec_pick_version(line: Seq<char>, third: Option<Seq<char>>) -> Seq<char> {
    if has_prefix(line, "ffmpeg version"@) {
        match third {
            Some(w) => w,
            None => line,
        }
    } else {
        line
    }
}

/// The version read from `tool`'s standard output: the first line of the
/// trimmed text, cut to its version word for the transcode tool only.
pub open spec fn spec_version_of_output(out: Seq<char>, tool: ManagedTool) -> Seq<char> {
    let line = spec_version_line(trimmed(out));
    if tool == ManagedTool::TranscodeTool {
        spec_pick_version(line, word_at(line, 2))
    } else {
        line
    }
}

/// The first line of `s`, as `spec_first_line` states it.
pub fn first_line(s: &str) -> (r: Option<String>)
    ensures
        r matches Some(l) ==> spec_first_line(s@) == Some(l@),
        r is None ==> spec_first_line(s@) is None,
{
    let n = s.unicode_len();
    if n == 0 {
        return None;
    }
    let mut k: usize = 0;
    while k < n
        invariant
            n == s@.len(),
            k <= n,
            forall|j: int| 0 <= j < k ==> s@[j] != '\n',
        ensures
            k <= n,
            forall|j: int| 0 <= j < k ==> s@[j] != '\n',
            k < n ==> s@[k as int] == '\n',
        decreases n - k,
    {
        if s.get_char(k) == '\n' {
            break;
        }
        k = k + 1;
    }
    proof {
        if k < n {
            assert(s@[k as int] == '\n');
            let c = choose|i: int|
                0 <= i < s@.len() && s@[i] == '\n' && forall|j: int| 0 <= j < i ==> s@[j] != '\n';
            assert(0 <= c < s@.len() && s@[c] == '\n' && forall|j: int| 0 <= j < c ==> s@[j] != '\n');
            if c < k {
                assert(s@[c] != '\n');
            }
            if k < c {
                assert(s@[k as int] != '\n');
            }
        } else {
            assert(!exists|i: int| 0 <= i < s@.len() && s@[i] == '\n');
        }
    }
    if k < n && k > 0 && s.get_char(k - 1) == '\r' {
        Some(String::from_str(s.substring_char(0, k - 1)))
    } else {
        Some(String::from_str(s.substring_char(0, k)))
    }
}

/// The version shown by `line`, given its third word `third` as
/// `str::split_whitespace` counts words: that word if the line reads
/// `ffmpeg version ...`, else the whole line.
pub fn pick_version(line: &str, third: Option<String>) -> (r: String)
    ensures
        r@ == spec_pick_version(line@, match third {
            Some(w) => Some(w@),
            None => None,
        }),
{
    if starts_with_text(line, "ffmpeg version") {
        match third {
            Some(w) => w,
            None => String::from_str(line),
        }
    } else {
        String::from_str(line)
    }
}

/// The version `tool` printed on its standard output `out`: the first line
/// of the trimmed text (`Unknown` if there is none); for the transcode tool,
/// cut to the version word of its banner.
pub fn version_from_output(out: &str, tool: ManagedTool) -> (r: String)
    ensures
        r@ == spec_version_of_output(out@, tool),
{
    let t = trim_text(out);
    let line = match first_line(t.as_str()) {
        Some(l) => l,
        None => String::from_str("Unknown"),
    };
    if tool == ManagedTool::TranscodeTool {
        let third = nth_word(line.as_str(), 2);
        pick_version(line.as_str(), third)
    } else {
        line
    }
}

/// The outcome of a version query of `tool`: the version it printed on
/// `stdout` if the query succeeded, else nothing.
pub fn version_query(success: bool, stdout: &str, tool: ManagedTool) -> (r: Option<String>)
    ensures
        success ==> (r matches Some(v) && v@ == spec_version_of_output(stdout@, tool)),
        !success ==> r is None,
{
    if success {
        Some(version_from_output(stdout, tool))
    } else {
        None
    }
}

/// The flag that makes `tool` print its version.
pub fn version_flag(tool: ManagedTool) -> (r: &'static str)
    ensures
        tool == ManagedTool::FetchTool ==> r@ == "--version"@,
        tool == ManagedTool::TranscodeTool ==> r@ == "-version"@,
{
    match tool {
        ManagedTool::FetchTool => "--version",
        ManagedTool::TranscodeTool => "-version",
    }
}

/// The versions of the two managed tools, as a caller reads them.
#[derive(Clone, Debug)]
pub struct BinaryVersions {
    pub yt_dlp: String,
    pub ffmpeg: String,
}

/// The text shown for a version: the version, or `Not detected`.
pub open spec fn spec_shown_version(v: Option<Seq<char>>) -> Seq<char> {
    match v {
        Some(s) => s,
        None => "Not detected"@,
    }
}

fn shown_version(v: Option<String>) -> (r: String)
    ensures
        r@ == spec_shown_version(match v {
            Some(s) => Some(s@),
            None => None,
        }),
{
    match v {
        Some(s) => s,
        None => String::from_str("Not detected"),
    }
}

/// The versions to report, from what each tool's version query gave
/// (none if the tool is absent or the query failed).
pub fn get_binary_versions(yt_dlp: Option<String>, ffmpeg: Option<String>) -> (r: BinaryVersions)
    ensures
        r.yt_dlp@ == spec_shown_version(match yt_dlp {
            Some(s) => Some(s@),
            None => None,
        }),
        r.ffmpeg@ == spec_shown_version(match ffmpeg {
            Some(s) => Some(s@),
            None => None,
        }),
{
    BinaryVersions { yt_dlp: shown_version(yt_dlp), ffmpeg: shown_version(ffmpeg) }
}

/// Whether each managed tool is installed, and where they live.
#[derive(Clone, Debug)]
pub struct BinaryStatus {
    pub ytdlp: bool,
    pub ffmpeg: bool,
    pub path: String,
}

/// The provisioning check: whether each tool is present in `bin_dir`.
pub fn check_binaries(bin_dir: &str, ytdlp_present: bool, ffmpeg_present: bool) -> (r:
    BinaryStatus)
    ensures
        r.ytdlp == ytdlp_present,
        r.ffmpeg == ffmpeg_present,
        r.path@ == bin_dir@,
{
    BinaryStatus { ytdlp: ytdlp_present, ffmpeg: ffmpeg_present, path: String::from_str(bin_dir) }
}

/// The hardware encoder families whose encoders appear in the transcode
/// tool's encoder listing `out`, in a fixed order.
pub open spec fn spec_hw_encoders(out: Seq<char>) -> Seq<Seq<char>> {
    (if has_substring(out, "h264_nvenc"@) || has_substring(out, "hevc_nvenc"@) {
        seq!["nvenc"@]
    } else {
        seq![]
    }) + (if has_substring(out, "h264_qsv"@) || has_substring(out, "hevc_qsv"@) {
        seq!["qsv"@]
    } else {
        seq![]
    }) + (if has_substring(out, "h264_videotoolbox"@) || has_substring(out, "hevc_videotoolbox"@) {
        seq!["videotoolbox"@]
    } else {
        seq![]
    }) + (if has_substring(out, "h264_amf"@) || has_substring(out, "hevc_amf"@) {
        seq!["amf"@]
    } else {
        seq![]
    })
}

fn push_if_listed(found: &mut Vec<String>, out: &str, h264: &str, hevc: &str, family: &str)
    ensures
        views(final(found)@) == views(old(found)@) + if has_substring(out@, h264@) || has_substring(
            out@,
            hevc@,
        ) {
            seq![family@]
        } else {
            seq![]
        },
{
    if contains_text(out, h264) || contains_text(out, hevc) {
        found.push(String::from_str(family));
        assert(views(found@) =~= views(old(found)@) + seq![family@]);
    } else {
        assert(views(found@) =~= views(old(found)@) + Seq::<Seq<char>>::empty());
    }
}

/// The hardware encoder families offered, from the transcode tool's
/// encoder listing `out`.
pub fn available_hw_encoders(out: &str) -> (r: Vec<String>)
    ensures
        views(r@) == spec_hw_encoders(out@),
{
    let mut found: Vec<String> = Vec::new();
    assert(views(found@) =~= Seq::<Seq<char>>::empty());
    push_if_listed(&mut found, out, "h264_nvenc", "hevc_nvenc", "nvenc");
    push_if_listed(&mut found, out, "h264_qsv", "hevc_qsv", "qsv");
    push_if_listed(&mut found, out, "h264_videotoolbox", "hevc_videotoolbox", "videotoolbox");
    push_if_listed(&mut found, out, "h264_amf", "hevc_amf", "amf");
    assert(views(found@) =~= spec_hw_encoders(out@));
    found
}

/// The arguments that ask the fetch tool for the information on `url` as
/// JSON, without downloading.
pub fn video_info_args(url: &str) -> (r: Vec<String>)
    ensures
        views(r@) == seq!["-J"@, "--flat-playlist"@, "--no-warnings"@, url@],
{
    let r = vec![
        String::from_str("-J"),
        String::from_str("--flat-playlist"),
        String::from_str("--no-warnings"),
        String::from_str(url),
    ];
    assert(views(r@) =~= seq!["-J"@, "--flat-playlist"@, "--no-warnings"@, url@]);
    r
}

/// The command that asks the fetch tool at `yt_dlp_path` for the
/// information on `url`: the program and its arguments; without the fetch
/// tool, the not-found error and nothing to run.
pub fn video_info_command(yt_dlp_path: Option<String>, url: &str) -> (r: Result<
    (String, Vec<String>),
    String,
>)
    ensures
        yt_dlp_path is None ==> (r matches Err(m) && m@ == "yt-dlp not found"@),
        yt_dlp_path matches Some(p) ==> (r matches Ok((prog, args)) && prog@ == p@ && views(args@)
            == seq!["-J"@, "--flat-playlist"@, "--no-warnings"@, url@]),
{
    match yt_dlp_path {
        Some(p) => Ok((p, video_info_args(url))),
        None => Err(String::from_str("yt-dlp not found")),
    }
}

/// The media information from the fetch tool's run: the JSON document it
/// printed if it succeeded, else what it printed on its error stream; a
/// document that does not parse gives the parser's message.
pub fn fetch_video_info(success: bool, stdout: &str, stderr: &str) -> (r: Result<
    serde_json::Value,
    String,
>)
    ensures
        !success ==> (r matches Err(m) && m@ == stderr@),
        success ==> (r is Ok <==> json_error(stdout@) is None),
        success ==> (r matches Err(m) ==> json_error(stdout@) == Some(m@)),
{
    if success {
        parse_json(stdout)
    } else {
        Err(String::from_str(stderr))
    }
}

} // verus!
