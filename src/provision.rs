//! Installing and updating the managed binaries: the steps each platform
//! needs, decided ahead of any I/O.
use vstd::prelude::*;

use crate::paths::{join_path, joined_path, spec_binary_path, binary_path};
use crate::platform::{set_executable_permission, clears_quarantine, Platform, EXECUTABLE_MODE};

verus! {

/// The binaries this library provisions.
#[derive(Clone, Copy, Debug, PartialEq, Eq, Structural)]
pub enum ManagedTool {
    /// The media-fetch tool.
    FetchTool,
    /// The media-transcode tool, with its probe companion.
    TranscodeTool,
}

/// One step of an installation, carried out in order by the caller; the
/// first step that fails ends the installation, but for the best-effort
/// clearing of the quarantine attribute.
#[derive(Clone, Debug)]
pub enum ProvisionStep {
    /// Create a directory and its parents if missing.
    CreateDir(String),
    /// Stream `url` into the file `dest`, reporting progress under the
    /// binary tag and status key.
    Download { url: String, dest: String, tag: String, status_key: String },
    /// Unpack the zip archive `archive` into the directory `target`.
    Extract { archive: String, target: String },
    /// Delete a file.
    RemoveFile(String),
    /// Set the POSIX mode of a file.
    SetMode { path: String, mode: u32 },
    /// Clear the quarantine attribute of a file, ignoring failure.
    ClearQuarantine(String),
}

/// A step as text.
pub enum StepView {
    CreateDir(Seq<char>),
    Download { url: Seq<char>, dest: Seq<char>, tag: Seq<char>, status_key: Seq<char> },
    Extract { archive: Seq<char>, target: Seq<char> },
    RemoveFile(Seq<char>),
    SetMode { path: Seq<char>, mode: u32 },
    ClearQuarantine(Seq<char>),
}

impl View for ProvisionStep {
    type V = StepView;

    open spec fn view(&self) -> StepView {
        match self {
            ProvisionStep::CreateDir(d) => StepView::CreateDir(d@),
            ProvisionStep::Download { url, dest, tag, status_key } => StepView::Download {
                url: url@,
                dest: dest@,
                tag: tag@,
                status_key: status_key@,
            },
            ProvisionStep::Extract { archive, target } => StepView::Extract {
                archive: archive@,
                target: target@,
            },
            ProvisionStep::RemoveFile(f) => StepView::RemoveFile(f@),
            ProvisionStep::SetMode { path, mode } => StepView::SetMode { path: path@, mode: *mode },
            ProvisionStep::ClearQuarantine(f) => StepView::ClearQuarantine(f@),
        }
    }
}

impl ProvisionStep {
    /// Whether a failure of this step ends the installation: every step's
    /// does, but for clearing the quarantine attribute, which is best effort
    /// since the binary may run anyway once the user allows it.
    pub fn failure_stops(&self) -> (r: bool)
        ensures
            r == !(self is ClearQuarantine),
    {
        match self {
            ProvisionStep::ClearQuarantine(_) => false,
            _ => true,
        }
    }
}

/// Why a binary cannot be provisioned.
#[derive(Clone, Copy, Debug, PartialEq, Eq, Structural)]
pub enum ProvisionError {
    /// No download source is configured for this platform.
    UnsupportedPlatform,
}

impl ProvisionError {
    /// The error as a caller reads it.
    pub fn message(&self) -> (r: String)
        ensures
            r@ == "no download source is configured for this platform"@,
    {
        String::from_str("no download source is configured for this platform")
    }
}

/// What `ensure` decided.
#[derive(Clone, Debug)]
pub enum Provisioning {
    /// The binary is installed; nothing to do, nothing fetched.
    AlreadyPresent,
    /// The binary is to be installed by these steps.
    Install(Vec<ProvisionStep>),
}

/// The texts of a list of steps.
pub open spec fn step_views(v: Seq<ProvisionStep>) -> Seq<StepView> {
    v.map_values(|s: ProvisionStep| s@)
}

/// The logical name of a tool, which is also the stem of its file name.
pub open spec fn spec_tool_name(tool: ManagedTool) -> Seq<char> {
    match tool {
        ManagedTool::FetchTool => "yt-dlp"@,
        ManagedTool::TranscodeTool => "ffmpeg"@,
    }
}

/// The logical name of `tool`, under which it is resolved and installed.
pub fn tool_name(tool: ManagedTool) -> (r: &'static str)
    ensures
        r@ == spec_tool_name(tool),
{
    match tool {
        ManagedTool::FetchTool => "yt-dlp",
        ManagedTool::TranscodeTool => "ffmpeg",
    }
}

/// The tag under which a tool's provisioning events are reported.
pub open spec fn spec_binary_tag(tool: ManagedTool) -> Seq<char> {
    match tool {
        ManagedTool::FetchTool => "ytdlp"@,
        ManagedTool::TranscodeTool => "ffmpeg"@,
    }
}

/// The tag under which `tool`'s provisioning events are reported, as its
/// download steps carry it.
pub fn binary_tag(tool: ManagedTool) -> (r: &'static str)
    ensures
        r@ == spec_binary_tag(tool),
{
    match tool {
        ManagedTool::FetchTool => "ytdlp",
        ManagedTool::TranscodeTool => "ffmpeg",
    }
}

/// The outcome of updating both tools, the fetch tool first: the transcode
/// tool's outcome; a failure of the fetch tool does not stop the other
/// update and is not reported in the result.
pub fn both_tools_outcome(fetch: Result<bool, String>, transcode: Result<bool, String>) -> (r:
    Result<bool, String>)
    ensures
        r == transcode,
{
    transcode
}

/// Where the fetch tool is published for `platform`.
pub open spec fn spec_ytdlp_url(platform: Platform) -> Seq<char> {
    match platform {
        Platform::Windows => "https://github.com/yt-dlp/yt-dlp/releases/latest/download/yt-dlp.exe"@,
        Platform::MacOs => "https://github.com/yt-dlp/yt-dlp/releases/latest/download/yt-dlp_macos"@,
        Platform::Linux => "https://github.com/yt-dlp/yt-dlp/releases/latest/download/yt-dlp"@,
    }
}

/// The steps that make a downloaded file at `path` runnable on `platform`.
pub open spec fn spec_fixup_steps(path: Seq<char>, platform: Platform) -> Seq<StepView> {
    if platform == Platform::Windows {
        seq![]
    } else if platform == Platform::MacOs {
        seq![
            StepView::SetMode { path, mode: EXECUTABLE_MODE },
            StepView::ClearQuarantine(path),
        ]
    } else {
        seq![StepView::SetMode { path, mode: EXECUTABLE_MODE }]
    }
}

/// Installation of the fetch tool: a direct download to its final name.
pub open spec fn spec_ytdlp_plan(platform: Platform, bin_dir: Seq<char>) -> Seq<StepView> {
    let target = spec_binary_path(bin_dir, "yt-dlp"@, platform);
    seq![
        StepView::CreateDir(bin_dir),
        StepView::Download {
            url: spec_ytdlp_url(platform),
            dest: target,
            tag: spec_binary_tag(ManagedTool::FetchTool),
            status_key: "statusDownloadingYtDlp"@,
        },
    ] + spec_fixup_steps(target, platform)
}

/// Where the archive of `part` (`ffmpeg` or `ffprobe`) is published.
pub open spec fn spec_archive_url(part: Seq<char>) -> Seq<char> {
    "https://github.com/ffbinaries/ffbinaries-prebuilt/releases/download/v6.1/"@ + part
        + "-6.1-macos-64.zip"@
}

/// Installation of one part of the transcode tool from its zip archive:
/// download to a temporary archive, unpack, delete the archive, fix up.
pub open spec fn spec_archive_steps(part: Seq<char>, bin_dir: Seq<char>) -> Seq<StepView> {
    let archive = joined_path(bin_dir, part + ".zip"@);
    let exe = joined_path(bin_dir, part);
    seq![
        StepView::Download {
            url: spec_archive_url(part),
            dest: archive,
            tag: spec_binary_tag(ManagedTool::TranscodeTool),
            status_key: "statusDownloadingFfmpeg"@,
        },
        StepView::Extract { archive, target: bin_dir },
        StepView::RemoveFile(archive),
    ] + spec_fixup_steps(exe, Platform::MacOs)
}

/// Installation of the transcode tool: only configured for macOS, as two
/// archives, the tool and its probe companion.
pub open spec fn spec_ffmpeg_plan(platform: Platform, bin_dir: Seq<char>) -> Option<
    Seq<StepView>,
> {
    if platform == Platform::MacOs {
        Some(
            seq![StepView::CreateDir(bin_dir)] + spec_archive_steps("ffmpeg"@, bin_dir)
                + spec_archive_steps("ffprobe"@, bin_dir),
        )
    } else {
        None
    }
}

/// The installation plan of `tool`, if its platform is configured.
pub open spec fn spec_install_plan(tool: ManagedTool, platform: Platform, bin_dir: Seq<char>) -> Option<
    Seq<StepView>,
> {
    match tool {
        ManagedTool::FetchTool => Some(spec_ytdlp_plan(platform, bin_dir)),
        ManagedTool::TranscodeTool => spec_ffmpeg_plan(platform, bin_dir),
    }
}

/// Whether a plan fetches anything over the network.
pub open spec fn has_download(steps: Seq<StepView>) -> bool {
    exists|i: int| 0 <= i < steps.len() && #[trigger] steps[i] is Download
}

/// `r` answers `spec_install_plan` for the same arguments.
pub open spec fn plan_matches(
    r: Result<Vec<ProvisionStep>, ProvisionError>,
    tool: ManagedTool,
    platform: Platform,
    bin_dir: Seq<char>,
) -> bool {
    match spec_install_plan(tool, platform, bin_dir) {
        Some(p) => r matches Ok(steps) && step_views(steps@) == p,
        None => r == Err::<Vec<ProvisionStep>, ProvisionError>(ProvisionError::UnsupportedPlatform),
    }
}

fn push_step(steps: &mut Vec<ProvisionStep>, s: ProvisionStep)
    ensures
        step_views(final(steps)@) == step_views(old(steps)@).push(s@),
{
    let ghost v = s@;
    steps.push(s);
    assert(step_views(steps@) =~= step_views(old(steps)@).push(v));
}

fn push_fixup(steps: &mut Vec<ProvisionStep>, path: &str, platform: Platform)
    ensures
        step_views(final(steps)@) == step_views(old(steps)@) + spec_fixup_steps(path@, platform),
{
    match set_executable_permission(platform) {
        Some(mode) => {
            push_step(steps, ProvisionStep::SetMode { path: String::from_str(path), mode });
        },
        None => {},
    }
    if clears_quarantine(platform) {
        push_step(steps, ProvisionStep::ClearQuarantine(String::from_str(path)));
    }
    assert(step_views(steps@) =~= step_views(old(steps)@) + spec_fixup_steps(path@, platform));
}

/// The steps that install the fetch tool into `bin_dir` on `platform`.
pub fn ytdlp_install_plan(platform: Platform, bin_dir: &str) -> (r: Vec<ProvisionStep>)
    ensures
        step_views(r@) == spec_ytdlp_plan(platform, bin_dir@),
{
    let target = binary_path(bin_dir, "yt-dlp", platform);
    let url = match platform {
        Platform::Windows => "https://github.com/yt-dlp/yt-dlp/releases/latest/download/yt-dlp.exe",
        Platform::MacOs => "https://github.com/yt-dlp/yt-dlp/releases/latest/download/yt-dlp_macos",
        Platform::Linux => "https://github.com/yt-dlp/yt-dlp/releases/latest/download/yt-dlp",
    };
    let mut steps: Vec<ProvisionStep> = Vec::new();
    assert(step_views(steps@) =~= Seq::<StepView>::empty());
    push_step(&mut steps, ProvisionStep::CreateDir(String::from_str(bin_dir)));
    push_step(
        &mut steps,
        ProvisionStep::Download {
            url: String::from_str(url),
            dest: target.clone(),
            tag: String::from_str(binary_tag(ManagedTool::FetchTool)),
            status_key: String::from_str("statusDownloadingYtDlp"),
        },
    );
    push_fixup(&mut steps, target.as_str(), platform);
    steps
}

fn archive_url(part: &str) -> (r: String)
    ensures
        r@ == spec_archive_url(part@),
{
    let mut url = String::from_str(
        "https://github.com/ffbinaries/ffbinaries-prebuilt/releases/download/v6.1/",
    );
    url.append(part);
    url.append("-6.1-macos-64.zip");
    url
}

fn push_archive_steps(steps: &mut Vec<ProvisionStep>, part: &str, bin_dir: &str)
    ensures
        step_views(final(steps)@) == step_views(old(steps)@) + spec_archive_steps(part@, bin_dir@),
{
    let mut archive_name = String::from_str(part);
    archive_name.append(".zip");
    let archive = join_path(bin_dir, archive_name.as_str());
    let exe = join_path(bin_dir, part);
    let ghost s0 = step_views(steps@);
    push_step(
        steps,
        ProvisionStep::Download {
            url: archive_url(part),
            dest: archive.clone(),
            tag: String::from_str(binary_tag(ManagedTool::TranscodeTool)),
            status_key: String::from_str("statusDownloadingFfmpeg"),
        },
    );
    push_step(
        steps,
        ProvisionStep::Extract { archive: archive.clone(), target: String::from_str(bin_dir) },
    );
    push_step(steps, ProvisionStep::RemoveFile(archive));
    let ghost s1 = step_views(steps@);
    push_fixup(steps, exe.as_str(), Platform::MacOs);
    assert(step_views(steps@) =~= s0 + spec_archive_steps(part@, bin_dir@));
}

/// The steps that install the transcode tool and its probe companion into
/// `bin_dir` on `platform`; only macOS has a source configured.
pub fn ffmpeg_install_plan(platform: Platform, bin_dir: &str) -> (r: Result<
    Vec<ProvisionStep>,
    ProvisionError,
>)
    ensures
        plan_matches(r, ManagedTool::TranscodeTool, platform, bin_dir@),
{
    if platform != Platform::MacOs {
        return Err(ProvisionError::UnsupportedPlatform);
    }
    let mut steps: Vec<ProvisionStep> = Vec::new();
    assert(step_views(steps@) =~= Seq::<StepView>::empty());
    push_step(&mut steps, ProvisionStep::CreateDir(String::from_str(bin_dir)));
    let ghost s1 = step_views(steps@);
    push_archive_steps(&mut steps, "ffmpeg", bin_dir);
    let ghost s2 = step_views(steps@);
    push_archive_steps(&mut steps, "ffprobe", bin_dir);
    assert(step_views(steps@) =~= seq![StepView::CreateDir(bin_dir@)] + spec_archive_steps(
        "ffmpeg"@,
        bin_dir@,
    ) + spec_archive_steps("ffprobe"@, bin_dir@));
    Ok(steps)
}

/// The steps that install `tool` afresh into `bin_dir`, whether or not it is
/// present; an unconfigured platform is an explicit error.
pub fn force_update(tool: ManagedTool, platform: Platform, bin_dir: &str) -> (r: Result<
    Vec<ProvisionStep>,
    ProvisionError,
>)
    ensures
        plan_matches(r, tool, platform, bin_dir@),
{
    match tool {
        ManagedTool::FetchTool => Ok(ytdlp_install_plan(platform, bin_dir)),
        ManagedTool::TranscodeTool => ffmpeg_install_plan(platform, bin_dir),
    }
}

/// Makes sure `tool` is installed: nothing to do if `present` says it is
/// at its path already, else the steps of `force_update`.
pub fn ensure(tool: ManagedTool, platform: Platform, bin_dir: &str, present: bool) -> (r: Result<
    Provisioning,
    ProvisionError,
>)
    ensures
        present ==> r matches Ok(Provisioning::AlreadyPresent),
        !present ==> match spec_install_plan(tool, platform, bin_dir@) {
            Some(p) => r matches Ok(Provisioning::Install(steps)) && step_views(steps@) == p,
            None => r matches Err(ProvisionError::UnsupportedPlatform),
        },
{
    if present {
        return Ok(Provisioning::AlreadyPresent);
    }
    match force_update(tool, platform, bin_dir) {
        Ok(steps) => Ok(Provisioning::Install(steps)),
        Err(e) => Err(e),
    }
}

/// Every installation plan fetches its binary over the network, while
/// `ensure` on a binary already present yields no step at all, so issues no
/// request.
pub proof fn present_binary_needs_no_fetch(tool: ManagedTool, platform: Platform, bin_dir: Seq<char>)
    ensures
        spec_install_plan(tool, platform, bin_dir) matches Some(p) ==> has_download(p),
{
    match spec_install_plan(tool, platform, bin_dir) {
        Some(p) => {
            assert(p[1] is Download);
        },
        None => {},
    }
}

} // verus!
