//! One download job: the launch of the fetch tool, the output it forwards
//! and the single terminal result.
use vstd::prelude::*;

use crate::args::{spec_ytdlp_args, views, ytdlp_args};
use crate::request::DownloadPayload;

verus! {

/// The terminal event of a job.
#[derive(Clone, Debug)]
pub struct DownloadResult {
    pub success: bool,
    pub message: String,
    pub title: Option<String>,
    pub filename: Option<String>,
    pub file_size: Option<u64>,
}

/// Why a job could not start.
#[derive(Clone, Debug)]
pub enum JobError {
    /// The fetch tool is not installed in the managed directory.
    ToolNotFound,
    /// The operating system refused to start the process; its reason.
    SpawnFailed(String),
}

impl JobError {
    /// The error as a caller reads it.
    pub fn message(&self) -> (r: String)
        ensures
            self is ToolNotFound ==> r@ == "yt-dlp not found"@,
            self matches JobError::SpawnFailed(e) ==> r@ == "Failed to spawn yt-dlp: "@ + e@,
    {
        match self {
            JobError::ToolNotFound => String::from_str("yt-dlp not found"),
            JobError::SpawnFailed(e) => {
                let mut m = String::from_str("Failed to spawn yt-dlp: ");
                m.append(e.as_str());
                m
            },
        }
    }
}

/// What is needed to start the fetch tool for a request.
#[derive(Clone, Debug)]
pub struct JobLaunch {
    pub program: String,
    pub args: Vec<String>,
    /// The progress line sent before the process starts.
    pub announcement: String,
}

/// How the fetch tool's process ended, as the operating system reports it.
#[derive(Clone, Debug)]
pub enum ExitOutcome {
    /// It exited, with its exit code if it had one (none when a signal ended
    /// it).
    Exited(Option<i32>),
    /// Waiting for it failed; the reason.
    WaitFailed(String),
}

/// Where a job stands.
#[derive(Clone, Copy, Debug, PartialEq, Eq, Structural)]
pub enum JobPhase {
    Created,
    Running,
    Completed,
    SpawnFailed,
}

/// A job's state. Its terminal result is produced exactly once.
#[derive(Clone, Copy, Debug, PartialEq, Eq, Structural)]
pub struct DownloadJob {
    pub phase: JobPhase,
}

/// Whether an exit counts as success: an exit code of zero.
pub open spec fn spec_exit_success(status: ExitOutcome) -> bool {
    status == ExitOutcome::Exited(Some(0i32))
}

/// The message of the terminal event for an exit.
pub open spec fn spec_exit_message(status: ExitOutcome) -> Seq<char> {
    match status {
        ExitOutcome::Exited(code) => if code == Some(0i32) {
            "Download complete"@
        } else {
            "Download failed"@
        },
        ExitOutcome::WaitFailed(e) => "Process error: "@ + e@,
    }
}

/// The terminal result `r` reports the exit `status`.
pub open spec fn reports_exit(r: DownloadResult, status: ExitOutcome) -> bool {
    &&& r.success == spec_exit_success(status)
    &&& r.message@ == spec_exit_message(status)
    &&& r.title is None
    &&& r.filename is None
    &&& r.file_size is None
}

/// Whether output lines are forwarded in phase `phase`: once the process
/// runs, and after it has ended for lines still draining.
pub open spec fn spec_forwards(phase: JobPhase) -> bool {
    phase == JobPhase::Running || phase == JobPhase::Completed
}

/// Whether the job still owes its terminal event.
pub open spec fn spec_awaits_exit(j: DownloadJob) -> bool {
    j.phase == JobPhase::Running
}

/// The state after the process's exit is seen.
pub open spec fn spec_after_exit(j: DownloadJob) -> DownloadJob {
    if spec_awaits_exit(j) {
        DownloadJob { phase: JobPhase::Completed }
    } else {
        j
    }
}

/// Prepares a job for `payload`: the fetch tool at `yt_dlp_path` (none if
/// it is absent) with the arguments for the request, the transcode tool at
/// `ffmpeg_path` if installed. Without the fetch tool nothing is launched and
/// nothing is announced.
pub fn start_download(
    payload: &DownloadPayload,
    yt_dlp_path: Option<String>,
    ffmpeg_path: Option<String>,
    ffmpeg_is_dir: bool,
) -> (r: Result<JobLaunch, JobError>)
    ensures
        yt_dlp_path is None ==> r matches Err(JobError::ToolNotFound),
        yt_dlp_path matches Some(p) ==> (r matches Ok(l) && l.program@ == p@ && views(l.args@)
            == spec_ytdlp_args(
            *payload,
            match ffmpeg_path {
                Some(f) => Some(f@),
                None => None,
            },
            ffmpeg_is_dir,
        ) && l.announcement@ == "Starting download for "@ + payload.url@),
{
    let tool = match yt_dlp_path {
        Some(p) => p,
        None => {
            return Err(JobError::ToolNotFound);
        },
    };
    let args = ytdlp_args(payload, ffmpeg_path.as_ref(), ffmpeg_is_dir);
    let mut announcement = String::from_str("Starting download for ");
    announcement.append(payload.url.as_str());
    Ok(JobLaunch { program: tool, args, announcement })
}

/// The terminal result for an exit `status`: success exactly when the exit
/// code is zero.
pub fn completion_result(status: &ExitOutcome) -> (r: DownloadResult)
    ensures
        reports_exit(r, *status),
{
    let (success, message) = match status {
        ExitOutcome::Exited(Some(code)) => {
            if *code == 0 {
                (true, String::from_str("Download complete"))
            } else {
                (false, String::from_str("Download failed"))
            }
        },
        ExitOutcome::Exited(None) => (false, String::from_str("Download failed")),
        ExitOutcome::WaitFailed(e) => {
            let mut m = String::from_str("Process error: ");
            m.append(e.as_str());
            (false, m)
        },
    };
    DownloadResult { success, message, title: None, filename: None, file_size: None }
}

impl DownloadJob {
    /// A job that has not started its process yet.
    pub fn new() -> (r: DownloadJob)
        ensures
            r.phase == JobPhase::Created,
    {
        DownloadJob { phase: JobPhase::Created }
    }

    /// Records the outcome of starting the process: `Ok` if it runs, else
    /// the operating system's reason. Only a created job can start.
    pub fn spawned(&mut self, outcome: Result<(), String>) -> (r: Result<(), JobError>)
        requires
            old(self).phase == JobPhase::Created,
        ensures
            outcome is Ok ==> r is Ok && final(self).phase == JobPhase::Running,
            outcome matches Err(e) ==> (r matches Err(JobError::SpawnFailed(m)) && m@ == e@
                && final(self).phase == JobPhase::SpawnFailed),
    {
        match outcome {
            Ok(()) => {
                self.phase = JobPhase::Running;
                Ok(())
            },
            Err(e) => {
                self.phase = JobPhase::SpawnFailed;
                Err(JobError::SpawnFailed(e))
            },
        }
    }

    /// The progress event for a line of output, from either stream: the
    /// line itself, once the process has started.
    pub fn on_line(&self, line: String) -> (r: Option<String>)
        ensures
            spec_forwards(self.phase) ==> (r matches Some(l) && l@ == line@),
            !spec_forwards(self.phase) ==> r is None,
    {
        if self.phase == JobPhase::Running || self.phase == JobPhase::Completed {
            Some(line)
        } else {
            None
        }
    }

    /// Records the end of the process. Yields the terminal result the first
    /// time only, for a running job.
    pub fn on_exit(&mut self, status: &ExitOutcome) -> (r: Option<DownloadResult>)
        ensures
            *final(self) == spec_after_exit(*old(self)),
            spec_awaits_exit(*old(self)) ==> (r matches Some(res) && reports_exit(res, *status)),
            !spec_awaits_exit(*old(self)) ==> r is None,
    {
        if self.phase == JobPhase::Running {
            self.phase = JobPhase::Completed;
            Some(completion_result(status))
        } else {
            None
        }
    }

    /// Cancels a running job: its process is to be killed, and the job ends
    /// failed. Yields that terminal result, or nothing if the job does not
    /// run.
    pub fn cancel(&mut self) -> (r: Option<DownloadResult>)
        ensures
            *final(self) == spec_after_exit(*old(self)),
            spec_awaits_exit(*old(self)) ==> (r matches Some(res) && !res.success
                && res.message@ == "Download cancelled"@),
            !spec_awaits_exit(*old(self)) ==> r is None,
    {
        if self.phase == JobPhase::Running {
            self.phase = JobPhase::Completed;
            Some(
                DownloadResult {
                    success: false,
                    message: String::from_str("Download cancelled"),
                    title: None,
                    filename: None,
                    file_size: None,
                },
            )
        } else {
            None
        }
    }
}

/// A running job whose process exits with a non-zero code yields one
/// terminal result, a failure, and never another, whatever is seen after.
pub proof fn failed_exit_ends_once(j: DownloadJob, code: i32, r: DownloadResult)
    requires
        j.phase == JobPhase::Running,
        code != 0,
        reports_exit(r, ExitOutcome::Exited(Some(code))),
    ensures
        spec_awaits_exit(j),
        !r.success,
        !spec_awaits_exit(spec_after_exit(j)),
        spec_after_exit(spec_after_exit(j)) == spec_after_exit(j),
{
}

/// A job whose process never started forwards no line and yields no
/// terminal result.
pub proof fn unstarted_job_is_silent(j: DownloadJob)
    requires
        j.phase == JobPhase::Created || j.phase == JobPhase::SpawnFailed,
    ensures
        !spec_forwards(j.phase),
        !spec_awaits_exit(j),
        spec_after_exit(j) == j,
{
}

} // verus!
