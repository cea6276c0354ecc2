//! Bookkeeping of one streamed transfer: bytes received, throttled progress
//! snapshots, and the events that carry them.
use vstd::prelude::*;

verus! {

/// Least time between two throttled snapshots, in milliseconds.
pub const THROTTLE_MS: u64 = 100;

/// A progress snapshot: bytes so far, the announced total (0 if unknown)
/// and the mean speed since the start, in bytes per second.
#[derive(Clone, Copy, Debug, PartialEq, Eq, Structural)]
pub struct ProgressData {
    pub downloaded: u64,
    pub total: u64,
    pub speed: u64,
}

/// An event about the provisioning of one binary.
#[derive(Clone, Debug)]
pub struct BinaryUpdateProgress {
    /// Which binary: `ytdlp` or `ffmpeg`.
    pub type_: String,
    /// 0 to 100; 0 while the total is unknown.
    pub percent: u64,
    pub status_input: Option<String>,
    pub status_key: Option<String>,
    pub progress_data: Option<ProgressData>,
}

/// The state of one transfer. Times are milliseconds since it started.
#[derive(Clone, Copy, Debug, PartialEq, Eq, Structural)]
pub struct TransferProgress {
    pub downloaded: u64,
    pub total: u64,
    pub last_emit_ms: u64,
    pub reports: bool,
}

/// Percent done: `downloaded * 100 / total`, at most 100; 0 for an unknown
/// total.
pub open spec fn spec_percent(downloaded: u64, total: u64) -> nat {
    if total == 0 {
        0
    } else if downloaded >= total {
        100
    } else {
        (downloaded as nat * 100 / total as nat) as nat
    }
}

/// Mean speed in bytes per second after `elapsed_ms` milliseconds, capped at
/// the largest `u64`; 0 before any time has passed.
pub open spec fn spec_speed(downloaded: u64, elapsed_ms: u64) -> nat {
    if elapsed_ms == 0 {
        0
    } else {
        let s = downloaded as nat * 1000 / elapsed_ms as nat;
        if s > u64::MAX {
            u64::MAX as nat
        } else {
            s
        }
    }
}

/// Bytes received after a chunk of `len` more, capped at the largest `u64`.
pub open spec fn spec_added(downloaded: u64, len: u64) -> u64 {
    if downloaded as nat + len as nat > u64::MAX {
        u64::MAX
    } else {
        (downloaded + len) as u64
    }
}

/// Whether a chunk that arrives at `now_ms` yields a snapshot.
pub open spec fn spec_emits(t: TransferProgress, now_ms: u64) -> bool {
    t.reports && now_ms > t.last_emit_ms && now_ms - t.last_emit_ms > THROTTLE_MS
}

/// The byte count a snapshot shows: the bytes received, held to a known
/// total, so that it never exceeds the total announced.
pub open spec fn spec_shown(downloaded: u64, total: u64) -> u64 {
    if total > 0 && downloaded > total {
        total
    } else {
        downloaded
    }
}

/// The snapshot of `downloaded` bytes received of `total` at `now_ms`; its
/// speed counts every byte received.
pub open spec fn spec_snapshot(downloaded: u64, total: u64, now_ms: u64) -> ProgressData {
    ProgressData {
        downloaded: spec_shown(downloaded, total),
        total,
        speed: spec_speed(downloaded, now_ms) as u64,
    }
}

/// The byte count shown for `downloaded` bytes of `total`, as `spec_shown`
/// states it.
pub fn shown_count(downloaded: u64, total: u64) -> (r: u64)
    ensures
        r == spec_shown(downloaded, total),
        total > 0 ==> r <= total,
        r <= downloaded,
{
    if total > 0 && downloaded > total {
        total
    } else {
        downloaded
    }
}

/// The state after a chunk of `len` bytes arrives at `now_ms`.
pub open spec fn spec_after_chunk(t: TransferProgress, len: u64, now_ms: u64) -> TransferProgress {
    TransferProgress {
        downloaded: spec_added(t.downloaded, len),
        last_emit_ms: if spec_emits(t, now_ms) {
            now_ms
        } else {
            t.last_emit_ms
        },
        ..t
    }
}

/// The snapshot a chunk of `len` bytes at `now_ms` yields, if any.
pub open spec fn spec_chunk_event(t: TransferProgress, len: u64, now_ms: u64) -> Option<
    ProgressData,
> {
    if spec_emits(t, now_ms) {
        Some(spec_snapshot(spec_added(t.downloaded, len), t.total, now_ms))
    } else {
        None
    }
}

/// Percent done, as `spec_percent` states it.
pub fn percent(downloaded: u64, total: u64) -> (r: u64)
    ensures
        r == spec_percent(downloaded, total),
        r <= 100,
{
    if total == 0 {
        0
    } else if downloaded >= total {
        100
    } else {
        let d = downloaded as u128;
        let t = total as u128;
        assert((d as int) * 100 < u128::MAX) by (nonlinear_arith)
            requires
                d <= u64::MAX,
        ;
        assert((d as int) * 100 / (t as int) < 100) by (nonlinear_arith)
            requires
                (d as int) < (t as int),
                (t as int) > 0,
        ;
        (d * 100 / t) as u64
    }
}

/// Mean speed, as `spec_speed` states it.
pub fn speed(downloaded: u64, elapsed_ms: u64) -> (r: u64)
    ensures
        r == spec_speed(downloaded, elapsed_ms),
{
    if elapsed_ms == 0 {
        0
    } else {
        let d = downloaded as u128;
        assert(d * 1000 <= u64::MAX as u128 * 1000) by (nonlinear_arith)
            requires
                d <= u64::MAX as u128,
        ;
        let s = d * 1000 / (elapsed_ms as u128);
        if s > u64::MAX as u128 {
            u64::MAX
        } else {
            s as u64
        }
    }
}

impl TransferProgress {
    /// A transfer of `total` bytes (0 if unknown) that has just started;
    /// `reports` tells whether it yields snapshots.
    pub fn new(total: u64, reports: bool) -> (r: TransferProgress)
        ensures
            r == (TransferProgress { downloaded: 0, total, last_emit_ms: 0, reports }),
    {
        TransferProgress { downloaded: 0, total, last_emit_ms: 0, reports }
    }

    /// Records a chunk of `len` bytes that arrived at `now_ms`. Yields a
    /// snapshot if more than the throttle interval has passed since the
    /// last one (or since the start).
    pub fn record_chunk(&mut self, len: u64, now_ms: u64) -> (r: Option<ProgressData>)
        ensures
            *final(self) == spec_after_chunk(*old(self), len, now_ms),
            r == spec_chunk_event(*old(self), len, now_ms),
            r matches Some(d) ==> d.total == old(self).total,
            r matches Some(d) ==> (d.total > 0 ==> d.downloaded <= d.total),
    {
        self.downloaded = if self.downloaded > u64::MAX - len {
            u64::MAX
        } else {
            self.downloaded + len
        };
        if self.reports && now_ms > self.last_emit_ms && now_ms - self.last_emit_ms > THROTTLE_MS {
            self.last_emit_ms = now_ms;
            Some(ProgressData {
                downloaded: shown_count(self.downloaded, self.total),
                total: self.total,
                speed: speed(self.downloaded, now_ms),
            })
        } else {
            None
        }
    }

    /// The snapshot at the end of the transfer, at `now_ms`.
    /// A transfer that does not report gives none.
    pub fn finish(&self, now_ms: u64) -> (r: Option<ProgressData>)
        ensures
            r == spec_finish(*self, now_ms),
            r matches Some(d) ==> (d.total > 0 ==> d.downloaded <= d.total),
    {
        if self.reports {
            Some(
                ProgressData {
                    downloaded: shown_count(self.downloaded, self.total),
                    total: self.total,
                    speed: speed(self.downloaded, now_ms),
                },
            )
        } else {
            None
        }
    }

    /// The event that the transfer of binary `binary_tag` in phase
    /// `status_key` has begun, if the transfer reports.
    pub fn opening_event(&self, binary_tag: &str, status_key: &str) -> (r: Option<
        BinaryUpdateProgress,
    >)
        ensures
            !self.reports ==> r is None,
            self.reports ==> (r matches Some(e) && e.type_@ == binary_tag@ && e.percent == 0
                && (e.status_key matches Some(k) && k@ == status_key@) && e.progress_data is None),
    {
        if self.reports {
            Some(status_event(binary_tag, status_key))
        } else {
            None
        }
    }
}

/// The snapshot at the end of a transfer, at `now_ms`, if it reports.
pub open spec fn spec_finish(t: TransferProgress, now_ms: u64) -> Option<ProgressData> {
    if t.reports {
        Some(spec_snapshot(t.downloaded, t.total, now_ms))
    } else {
        None
    }
}

/// The event that carries snapshot `data` for binary `binary_tag` in phase
/// `status_key`.
pub fn progress_event(binary_tag: &str, status_key: &str, data: ProgressData) -> (r:
    BinaryUpdateProgress)
    ensures
        r.type_@ == binary_tag@,
        r.percent == spec_percent(data.downloaded, data.total),
        r.status_input matches Some(s) && s@ == status_key@,
        r.status_key matches Some(s) && s@ == status_key@,
        r.progress_data == Some(data),
{
    BinaryUpdateProgress {
        type_: String::from_str(binary_tag),
        percent: percent(data.downloaded, data.total),
        status_input: Some(String::from_str(status_key)),
        status_key: Some(String::from_str(status_key)),
        progress_data: Some(data),
    }
}

/// The event that a phase `status_key` of binary `binary_tag` has begun: at
/// 0 percent, with no snapshot yet.
pub fn status_event(binary_tag: &str, status_key: &str) -> (r: BinaryUpdateProgress)
    ensures
        r.type_@ == binary_tag@,
        r.percent == 0,
        r.status_input matches Some(s) && s@ == status_key@,
        r.status_key matches Some(s) && s@ == status_key@,
        r.progress_data is None,
{
    BinaryUpdateProgress {
        type_: String::from_str(binary_tag),
        percent: 0,
        status_input: Some(String::from_str(status_key)),
        status_key: Some(String::from_str(status_key)),
        progress_data: None,
    }
}

/// The event that provisioning of binary `binary_tag` failed with
/// `message`: at 0 percent, with status key `statusFailed` and the message
/// as its status text.
pub fn failure_event(binary_tag: &str, message: &str) -> (r: BinaryUpdateProgress)
    ensures
        r.type_@ == binary_tag@,
        r.percent == 0,
        r.status_input matches Some(s) && s@ == message@,
        r.status_key matches Some(s) && s@ == "statusFailed"@,
        r.progress_data is None,
{
    BinaryUpdateProgress {
        type_: String::from_str(binary_tag),
        percent: 0,
        status_input: Some(String::from_str(message)),
        status_key: Some(String::from_str("statusFailed")),
        progress_data: None,
    }
}

/// A reporting transfer whose announced total has all arrived ends with a
/// snapshot of exactly that total, at 100 percent.
pub proof fn completed_transfer_reports_all(t: TransferProgress, now_ms: u64)
    requires
        t.reports,
        t.total > 0,
        t.downloaded == t.total,
    ensures
        spec_finish(t, now_ms) matches Some(d) && d.downloaded == t.total && d.total == t.total
            && spec_percent(d.downloaded, d.total) == 100,
{
}

/// The state after a run of chunks, each a length and an arrival time.
pub open spec fn spec_after_chunks(t: TransferProgress, chunks: Seq<(u64, u64)>) -> TransferProgress
    decreases chunks.len(),
{
    if chunks.len() == 0 {
        t
    } else {
        spec_after_chunk(spec_after_chunks(t, chunks.drop_last()), chunks.last().0, chunks.last().1)
    }
}

/// Chunks never lower the byte count and never change the total.
pub proof fn chunks_never_lower_count(t: TransferProgress, chunks: Seq<(u64, u64)>)
    ensures
        spec_after_chunks(t, chunks).downloaded >= t.downloaded,
        spec_after_chunks(t, chunks).total == t.total,
    decreases chunks.len(),
{
    if chunks.len() > 0 {
        chunks_never_lower_count(t, chunks.drop_last());
    }
}

/// The snapshots a run of chunks yields, in order.
pub open spec fn spec_events(t: TransferProgress, chunks: Seq<(u64, u64)>) -> Seq<ProgressData>
    decreases chunks.len(),
{
    if chunks.len() == 0 {
        seq![]
    } else {
        let before = spec_after_chunks(t, chunks.drop_last());
        spec_events(t, chunks.drop_last()) + match spec_chunk_event(
            before,
            chunks.last().0,
            chunks.last().1,
        ) {
            Some(e) => seq![e],
            None => seq![],
        }
    }
}

/// Every snapshot of a run of chunks shows no more bytes than the state
/// after it would, and the snapshots come in order of their byte counts,
/// each with the transfer's total.
pub proof fn events_are_ordered(t: TransferProgress, chunks: Seq<(u64, u64)>)
    ensures
        forall|i: int|
            0 <= i < spec_events(t, chunks).len() ==> (#[trigger] spec_events(t, chunks)[i]).downloaded
                <= spec_shown(spec_after_chunks(t, chunks).downloaded, t.total) && spec_events(
                t,
                chunks,
            )[i].total == t.total,
        forall|i: int, j: int|
            0 <= i < j < spec_events(t, chunks).len() ==> #[trigger] spec_events(t, chunks)[i].downloaded
                <= #[trigger] spec_events(t, chunks)[j].downloaded,
    decreases chunks.len(),
{
    if chunks.len() > 0 {
        let prev = chunks.drop_last();
        events_are_ordered(t, prev);
        chunks_never_lower_count(t, prev);
        let before = spec_after_chunks(t, prev);
        let evs = spec_events(t, chunks);
        let old_evs = spec_events(t, prev);
        assert forall|i: int| 0 <= i < old_evs.len() implies #[trigger] evs[i] == old_evs[i] by {}
    }
}

/// With an unknown total, every snapshot of any run of chunks is at 0
/// percent, and each counts at least as many bytes as every earlier one.
pub proof fn unknown_total_events_never_decrease(t: TransferProgress, chunks: Seq<(u64, u64)>)
    requires
        t.total == 0,
    ensures
        forall|i: int|
            0 <= i < spec_events(t, chunks).len() ==> spec_percent(
                #[trigger] spec_events(t, chunks)[i].downloaded,
                spec_events(t, chunks)[i].total,
            ) == 0,
        forall|i: int, j: int|
            0 <= i < j < spec_events(t, chunks).len() ==> #[trigger] spec_events(t, chunks)[i].downloaded
                <= #[trigger] spec_events(t, chunks)[j].downloaded,
{
    events_are_ordered(t, chunks);
    assert forall|i: int| 0 <= i < spec_events(t, chunks).len() implies spec_percent(
        #[trigger] spec_events(t, chunks)[i].downloaded,
        spec_events(t, chunks)[i].total,
    ) == 0 by {
        assert(spec_events(t, chunks)[i].total == t.total);
    }
}

/// Whatever arrives, no snapshot shows more bytes than a known total.
pub proof fn snapshots_within_total(downloaded: u64, total: u64, now_ms: u64)
    requires
        total > 0,
    ensures
        spec_snapshot(downloaded, total, now_ms).downloaded <= total,
        spec_percent(spec_snapshot(downloaded, total, now_ms).downloaded, total) <= 100,
{
    let d = spec_snapshot(downloaded, total, now_ms).downloaded;
    if d < total {
        assert((d as nat) * 100 / (total as nat) <= 100) by (nonlinear_arith)
            requires
                (d as nat) < (total as nat),
                (total as nat) > 0,
        ;
    }
}

} // verus!
