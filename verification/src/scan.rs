//! The scan lifecycle state machine and the classification of poll results.
//!
//! A scan session moves through `Idle`, `Starting`, `Running` and `Stopping`.
//! Every poll of a running scan is classified against the status flags it
//! returned, in a fixed priority order; a terminal classification moves the
//! session to `Stopping`, after which stop and cleanup are both recorded, in
//! that order, and the session returns to `Idle`.  The results of stop and
//! cleanup are kept, first result winning, so that a repeated shutdown can
//! never mask the outcome of the first.

use vstd::prelude::*;
use crate::flags::{ScanOptionFlags, ScanStatus};
use crate::hat::ErrorCode;
use crate::options::{pop_count, ScanOptions};

verus! {

/// Why an acquisition loop stopped.
#[derive(Copy, Clone, Debug, PartialEq, Eq, Structural)]
pub enum StopReason {
    /// A poll reported hardware overrun: unrecoverable data loss.
    HardwareOverrun,
    /// A poll reported buffer overrun: unrecoverable data loss.
    BufferOverrun,
    /// A poll found the running flag cleared: the scan stopped outside the
    /// loop's control.
    NotRunning,
    /// A poll that was expected to produce a frame returned none: the
    /// session stalled or ended.
    NoSamples,
    /// The read call itself failed.
    ReadError(ErrorCode),
    /// Every consumer endpoint was relinquished: the caller's signal to
    /// stop streaming.
    ConsumersGone,
    /// The caller asked for the scan to stop, here by exhausting the poll
    /// budget it granted the loop.
    StopRequested,
}

/// Whether a stop reason is reported as a failure.  Overruns and failed
/// read calls are failures; an external stop, a stalled session and
/// consumer disconnection end the loop without one.
pub open spec fn is_failure(r: StopReason) -> bool {
    match r {
        StopReason::HardwareOverrun => true,
        StopReason::BufferOverrun => true,
        StopReason::ReadError(_) => true,
        StopReason::NotRunning => false,
        StopReason::NoSamples => false,
        StopReason::ConsumersGone => false,
        StopReason::StopRequested => false,
    }
}

impl StopReason {
    /// Whether this reason is reported as a failure.
    pub fn reported_as_failure(&self) -> (b: bool)
        ensures
            b == is_failure(*self),
    {
        match self {
            StopReason::HardwareOverrun => true,
            StopReason::BufferOverrun => true,
            StopReason::ReadError(_) => true,
            StopReason::NotRunning => false,
            StopReason::NoSamples => false,
            StopReason::ConsumersGone => false,
            StopReason::StopRequested => false,
        }
    }
}

/// Classification of one successful poll, in the priority order the loop
/// checks: hardware overrun, then buffer overrun, then the running flag,
/// then whether a full frame was obtained.
pub open spec fn classify_poll_spec(status: ScanStatus, frame_len: int, n_ch: int) -> Option<
    StopReason,
> {
    if status.hardware_overrun {
        Some(StopReason::HardwareOverrun)
    } else if status.buffer_overrun {
        Some(StopReason::BufferOverrun)
    } else if !status.running {
        Some(StopReason::NotRunning)
    } else if frame_len != n_ch {
        Some(StopReason::NoSamples)
    } else {
        None
    }
}

/// Classifies one successful poll: `None` means the frame is good and is
/// delivered; `Some` names the terminal condition, in priority order.
pub fn classify_poll(status: ScanStatus, frame_len: usize, n_ch: usize) -> (r: Option<StopReason>)
    ensures
        r == classify_poll_spec(status, frame_len as int, n_ch as int),
{
    if status.hardware_overrun {
        Some(StopReason::HardwareOverrun)
    } else if status.buffer_overrun {
        Some(StopReason::BufferOverrun)
    } else if !status.running {
        Some(StopReason::NotRunning)
    } else if frame_len != n_ch {
        Some(StopReason::NoSamples)
    } else {
        None
    }
}

/// What one poll of the hardware produced: either the read call failed, or
/// it returned a status snapshot and the samples obtained (one per channel
/// when a full frame arrived).  Sample values are carried as opaque 64-bit
/// words.
pub enum PollEvent {
    Failed(ErrorCode),
    Read(ScanStatus, Seq<u64>),
}

/// The terminal condition a poll event causes, if any, for a scan of
/// `n_ch` channels.
pub open spec fn poll_stop_reason(ev: PollEvent, n_ch: int) -> Option<StopReason> {
    match ev {
        PollEvent::Failed(e) => Some(StopReason::ReadError(e)),
        PollEvent::Read(status, frame) => classify_poll_spec(status, frame.len() as int, n_ch),
    }
}

/// The frame a poll event carries.
pub open spec fn poll_frame(ev: PollEvent) -> Seq<u64> {
    match ev {
        PollEvent::Failed(_) => Seq::empty(),
        PollEvent::Read(_, frame) => frame,
    }
}

/// The frames of the first `k` poll events.
pub open spec fn frames_of(events: Seq<PollEvent>, k: int) -> Seq<Seq<u64>> {
    events.take(k).map_values(|ev: PollEvent| poll_frame(ev))
}

/// The values channel `ch` receives from a sequence of frames: one value
/// per frame, taken at the channel's position.
pub open spec fn column(frames: Seq<Seq<u64>>, ch: int) -> Seq<u64> {
    frames.map_values(|f: Seq<u64>| f[ch])
}

/// The error a call reported, if it reported one: `None` is success.
pub open spec fn err_of(r: Result<(), ErrorCode>) -> Option<ErrorCode> {
    match r {
        Ok(_) => None,
        Err(e) => Some(e),
    }
}

/// One call a scan makes into its device, with the error the device
/// answered, if any.  A device's history is the sequence of such calls it
/// has seen.
pub enum DeviceEvent {
    /// A scan was started with these parameters.
    Started {
        channel_mask: u8,
        samples_per_channel: u32,
        sample_rate_millihertz: u64,
        flags: ScanOptionFlags,
        error: Option<ErrorCode>,
    },
    /// The scan was polled once: a request for this many samples per
    /// channel, waiting at most this long, with what the poll produced.
    Polled { samples_per_channel: u32, timeout_millis: u64, outcome: PollEvent },
    /// Scan stop was requested.
    Stopped(Option<ErrorCode>),
    /// Scan cleanup was requested.
    Cleaned(Option<ErrorCode>),
}

/// Per-channel identity of the fan-out: channel `ch` receives one value
/// per frame, and the value it receives for frame `k` is exactly that
/// frame's sample at position `ch` — no channel ever sees another
/// channel's sample.
pub proof fn lemma_column_identity(frames: Seq<Seq<u64>>, ch: int, k: int)
    requires
        0 <= k < frames.len(),
    ensures
        column(frames, ch).len() == frames.len(),
        column(frames, ch)[k] == frames[k][ch],
{
}

/// Taking a prefix is unaffected by a later push: the frames of the first
/// `k` events do not change when one more event arrives.
pub proof fn lemma_frames_of_push_prefix(events: Seq<PollEvent>, ev: PollEvent, k: int)
    requires
        0 <= k <= events.len(),
    ensures
        frames_of(events.push(ev), k) == frames_of(events, k),
{
    assert(events.push(ev).take(k) =~= events.take(k));
}

/// Accepting one more event appends its frame to the frame sequence.
pub proof fn lemma_frames_of_push_all(events: Seq<PollEvent>, ev: PollEvent)
    ensures
        frames_of(events.push(ev), events.len() as int + 1) == frames_of(
            events,
            events.len() as int,
        ).push(poll_frame(ev)),
{
    assert(events.push(ev).take(events.len() as int + 1) =~= events.push(ev));
    assert(events.push(ev).map_values(|e: PollEvent| poll_frame(e)) =~= events.take(
        events.len() as int,
    ).map_values(|e: PollEvent| poll_frame(e)).push(poll_frame(ev)));
}

/// Appending a frame appends exactly its value at `ch` to channel `ch`'s
/// column.
pub proof fn lemma_column_push(frames: Seq<Seq<u64>>, f: Seq<u64>, ch: int)
    ensures
        column(frames.push(f), ch) == column(frames, ch).push(f[ch]),
{
    assert(frames.push(f).map_values(|g: Seq<u64>| g[ch]) =~= frames.map_values(
        |g: Seq<u64>| g[ch],
    ).push(f[ch]));
}

/// Appending to the right-hand part of a concatenation appends to the
/// whole.
pub proof fn lemma_concat_push<A>(a: Seq<A>, b: Seq<A>, x: A)
    ensures
        a + b.push(x) == (a + b).push(x),
{
    assert(a + b.push(x) =~= (a + b).push(x));
}

/// Concatenating the empty sequence changes nothing.
pub proof fn lemma_concat_empty<A>(a: Seq<A>)
    ensures
        a + Seq::<A>::empty() == a,
{
    assert(a + Seq::<A>::empty() =~= a);
}

/// The lifecycle states of a scan session.
#[derive(Copy, Clone, Debug, PartialEq, Eq, Structural)]
pub enum ScanPhase {
    /// No scan is active.
    Idle,
    /// The hardware start call has been issued.
    Starting,
    /// The scan is active and being polled.
    Running,
    /// A terminal condition was seen or a stop was requested; stop and
    /// cleanup are owed to the device.
    Stopping,
}

/// The state of one scan session: its lifecycle phase, the number of
/// channels it scans, why it stopped, and the recorded outcomes of the
/// mandatory stop and cleanup calls.
#[derive(Copy, Clone, Debug, PartialEq, Eq)]
pub struct ScanSession {
    /// Where the session stands in its lifecycle.
    pub phase: ScanPhase,
    /// How many channels the scan covers.
    pub channel_count: usize,
    /// Why the session left `Running`, once it has.
    pub reason: Option<StopReason>,
    /// The outcome of the first stop call recorded for this session.
    pub stop_result: Option<Result<(), ErrorCode>>,
    /// The outcome of the first cleanup call recorded for this session.
    pub cleanup_result: Option<Result<(), ErrorCode>>,
}

/// Recording a stop outcome keeps the first recorded outcome: a second
/// stop can never mask the first's result.  The phase is unchanged.
pub open spec fn record_stop_spec(s: ScanSession, r: Result<(), ErrorCode>) -> ScanSession {
    ScanSession {
        stop_result: if s.stop_result is None {
            Some(r)
        } else {
            s.stop_result
        },
        ..s
    }
}

/// Recording a cleanup outcome keeps the first recorded outcome and
/// returns the session to `Idle`: cleanup always completes the shutdown,
/// whether or not either call failed.
pub open spec fn record_cleanup_spec(s: ScanSession, r: Result<(), ErrorCode>) -> ScanSession {
    ScanSession {
        phase: ScanPhase::Idle,
        cleanup_result: if s.cleanup_result is None {
            Some(r)
        } else {
            s.cleanup_result
        },
        ..s
    }
}

impl ScanSession {
    /// A session with no active scan.
    pub fn idle() -> (s: ScanSession)
        ensures
            s == (ScanSession {
                phase: ScanPhase::Idle,
                channel_count: 0,
                reason: None,
                stop_result: None,
                cleanup_result: None,
            }),
    {
        ScanSession {
            phase: ScanPhase::Idle,
            channel_count: 0,
            reason: None,
            stop_result: None,
            cleanup_result: None,
        }
    }

    /// Begins a session for the given options: moves `Idle` to `Starting`
    /// when the options are valid, and reports `BadParameter` exactly when
    /// the mask is empty or the rate is not positive.
    pub fn request_start(opts: &ScanOptions) -> (r: Result<ScanSession, ErrorCode>)
        ensures
            opts.valid() ==> r == Result::<ScanSession, ErrorCode>::Ok(
                ScanSession {
                    phase: ScanPhase::Starting,
                    channel_count: pop_count(opts.channel_mask) as usize,
                    reason: None,
                    stop_result: None,
                    cleanup_result: None,
                },
            ),
            !opts.valid() ==> r == Result::<ScanSession, ErrorCode>::Err(ErrorCode::BadParameter),
    {
        match opts.validate() {
            Err(e) => Err(e),
            Ok(()) => Ok(
                ScanSession {
                    phase: ScanPhase::Starting,
                    channel_count: opts.channel_count(),
                    reason: None,
                    stop_result: None,
                    cleanup_result: None,
                },
            ),
        }
    }

    /// A successful start acknowledgment moves `Starting` to `Running`,
    /// unconditionally.
    pub fn confirm_start(&mut self)
        requires
            old(self).phase == ScanPhase::Starting,
        ensures
            *final(self) == (ScanSession { phase: ScanPhase::Running, ..*old(self) }),
    {
        self.phase = ScanPhase::Running;
    }

    /// Classifies one successful poll of a running scan.  A terminal
    /// classification moves the session to `Stopping` and records the
    /// reason; a good frame leaves it `Running`.
    pub fn observe_poll(&mut self, status: ScanStatus, frame_len: usize) -> (stop: Option<
        StopReason,
    >)
        requires
            old(self).phase == ScanPhase::Running,
        ensures
            stop == classify_poll_spec(status, frame_len as int, old(self).channel_count as int),
            stop is None ==> *final(self) == *old(self),
            stop matches Some(r) ==> *final(self) == (ScanSession {
                phase: ScanPhase::Stopping,
                reason: Some(r),
                ..*old(self)
            }),
    {
        let stop = classify_poll(status, frame_len, self.channel_count);
        if let Some(r) = stop {
            self.phase = ScanPhase::Stopping;
            self.reason = Some(r);
        }
        stop
    }

    /// A failed read call moves a running session to `Stopping`; the error
    /// is the stop reason and counts as a failure.
    pub fn observe_read_error(&mut self, e: ErrorCode)
        requires
            old(self).phase == ScanPhase::Running,
        ensures
            *final(self) == (ScanSession {
                phase: ScanPhase::Stopping,
                reason: Some(StopReason::ReadError(e)),
                ..*old(self)
            }),
    {
        self.phase = ScanPhase::Stopping;
        self.reason = Some(StopReason::ReadError(e));
    }

    /// A delivery that found every consumer gone moves a running session to
    /// `Stopping`; this is the caller's normal stop signal, not a failure.
    pub fn observe_delivery_failure(&mut self)
        requires
            old(self).phase == ScanPhase::Running,
        ensures
            *final(self) == (ScanSession {
                phase: ScanPhase::Stopping,
                reason: Some(StopReason::ConsumersGone),
                ..*old(self)
            }),
    {
        self.phase = ScanPhase::Stopping;
        self.reason = Some(StopReason::ConsumersGone);
    }

    /// An explicit stop request from the caller moves a running session to
    /// `Stopping`; this is a normal end, not a failure.
    pub fn observe_stop_request(&mut self)
        requires
            old(self).phase == ScanPhase::Running,
        ensures
            *final(self) == (ScanSession {
                phase: ScanPhase::Stopping,
                reason: Some(StopReason::StopRequested),
                ..*old(self)
            }),
    {
        self.phase = ScanPhase::Stopping;
        self.reason = Some(StopReason::StopRequested);
    }

    /// Records the outcome of a stop call.  Callable while stopping and
    /// again once idle; the first recorded outcome is kept.
    pub fn record_stop(&mut self, r: Result<(), ErrorCode>)
        requires
            old(self).phase == ScanPhase::Stopping || old(self).phase == ScanPhase::Idle,
        ensures
            *final(self) == record_stop_spec(*old(self), r),
    {
        if self.stop_result.is_none() {
            self.stop_result = Some(r);
        }
    }

    /// Records the outcome of a cleanup call and returns the session to
    /// `Idle`.  Callable while stopping and again once idle; the first
    /// recorded outcome is kept.
    pub fn record_cleanup(&mut self, r: Result<(), ErrorCode>)
        requires
            old(self).phase == ScanPhase::Stopping || old(self).phase == ScanPhase::Idle,
        ensures
            *final(self) == record_cleanup_spec(*old(self), r),
    {
        if self.cleanup_result.is_none() {
            self.cleanup_result = Some(r);
        }
        self.phase = ScanPhase::Idle;
    }
}

/// Stop and cleanup are idempotent on an already-stopped session: running
/// the pair a second time, whatever the second calls report, changes
/// nothing — the state is not corrupted, and the second call's errors
/// cannot mask the first's outcome.
pub proof fn lemma_stop_cleanup_idempotent(
    s: ScanSession,
    stop1: Result<(), ErrorCode>,
    cleanup1: Result<(), ErrorCode>,
    stop2: Result<(), ErrorCode>,
    cleanup2: Result<(), ErrorCode>,
)
    ensures
        ({
            let once = record_cleanup_spec(record_stop_spec(s, stop1), cleanup1);
            let twice = record_cleanup_spec(record_stop_spec(once, stop2), cleanup2);
            twice == once && once.phase == ScanPhase::Idle && once.stop_result is Some
                && once.cleanup_result is Some
        }),
{
}

} // verus!
