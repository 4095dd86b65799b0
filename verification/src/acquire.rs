//! The acquisition loop and the capability contracts it runs against.
//!
//! `AInScanner` is the narrow contract a concrete device must offer:
//! scan start, per-frame read, stop and cleanup.  Each method extends the
//! device's ghost call history, so a caller's contract can say exactly
//! which calls were made and in what order.  `DeliverySink` is the fan-out
//! side: one delivery queue per channel, where a failed delivery means the
//! channel's consumer is gone.
//!
//! `run_acquisition` owns the device for the scan's duration: it polls one
//! frame at a time, classifies the status flags through the scan session
//! state machine, fans good frames out, and on any terminal condition
//! issues stop then cleanup, both exactly once, before handing the device
//! back.

use vstd::prelude::*;
use crate::flags::{ScanOptionFlags, ScanStatus};
use crate::hat::ErrorCode;
use crate::options::{pop_count, ScanOptions};
use crate::options::scan_flags_spec;
use crate::scan::{
    column, err_of, frames_of, lemma_column_push, lemma_concat_empty, lemma_concat_push,
    lemma_frames_of_push_all, lemma_frames_of_push_prefix, poll_frame, poll_stop_reason,
    DeviceEvent, PollEvent, ScanPhase, ScanSession, StopReason,
};

verus! {

/// The poll event that one read call's answer stands for.
pub open spec fn poll_event_of(r: Result<(ScanStatus, Vec<u64>), ErrorCode>) -> PollEvent {
    match r {
        Ok((status, frame)) => PollEvent::Read(status, frame@),
        Err(e) => PollEvent::Failed(e),
    }
}

/// The capability contract the acquisition core requires of a device that
/// supports continuous scanning.  A concrete hardware binding implements
/// it; `history` is the ghost record of the scan calls the device has
/// seen, which each method extends by the call it stands for.
pub trait AInScanner: Sized {
    /// The scan calls this device has seen so far, with its answers.
    /// A binding that does not model the record inherits an empty one;
    /// what the contracts below say is then out of reach for it, and its
    /// callers rely on the binding itself.
    open spec fn history(&self) -> Seq<DeviceEvent> {
        Seq::empty()
    }

    /// Begins continuous acquisition on the channels of `channel_mask` at
    /// `sample_rate_millihertz` per channel; `samples_per_channel = 0`
    /// requests an implementation-chosen buffer for continuous operation.
    fn a_in_scan_start(
        &mut self,
        channel_mask: u8,
        samples_per_channel: u32,
        sample_rate_millihertz: u64,
        options: ScanOptionFlags,
    ) -> (r: Result<(), ErrorCode>)
        ensures
            final(self).history() == old(self).history().push(
                DeviceEvent::Started {
                    channel_mask,
                    samples_per_channel,
                    sample_rate_millihertz,
                    flags: options,
                    error: err_of(r),
                },
            ),
    ;

    /// Polls for `samples_per_channel` samples per channel, waiting at
    /// most `timeout_millis`; returns the status flags and the samples
    /// obtained, one word per channel per full frame.
    fn a_in_scan_read(&mut self, samples_per_channel: u32, timeout_millis: u64) -> (r: Result<
        (ScanStatus, Vec<u64>),
        ErrorCode,
    >)
        ensures
            final(self).history() == old(self).history().push(
                DeviceEvent::Polled {
                    samples_per_channel,
                    timeout_millis,
                    outcome: poll_event_of(r),
                },
            ),
    ;

    /// Stops the scan; callable even after an error.
    fn a_in_scan_stop(&mut self) -> (r: Result<(), ErrorCode>)
        ensures
            final(self).history() == old(self).history().push(DeviceEvent::Stopped(err_of(r))),
    ;

    /// Releases the scan's resources; callable once per start regardless
    /// of the stop's outcome.
    fn a_in_scan_cleanup(&mut self) -> (r: Result<(), ErrorCode>)
        ensures
            final(self).history() == old(self).history().push(DeviceEvent::Cleaned(err_of(r))),
    ;

    /// Non-blocking status snapshot: the flags and the queued sample count.
    fn a_in_scan_status(&self) -> (r: Result<(ScanStatus, u32), ErrorCode>);

    /// The number of channels in the currently configured scan; the
    /// reference hardware family has at most eight.
    fn a_in_scan_channel_count(&self) -> (n: u8)
        ensures
            n <= 8,
    ;
}

/// The fan-out contract: one delivery queue per channel.  `received` is
/// the ghost record of what each channel's queue was handed, `attempts`
/// the ghost record of every delivery attempt, and `live` says which
/// channels can still receive: a delivery to a live channel succeeds, one
/// to a dead channel is refused, and a channel that dies never comes back.
///
/// Nothing here has a precondition, so no caller can misuse a sink.  A
/// sink that cannot model its queues (one built on an outside transport)
/// keeps the defaults below — no channels, none live, no record; as with
/// a device that keeps the default history, what the contracts say is
/// then out of reach for it, and its callers rely on its own runtime
/// behavior.
pub trait DeliverySink {
    /// The number of per-channel queues.  A sink that does not model its
    /// queues inherits zero, leaving the contracts below out of its reach.
    open spec fn channels(&self) -> int {
        0
    }

    /// The values handed to channel `ch` so far.
    open spec fn received(&self, ch: int) -> Seq<u64> {
        Seq::empty()
    }

    /// Whether channel `ch`'s consumer can still receive.  Channels only
    /// die; they never come back to life.
    open spec fn live(&self, ch: int) -> bool {
        false
    }

    /// Every delivery attempted so far, as channel and value, in order.
    open spec fn attempts(&self) -> Seq<(usize, u64)> {
        Seq::empty()
    }

    /// Attempts to deliver one value to channel `ch`.  The attempt is
    /// always recorded; it succeeds exactly when the channel exists and is
    /// live, in which case the value is appended to exactly the addressed
    /// queue, and in every other case all queues stay as they are.
    fn deliver(&mut self, ch: usize, value: u64) -> (ok: bool)
        ensures
            final(self).channels() == old(self).channels(),
            final(self).attempts() == old(self).attempts().push((ch, value)),
            forall|c: int|
                0 <= c < old(self).channels() && c != ch as int ==> final(self).received(c)
                    == old(self).received(c),
            forall|c: int| final(self).live(c) ==> old(self).live(c),
            (ch as int) < old(self).channels() ==> ok == old(self).live(ch as int),
            ok ==> final(self).received(ch as int) == old(self).received(ch as int).push(value),
            !ok ==> final(self).received(ch as int) == old(self).received(ch as int),
            (ch as int) >= old(self).channels() ==> !ok,
    ;
}

/// The attempts that fanning one frame out records: the value at each
/// position paired with its channel, in ascending channel order.
pub open spec fn frame_attempts(frame: Seq<u64>) -> Seq<(usize, u64)> {
    Seq::new(frame.len(), |i: int| (i as usize, frame[i]))
}

/// The attempts that fanning a sequence of frames out records, frame by
/// frame.
pub open spec fn frames_attempts(frames: Seq<Seq<u64>>) -> Seq<(usize, u64)>
    decreases frames.len(),
{
    if frames.len() == 0 {
        Seq::empty()
    } else {
        frames_attempts(frames.drop_last()) + frame_attempts(frames.last())
    }
}

/// Fanning out one more frame appends exactly its attempts.
proof fn lemma_frames_attempts_push(frames: Seq<Seq<u64>>, f: Seq<u64>)
    ensures
        frames_attempts(frames.push(f)) == frames_attempts(frames) + frame_attempts(f),
{
    assert(frames.push(f).drop_last() =~= frames);
    assert(frames.push(f).last() == f);
}

/// Concatenation of sequences is associative.
proof fn lemma_concat_assoc<A>(a: Seq<A>, b: Seq<A>, c: Seq<A>)
    ensures
        a + (b + c) == (a + b) + c,
{
    assert(a + (b + c) =~= (a + b) + c);
}

/// Fans one frame out: the value at position `ch` goes to channel `ch`,
/// in ascending channel order.  Every channel is attempted, even after a
/// failure; the result reports whether every delivery succeeded, which on
/// a sink with one queue per frame position is exactly whether every
/// addressed channel was live.
pub fn deliver_frame<S: DeliverySink>(sink: &mut S, frame: &Vec<u64>) -> (ok: bool)
    ensures
        final(sink).channels() == old(sink).channels(),
        final(sink).attempts() == old(sink).attempts() + frame_attempts(frame@),
        forall|c: int| final(sink).live(c) ==> old(sink).live(c),
        frame@.len() == old(sink).channels() ==> (ok ==> forall|c: int|
            0 <= c < frame@.len() ==> final(sink).received(c) == old(sink).received(c).push(
                frame@[c],
            )),
        frame@.len() == old(sink).channels() ==> (!ok ==> forall|c: int|
            0 <= c < frame@.len() ==> final(sink).received(c) == old(sink).received(c)
                || final(sink).received(c) == old(sink).received(c).push(frame@[c])),
        frame@.len() == old(sink).channels() ==> (!ok ==> exists|c: int|
            0 <= c < frame@.len() && final(sink).received(c) == old(sink).received(c)
                && !final(sink).live(c)),
        frame@.len() == old(sink).channels() ==> ((exists|c: int|
            0 <= c < frame@.len() && !old(sink).live(c)) ==> !ok),
{
    let mut ok = true;
    let ghost mut failed: int = 0;
    let mut ch: usize = 0;
    proof {
        lemma_concat_empty(old(sink).attempts());
        assert(Seq::new(0, |i: int| (i as usize, frame@[i])) =~= Seq::<(usize, u64)>::empty());
    }
    while ch < frame.len()
        invariant
            ch <= frame@.len(),
            sink.channels() == old(sink).channels(),
            sink.attempts() == old(sink).attempts() + Seq::new(
                ch as nat,
                |i: int| (i as usize, frame@[i]),
            ),
            forall|c: int| #[trigger] sink.live(c) ==> old(sink).live(c),
            frame@.len() == old(sink).channels() ==> forall|c: int|
                ch <= c < frame@.len() ==> sink.received(c) == old(sink).received(c),
            ok ==> forall|c: int| 0 <= c < ch ==> old(sink).live(c),
            frame@.len() == old(sink).channels() ==> (ok ==> forall|c: int|
                0 <= c < ch ==> sink.received(c) == old(sink).received(c).push(frame@[c])),
            frame@.len() == old(sink).channels() ==> (!ok ==> forall|c: int|
                0 <= c < ch ==> sink.received(c) == old(sink).received(c) || sink.received(c)
                    == old(sink).received(c).push(frame@[c])),
            frame@.len() == old(sink).channels() ==> (!ok ==> 0 <= failed < ch && sink.received(
                failed,
            ) == old(sink).received(failed) && !sink.live(failed)),
        decreases frame@.len() - ch,
    {
        let value = frame[ch];
        let delivered = sink.deliver(ch, value);
        proof {
            lemma_concat_push(
                old(sink).attempts(),
                Seq::new(ch as nat, |i: int| (i as usize, frame@[i])),
                (ch, value),
            );
            assert(Seq::new((ch + 1) as nat, |i: int| (i as usize, frame@[i])) =~= Seq::new(
                ch as nat,
                |i: int| (i as usize, frame@[i]),
            ).push((ch, frame@[ch as int])));
        }
        if !delivered && ok {
            ok = false;
            proof {
                failed = ch as int;
            }
        }
        ch = ch + 1;
    }
    proof {
        assert(Seq::new(frame@.len(), |i: int| (i as usize, frame@[i])) =~= frame_attempts(
            frame@,
        ));
    }
    ok
}

/// A fan-out sink that collects each channel's values in a vector.  Each
/// channel can be closed on its own to stand for a consumer that has gone
/// away; a closed channel refuses deliveries and its queue stays as it is.
pub struct VecSink {
    /// One queue per channel.
    pub queues: Vec<Vec<u64>>,
    /// Whether each channel's consumer is still there.
    pub alive: Vec<bool>,
    /// Every delivery attempted on this sink, in order.
    pub tried: Ghost<Seq<(usize, u64)>>,
}

impl VecSink {
    /// A sink with `n_ch` empty queues, every channel live.
    pub fn new(n_ch: usize) -> (s: VecSink)
        ensures
            s.channels() == n_ch as int,
            forall|c: int| 0 <= c < n_ch as int ==> #[trigger] s.live(c),
            s.attempts() == Seq::<(usize, u64)>::empty(),
            forall|c: int| 0 <= c < n_ch as int ==> s.received(c) == Seq::<u64>::empty(),
    {
        let mut queues: Vec<Vec<u64>> = Vec::new();
        let mut alive: Vec<bool> = Vec::new();
        let mut i: usize = 0;
        while i < n_ch
            invariant
                i <= n_ch,
                queues@.len() == i as int,
                alive@.len() == i as int,
                forall|c: int| 0 <= c < i as int ==> queues@[c]@ == Seq::<u64>::empty(),
                forall|c: int| 0 <= c < i as int ==> alive@[c],
            decreases n_ch - i,
        {
            queues.push(Vec::new());
            alive.push(true);
            i = i + 1;
        }
        VecSink { queues, alive, tried: Ghost(Seq::empty()) }
    }

    /// Closes one channel, as when its consumer endpoint has been
    /// relinquished; the other channels keep receiving.
    pub fn close_channel(&mut self, ch: usize)
        ensures
            final(self).queues == old(self).queues,
            final(self).tried == old(self).tried,
            forall|c: int| #[trigger] final(self).live(c) == (old(self).live(c) && c != ch as int),
    {
        if ch < self.alive.len() {
            let ghost al0 = self.alive@;
            self.alive.remove(ch);
            self.alive.insert(ch, false);
            proof {
                assert forall|c: int| 0 <= c < al0.len() && c != ch as int implies self.alive@[c]
                    == al0[c] by {}
            }
        }
    }

    /// Closes every channel, as when all consumer endpoints have been
    /// relinquished.
    pub fn close(&mut self)
        ensures
            final(self).queues == old(self).queues,
            final(self).tried == old(self).tried,
            forall|c: int| !final(self).live(c),
    {
        let n = self.alive.len();
        let mut i: usize = 0;
        while i < n
            invariant
                i <= n,
                self.alive@.len() == n as int,
                self.queues == old(self).queues,
                self.tried == old(self).tried,
                forall|c: int| 0 <= c < i as int ==> !self.alive@[c],
            decreases n - i,
        {
            let ghost al0 = self.alive@;
            self.alive.remove(i);
            self.alive.insert(i, false);
            proof {
                assert forall|c: int| 0 <= c < al0.len() && c != i as int implies self.alive@[c]
                    == al0[c] by {}
            }
            i = i + 1;
        }
    }
}

impl DeliverySink for VecSink {
    open spec fn channels(&self) -> int {
        self.queues@.len() as int
    }

    open spec fn received(&self, ch: int) -> Seq<u64> {
        self.queues@[ch]@
    }

    open spec fn live(&self, ch: int) -> bool {
        0 <= ch < self.queues@.len() && ch < self.alive@.len() && self.alive@[ch]
    }

    open spec fn attempts(&self) -> Seq<(usize, u64)> {
        self.tried@
    }

    fn deliver(&mut self, ch: usize, value: u64) -> (ok: bool)
        ensures
            final(self).alive == old(self).alive,
            forall|c: int| #[trigger] final(self).live(c) == old(self).live(c),
    {
        self.tried = Ghost(self.tried@.push((ch, value)));
        if ch >= self.queues.len() || ch >= self.alive.len() {
            return false;
        }
        if !self.alive[ch] {
            return false;
        }
        let ghost qs0 = self.queues@;
        let mut q = self.queues.remove(ch);
        q.push(value);
        self.queues.insert(ch, q);
        proof {
            assert forall|c: int| 0 <= c < qs0.len() && c != ch as int implies self.queues@[c]
                == qs0[c] by {}
            assert(self.queues@[ch as int]@ == qs0[ch as int]@.push(value));
        }
        true
    }
}

/// One scripted answer for a poll of a `ScriptedScanner`.
pub enum ScriptedPoll {
    /// The read call fails with this error.
    Failed(ErrorCode),
    /// The read call returns this status snapshot and these samples.
    Read(ScanStatus, Vec<u64>),
}

/// A device that answers each poll from a script, for exercising the
/// acquisition loop without hardware.  Once the script is exhausted every
/// further poll reports a stopped scan with no samples.  Stop and cleanup
/// answer with the configured errors, if any, and are counted.
pub struct ScriptedScanner {
    /// The polls still to be answered, front first.
    pub script: Vec<ScriptedPoll>,
    /// The answer every start call gives.
    pub start_error: Option<ErrorCode>,
    /// The answer every stop call gives.
    pub stop_error: Option<ErrorCode>,
    /// The answer every cleanup call gives.
    pub cleanup_error: Option<ErrorCode>,
    /// How many times a scan start was requested (saturating).
    pub start_calls: usize,
    /// How many times a scan stop was requested (saturating).
    pub stop_calls: usize,
    /// How many times a scan cleanup was requested (saturating).
    pub cleanup_calls: usize,
    /// The calls answered so far.
    pub events: Ghost<Seq<DeviceEvent>>,
}

impl ScriptedScanner {
    /// A scanner that answers polls from `script` and answers start, stop
    /// and cleanup with success.
    pub fn new(script: Vec<ScriptedPoll>) -> (s: ScriptedScanner)
        ensures
            s.history() == Seq::<DeviceEvent>::empty(),
            s.script == script,
            s.start_error is None,
            s.stop_error is None,
            s.cleanup_error is None,
            s.start_calls == 0,
            s.stop_calls == 0,
            s.cleanup_calls == 0,
    {
        ScriptedScanner {
            script,
            start_error: None,
            stop_error: None,
            cleanup_error: None,
            start_calls: 0,
            stop_calls: 0,
            cleanup_calls: 0,
            events: Ghost(Seq::empty()),
        }
    }

    /// A scanner whose start, stop and cleanup calls answer with the given
    /// errors, where one is given.
    pub fn with_errors(
        script: Vec<ScriptedPoll>,
        start_error: Option<ErrorCode>,
        stop_error: Option<ErrorCode>,
        cleanup_error: Option<ErrorCode>,
    ) -> (s: ScriptedScanner)
        ensures
            s.history() == Seq::<DeviceEvent>::empty(),
            s.script == script,
            s.start_error == start_error,
            s.stop_error == stop_error,
            s.cleanup_error == cleanup_error,
            s.start_calls == 0,
            s.stop_calls == 0,
            s.cleanup_calls == 0,
    {
        ScriptedScanner {
            script,
            start_error,
            stop_error,
            cleanup_error,
            start_calls: 0,
            stop_calls: 0,
            cleanup_calls: 0,
            events: Ghost(Seq::empty()),
        }
    }
}

/// Adds one to a counter, stopping at the counter's ceiling.
fn saturating_increment(n: usize) -> (r: usize)
    ensures
        n < usize::MAX ==> r == n + 1,
{
    if n < usize::MAX {
        n + 1
    } else {
        n
    }
}

impl AInScanner for ScriptedScanner {
    closed spec fn history(&self) -> Seq<DeviceEvent> {
        self.events@
    }

    fn a_in_scan_start(
        &mut self,
        channel_mask: u8,
        samples_per_channel: u32,
        sample_rate_millihertz: u64,
        options: ScanOptionFlags,
    ) -> (r: Result<(), ErrorCode>)
        ensures
            old(self).start_error matches Some(e) ==> r == Result::<(), ErrorCode>::Err(e),
            old(self).start_error is None ==> r is Ok,
            old(self).start_calls < usize::MAX ==> final(self).start_calls == old(
                self,
            ).start_calls + 1,
            final(self).script == old(self).script,
            final(self).stop_calls == old(self).stop_calls,
            final(self).cleanup_calls == old(self).cleanup_calls,
    {
        let r = match self.start_error {
            None => Ok(()),
            Some(e) => Err(e),
        };
        self.start_calls = saturating_increment(self.start_calls);
        self.events = Ghost(
            self.events@.push(
                DeviceEvent::Started {
                    channel_mask,
                    samples_per_channel,
                    sample_rate_millihertz,
                    flags: options,
                    error: err_of(r),
                },
            ),
        );
        r
    }

    fn a_in_scan_read(&mut self, samples_per_channel: u32, timeout_millis: u64) -> (r: Result<
        (ScanStatus, Vec<u64>),
        ErrorCode,
    >)
        ensures
            old(self).script@.len() > 0 ==> final(self).script@ == old(self).script@.skip(1),
            old(self).script@.len() > 0 ==> (old(self).script@[0] matches ScriptedPoll::Failed(e)
                ==> r == Result::<(ScanStatus, Vec<u64>), ErrorCode>::Err(e)),
            old(self).script@.len() > 0 ==> (old(self).script@[0] matches ScriptedPoll::Read(
                st,
                f,
            ) ==> r matches Ok(p) && p.0 == st && p.1 == f),
            old(self).script@.len() == 0 ==> final(self).script@ == old(self).script@ && (r
                matches Ok(p) && p.0 == (ScanStatus {
                hardware_overrun: false,
                buffer_overrun: false,
                triggered: false,
                running: false,
            }) && p.1@ == Seq::<u64>::empty()),
            final(self).start_calls == old(self).start_calls,
            final(self).stop_calls == old(self).stop_calls,
            final(self).cleanup_calls == old(self).cleanup_calls,
    {
        let next = if self.script.len() > 0 {
            let head = self.script.remove(0);
            proof {
                assert(self.script@ =~= old(self).script@.skip(1));
            }
            head
        } else {
            ScriptedPoll::Read(ScanStatus::empty(), Vec::new())
        };
        let r: Result<(ScanStatus, Vec<u64>), ErrorCode> = match next {
            ScriptedPoll::Failed(e) => Err(e),
            ScriptedPoll::Read(status, frame) => Ok((status, frame)),
        };
        self.events = Ghost(
            self.events@.push(
                DeviceEvent::Polled { samples_per_channel, timeout_millis, outcome: poll_event_of(r) },
            ),
        );
        r
    }

    fn a_in_scan_stop(&mut self) -> (r: Result<(), ErrorCode>)
        ensures
            old(self).stop_error matches Some(e) ==> r == Result::<(), ErrorCode>::Err(e),
            old(self).stop_error is None ==> r is Ok,
            old(self).stop_calls < usize::MAX ==> final(self).stop_calls == old(self).stop_calls
                + 1,
            final(self).script == old(self).script,
            final(self).start_calls == old(self).start_calls,
            final(self).cleanup_calls == old(self).cleanup_calls,
    {
        let r = match self.stop_error {
            None => Ok(()),
            Some(e) => Err(e),
        };
        self.stop_calls = saturating_increment(self.stop_calls);
        self.events = Ghost(self.events@.push(DeviceEvent::Stopped(err_of(r))));
        r
    }

    fn a_in_scan_cleanup(&mut self) -> (r: Result<(), ErrorCode>)
        ensures
            old(self).cleanup_error matches Some(e) ==> r == Result::<(), ErrorCode>::Err(e),
            old(self).cleanup_error is None ==> r is Ok,
            old(self).cleanup_calls < usize::MAX ==> final(self).cleanup_calls == old(
                self,
            ).cleanup_calls + 1,
            final(self).script == old(self).script,
            final(self).start_calls == old(self).start_calls,
            final(self).stop_calls == old(self).stop_calls,
    {
        let r = match self.cleanup_error {
            None => Ok(()),
            Some(e) => Err(e),
        };
        self.cleanup_calls = saturating_increment(self.cleanup_calls);
        self.events = Ghost(self.events@.push(DeviceEvent::Cleaned(err_of(r))));
        r
    }

    fn a_in_scan_status(&self) -> (r: Result<(ScanStatus, u32), ErrorCode>) {
        let running = self.script.len() > 0;
        let n = self.script.len();
        let queued: u32 = if n > 0 {
            1
        } else {
            0
        };
        Ok((
            ScanStatus {
                hardware_overrun: false,
                buffer_overrun: false,
                triggered: false,
                running,
            },
            queued,
        ))
    }

    fn a_in_scan_channel_count(&self) -> (n: u8) {
        0
    }
}

/// Validates the options and starts the hardware scan: reports
/// `BadParameter`, with the device untouched, exactly when the mask is
/// empty or the rate is not positive; otherwise issues one start call with
/// the continuous-scan option word and either hands back a running session
/// for the mask's channels or the device's own error.
pub fn start_scan<T: AInScanner>(dev: &mut T, opts: &ScanOptions) -> (r: Result<
    ScanSession,
    ErrorCode,
>)
    ensures
        !opts.valid() ==> r == Result::<ScanSession, ErrorCode>::Err(ErrorCode::BadParameter)
            && *final(dev) == *old(dev),
        opts.valid() && r is Ok ==> final(dev).history() == old(dev).history().push(
            DeviceEvent::Started {
                channel_mask: opts.channel_mask,
                samples_per_channel: 0,
                sample_rate_millihertz: opts.sample_rate_millihertz,
                flags: scan_flags_spec(*opts),
                error: None,
            },
        ),
        opts.valid() ==> (r matches Err(e) ==> final(dev).history() == old(dev).history().push(
            DeviceEvent::Started {
                channel_mask: opts.channel_mask,
                samples_per_channel: 0,
                sample_rate_millihertz: opts.sample_rate_millihertz,
                flags: scan_flags_spec(*opts),
                error: Some(e),
            },
        )),
        opts.valid() ==> (r matches Ok(s) ==> s == (ScanSession {
            phase: ScanPhase::Running,
            channel_count: pop_count(opts.channel_mask) as usize,
            reason: None,
            stop_result: None,
            cleanup_result: None,
        })),
{
    let mut session = match ScanSession::request_start(opts) {
        Err(e) => {
            return Err(e);
        },
        Ok(s) => s,
    };
    let flags = opts.scan_flags();
    let res = dev.a_in_scan_start(opts.channel_mask, 0, opts.sample_rate_millihertz, flags);
    match res {
        Err(e) => Err(e),
        Ok(()) => {
            session.confirm_start();
            Ok(session)
        },
    }
}

/// A sequence of poll events as device history entries, each recording a
/// request for `samples_per_channel` samples with the given wait.
pub open spec fn polled_events(
    events: Seq<PollEvent>,
    samples_per_channel: u32,
    timeout_millis: u64,
) -> Seq<DeviceEvent> {
    events.map_values(
        |ev: PollEvent| DeviceEvent::Polled { samples_per_channel, timeout_millis, outcome: ev },
    )
}

/// What one acquisition run did: the finished session, the polls it
/// observed, and how many of them carried a frame that was accepted for
/// delivery.
pub struct ScanOutcome {
    /// The session after shutdown: idle, with the stop reason and the
    /// recorded stop and cleanup outcomes.
    pub session: ScanSession,
    /// Every poll the run made, in order.
    pub events: Ghost<Seq<PollEvent>>,
    /// How many leading events carried a good frame whose delivery was
    /// attempted.  All but possibly the last were delivered to every
    /// channel; the last may have found the consumers gone.
    pub accepted: Ghost<int>,
}

/// Runs a started scan to completion: owns the device for the scan's
/// duration, polls one frame at a time, fans each good frame out in
/// ascending channel order, and stops on the first terminal condition —
/// overrun, lost running flag, missing frame, failed read call, every
/// consumer gone, or an exhausted poll budget (the caller's stop request).
/// Whatever ended the loop, stop and then cleanup are both issued exactly
/// once before the device is handed back.
///
/// The contract pins the run down against the device's call history and
/// the sink's ghost records: the device saw exactly the returned poll
/// events, each a request for one sample per channel with the given wait,
/// then one stop, then one cleanup; every accepted frame's delivery was
/// attempted on every channel in ascending order; on a sink with one queue
/// per channel every accepted frame reached every channel unchanged, the
/// value at position `ch` to channel `ch`; the recorded reason is the
/// classification of the last event, consumer disconnection when a channel
/// of the last frame was dead, or the caller's stop request when the
/// budget ran out first; and when a channel is already dead at entry, the
/// run stops at the first accepted frame, with consumer disconnection as
/// the reason.
pub fn run_acquisition<T: AInScanner, S: DeliverySink>(
    dev: T,
    session: ScanSession,
    timeout_millis: u64,
    max_polls: u64,
    sink: &mut S,
) -> (r: (T, ScanOutcome))
    requires
        session.phase == ScanPhase::Running,
        session.reason is None,
        session.stop_result is None,
        session.cleanup_result is None,
    ensures
        ({
            let out = r.1;
            let evs = out.events@;
            let acc = out.accepted@;
            let n = session.channel_count as int;
            &&& out.session.phase == ScanPhase::Idle
            &&& out.session.channel_count == session.channel_count
            &&& out.session.reason is Some
            &&& out.session.stop_result is Some
            &&& out.session.cleanup_result is Some
            &&& (out.session.stop_result matches Some(sr) ==> (out.session.cleanup_result
                matches Some(cr) ==> r.0.history() == dev.history() + polled_events(
                evs,
                1,
                timeout_millis,
            ) + seq![
                DeviceEvent::Stopped(err_of(sr)),
                DeviceEvent::Cleaned(err_of(cr)),
            ]))
            &&& evs.len() <= max_polls
            &&& 0 <= acc
            &&& evs.len() - 1 <= acc <= evs.len()
            &&& (forall|k: int|
                0 <= k < acc ==> poll_stop_reason(#[trigger] evs[k], n) is None && poll_frame(
                    evs[k],
                ).len() == n)
            &&& (out.session.reason == Some(StopReason::StopRequested) ==> acc == evs.len()
                && evs.len() == max_polls)
            &&& (out.session.reason == Some(StopReason::ConsumersGone) ==> acc == evs.len())
            &&& (out.session.reason != Some(StopReason::StopRequested) && out.session.reason
                != Some(StopReason::ConsumersGone) ==> acc == evs.len() - 1 && out.session.reason
                == poll_stop_reason(evs[evs.len() - 1], n))
            &&& final(sink).channels() == old(sink).channels()
            &&& final(sink).attempts() == old(sink).attempts() + frames_attempts(
                frames_of(evs, acc),
            )
            &&& (forall|c: int| #[trigger] final(sink).live(c) ==> old(sink).live(c))
            &&& (old(sink).channels() == n ==> (out.session.reason != Some(
                StopReason::ConsumersGone,
            ) ==> forall|ch: int|
                0 <= ch < n ==> final(sink).received(ch) == old(sink).received(ch) + column(
                    frames_of(evs, acc),
                    ch,
                )))
            &&& (old(sink).channels() == n ==> (out.session.reason == Some(
                StopReason::ConsumersGone,
            ) ==> acc >= 1 && forall|ch: int|
                0 <= ch < n ==> final(sink).received(ch) == old(sink).received(ch) + column(
                    frames_of(evs, acc - 1),
                    ch,
                ) || final(sink).received(ch) == old(sink).received(ch) + column(
                    frames_of(evs, acc - 1),
                    ch,
                ).push(poll_frame(evs[acc - 1])[ch])))
            &&& (old(sink).channels() == n ==> (out.session.reason == Some(
                StopReason::ConsumersGone,
            ) ==> exists|ch: int|
                0 <= ch < n && final(sink).received(ch) == old(sink).received(ch) + column(
                    frames_of(evs, acc - 1),
                    ch,
                ) && !final(sink).live(ch)))
            &&& (old(sink).channels() == n && (exists|c: int|
                0 <= c < n && !old(sink).live(c)) ==> acc <= 1 && (acc == 1
                ==> out.session.reason == Some(StopReason::ConsumersGone)))
        }),
{
    let mut dev = dev;
    let mut session = session;
    let ghost n = session.channel_count as int;
    let ghost hist0 = dev.history();
    let ghost mut events: Seq<PollEvent> = Seq::empty();
    let ghost mut accepted: int = 0;
    proof {
        lemma_concat_empty(hist0);
        assert(polled_events(events, 1, timeout_millis) =~= Seq::<DeviceEvent>::empty());
        assert(frames_of(events, 0) =~= Seq::<Seq<u64>>::empty());
        lemma_concat_empty(sink.attempts());
        assert forall|ch: int| 0 <= ch < n implies sink.received(ch) == old(sink).received(ch)
            + column(frames_of(events, accepted), ch) by {
            assert(column(frames_of(events, 0), ch) =~= Seq::<u64>::empty());
            lemma_concat_empty(old(sink).received(ch));
        }
    }
    let mut polls: u64 = 0;
    while session.phase == ScanPhase::Running && polls < max_polls
        invariant
            polls as int == events.len(),
            polls <= max_polls,
            session.channel_count as int == n,
            sink.channels() == old(sink).channels(),
            session.phase == ScanPhase::Running || session.phase == ScanPhase::Stopping,
            session.stop_result is None,
            session.cleanup_result is None,
            dev.history() == hist0 + polled_events(events, 1, timeout_millis),
            0 <= accepted <= events.len(),
            events.len() - 1 <= accepted,
            forall|k: int|
                0 <= k < accepted ==> poll_stop_reason(#[trigger] events[k], n) is None
                    && poll_frame(events[k]).len() == n,
            sink.attempts() == old(sink).attempts() + frames_attempts(
                frames_of(events, accepted),
            ),
            forall|c: int| #[trigger] sink.live(c) ==> old(sink).live(c),
            session.phase == ScanPhase::Running ==> session.reason is None && accepted
                == events.len(),
            old(sink).channels() == n ==> (session.phase == ScanPhase::Running || session.reason
                != Some(StopReason::ConsumersGone) ==> forall|ch: int|
                0 <= ch < n ==> sink.received(ch) == old(sink).received(ch) + column(
                    frames_of(events, accepted),
                    ch,
                )),
            session.phase == ScanPhase::Stopping ==> session.reason is Some && events.len() >= 1,
            session.phase == ScanPhase::Stopping && session.reason != Some(
                StopReason::ConsumersGone,
            ) ==> accepted == events.len() - 1 && session.reason == poll_stop_reason(
                events[events.len() - 1],
                n,
            ),
            session.phase == ScanPhase::Stopping && session.reason == Some(
                StopReason::ConsumersGone,
            ) ==> accepted == events.len() && accepted >= 1,
            old(sink).channels() == n ==> (session.phase == ScanPhase::Stopping && session.reason
                == Some(StopReason::ConsumersGone) ==> forall|ch: int|
                0 <= ch < n ==> sink.received(ch) == old(sink).received(ch) + column(
                    frames_of(events, accepted - 1),
                    ch,
                ) || sink.received(ch) == old(sink).received(ch) + column(
                    frames_of(events, accepted - 1),
                    ch,
                ).push(poll_frame(events[accepted - 1])[ch])),
            old(sink).channels() == n ==> (session.phase == ScanPhase::Stopping && session.reason
                == Some(StopReason::ConsumersGone) ==> exists|ch: int|
                0 <= ch < n && sink.received(ch) == old(sink).received(ch) + column(
                    frames_of(events, accepted - 1),
                    ch,
                ) && !sink.live(ch)),
            old(sink).channels() == n && (exists|c: int| 0 <= c < n && !old(sink).live(c))
                ==> accepted <= 1 && (accepted == 1 ==> session.phase == ScanPhase::Stopping
                && session.reason == Some(StopReason::ConsumersGone)),
        decreases max_polls - polls,
    {
        polls = polls + 1;
        let r = dev.a_in_scan_read(1, timeout_millis);
        match r {
            Err(e) => {
                proof {
                    let ev = PollEvent::Failed(e);
                    let de = DeviceEvent::Polled {
                        samples_per_channel: 1,
                        timeout_millis,
                        outcome: ev,
                    };
                    lemma_concat_push(hist0, polled_events(events, 1, timeout_millis), de);
                    assert(polled_events(events.push(ev), 1, timeout_millis) =~= polled_events(
                        events,
                        1,
                        timeout_millis,
                    ).push(de));
                    lemma_frames_of_push_prefix(events, ev, accepted);
                    events = events.push(ev);
                }
                session.observe_read_error(e);
            },
            Ok((status, frame)) => {
                let ghost ev = PollEvent::Read(status, frame@);
                let ghost events_pre = events;
                proof {
                    let de = DeviceEvent::Polled {
                        samples_per_channel: 1,
                        timeout_millis,
                        outcome: ev,
                    };
                    lemma_concat_push(hist0, polled_events(events, 1, timeout_millis), de);
                    assert(polled_events(events.push(ev), 1, timeout_millis) =~= polled_events(
                        events,
                        1,
                        timeout_millis,
                    ).push(de));
                    lemma_frames_of_push_prefix(events, ev, accepted);
                    events = events.push(ev);
                }
                let stop = session.observe_poll(status, frame.len());
                if stop.is_none() {
                    proof {
                        accepted = accepted + 1;
                        lemma_frames_of_push_all(events_pre, ev);
                    }
                    let ghost frames_before = frames_of(events, accepted - 1);
                    let ghost sink_before = *sink;
                    let ok = deliver_frame(sink, &frame);
                    proof {
                        assert(frames_before == frames_of(events_pre, accepted - 1));
                        assert(frames_of(events, accepted) == frames_before.push(frame@));
                        lemma_frames_attempts_push(frames_before, frame@);
                        lemma_concat_assoc(
                            old(sink).attempts(),
                            frames_attempts(frames_before),
                            frame_attempts(frame@),
                        );
                        assert(sink.attempts() == old(sink).attempts() + frames_attempts(
                            frames_of(events, accepted),
                        ));
                        assert forall|ch: int| 0 <= ch < n implies column(
                            frames_of(events, accepted),
                            ch,
                        ) == column(frames_before, ch).push(frame@[ch]) by {
                            lemma_column_push(frames_before, poll_frame(ev), ch);
                        }
                        assert forall|ch: int| 0 <= ch < n implies old(sink).received(ch) + column(
                            frames_before,
                            ch,
                        ).push(frame@[ch]) == old(sink).received(ch) + column(
                            frames_of(events, accepted),
                            ch,
                        ) by {
                            lemma_concat_push(old(sink).received(ch), column(frames_before, ch), frame@[ch]);
                        }
                        if old(sink).channels() == n && (exists|c: int|
                            0 <= c < n && !old(sink).live(c)) {
                            let c0 = choose|c: int| 0 <= c < n && !old(sink).live(c);
                            assert(!sink_before.live(c0));
                            assert(!ok);
                        }
                    }
                    if !ok {
                        session.observe_delivery_failure();
                    }
                }
            },
        }
    }
    if matches!(session.phase, ScanPhase::Running) {
        session.observe_stop_request();
    }
    let stop_res = dev.a_in_scan_stop();
    session.record_stop(stop_res);
    let cleanup_res = dev.a_in_scan_cleanup();
    session.record_cleanup(cleanup_res);
    proof {
        assert(hist0 + polled_events(events, 1, timeout_millis) + seq![
            DeviceEvent::Stopped(err_of(stop_res)),
            DeviceEvent::Cleaned(err_of(cleanup_res)),
        ] =~= ((hist0 + polled_events(events, 1, timeout_millis)).push(
            DeviceEvent::Stopped(err_of(stop_res)),
        )).push(DeviceEvent::Cleaned(err_of(cleanup_res))));
    }
    (dev, ScanOutcome { session, events: Ghost(events), accepted: Ghost(accepted) })
}

} // verus!
