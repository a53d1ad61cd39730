//! Capture engine state: end-of-session reasons, the frame assembler that
//! re-frames incoming PCM into fixed 960-sample frames with contiguous
//! sequence numbers, and the packet-pump decision function.
//!
//! The engine's outside work — pulling packets from the platform audio
//! subsystem, sleeping, writing sockets — is performed by the thread that
//! drives it; every decision the pump takes from those observations is a
//! function here, stated and proved over plain values.

use vstd::prelude::*;

verus! {

use crate::FRAME_SIZE;
use crate::BYTES_PER_SAMPLE;

/// Why a capture session ended. The closed set of reasons every session
/// terminates with, emitted verbatim on the `audio_capture.ended` event.
#[derive(Clone, Copy, Debug, PartialEq, Eq, Structural)]
pub enum CaptureEndReason {
    CaptureStopped,
    AppExited,
    CaptureError,
    DeviceLost,
}

/// The wire string for each end reason.
pub open spec fn reason_str(r: CaptureEndReason) -> Seq<char> {
    match r {
        CaptureEndReason::CaptureStopped => "capture_stopped"@,
        CaptureEndReason::AppExited => "app_exited"@,
        CaptureEndReason::CaptureError => "capture_error"@,
        CaptureEndReason::DeviceLost => "device_lost"@,
    }
}

impl CaptureEndReason {
    /// The literal string emitted on the `ended` event for this reason.
    pub fn as_str(self) -> (r: &'static str)
        ensures
            r@ == reason_str(self),
    {
        match self {
            CaptureEndReason::CaptureStopped => "capture_stopped",
            CaptureEndReason::AppExited => "app_exited",
            CaptureEndReason::CaptureError => "capture_error",
            CaptureEndReason::DeviceLost => "device_lost",
        }
    }
}

/// How a capture session ended: a reason, and a diagnostic string carried
/// only by `capture_error`.
pub struct CaptureOutcome {
    pub reason: CaptureEndReason,
    pub error: Option<String>,
}

/// Only the `capture_error` reason carries a diagnostic string.
pub open spec fn outcome_wf(o: &CaptureOutcome) -> bool {
    o.error is Some ==> o.reason == CaptureEndReason::CaptureError
}

impl CaptureOutcome {
    /// An outcome with no diagnostic, for the reasons that carry none.
    pub fn from_reason(reason: CaptureEndReason) -> (r: CaptureOutcome)
        ensures
            r.reason == reason,
            r.error is None,
            outcome_wf(&r),
    {
        CaptureOutcome { reason, error: None }
    }

    /// A `capture_error` outcome carrying its diagnostic.
    pub fn capture_error(error: String) -> (r: CaptureOutcome)
        ensures
            r.reason == CaptureEndReason::CaptureError,
            r.error == Some(error),
            outcome_wf(&r),
    {
        CaptureOutcome { reason: CaptureEndReason::CaptureError, error: Some(error) }
    }
}

/// What the pump does next after one poll of its surroundings.
#[derive(Clone, Copy, Debug, PartialEq, Eq, Structural)]
pub enum PumpStep {
    /// Stop the client and end the session with this reason.
    End(CaptureEndReason),
    /// No packet pending: sleep briefly and poll again.
    Idle,
    /// Packets are pending: drain them.
    Drain,
}

/// The pump's decision, in priority order: a requested stop ends the
/// session; a dead target (include mode) ends it; a failed packet-size
/// query means the device is lost; an empty packet means idle; otherwise
/// there is data to drain.
pub open spec fn spec_pump_poll(
    stop_requested: bool,
    target_alive: Option<bool>,
    packet_size: Option<u32>,
) -> PumpStep {
    if stop_requested {
        PumpStep::End(CaptureEndReason::CaptureStopped)
    } else if target_alive == Some(false) {
        PumpStep::End(CaptureEndReason::AppExited)
    } else {
        match packet_size {
            None => PumpStep::End(CaptureEndReason::DeviceLost),
            Some(size) => if size == 0 {
                PumpStep::Idle
            } else {
                PumpStep::Drain
            },
        }
    }
}

/// Decides one pump iteration from what the thread observed: the stop
/// flag, the liveness poll (when one was due and a handle is held), and
/// the packet-size query (`None` when the query failed).
pub fn pump_poll(stop_requested: bool, target_alive: Option<bool>, packet_size: Option<u32>) -> (r:
    PumpStep)
    ensures
        r == spec_pump_poll(stop_requested, target_alive, packet_size),
{
    if stop_requested {
        PumpStep::End(CaptureEndReason::CaptureStopped)
    } else if target_alive == Some(false) {
        PumpStep::End(CaptureEndReason::AppExited)
    } else {
        match packet_size {
            None => PumpStep::End(CaptureEndReason::DeviceLost),
            Some(size) => if size == 0 {
                PumpStep::Idle
            } else {
                PumpStep::Drain
            },
        }
    }
}

/// Once stop is requested, the pump always ends the session with
/// `capture_stopped`, whatever else it observes: no frame is drained after
/// a stop is seen.
pub proof fn lemma_stop_wins(target_alive: Option<bool>, packet_size: Option<u32>)
    ensures
        spec_pump_poll(true, target_alive, packet_size) == PumpStep::End(
            CaptureEndReason::CaptureStopped,
        ),
{
}

/// The bytes of one canonical frame: 960 samples of 4 bytes each.
pub open spec fn frame_bytes() -> nat {
    (FRAME_SIZE * BYTES_PER_SAMPLE) as nat
}

/// Every frame's PCM payload is exactly `frameCount * channels * 4` bytes:
/// the canonical 960 samples, one channel, four bytes per sample.
pub proof fn lemma_frame_payload_size()
    ensures
        frame_bytes() == FRAME_SIZE as nat * crate::TARGET_CHANNELS as nat
            * BYTES_PER_SAMPLE as nat,
{
}

/// A silent chunk: `frame_count` samples of zeroed little-endian bytes,
/// synthesised when the capture buffer carries the silent flag.
pub fn silent_chunk(frame_count: u32) -> (r: Vec<u8>)
    requires
        frame_count * BYTES_PER_SAMPLE <= usize::MAX,
    ensures
        r@.len() == frame_count * BYTES_PER_SAMPLE,
        forall|i: int| 0 <= i < r@.len() ==> r@[i] == 0u8,
{
    let n = (frame_count as usize) * (BYTES_PER_SAMPLE as usize);
    let r = vec![0u8; n];
    r
}

/// Re-frames incoming PCM byte chunks into fixed-size frames and stamps
/// each with the next sequence number. Sequence numbers start at zero and
/// go up by one per frame (saturating, defensively, at the top of `u64`);
/// the ghost `emitted` history records every number handed out.
pub struct FrameAssembler {
    pending: Vec<u8>,
    sequence: u64,
    emitted: Ghost<Seq<u64>>,
}

impl FrameAssembler {
    /// Sample bytes accepted but not yet drained as frames.
    pub closed spec fn pending_bytes(&self) -> Seq<u8> {
        self.pending@
    }

    /// The next sequence number to stamp.
    pub closed spec fn sequence(&self) -> u64 {
        self.sequence
    }

    /// Every sequence number handed out so far, in emission order.
    pub closed spec fn emitted(&self) -> Seq<u64> {
        self.emitted@
    }

    /// The assembler's invariant: the next sequence number counts the
    /// frames emitted (saturating at the top of `u64`), and the history
    /// holds exactly the numbers 0, 1, 2, … in order.
    pub closed spec fn wf(&self) -> bool {
        &&& self.sequence as nat == if self.emitted@.len() <= u64::MAX as nat {
            self.emitted@.len()
        } else {
            u64::MAX as nat
        }
        &&& forall|i: int|
            0 <= i < self.emitted@.len() ==> #[trigger] self.emitted@[i] == if i
                <= u64::MAX as int {
                i as u64
            } else {
                u64::MAX
            }
    }

    /// A fresh assembler: nothing pending, nothing emitted.
    pub fn new() -> (r: FrameAssembler)
        ensures
            r.pending_bytes() == Seq::<u8>::empty(),
            r.sequence() == 0,
            r.emitted() == Seq::<u64>::empty(),
            r.wf(),
    {
        FrameAssembler { pending: Vec::new(), sequence: 0, emitted: Ghost(Seq::empty()) }
    }

    /// How many bytes are pending.
    pub fn pending_len(&self) -> (r: usize)
        ensures
            r == self.pending_bytes().len(),
    {
        self.pending.len()
    }

    /// Appends one packet's worth of sample bytes to the accumulator.
    pub fn push_chunk(&mut self, chunk: &Vec<u8>)
        requires
            old(self).pending_bytes().len() + chunk@.len() <= usize::MAX,
        ensures
            final(self).pending_bytes() == old(self).pending_bytes() + chunk@,
            final(self).sequence() == old(self).sequence(),
            final(self).emitted() == old(self).emitted(),
            old(self).wf() ==> final(self).wf(),
    {
        self.pending.extend_from_slice(chunk.as_slice());
        proof {
            assert(final(self).pending_bytes() =~= old(self).pending_bytes() + chunk@);
        }
    }

    /// Drains the oldest full frame, if one is pending: exactly the first
    /// 3840 bytes, stamped with the current sequence number, which then
    /// moves up by one (saturating).
    pub fn take_frame(&mut self) -> (r: Option<(u64, Vec<u8>)>)
        requires
            old(self).wf(),
        ensures
            final(self).wf(),
            old(self).pending_bytes().len() < frame_bytes() ==> {
                &&& r is None
                &&& *final(self) == *old(self)
            },
            old(self).pending_bytes().len() >= frame_bytes() ==> {
                &&& r matches Some((seq, frame)) && seq == old(self).sequence() && frame@ == old(
                    self,
                ).pending_bytes().take(frame_bytes() as int)
                &&& final(self).pending_bytes() == old(self).pending_bytes().skip(
                    frame_bytes() as int,
                )
                &&& final(self).emitted() == old(self).emitted().push(old(self).sequence())
                &&& final(self).sequence() == if old(self).sequence() < u64::MAX {
                    (old(self).sequence() + 1) as u64
                } else {
                    u64::MAX
                }
            },
    {
        let take: usize = 3840;
        proof {
            assert(take == frame_bytes());
        }
        if self.pending.len() < take {
            return None;
        }
        let mut frame = self.pending.split_off(0);
        let rest = frame.split_off(take);
        self.pending = rest;
        let seq = self.sequence;
        proof {
            self.emitted@ = self.emitted@.push(seq);
        }
        self.sequence = self.sequence.saturating_add(1);
        proof {
            assert(frame@ =~= old(self).pending_bytes().take(frame_bytes() as int));
            assert(final(self).pending_bytes() =~= old(self).pending_bytes().skip(
                frame_bytes() as int,
            ));
        }
        Some((seq, frame))
    }
}

/// Every end reason is one of the four wire strings: the `ended` event's
/// `reason` field is drawn from this closed set and no other.
pub proof fn lemma_reason_closed_set(reason: CaptureEndReason)
    ensures
        reason_str(reason) == "capture_stopped"@ || reason_str(reason) == "app_exited"@
            || reason_str(reason) == "capture_error"@ || reason_str(reason) == "device_lost"@,
{
}

/// The completion signal behind the asynchronous loopback activation. The
/// platform invokes the completion callback on an arbitrary thread; the
/// callback only sets this signal, and the activator waits on it for up to
/// five seconds, treating it purely as a signal.
pub struct ActivateAudioInterfaceCallback {
    done: bool,
}

impl ActivateAudioInterfaceCallback {
    /// Whether the activation has completed.
    pub closed spec fn done(&self) -> bool {
        self.done
    }

    /// A fresh signal: not yet completed.
    pub fn new() -> (r: ActivateAudioInterfaceCallback)
        ensures
            !r.done(),
    {
        ActivateAudioInterfaceCallback { done: false }
    }

    /// What the completion callback does: mark the activation done. Set
    /// once, never cleared.
    pub fn activate_completed(&mut self)
        ensures
            final(self).done(),
    {
        self.done = true;
    }
}

/// The activator's verdict after its wait: completion lets activation
/// proceed; anything else is the timeout error, verbatim.
pub fn activation_wait_outcome(callback_done: bool) -> (r: Result<(), String>)
    ensures
        callback_done ==> r is Ok,
        !callback_done ==> (r matches Err(m) && m@ == "ActivateAudioInterfaceAsync timed out"@),
{
    if callback_done {
        Ok(())
    } else {
        Err(String::from_str("ActivateAudioInterfaceAsync timed out"))
    }
}

/// The initialise-failure diagnostic: the stringified platform error, with
/// the invalid-stream-flag status surfaced distinctly to aid diagnosis.
pub fn init_error_message(detail: &str, invalid_flag: bool) -> (r: String)
    ensures
        r@ == "Failed to initialize loopback client: "@ + detail@ + (if invalid_flag {
            " (invalid flags for process loopback)"@
        } else {
            Seq::<char>::empty()
        }),
{
    let mut m = String::from_str("Failed to initialize loopback client: ");
    m.append(detail);
    if invalid_flag {
        m.append(" (invalid flags for process loopback)");
    }
    proof {
        assert(m@ =~= "Failed to initialize loopback client: "@ + detail@ + (if invalid_flag {
            " (invalid flags for process loopback)"@
        } else {
            Seq::<char>::empty()
        }));
    }
    m
}

/// Whether a liveness handle could be opened decides how an include-mode
/// session begins: without one the target is already gone and the session
/// ends at once with `app_exited` and no diagnostic; exclude mode never
/// opens one, the session being system-wide.
pub fn initial_liveness_outcome(exclude: bool, handle_opened: bool) -> (r: Option<CaptureOutcome>)
    ensures
        exclude ==> r is None,
        !exclude && handle_opened ==> r is None,
        !exclude && !handle_opened ==> (r matches Some(o) && o.reason
            == CaptureEndReason::AppExited && o.error is None),
{
    if !exclude && !handle_opened {
        Some(CaptureOutcome::from_reason(CaptureEndReason::AppExited))
    } else {
        None
    }
}

impl FrameAssembler {
    /// Drains every full frame the accumulator holds, in order: the k-th
    /// drained frame is exactly the k-th 3840-byte slice of the pending
    /// bytes, re-framing being exact — no resampling, padding or overlap —
    /// and the partial tail stays pending.
    pub fn drain_frames(&mut self) -> (r: Vec<(u64, Vec<u8>)>)
        requires
            old(self).wf(),
        ensures
            final(self).wf(),
            r@.len() == old(self).pending_bytes().len() as int / frame_bytes() as int,
            final(self).pending_bytes() == old(self).pending_bytes().skip(
                r@.len() * frame_bytes() as int,
            ),
            forall|i: int|
                0 <= i < r@.len() ==> (#[trigger] r@[i]).1@ == old(self).pending_bytes().subrange(
                    i * frame_bytes() as int,
                    (i + 1) * frame_bytes() as int,
                ),
            final(self).emitted() == old(self).emitted() + r@.map_values(
                |p: (u64, Vec<u8>)| p.0,
            ),
    {
        let ghost p0 = old(self).pending_bytes();
        let ghost fb = frame_bytes() as int;
        let mut frames: Vec<(u64, Vec<u8>)> = Vec::new();
        proof {
            assert(fb == 3840);
            assert(p0.skip(0) =~= p0);
            assert(frames@.map_values(|p: (u64, Vec<u8>)| p.0) =~= Seq::<u64>::empty());
            assert(old(self).emitted() + Seq::<u64>::empty() =~= old(self).emitted());
        }
        while self.pending_len() >= 3840
            invariant
                fb == frame_bytes(),
                fb == 3840,
                self.wf(),
                frames@.len() * fb <= p0.len(),
                self.pending_bytes() =~= p0.skip(frames@.len() * fb),
                forall|i: int|
                    0 <= i < frames@.len() ==> (#[trigger] frames@[i]).1@ == p0.subrange(
                        i * fb,
                        (i + 1) * fb,
                    ),
                self.emitted() == old(self).emitted() + frames@.map_values(
                    |p: (u64, Vec<u8>)| p.0,
                ),
            decreases self.pending_bytes().len(),
        {
            let ghost j = frames@.len() as int;
            let ghost frames_pre = frames@;
            let pair = self.take_frame().unwrap();
            proof {
                assert(p0.skip(j * fb).take(fb) =~= p0.subrange(j * fb, (j + 1) * fb));
                assert(p0.skip(j * fb).skip(fb) =~= p0.skip(j * fb + fb));
                assert(j * fb + fb == (j + 1) * fb) by (nonlinear_arith);
                assert((j + 1) * fb <= p0.len()) by (nonlinear_arith)
                    requires
                        fb == 3840,
                        j * fb <= p0.len(),
                        p0.skip(j * fb).len() >= fb,
                        p0.skip(j * fb).len() == p0.len() - j * fb,
                ;
            }
            let ghost seq_no = pair.0;
            frames.push(pair);
            proof {
                let f = |p: (u64, Vec<u8>)| p.0;
                assert(frames@.map_values(f) =~= frames_pre.map_values(f).push(seq_no));
                assert(old(self).emitted() + frames_pre.map_values(f).push(seq_no) =~= (old(
                    self,
                ).emitted() + frames_pre.map_values(f)).push(seq_no));
            }
        }
        proof {
            let k = frames@.len() as int;
            assert(p0.skip(k * fb).len() == p0.len() - k * fb);
            assert(self.pending_bytes().len() < fb);
            assert(k == p0.len() as int / fb) by (nonlinear_arith)
                requires
                    fb == 3840,
                    0 <= k,
                    k * fb <= p0.len(),
                    p0.len() - k * fb < fb,
            ;
        }
        frames
    }
}

/// Within a session the emitted sequence numbers are exactly
/// 0, 1, …, K-1 in emission order: no gaps, no reordering, for every
/// history short of the (astronomically unreachable) saturation point.
pub proof fn lemma_sequences_contiguous(a: &FrameAssembler)
    requires
        a.wf(),
        a.emitted().len() <= u64::MAX as nat,
    ensures
        a.emitted() =~= Seq::new(a.emitted().len(), |i: int| i as u64),
{
}

} // verus!
