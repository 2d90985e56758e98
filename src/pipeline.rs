//! The decisions of a run, as a state machine that the stages report to.
//!
//! Ingest asks for sequence numbers for each batch it assembles; the
//! inference stage then resolves each frame in sequence order, either handing
//! it to the encoder with its timestamp or skipping it; the run finishes once
//! every frame is resolved. The stages themselves perform the work and feed
//! the outcome back.
use vstd::prelude::*;
use crate::timing::FrameClock;

verus! {

/// Sequence numbers given to one batch: `first_seq .. first_seq + len`.
#[derive(Clone, Copy, Debug, PartialEq, Eq, Structural)]
pub struct BatchTicket {
    pub first_seq: u64,
    pub len: usize,
}

/// A frame handed to the encoder, with its presentation timestamp in ticks.
#[derive(Clone, Copy, Debug, PartialEq, Eq, Structural)]
pub struct Submission {
    pub seq: u64,
    pub pts: u64,
}

/// The answer to a request to finalise the output.
#[derive(Clone, Copy, Debug, PartialEq, Eq, Structural)]
pub enum FinishDecision {
    /// Finalise now.
    Finish,
    /// Frames are still in flight: drain them first.
    NotDrained,
    /// The output was finalised already.
    AlreadyFinished,
}

/// The state of a run.
pub struct Pipeline {
    /// Most frames in one batch.
    pub max_batch: usize,
    /// Frames given a sequence number so far: `0 .. ingested`.
    pub ingested: u64,
    /// Frames submitted or skipped so far: `0 .. resolved`.
    pub resolved: u64,
    /// Frames handed to the encoder so far.
    pub submitted: u64,
    /// The output clock.
    pub clock: FrameClock,
    /// No frame is ingested any more.
    pub shutdown: bool,
    /// The output was finalised.
    pub finished: bool,
    /// Batches done so far.
    pub batches: u64,
    /// Statistics are reported every this many batches.
    pub report_every: u64,
    /// Encode failures in a row that are still tolerated.
    pub max_encode_failures: u32,
    /// Encode failures in a row so far.
    pub encode_failures: u32,
    /// Skipped frames keep their place in time, leaving a gap in the
    /// timestamps; otherwise the timestamps close up over them.
    pub gap_on_skip: bool,
    /// Sequence numbers of the submitted frames, in submission order.
    pub submitted_seqs: Ghost<Seq<u64>>,
    /// Timestamps of the submitted frames, in submission order.
    pub submitted_pts: Ghost<Seq<u64>>,
}

impl Pipeline {
    pub open spec fn wf(&self) -> bool {
        &&& self.max_batch >= 1
        &&& self.report_every >= 1
        &&& self.clock.wf()
        &&& self.resolved <= self.ingested
        &&& self.submitted <= self.resolved
        &&& self.submitted_seqs@.len() == self.submitted
        &&& self.submitted_pts@.len() == self.submitted
        &&& self.clock.position == self.stamped_frames() * self.clock.step
        &&& forall|i: int|
            0 <= i < self.submitted ==> #[trigger] self.submitted_pts@[i] == self.slot_of(i)
                * self.clock.step
        &&& forall|i: int, j: int|
            0 <= i < j < self.submitted ==> self.submitted_seqs@[i] < self.submitted_seqs@[j]
        &&& forall|i: int| 0 <= i < self.submitted ==> #[trigger] self.submitted_seqs@[i] < self.resolved
        &&& self.finished ==> self.shutdown
    }

    /// Frames the clock has advanced over: all resolved ones when skipped
    /// frames leave a gap, else the submitted ones.
    pub open spec fn stamped_frames(&self) -> int {
        if self.gap_on_skip {
            self.resolved as int
        } else {
            self.submitted as int
        }
    }

    /// Place in time, in frame durations, of the `i`-th submitted frame.
    pub open spec fn slot_of(&self, i: int) -> int {
        if self.gap_on_skip {
            self.submitted_seqs@[i] as int
        } else {
            i
        }
    }

    /// Frames skipped so far.
    pub open spec fn skipped_spec(&self) -> int {
        self.resolved - self.submitted
    }

    /// Every ingested frame is resolved.
    pub open spec fn drained(&self) -> bool {
        self.resolved == self.ingested
    }

    /// What `finish` answers in this state.
    pub open spec fn finish_outcome(&self) -> FinishDecision {
        if self.finished {
            FinishDecision::AlreadyFinished
        } else if !self.drained() {
            FinishDecision::NotDrained
        } else {
            FinishDecision::Finish
        }
    }

    /// This state once the output is finalised.
    pub open spec fn after_finish(self) -> Pipeline {
        Pipeline { finished: true, shutdown: true, ..self }
    }

    /// A run with nothing ingested yet: batches of at most `max_batch`
    /// frames, stamped by `clock`, statistics every `report_every` batches,
    /// `max_encode_failures` encode failures in a row tolerated, and skipped
    /// frames leaving a gap in the timestamps when `gap_on_skip` holds.
    pub fn new(
        max_batch: usize,
        clock: FrameClock,
        report_every: u64,
        max_encode_failures: u32,
        gap_on_skip: bool,
    ) -> (r: Pipeline)
        requires
            max_batch >= 1,
            report_every >= 1,
            clock.wf(),
            clock.position == 0,
        ensures
            r.wf(),
            r.max_batch == max_batch && r.clock == clock,
            r.report_every == report_every && r.max_encode_failures == max_encode_failures,
            r.ingested == 0 && r.resolved == 0 && r.submitted == 0 && r.batches == 0,
            r.encode_failures == 0 && r.gap_on_skip == gap_on_skip,
            !r.shutdown && !r.finished,
    {
        proof {
            assert(0 * clock.step == 0) by (nonlinear_arith);
        }
        Pipeline {
            max_batch,
            ingested: 0,
            resolved: 0,
            submitted: 0,
            clock,
            shutdown: false,
            finished: false,
            batches: 0,
            report_every,
            max_encode_failures,
            encode_failures: 0,
            gap_on_skip,
            submitted_seqs: Ghost(Seq::empty()),
            submitted_pts: Ghost(Seq::empty()),
        }
    }

    /// Frames skipped so far.
    pub fn skipped(&self) -> (r: u64)
        requires
            self.wf(),
        ensures
            r == self.skipped_spec(),
    {
        self.resolved - self.submitted
    }

    /// Frames ingested but not yet resolved.
    pub fn in_flight(&self) -> (r: u64)
        requires
            self.wf(),
        ensures
            r == self.ingested - self.resolved,
    {
        self.ingested - self.resolved
    }

    /// Gives sequence numbers to a batch of `n` frames, following those
    /// given before. `None`, with nothing changed, after shutdown, for an
    /// empty or oversized batch, or once the numbers would not fit in 64 bits.
    pub fn ingest_batch(&mut self, n: usize) -> (r: Option<BatchTicket>)
        requires
            old(self).wf(),
        ensures
            final(self).wf(),
            r is Some <==> (!old(self).shutdown && 1 <= n <= old(self).max_batch
                && old(self).ingested + n <= u64::MAX),
            r matches Some(t) ==> t.first_seq == old(self).ingested && t.len == n
                && *final(self) == (Pipeline { ingested: (old(self).ingested + n) as u64, ..*old(self) }),
            r is None ==> *final(self) == *old(self),
    {
        if self.shutdown || n == 0 || n > self.max_batch || self.ingested > u64::MAX - n as u64 {
            return None;
        }
        let first_seq = self.ingested;
        self.ingested = self.ingested + n as u64;
        Some(BatchTicket { first_seq, len: n })
    }

    /// The next frame in sequence order is ready: hands it to the encoder
    /// with the clock's timestamp. `None`, with nothing changed, when no frame
    /// is in flight or the clock is exhausted.
    pub fn frame_ready(&mut self) -> (r: Option<Submission>)
        requires
            old(self).wf(),
        ensures
            final(self).wf(),
            r is Some <==> (old(self).resolved < old(self).ingested
                && old(self).clock.position + old(self).clock.step <= u64::MAX),
            r matches Some(s) ==> {
                &&& s.seq == old(self).resolved
                &&& s.pts == old(self).stamped_frames() * old(self).clock.step
                &&& FrameClock::advanced(old(self).clock, final(self).clock, s.pts)
                &&& *final(self) == (Pipeline {
                    resolved: (old(self).resolved + 1) as u64,
                    submitted: (old(self).submitted + 1) as u64,
                    clock: final(self).clock,
                    submitted_seqs: Ghost(old(self).submitted_seqs@.push(s.seq)),
                    submitted_pts: Ghost(old(self).submitted_pts@.push(s.pts)),
                    ..*old(self)
                })
            },
            r is None ==> *final(self) == *old(self),
    {
        if self.resolved >= self.ingested {
            return None;
        }
        let ghost pre = *self;
        match self.clock.next_pts() {
            None => None,
            Some(pts) => {
                let seq = self.resolved;
                self.resolved = self.resolved + 1;
                self.submitted = self.submitted + 1;
                self.submitted_seqs = Ghost(self.submitted_seqs@.push(seq));
                self.submitted_pts = Ghost(self.submitted_pts@.push(pts));
                proof {
                    let k = pre.stamped_frames();
                    assert(self.stamped_frames() == k + 1);
                    assert(self.clock.position == (k + 1) * self.clock.step) by (nonlinear_arith)
                        requires
                            self.clock.position == pre.clock.position + pre.clock.step,
                            pre.clock.position == k * pre.clock.step,
                            self.clock.step == pre.clock.step,
                    ;
                    assert(self.slot_of(pre.submitted as int) == k);
                    assert forall|i: int| 0 <= i < pre.submitted implies self.slot_of(i) == pre.slot_of(i) by {
                        assert(self.submitted_seqs@[i] == pre.submitted_seqs@[i]);
                    }
                    assert(self.submitted_pts@[pre.submitted as int] == pts);
                    assert(self.submitted_seqs@[pre.submitted as int] == seq);
                }
                Some(Submission { seq, pts })
            },
        }
    }

    /// The next `n` frames in sequence order are dropped (a failed batch, or
    /// a frame that could not be annotated or converted); when skipped frames
    /// leave a gap, the clock advances over them. `false`, with nothing
    /// changed, when fewer than `n` frames are in flight or the clock would
    /// overflow.
    pub fn skip_frames(&mut self, n: u64) -> (r: bool)
        requires
            old(self).wf(),
        ensures
            final(self).wf(),
            r == (n <= old(self).ingested - old(self).resolved && (!old(self).gap_on_skip
                || old(self).clock.position + n * old(self).clock.step <= u64::MAX)),
            r ==> *final(self) == (Pipeline {
                resolved: (old(self).resolved + n) as u64,
                clock: FrameClock {
                    position: (old(self).clock.position + (if old(self).gap_on_skip {
                        n * old(self).clock.step
                    } else {
                        0
                    })) as u64,
                    ..old(self).clock
                },
                ..*old(self)
            }),
            !r ==> *final(self) == *old(self),
    {
        if n > self.ingested - self.resolved {
            return false;
        }
        if self.gap_on_skip {
            let ghost pre = *self;
            let advance = match n.checked_mul(self.clock.step) {
                Some(a) => a,
                None => {
                    proof {
                        assert(pre.clock.position + n * pre.clock.step > u64::MAX) by (nonlinear_arith)
                            requires
                                n * pre.clock.step > u64::MAX,
                                pre.clock.position >= 0,
                        ;
                    }
                    return false;
                },
            };
            if self.clock.position > u64::MAX - advance {
                return false;
            }
            self.clock.position = self.clock.position + advance;
            self.resolved = self.resolved + n;
            proof {
                assert(self.clock.position == self.resolved * self.clock.step) by (nonlinear_arith)
                    requires
                        self.clock.position == pre.clock.position + n * pre.clock.step,
                        pre.clock.position == pre.resolved * pre.clock.step,
                        self.resolved == pre.resolved + n,
                        self.clock.step == pre.clock.step,
                ;
            }
        } else {
            self.resolved = self.resolved + n;
        }
        true
    }

    /// One batch is done; `true` when statistics are due, every
    /// `report_every` batches.
    pub fn batch_done(&mut self) -> (r: bool)
        requires
            old(self).wf(),
        ensures
            final(self).wf(),
            final(self).batches == (if old(self).batches < u64::MAX { old(self).batches + 1 } else { old(self).batches as int }),
            r == (final(self).batches % old(self).report_every == 0),
            *final(self) == (Pipeline { batches: final(self).batches, ..*old(self) }),
    {
        if self.batches < u64::MAX {
            self.batches = self.batches + 1;
        }
        self.batches % self.report_every == 0
    }

    /// The encoder's answer for one frame; `true` when the failures in a row
    /// now exceed what is tolerated, which ends the run.
    pub fn encode_result(&mut self, ok: bool) -> (r: bool)
        requires
            old(self).wf(),
        ensures
            final(self).wf(),
            ok ==> final(self).encode_failures == 0,
            !ok ==> final(self).encode_failures == (if old(self).encode_failures < u32::MAX {
                old(self).encode_failures + 1
            } else {
                old(self).encode_failures as int
            }),
            r == (final(self).encode_failures > old(self).max_encode_failures),
            *final(self) == (Pipeline { encode_failures: final(self).encode_failures, ..*old(self) }),
    {
        if ok {
            self.encode_failures = 0;
        } else if self.encode_failures < u32::MAX {
            self.encode_failures = self.encode_failures + 1;
        }
        self.encode_failures > self.max_encode_failures
    }

    /// Stops ingest: no batch is given sequence numbers from now on; frames
    /// in flight still complete.
    pub fn request_shutdown(&mut self)
        requires
            old(self).wf(),
        ensures
            final(self).wf(),
            *final(self) == (Pipeline { shutdown: true, ..*old(self) }),
    {
        self.shutdown = true;
    }

    /// Asks to finalise the output: granted once, when every ingested frame
    /// is resolved; ingest stops then.
    pub fn finish(&mut self) -> (r: FinishDecision)
        requires
            old(self).wf(),
        ensures
            final(self).wf(),
            r == old(self).finish_outcome(),
            r == FinishDecision::Finish ==> *final(self) == old(self).after_finish(),
            r != FinishDecision::Finish ==> *final(self) == *old(self),
    {
        if self.finished {
            FinishDecision::AlreadyFinished
        } else if self.resolved < self.ingested {
            FinishDecision::NotDrained
        } else {
            self.finished = true;
            self.shutdown = true;
            FinishDecision::Finish
        }
    }
}

/// Once every ingested frame is resolved, the frames handed to the encoder
/// are the ingested ones less the skipped ones, and they were handed over in
/// ingest order.
pub proof fn lemma_drained_accounting(p: Pipeline)
    requires
        p.wf(),
        p.drained(),
    ensures
        p.submitted == p.ingested - p.skipped_spec(),
        forall|i: int, j: int|
            0 <= i < j < p.submitted ==> p.submitted_seqs@[i] < p.submitted_seqs@[j],
        forall|i: int| 0 <= i < p.submitted ==> #[trigger] p.submitted_seqs@[i] < p.ingested,
{
}

/// When the timestamps close up over skipped frames, those handed to the
/// encoder start at zero, rise strictly, and differ by exactly the
/// inter-frame duration.
pub proof fn lemma_timestamps_evenly_spaced(p: Pipeline)
    requires
        p.wf(),
        !p.gap_on_skip,
    ensures
        p.submitted > 0 ==> p.submitted_pts@[0] == 0,
        forall|i: int|
            0 <= i && i + 1 < p.submitted ==> #[trigger] p.submitted_pts@[i + 1] == p.submitted_pts@[i] + p.clock.step
                && p.submitted_pts@[i] < p.submitted_pts@[i + 1],
{
    assert forall|i: int| 0 <= i && i + 1 < p.submitted implies #[trigger] p.submitted_pts@[i + 1]
        == p.submitted_pts@[i] + p.clock.step && p.submitted_pts@[i] < p.submitted_pts@[i + 1] by {
        assert(p.submitted_pts@[i] == i * p.clock.step);
        assert(p.submitted_pts@[i + 1] == (i + 1) * p.clock.step);
        assert((i + 1) * p.clock.step == i * p.clock.step + p.clock.step) by (nonlinear_arith);
    }
    if p.submitted > 0 {
        assert(p.submitted_pts@[0] == 0 * p.clock.step);
    }
}

/// When skipped frames leave a gap, each frame handed to the encoder is
/// stamped at its own place in the source: its sequence number times the
/// inter-frame duration, so the timestamps still rise strictly.
pub proof fn lemma_timestamps_keep_gaps(p: Pipeline)
    requires
        p.wf(),
        p.gap_on_skip,
    ensures
        forall|i: int| 0 <= i < p.submitted ==> #[trigger] p.submitted_pts@[i] == p.submitted_seqs@[i] * p.clock.step,
        forall|i: int, j: int|
            0 <= i < j < p.submitted ==> p.submitted_pts@[i] < p.submitted_pts@[j],
{
    assert forall|i: int, j: int| 0 <= i < j < p.submitted implies p.submitted_pts@[i]
        < p.submitted_pts@[j] by {
        let a = p.submitted_seqs@[i] as int;
        let b = p.submitted_seqs@[j] as int;
        assert(p.submitted_pts@[i] == p.slot_of(i) * p.clock.step);
        assert(p.submitted_pts@[j] == p.slot_of(j) * p.clock.step);
        assert(a * p.clock.step < b * p.clock.step) by (nonlinear_arith)
            requires
                a < b,
                p.clock.step > 0,
        ;
    }
}

/// The output is finalised at most once, and only when every frame ingested
/// before the request was handed to the encoder or skipped; after that no
/// frame is ingested.
pub proof fn lemma_finish_once(p: Pipeline)
    requires
        p.wf(),
        p.finish_outcome() == FinishDecision::Finish,
    ensures
        p.submitted + p.skipped_spec() == p.ingested,
        p.after_finish().wf(),
        p.after_finish().finish_outcome() == FinishDecision::AlreadyFinished,
        p.after_finish().shutdown,
{
}

} // verus!
