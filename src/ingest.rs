//! Decisions of the ingest stage: when decode failures stop being transient,
//! and when a live source has stalled for too long.
use vstd::prelude::*;

verus! {

/// Consecutive decode failures that end the run when they fall within the
/// escalation window.
pub const DECODE_FAILURE_LIMIT: u32 = 3;

/// Escalation window for decode failures, in milliseconds.
pub const DECODE_WINDOW_MS: u64 = 1000;

/// Read timeout of live sources, in milliseconds.
pub const READ_TIMEOUT_MS: u64 = 10_000;

/// Time from `earlier` to `later`, in milliseconds; zero when `later` comes
/// first.
pub open spec fn elapsed_ms(earlier: u64, later: u64) -> int {
    if later >= earlier {
        later - earlier
    } else {
        0
    }
}

/// Tracks decode failures in a row.
#[derive(Clone, Copy, Debug, PartialEq, Eq, Structural)]
pub struct DecodeGuard {
    /// When the failure before the last one happened, if the run is that long.
    pub older: Option<u64>,
    /// When the last failure happened, if the last decode failed.
    pub newer: Option<u64>,
}

impl DecodeGuard {
    pub open spec fn wf(self) -> bool {
        self.older is Some ==> self.newer is Some
    }

    /// No failure yet.
    pub fn new() -> (r: DecodeGuard)
        ensures
            r.wf(),
            r.older is None && r.newer is None,
    {
        DecodeGuard { older: None, newer: None }
    }

    /// A frame decoded: the run of failures ends.
    pub fn on_success(&mut self)
        ensures
            final(self).older is None && final(self).newer is None,
    {
        self.older = None;
        self.newer = None;
    }

    /// A frame failed to decode at `now_ms`. `true` when this is the third
    /// failure in a row and the three fall within the escalation window:
    /// decoding has failed for good. Otherwise the frame is skipped.
    pub fn on_failure(&mut self, now_ms: u64) -> (r: bool)
        requires
            old(self).wf(),
        ensures
            final(self).wf(),
            r == (old(self).older matches Some(t) && elapsed_ms(t, now_ms) < DECODE_WINDOW_MS),
            final(self).older == old(self).newer,
            final(self).newer == Some(now_ms),
    {
        let escalate = match self.older {
            Some(t) => {
                let elapsed = if now_ms >= t { now_ms - t } else { 0 };
                elapsed < DECODE_WINDOW_MS
            },
            None => false,
        };
        self.older = self.newer;
        self.newer = Some(now_ms);
        escalate
    }
}

/// Longest a partial batch waits for more frames, in milliseconds.
pub const FLUSH_DEADLINE_MS: u64 = 200;

/// Whether the frames collected so far leave as a batch: when they fill it,
/// or when some are waiting and the first of them has waited past the flush
/// deadline.
pub fn should_flush(pending: usize, batch: usize, first_ms: u64, now_ms: u64, deadline_ms: u64) -> (r: bool)
    ensures
        r == (pending >= batch || (pending > 0 && elapsed_ms(first_ms, now_ms) >= deadline_ms)),
{
    if pending >= batch {
        return true;
    }
    let waited = if now_ms >= first_ms { now_ms - first_ms } else { 0 };
    pending > 0 && waited >= deadline_ms
}

/// Whether a live source that last delivered at `last_ms` has stalled past
/// `timeout_ms` at `now_ms`; such a source counts as failing to open.
pub fn read_timed_out(last_ms: u64, now_ms: u64, timeout_ms: u64) -> (r: bool)
    ensures
        r == (elapsed_ms(last_ms, now_ms) > timeout_ms),
{
    now_ms >= last_ms && now_ms - last_ms > timeout_ms
}

} // verus!
