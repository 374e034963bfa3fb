//! Fixed wait after a readiness failure.
//!
//! When the wrapped service fails a readiness poll, the backoff arms a timer
//! and reports not-ready; until the timer fires every further poll is
//! refused without touching the inner service.  This keeps a failing
//! controller from being hammered in a tight reconnect loop.
//!
//! Time is a millisecond count supplied by the event loop, so what the
//! layer answers at every instant is verified.

use vstd::prelude::*;

verus! {

/// What a readiness poll of the inner service reported.
#[derive(Clone, Copy, Debug, PartialEq, Eq, Structural)]
pub enum InnerReady {
    Ready,
    NotReady,
    /// The poll failed; the backoff absorbs the error and starts waiting.
    Failed,
}

/// What the backoff surfaces to its own caller.
#[derive(Clone, Copy, Debug, PartialEq, Eq, Structural)]
pub enum BackoffPoll {
    Ready,
    NotReady,
}

/// Imposes a fixed wait after a readiness failure before the inner service
/// is polled again.
#[derive(Clone, Copy, Debug)]
pub struct Backoff {
    /// Whether a failure was absorbed and the wait is still running.
    pub waiting: bool,
    /// The fixed wait, in milliseconds.
    pub wait_dur_ms: u64,
    /// The instant the current wait ends; meaningful only while waiting.
    pub deadline_ms: u64,
}

impl Backoff {
    /// Whether a poll arriving at `now_ms` may reach the inner service.
    pub open spec fn spec_gate_open(self, now_ms: u64) -> bool {
        !self.waiting || now_ms >= self.deadline_ms
    }

    pub fn new(wait_dur_ms: u64) -> (r: Backoff)
        ensures
            r.wait_dur_ms == wait_dur_ms,
            !r.waiting,
    {
        Backoff { waiting: false, wait_dur_ms, deadline_ms: 0 }
    }

    /// First half of a readiness poll: consult the timer.  Only when this
    /// returns `true` may the inner service be polled; a running wait is
    /// disarmed once its deadline has passed.
    pub fn poll_gate(&mut self, now_ms: u64) -> (r: bool)
        ensures
            r == old(self).spec_gate_open(now_ms),
            final(self).wait_dur_ms == old(self).wait_dur_ms,
            final(self).deadline_ms == old(self).deadline_ms,
            final(self).waiting == (old(self).waiting && !r),
    {
        if self.waiting {
            if now_ms < self.deadline_ms {
                return false;
            }
            self.waiting = false;
        }
        true
    }

    /// Second half: interpret what the inner service reported.  A failure
    /// arms the timer for the fixed wait and is absorbed into a not-ready
    /// answer; anything else passes through.
    pub fn on_inner_poll(&mut self, now_ms: u64, inner: InnerReady) -> (r: BackoffPoll)
        requires
            !old(self).waiting,
            now_ms + old(self).wait_dur_ms <= u64::MAX,
        ensures
            final(self).wait_dur_ms == old(self).wait_dur_ms,
            inner == InnerReady::Failed ==> {
                &&& r == BackoffPoll::NotReady
                &&& final(self).waiting
                &&& final(self).deadline_ms == now_ms + old(self).wait_dur_ms
            },
            inner == InnerReady::Ready ==> r == BackoffPoll::Ready && *final(self) == *old(self),
            inner == InnerReady::NotReady ==> r == BackoffPoll::NotReady && *final(self) == *old(
                self,
            ),
    {
        match inner {
            InnerReady::Failed => {
                self.waiting = true;
                self.deadline_ms = now_ms + self.wait_dur_ms;
                BackoffPoll::NotReady
            },
            InnerReady::Ready => BackoffPoll::Ready,
            InnerReady::NotReady => BackoffPoll::NotReady,
        }
    }
}

/// At least the fixed wait separates consecutive polls of a failing inner
/// service: after a failure absorbed at `t_fail`, no poll before
/// `t_fail + wait_dur_ms` reaches the inner service.
pub proof fn lemma_backoff_floor(b0: Backoff, b1: Backoff, t_fail: u64, now: u64)
    requires
        !b0.waiting,
        t_fail + b0.wait_dur_ms <= u64::MAX,
        // `b1` is the state right after the failure was absorbed at `t_fail`.
        b1.waiting,
        b1.wait_dur_ms == b0.wait_dur_ms,
        b1.deadline_ms == t_fail + b0.wait_dur_ms,
        now < t_fail + b0.wait_dur_ms,
    ensures
        !b1.spec_gate_open(now),
{
}

} // verus!
