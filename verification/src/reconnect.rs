//! Self-healing client wrapper.
//!
//! A one-shot protocol client is turned into a service that rebuilds its
//! inner client whenever it fails.  The event loop performs the actual
//! connecting and polling; the state machine here decides, from each
//! reported outcome, what state to move to and what to surface to the
//! caller, and it is proved that the machine never starts more connect
//! attempts than failures plus one.

use vstd::prelude::*;

verus! {

/// An error while establishing a connection.
#[derive(Clone, Debug, PartialEq, Eq)]
pub enum ConnectError {
    /// The transport refused or could not reach the endpoint.
    Transport(String),
    /// The connect deadline elapsed first; the payload names the deadline.
    Timeout(String),
}

/// The composite error a reconnecting client surfaces.
#[derive(Clone, Debug, PartialEq, Eq)]
pub enum ReconnectError {
    /// The established client failed a request or its readiness poll.
    Inner(String),
    /// A connection could not be established.
    Connect(ConnectError),
    /// The service was called without being ready; a caller bug.
    NotReady,
}

/// The connection lifecycle of a reconnecting client.
#[derive(Clone, Copy, Debug, PartialEq, Eq, Structural)]
pub enum ReconnectState {
    /// No client has been built yet.
    Idle,
    /// A connect attempt is underway.
    Connecting,
    /// The inner client is established and ready.
    Ready,
    /// The inner client failed; the next readiness poll retries.
    Failed,
}

/// What the inner client (or the pending connect) reported when polled.
#[derive(Clone, Debug, PartialEq, Eq)]
pub enum InnerPoll {
    /// The client is established and can take a request.
    Ready,
    /// No progress yet.
    Pending,
    /// The connect attempt failed.
    ConnectFailed(ConnectError),
    /// The established client's readiness poll failed.
    ServiceFailed(String),
}

/// What a readiness poll of the reconnecting client surfaces.
#[derive(Clone, Debug, PartialEq, Eq)]
pub enum ReconnectPoll {
    Ready,
    NotReady,
    /// The error of the attempt that just failed, surfaced once.
    Failed(ReconnectError),
}

/// Rebuilds the inner client on failure and surfaces readiness.
#[derive(Clone, Debug)]
pub struct Reconnect {
    pub state: ReconnectState,
    /// Connect attempts started so far.
    pub connect_attempts: u64,
    /// Failures observed so far.
    pub failures: u64,
}

impl Reconnect {
    /// The counters never run ahead of the failures that justify them: a new
    /// attempt is only ever started at the first poll or after a failure.
    pub open spec fn wf(self) -> bool {
        &&& self.connect_attempts <= self.failures + 1
        &&& self.state == ReconnectState::Failed ==> self.connect_attempts <= self.failures
        &&& self.state == ReconnectState::Idle ==> self.connect_attempts == 0
    }

    /// Whether this poll event reports a failure, and if so which error the
    /// reconnecting client wraps it into.
    pub open spec fn spec_wrap_failure(inner: InnerPoll) -> Option<ReconnectError> {
        match inner {
            InnerPoll::ConnectFailed(e) => Some(ReconnectError::Connect(e)),
            InnerPoll::ServiceFailed(m) => Some(ReconnectError::Inner(m)),
            _ => None,
        }
    }

    pub fn new() -> (r: Reconnect)
        ensures
            r.state == ReconnectState::Idle,
            r.connect_attempts == 0,
            r.failures == 0,
            r.wf(),
    {
        Reconnect { state: ReconnectState::Idle, connect_attempts: 0, failures: 0 }
    }

    /// One readiness poll.  In `Idle` and `Failed` a fresh connect attempt is
    /// started before the inner outcome is interpreted; `inner` is what the
    /// pending connect or the established client reported this tick.
    pub fn poll_ready(&mut self, inner: InnerPoll) -> (r: ReconnectPoll)
        requires
            old(self).wf(),
            old(self).connect_attempts < u64::MAX,
            old(self).failures < u64::MAX,
        ensures
            final(self).wf(),
            // A poll starts a new attempt exactly when none was underway.
            final(self).connect_attempts == old(self).connect_attempts + (
            if old(self).state == ReconnectState::Idle || old(self).state
                == ReconnectState::Failed {
                1int
            } else {
                0int
            }),
            // Failures are counted one for one.
            final(self).failures == old(self).failures + (
            if Self::spec_wrap_failure(inner) is Some {
                1int
            } else {
                0int
            }),
            // The surfaced result and the state follow the inner outcome.
            match Self::spec_wrap_failure(inner) {
                Some(e) => {
                    &&& r == ReconnectPoll::Failed(e)
                    &&& final(self).state == ReconnectState::Failed
                },
                None => {
                    &&& inner == InnerPoll::Ready ==> r == ReconnectPoll::Ready
                        && final(self).state == ReconnectState::Ready
                    &&& inner == InnerPoll::Pending ==> r == ReconnectPoll::NotReady
                        && final(self).state == (
                        if old(self).state == ReconnectState::Ready {
                            ReconnectState::Ready
                        } else {
                            ReconnectState::Connecting
                        })
                },
            },
    {
        if self.state == ReconnectState::Idle || self.state == ReconnectState::Failed {
            self.connect_attempts = self.connect_attempts + 1;
            self.state = ReconnectState::Connecting;
        }
        match inner {
            InnerPoll::Ready => {
                self.state = ReconnectState::Ready;
                ReconnectPoll::Ready
            },
            InnerPoll::Pending => ReconnectPoll::NotReady,
            InnerPoll::ConnectFailed(e) => {
                self.failures = self.failures + 1;
                self.state = ReconnectState::Failed;
                ReconnectPoll::Failed(ReconnectError::Connect(e))
            },
            InnerPoll::ServiceFailed(m) => {
                self.failures = self.failures + 1;
                self.state = ReconnectState::Failed;
                ReconnectPoll::Failed(ReconnectError::Inner(m))
            },
        }
    }

    /// Calling in any state but `Ready` is a caller bug; the marker error
    /// says so instead of performing the request.
    pub fn check_call(&self) -> (r: Option<ReconnectError>)
        ensures
            r == (if self.state == ReconnectState::Ready {
                Option::<ReconnectError>::None
            } else {
                Some(ReconnectError::NotReady)
            }),
    {
        if self.state == ReconnectState::Ready {
            None
        } else {
            Some(ReconnectError::NotReady)
        }
    }

    /// A dispatched request failed: the client is torn down and the error is
    /// surfaced to the caller.
    pub fn on_call_error(&mut self, message: String) -> (r: ReconnectError)
        requires
            old(self).wf(),
            old(self).state == ReconnectState::Ready,
            old(self).failures < u64::MAX,
        ensures
            final(self).wf(),
            final(self).state == ReconnectState::Failed,
            final(self).failures == old(self).failures + 1,
            final(self).connect_attempts == old(self).connect_attempts,
            r == ReconnectError::Inner(message),
    {
        self.failures = self.failures + 1;
        self.state = ReconnectState::Failed;
        ReconnectError::Inner(message)
    }
}

/// However many failures have been observed, at most one more connect
/// attempt than failures has ever been started: after `k` consecutive inner
/// failures the underlying connect was tried at most `k + 1` times.
pub proof fn lemma_reconnect_attempt_bound(r: Reconnect)
    requires
        r.wf(),
    ensures
        r.connect_attempts <= r.failures + 1,
{
}

} // verus!
