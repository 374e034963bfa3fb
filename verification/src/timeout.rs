//! Deadlines for asynchronous operations.
//!
//! A `NewTimeout` is a factory for deadlines: it records a fixed duration
//! and a description of what the deadline guards.  The event loop measures
//! time and asks, with a start instant and the current instant, whether the
//! deadline has elapsed; the classification of a connect outcome into a
//! transport or a timeout failure is decided here and so is verified.

use vstd::prelude::*;

use crate::reconnect::ConnectError;

verus! {

/// A deadline factory: a fixed duration with a description of what it
/// guards.
#[derive(Clone, Copy, Debug)]
pub struct NewTimeout {
    /// The deadline, in milliseconds.
    pub duration_ms: u64,
    /// What the deadline guards; names the operation in timeout errors.
    pub description: Option<&'static str>,
}

impl NewTimeout {
    pub fn new(duration_ms: u64) -> (r: NewTimeout)
        ensures
            r.duration_ms == duration_ms,
            r.description is None,
    {
        NewTimeout { duration_ms, description: None }
    }

    pub fn with_description(self, description: &'static str) -> (r: NewTimeout)
        ensures
            r.duration_ms == self.duration_ms,
            r.description == Some(description),
    {
        NewTimeout { duration_ms: self.duration_ms, description: Some(description) }
    }

    /// The description rendered for an error, or an empty string when the
    /// factory was never given one.
    pub open spec fn spec_description(self) -> Seq<char> {
        match self.description {
            Some(d) => d@,
            None => Seq::empty(),
        }
    }

    /// Whether an operation started at `started_ms` has outlived the
    /// deadline at `now_ms`.
    pub fn expired(&self, started_ms: u64, now_ms: u64) -> (r: bool)
        requires
            started_ms <= now_ms,
        ensures
            r == (now_ms - started_ms >= self.duration_ms),
    {
        now_ms - started_ms >= self.duration_ms
    }

    /// The error a wrapped operation fails with when the deadline elapses
    /// before it completes.
    pub fn timeout_error(&self) -> (r: ConnectError)
        ensures
            r matches ConnectError::Timeout(d) && d@ == self.spec_description(),
    {
        match self.description {
            Some(d) => ConnectError::Timeout(d.to_owned()),
            None => ConnectError::Timeout(String::new()),
        }
    }

    /// Classifies the outcome of one connect attempt under this deadline:
    /// an elapsed deadline wins over a transport failure, a transport
    /// failure is reported as such, and otherwise the attempt is still fine.
    pub fn connect_outcome(
        &self,
        started_ms: u64,
        now_ms: u64,
        transport_error: Option<String>,
    ) -> (r: Option<ConnectError>)
        requires
            started_ms <= now_ms,
        ensures
            now_ms - started_ms >= self.duration_ms ==> (r matches Some(e) && e matches
                ConnectError::Timeout(d) && d@ == self.spec_description()),
            now_ms - started_ms < self.duration_ms ==> r == (match transport_error {
                Some(m) => Some(ConnectError::Transport(m)),
                None => None,
            }),
    {
        if self.expired(started_ms, now_ms) {
            Some(self.timeout_error())
        } else {
            match transport_error {
                Some(m) => Some(ConnectError::Transport(m)),
                None => None,
            }
        }
    }
}

} // verus!
