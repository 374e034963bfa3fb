//! The controller client.
//!
//! Discovery keeps a long-lived channel to the controller: a client stack
//! of origin injection over backoff over error logging over reconnect,
//! with a three-second connect deadline and a five-second floor between
//! attempts against a failing controller.  The router resolves an
//! authority into a watch; the background half owns the stack and drives
//! discovery and telemetry reporting in lock-step.

use vstd::prelude::*;

use crate::addr::HostAndPort;
use crate::backoff::Backoff;
use crate::bind::BindProtocol;
use crate::origin::AddOrigin;
use crate::reconnect::InnerPoll;
use crate::reconnect::Reconnect;
use crate::reconnect::ReconnectError;
use crate::reconnect::ReconnectPoll;
use crate::request::Authority;
use crate::request::Scheme;
use crate::timeout::NewTimeout;

verus! {

/// The connect deadline for the controller channel, in milliseconds.
pub const CONTROLLER_CONNECT_TIMEOUT_MS: u64 = 3000;

/// The floor between attempts against a failing controller, in
/// milliseconds.
pub const CONTROLLER_BACKOFF_MS: u64 = 5000;

/// A subscription to endpoint updates for one authority, carrying the
/// bind with which newly discovered endpoints are turned into services.
#[derive(Clone, Debug)]
pub struct Watch {
    pub authority: String,
    pub bind: BindProtocol,
}

/// The set of active subscriptions, owned by the half of the split
/// channel that the router talks to.
#[derive(Clone, Debug)]
pub struct Discovery {
    pub authorities: Vec<String>,
}

/// The router-facing handle to discovery.
pub struct Control {
    pub disco: Discovery,
}

/// The event-loop-facing half: it owns the connect deadline and will own
/// the controller client stack.
pub struct Background {
    pub connect_timeout: NewTimeout,
}

/// Creates the two halves of the controller client: the router's handle
/// and the background task, whose connect deadline is fixed at three
/// seconds.
pub fn new() -> (r: (Control, Background))
    ensures
        r.0.disco.authorities@.len() == 0,
        r.1.connect_timeout.duration_ms == CONTROLLER_CONNECT_TIMEOUT_MS,
        r.1.connect_timeout.description matches Some(d) && d@ == "discovery connection"@,
{
    let c = Control { disco: Discovery { authorities: Vec::new() } };
    let connect_timeout = NewTimeout::new(CONTROLLER_CONNECT_TIMEOUT_MS).with_description(
        "discovery connection",
    );
    let b = Background { connect_timeout };
    (c, b)
}

impl Control {
    /// Subscribes to endpoint updates for an authority: the watch carries
    /// the authority and the bind for its endpoints, and the authority
    /// joins the active set that the background task keeps streams open
    /// for.
    pub fn resolve(&mut self, auth: &String, bind: BindProtocol) -> (r: Watch)
        ensures
            r.authority@ == auth@,
            r.bind == bind,
            final(self).disco.authorities@.len() == old(self).disco.authorities@.len() + 1,
            final(self).disco.authorities@.last()@ == auth@,
            forall|i: int|
                0 <= i < old(self).disco.authorities@.len() ==> final(self).disco.authorities@[i]
                    == old(self).disco.authorities@[i],
    {
        self.disco.authorities.push(auth.clone());
        Watch { authority: auth.clone(), bind }
    }
}

/// The assembled controller client stack and the report interval; the
/// event loop drives it, one tick at a time.
#[derive(Clone, Debug)]
pub struct ControllerTask {
    /// Outermost: every request gets the controller's scheme and
    /// authority.
    pub add_origin: AddOrigin,
    /// Then: a fixed wait after every readiness failure.
    pub backoff: Backoff,
    /// Then: errors are logged in human form on their way up, around the
    /// reconnecting client itself.
    pub log_errors: LogErrors,
    /// The connect deadline each attempt runs under.
    pub connect_timeout: NewTimeout,
    /// How often a telemetry report is pushed.
    pub report_timeout_ms: u64,
}

impl Background {
    /// Builds the controller client stack: origin injection with scheme
    /// `http` and the controller's authority, over a five-second backoff,
    /// over error logging, over a fresh reconnecting client, with this
    /// background's three-second connect deadline.
    pub fn bind(self, host_and_port: &HostAndPort, report_timeout_ms: u64) -> (r: ControllerTask)
        ensures
            r.add_origin.scheme == Scheme::Http,
            r.add_origin.authority.host@ == host_and_port.host@,
            r.add_origin.authority.port == Some(host_and_port.port),
            r.backoff.wait_dur_ms == CONTROLLER_BACKOFF_MS,
            !r.backoff.waiting,
            r.log_errors.inner.state == crate::reconnect::ReconnectState::Idle,
            r.log_errors.inner.connect_attempts == 0,
            r.log_errors.inner.failures == 0,
            r.log_errors.errors_logged == 0,
            r.connect_timeout == self.connect_timeout,
            r.report_timeout_ms == report_timeout_ms,
    {
        let authority = Authority {
            host: host_and_port.host.clone(),
            port: Some(host_and_port.port),
        };
        let reconnect = Reconnect::new();
        let log_errors = LogErrors::new(reconnect);
        let backoff = Backoff::new(CONTROLLER_BACKOFF_MS);
        let add_origin = AddOrigin::new(Scheme::Http, authority);
        ControllerTask {
            add_origin,
            backoff,
            log_errors,
            connect_timeout: self.connect_timeout,
            report_timeout_ms,
        }
    }
}

/// The human-readable form of a controller error, as a sequence of
/// characters: the inner or connect failure's own message, or the marker
/// text for a call made while not ready.
pub open spec fn spec_human_error(e: ReconnectError) -> Seq<char> {
    match e {
        ReconnectError::Inner(m) => m@,
        ReconnectError::Connect(c) => match c {
            crate::reconnect::ConnectError::Transport(m) => m@,
            crate::reconnect::ConnectError::Timeout(d) => d@,
        },
        ReconnectError::NotReady => "bug: called service when not ready"@,
    }
}

/// Renders a controller error for the log.  A not-ready marker can only
/// mean the service was called without being ready, which is a bug on our
/// side, and says so.
pub fn human_error(e: &ReconnectError) -> (r: String)
    ensures
        r@ == spec_human_error(*e),
{
    match e {
        ReconnectError::Inner(m) => m.clone(),
        ReconnectError::Connect(c) => match c {
            crate::reconnect::ConnectError::Transport(m) => m.clone(),
            crate::reconnect::ConnectError::Timeout(d) => d.clone(),
        },
        ReconnectError::NotReady => "bug: called service when not ready".to_owned(),
    }
}

/// Logs controller errors in human form on their way up, and otherwise
/// passes every poll through unchanged.
#[derive(Clone, Debug)]
pub struct LogErrors {
    pub inner: Reconnect,
    /// How many errors have been logged.
    pub errors_logged: u64,
    /// The last line logged, if any.
    pub last_logged: Option<String>,
}

impl LogErrors {
    pub fn new(inner: Reconnect) -> (r: LogErrors)
        ensures
            r.inner == inner,
            r.errors_logged == 0,
            r.last_logged is None,
    {
        LogErrors { inner, errors_logged: 0, last_logged: None }
    }

    /// One readiness poll of the reconnecting client.  The result is
    /// handed up exactly as the inner client reported it; an error is
    /// additionally logged, once, in human form.
    pub fn poll_ready(&mut self, inner: InnerPoll) -> (r: ReconnectPoll)
        requires
            old(self).inner.wf(),
            old(self).inner.connect_attempts < u64::MAX,
            old(self).inner.failures < u64::MAX,
            old(self).errors_logged < u64::MAX,
        ensures
            final(self).inner.wf(),
            Reconnect::spec_wrap_failure(inner) matches Some(e) ==> r == ReconnectPoll::Failed(e)
                && final(self).inner.state == crate::reconnect::ReconnectState::Failed,
            inner == InnerPoll::Ready ==> r == ReconnectPoll::Ready && final(self).inner.state
                == crate::reconnect::ReconnectState::Ready,
            inner == InnerPoll::Pending ==> r == ReconnectPoll::NotReady,
            final(self).inner.failures == old(self).inner.failures + (
            if Reconnect::spec_wrap_failure(inner) is Some {
                1int
            } else {
                0int
            }),
            final(self).inner.connect_attempts == old(self).inner.connect_attempts + (
            if old(self).inner.state == crate::reconnect::ReconnectState::Idle || old(
                self,
            ).inner.state == crate::reconnect::ReconnectState::Failed {
                1int
            } else {
                0int
            }),
            r matches ReconnectPoll::Failed(e) ==> {
                &&& final(self).errors_logged == old(self).errors_logged + 1
                &&& final(self).last_logged matches Some(m) && m@ == spec_human_error(e)
            },
            !(r matches ReconnectPoll::Failed(_)) ==> final(self).errors_logged == old(
                self,
            ).errors_logged && final(self).last_logged == old(self).last_logged,
            final(self).inner.connect_attempts <= final(self).inner.failures + 1,
    {
        let res = self.inner.poll_ready(inner);
        match &res {
            ReconnectPoll::Failed(e) => {
                self.errors_logged = self.errors_logged + 1;
                self.last_logged = Some(human_error(e));
            },
            _ => {},
        }
        res
    }
}

} // verus!
