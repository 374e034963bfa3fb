//! Binding a per-destination client service.
//!
//! A bind is a factory: given a socket address and a protocol it assembles
//! the client stack for that destination — connect, protocol client,
//! telemetry, reconnect — without performing any I/O.  Connections are
//! established lazily, on the first poll of the assembled service.

use vstd::prelude::*;

use crate::addr::SockAddr;
use crate::ctx::ClientCtx;
use crate::ctx::TransportProtocol;
use crate::reconnect::Reconnect;
use crate::reconnect::ReconnectState;
use crate::request::HttpVersion;
use crate::timeout::NewTimeout;

verus! {

/// Whether a destination speaks HTTP/1 or HTTP/2.
#[derive(Clone, Copy, Debug, PartialEq, Eq, Hash, Structural)]
pub enum Protocol {
    Http1,
    Http2,
}

impl Protocol {
    /// The protocol tag a request's HTTP version maps to: HTTP/2 exactly
    /// when the version is HTTP/2, HTTP/1 otherwise.
    pub open spec fn spec_of_version(v: HttpVersion) -> Protocol {
        if v == HttpVersion::H2 {
            Protocol::Http2
        } else {
            Protocol::Http1
        }
    }

    pub fn of_version(v: HttpVersion) -> (r: Protocol)
        ensures
            r == Protocol::spec_of_version(v),
            (r == Protocol::Http2) == (v == HttpVersion::H2),
    {
        match v {
            HttpVersion::H2 => Protocol::Http2,
            _ => Protocol::Http1,
        }
    }
}

/// A route could not be set up because its buffer worker could not be
/// spawned; the side tells an operator which listener was affected.
#[derive(Clone, Copy, Debug, PartialEq, Eq, Structural)]
pub enum BufferSpawnError {
    Inbound,
    Outbound,
}

impl BufferSpawnError {
    /// A human-readable description of the failure.
    pub fn description(&self) -> (r: &'static str)
        ensures
            *self == BufferSpawnError::Inbound ==> r@ == "error spawning inbound buffer task"@,
            *self == BufferSpawnError::Outbound ==> r@ == "error spawning outbound buffer task"@,
    {
        match *self {
            BufferSpawnError::Inbound => "error spawning inbound buffer task",
            BufferSpawnError::Outbound => "error spawning outbound buffer task",
        }
    }

    /// This failure carries no underlying cause.
    pub fn cause(&self) -> (r: Option<&'static str>)
        ensures
            r is None,
    {
        None
    }
}

/// Which side of the proxy a context belongs to.
#[derive(Clone, Copy, Debug, PartialEq, Eq, Structural)]
pub enum ProxyCtx {
    Inbound,
    Outbound,
}

/// The event loop's task spawner, reduced to the one fact the routing
/// fabric depends on: whether it can still take a worker.
#[derive(Clone, Copy, Debug, PartialEq, Eq, Structural)]
pub struct Executor {
    pub can_spawn: bool,
}

/// The telemetry sink handed to a bind; a disabled sink records nothing.
#[derive(Clone, Copy, Debug, PartialEq, Eq, Structural)]
pub struct Sensors {
    pub enabled: bool,
}

impl Sensors {
    /// The sink that records nothing.
    pub fn null() -> (r: Sensors)
        ensures
            !r.enabled,
    {
        Sensors { enabled: false }
    }
}

/// An assembled client stack for one destination: connect to the address
/// under the deadline, speak the protocol, reconnect on failure.  No
/// connection exists until the service is first polled.
#[derive(Clone, Debug)]
pub struct BoundService {
    pub addr: SockAddr,
    pub protocol: Protocol,
    pub client_ctx: ClientCtx,
    /// The deadline every connect attempt of this stack runs under.
    pub connect_timeout: NewTimeout,
    pub reconnect: Reconnect,
}

/// Binds a service from a socket address.
#[derive(Clone, Copy, Debug)]
pub struct Bind {
    pub ctx: Option<ProxyCtx>,
    pub sensors: Sensors,
    pub executor: Executor,
    /// The configurable connect deadline composed into every bound stack.
    pub connect_timeout: NewTimeout,
    /// This bind's request-id counter.
    pub req_ids: u64,
}

impl Bind {
    pub fn new(executor: Executor, connect_timeout: NewTimeout) -> (r: Bind)
        ensures
            r.ctx is None,
            !r.sensors.enabled,
            r.executor == executor,
            r.connect_timeout == connect_timeout,
            r.req_ids == 0,
    {
        Bind { ctx: None, sensors: Sensors::null(), executor, connect_timeout, req_ids: 0 }
    }

    pub fn with_sensors(self, sensors: Sensors) -> (r: Bind)
        ensures
            r == (Bind { sensors, ..self }),
    {
        Bind { sensors, ..self }
    }

    pub fn with_ctx(self, ctx: ProxyCtx) -> (r: Bind)
        ensures
            r == (Bind { ctx: Some(ctx), ..self }),
    {
        Bind { ctx: Some(ctx), ..self }
    }

    pub fn executor(&self) -> (r: &Executor)
        ensures
            *r == self.executor,
    {
        &self.executor
    }

    /// The next request id: this bind's counter is monotonic, so no id is
    /// handed out twice by the same bind value.  The running proxy keeps
    /// one counter per side, behind a shared atomic; that sharing is not
    /// modelled here, so a copy of this value counts on its own.
    pub fn next_request_id(&mut self) -> (r: u64)
        requires
            old(self).req_ids < u64::MAX,
        ensures
            r == old(self).req_ids,
            final(self).req_ids == old(self).req_ids + 1,
            final(self).ctx == old(self).ctx,
            final(self).sensors == old(self).sensors,
            final(self).executor == old(self).executor,
            final(self).connect_timeout == old(self).connect_timeout,
    {
        let id = self.req_ids;
        self.req_ids = self.req_ids + 1;
        id
    }

    /// Assembles the client stack for one destination.  The stack targets
    /// exactly the given address and protocol, connects under this bind's
    /// deadline, its client context records that address as an HTTP
    /// transport, and its reconnect layer starts idle: no I/O happens
    /// here.
    pub fn bind_service(&self, addr: &SockAddr, protocol: Protocol) -> (r: BoundService)
        ensures
            r.addr == *addr,
            r.protocol == protocol,
            r.client_ctx.remote == *addr,
            r.client_ctx.protocol == TransportProtocol::Http,
            r.connect_timeout == self.connect_timeout,
            r.reconnect.state == ReconnectState::Idle,
            r.reconnect.connect_attempts == 0,
            r.reconnect.failures == 0,
            r.reconnect.wf(),
    {
        let client_ctx = ClientCtx::new(*addr, TransportProtocol::Http);
        let reconnect = Reconnect::new();
        BoundService {
            addr: *addr,
            protocol,
            client_ctx,
            connect_timeout: self.connect_timeout,
            reconnect,
        }
    }

    pub fn with_protocol(self, protocol: Protocol) -> (r: BindProtocol)
        ensures
            r.bind == self,
            r.protocol == protocol,
    {
        BindProtocol { bind: self, protocol }
    }
}

/// A bind whose protocol is fixed in advance, so discovery can bind new
/// endpoints from an address alone.
#[derive(Clone, Copy, Debug)]
pub struct BindProtocol {
    pub bind: Bind,
    pub protocol: Protocol,
}

impl BindProtocol {
    /// Binding never fails: assembling a stack performs no I/O.
    pub fn bind(&self, addr: &SockAddr) -> (r: Result<BoundService, ()>)
        ensures
            r matches Ok(s) && s.addr == *addr && s.protocol == self.protocol
                && s.client_ctx.remote == *addr && s.connect_timeout
                == self.bind.connect_timeout && s.reconnect.state == ReconnectState::Idle,
    {
        Ok(self.bind.bind_service(addr, self.protocol))
    }
}

} // verus!
