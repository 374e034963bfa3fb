//! Inbound request recognition and routing.
//!
//! Each inbound request is classified into a destination key — the address
//! it was originally heading to, and the protocol to speak — and the
//! router builds (or reuses) the bound service for that key.  Recognition
//! prevents self-loops: an original destination equal to the local
//! listener is ignored, and the configured default address, if any, takes
//! its place.

use vstd::prelude::*;

use crate::addr::SockAddr;
use crate::bind::Bind;
use crate::bind::BufferSpawnError;
use crate::bind::Protocol;
use crate::buffer::Buffer;
use crate::buffer::InFlightLimit;
use crate::request::HttpVersion;
use crate::request::Request;

verus! {

/// The cap on concurrently outstanding requests per bound service.
pub const MAX_IN_FLIGHT: usize = 10000;

/// The inbound dispatcher: a bind plus the fallback destination used when
/// a request carries no usable original destination.
#[derive(Clone, Copy, Debug)]
pub struct Inbound {
    pub default_addr: Option<SockAddr>,
    pub bind: Bind,
}

impl Inbound {
    /// The destination key recognition assigns to a request: the original
    /// destination when the request carries a usable one, the default
    /// address otherwise, and no key at all when neither exists; paired
    /// with the protocol tag of the request's HTTP version.
    pub open spec fn spec_recognize(self, req: Request) -> Option<(SockAddr, Protocol)> {
        let addr = match req.server_ctx {
            Some(ctx) => match ctx.spec_orig_dst_if_not_local() {
                Some(a) => Some(a),
                None => self.default_addr,
            },
            None => self.default_addr,
        };
        match addr {
            Some(a) => Some((a, Protocol::spec_of_version(req.version))),
            None => None,
        }
    }

    pub fn new(default_addr: Option<SockAddr>, bind: Bind) -> (r: Inbound)
        ensures
            r.default_addr == default_addr,
            r.bind == bind,
    {
        Inbound { default_addr, bind }
    }

    /// Classifies one request.
    pub fn recognize(&self, req: &Request) -> (r: Option<(SockAddr, Protocol)>)
        ensures
            r == self.spec_recognize(*req),
            r matches Some(k) ==> k.1 == Protocol::spec_of_version(req.version),
    {
        let addr = match &req.server_ctx {
            Some(ctx) => match ctx.orig_dst_if_not_local() {
                Some(a) => Some(a),
                None => self.default_addr,
            },
            None => self.default_addr,
        };
        let proto = Protocol::of_version(req.version);
        match addr {
            Some(a) => Some((a, proto)),
            None => None,
        }
    }

    /// Builds the service for one destination key: the bound stack behind
    /// a FIFO buffer, capped in flight.  Building fails exactly when the
    /// buffer's worker cannot be spawned, and reports the inbound side.
    pub fn bind_service(&mut self, key: &(SockAddr, Protocol)) -> (r: Result<
        InFlightLimit,
        BufferSpawnError,
    >)
        ensures
            *final(self) == *old(self),
            (r is Ok) == old(self).bind.executor.can_spawn,
            r matches Ok(s) ==> {
                &&& s.inner.inner.addr == key.0
                &&& s.inner.inner.protocol == key.1
                &&& s.inner.inner.connect_timeout == old(self).bind.connect_timeout
                &&& s.inner.queue@.len() == 0
                &&& s.in_flight == 0
                &&& s.max == MAX_IN_FLIGHT
                &&& s.wf()
            },
            r matches Err(e) ==> e == BufferSpawnError::Inbound,
    {
        let service = self.bind.bind_service(&key.0, key.1);
        match Buffer::new(service, self.bind.executor()) {
            Ok(buffer) => Ok(InFlightLimit::new(buffer, MAX_IN_FLIGHT)),
            Err(_) => Err(BufferSpawnError::Inbound),
        }
    }
}

/// Loop prevention: when a request's original destination is the local
/// listener itself, recognition falls through to the default address, and
/// (as long as the default is not the listener itself) never yields the
/// local listener as a destination.
pub proof fn lemma_recognize_loop_prevention(inbound: Inbound, req: Request)
    requires
        req.server_ctx matches Some(ctx) && ctx.orig_dst == Some(ctx.local),
        forall|a: SockAddr| inbound.default_addr == Some(a) ==> a
            != req.server_ctx.unwrap().local,
    ensures
        inbound.spec_recognize(req) == (match inbound.default_addr {
            Some(a) => Some((a, Protocol::spec_of_version(req.version))),
            None => None::<(SockAddr, Protocol)>,
        }),
        inbound.spec_recognize(req) matches Some(k) ==> k.0 != req.server_ctx.unwrap().local,
{
}

/// A usable original destination wins: when a request carries a server
/// context whose original destination exists and differs from the local
/// listener, recognition yields exactly that address, tagged with the
/// request's protocol.
pub proof fn lemma_recognize_orig_dst(inbound: Inbound, req: Request, a: SockAddr)
    requires
        req.server_ctx matches Some(ctx) && ctx.orig_dst == Some(a) && a != ctx.local,
    ensures
        inbound.spec_recognize(req) == Some((a, Protocol::spec_of_version(req.version))),
{
}

/// Without a server context, recognition is the default address alone:
/// for a request that is not HTTP/2, the key is the default address
/// tagged HTTP/1, or nothing when no default is configured.
pub proof fn lemma_recognize_no_ctx(inbound: Inbound, req: Request)
    requires
        req.server_ctx is None,
        req.version != HttpVersion::H2,
    ensures
        inbound.spec_recognize(req) == (match inbound.default_addr {
            Some(a) => Some((a, Protocol::Http1)),
            None => None::<(SockAddr, Protocol)>,
        }),
{
}

/// The protocol mapping: a request's version maps to HTTP/2 exactly when
/// it is HTTP/2, and to HTTP/1 otherwise, whatever key recognition yields.
pub proof fn lemma_protocol_mapping(inbound: Inbound, req: Request)
    ensures
        inbound.spec_recognize(req) matches Some(k) ==> k.1 == (
        if req.version == HttpVersion::H2 {
            Protocol::Http2
        } else {
            Protocol::Http1
        }),
{
}

} // verus!
