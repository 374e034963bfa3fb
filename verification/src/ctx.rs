//! Per-connection contexts.
//!
//! A server context is attached to each accepted connection and carried into
//! every request read from it; a client context is created whenever a bind
//! materializes a connection to a remote endpoint.

use vstd::prelude::*;

use crate::addr::SockAddr;

verus! {

/// The transport-level protocol of a connection.
#[derive(Clone, Copy, Debug, PartialEq, Eq, Structural)]
pub enum TransportProtocol {
    Http,
    Tcp,
}

/// Per-accepted-connection record: where the connection arrived, where it
/// came from, and where it was originally heading before redirection.
#[derive(Clone, Copy, Debug, PartialEq, Eq)]
pub struct ServerCtx {
    /// The local listener address the connection was accepted on.
    pub local: SockAddr,
    /// The peer's address.
    pub remote: SockAddr,
    /// The original destination recovered from the redirected socket, if any.
    pub orig_dst: Option<SockAddr>,
    /// The transport protocol the connection was classified as.
    pub protocol: TransportProtocol,
}

impl ServerCtx {
    /// What `orig_dst_if_not_local` returns, as a spec-level value.
    pub open spec fn spec_orig_dst_if_not_local(self) -> Option<SockAddr> {
        match self.orig_dst {
            Some(a) => if a != self.local {
                Some(a)
            } else {
                None
            },
            None => None,
        }
    }

    pub fn new(
        local: SockAddr,
        remote: SockAddr,
        orig_dst: Option<SockAddr>,
        protocol: TransportProtocol,
    ) -> (r: ServerCtx)
        ensures
            r == (ServerCtx { local, remote, orig_dst, protocol }),
    {
        ServerCtx { local, remote, orig_dst, protocol }
    }

    /// The original destination, but only when it differs from the local
    /// listener address: a connection heading back to this very listener
    /// would otherwise loop through the proxy forever.
    pub fn orig_dst_if_not_local(&self) -> (r: Option<SockAddr>)
        ensures
            r == self.spec_orig_dst_if_not_local(),
            r matches Some(a) ==> a != self.local,
    {
        match self.orig_dst {
            Some(a) => if !(a == self.local) {
                Some(a)
            } else {
                None
            },
            None => None,
        }
    }
}

/// Per-outbound-connection record: the endpoint a bind connects to and the
/// transport protocol it speaks.
#[derive(Clone, Copy, Debug, PartialEq, Eq, Structural)]
pub struct ClientCtx {
    /// The remote endpoint address.
    pub remote: SockAddr,
    /// The transport protocol of the connection.
    pub protocol: TransportProtocol,
}

impl ClientCtx {
    pub fn new(remote: SockAddr, protocol: TransportProtocol) -> (r: ClientCtx)
        ensures
            r.remote == remote,
            r.protocol == protocol,
    {
        ClientCtx { remote, protocol }
    }
}

} // verus!
