//! HTTP requests as plain values.
//!
//! The routing fabric reads only a little of a request: its HTTP version, the
//! server context carried in its extension slot, and the parts of its URI
//! that the origin rewriter touches.  Those parts are held here as plain
//! values so that every decision taken on them is verified; the full wire
//! representation stays with the transparency layer outside this crate.

use vstd::prelude::*;

use crate::ctx::ServerCtx;

verus! {

/// An HTTP version, as the protocol detector reports it.
#[derive(Clone, Copy, Debug, PartialEq, Eq, Structural)]
pub enum HttpVersion {
    Http09,
    Http10,
    Http11,
    H2,
    H3,
}

/// A URI scheme; the controller stack only ever injects one of these two.
#[derive(Clone, Copy, Debug, PartialEq, Eq, Structural)]
pub enum Scheme {
    Http,
    Https,
}

/// The authority component of a URI: `host[:port]`.
#[derive(Clone, Debug)]
pub struct Authority {
    pub host: String,
    pub port: Option<u16>,
}

impl Authority {
    /// Two authorities denote the same endpoint.
    pub open spec fn equiv(self, other: Authority) -> bool {
        self.host@ == other.host@ && self.port == other.port
    }
}

/// The components of a URI that the origin rewriter reads and writes.
#[derive(Clone, Debug)]
pub struct Uri {
    pub scheme: Option<Scheme>,
    pub authority: Option<Authority>,
    pub path_and_query: Option<String>,
}

impl Uri {
    /// The `(path, query)` component, as a sequence of characters; empty when
    /// absent.
    pub open spec fn spec_path_and_query(self) -> Seq<char> {
        match self.path_and_query {
            Some(pq) => pq@,
            None => Seq::empty(),
        }
    }
}

/// What the routing fabric sees of one HTTP request.
#[derive(Clone, Debug)]
pub struct Request {
    /// The HTTP version the request arrived with.
    pub version: HttpVersion,
    /// The server context placed in the request's extension slot when the
    /// connection was accepted, if any.
    pub server_ctx: Option<ServerCtx>,
    /// The request URI, reduced to the parts the fabric touches.
    pub uri: Uri,
    /// The request body, carried through untouched.
    pub body: Vec<u8>,
}

} // verus!
