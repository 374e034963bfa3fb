//! Origin injection for outgoing requests.
//!
//! The controller client sends requests whose URIs carry only a path; the
//! rewriter injects the configured scheme and authority so every request
//! names its origin, and touches nothing else.

use vstd::prelude::*;

use crate::request::Authority;
use crate::request::Request;
use crate::request::Scheme;

verus! {

/// Injects a fixed scheme and authority into every request's URI.
#[derive(Clone, Debug)]
pub struct AddOrigin {
    pub scheme: Scheme,
    pub authority: Authority,
}

impl AddOrigin {
    pub fn new(scheme: Scheme, authority: Authority) -> (r: AddOrigin)
        ensures
            r.scheme == scheme,
            r.authority == authority,
    {
        AddOrigin { scheme, authority }
    }

    /// Rewrites one request: the URI's scheme and authority become the
    /// configured pair while its path and query, the version, the body and
    /// the attached context all pass through untouched.
    pub fn call(&self, req: Request) -> (r: Request)
        ensures
            r.version == req.version,
            r.server_ctx == req.server_ctx,
            r.body == req.body,
            r.uri.path_and_query == req.uri.path_and_query,
            r.uri.spec_path_and_query() == req.uri.spec_path_and_query(),
            r.uri.scheme == Some(self.scheme),
            r.uri.authority matches Some(a) && a.equiv(self.authority),
    {
        let Request { version, server_ctx, uri, body } = req;
        let authority = Authority { host: self.authority.host.clone(), port: self.authority.port };
        let uri = crate::request::Uri {
            scheme: Some(self.scheme),
            authority: Some(authority),
            path_and_query: uri.path_and_query,
        };
        Request { version, server_ctx, uri, body }
    }
}

} // verus!
