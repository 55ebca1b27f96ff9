//! The JSON-RPC service wrapper: holds the inner service an HTTP adapter
//! dispatches decoded requests to.  The adapter itself — connection
//! handling and the HTTP request/response plumbing around the wrapped
//! service — is transport glue outside this library.

use vstd::prelude::*;

verus! {

/// Wraps the service that handles decoded JSON-RPC requests.
#[derive(Clone)]
pub struct JsonRpcService<S> {
    service: S,
}

impl<S> JsonRpcService<S> {
    /// The wrapped inner service.
    pub closed spec fn spec_inner(&self) -> S {
        self.service
    }

    /// Wrap an inner service.
    pub fn new(service: S) -> (s: Self)
        ensures
            s.spec_inner() == service,
    {
        JsonRpcService { service }
    }

    /// Hand the wrapped service back out.
    pub fn into_inner(self) -> (s: S)
        ensures
            s == self.spec_inner(),
    {
        self.service
    }
}

} // verus!
