//! The server-side interceptor: measures inbound calls.
use crate::labels::CallAttributes;
use crate::route::{parse_route, route_method, route_service};
use crate::transport::{request_path, request_version};
use crate::version::ProtocolVersion;
use vstd::prelude::*;

verus! {

/// Factory of server interceptors; applied once when a server is assembled.
#[derive(Debug, Clone, Default)]
pub struct ServerMetricsLayer {}

/// Wraps one inbound-call handler; every completed call through it is
/// recorded under the server duration metric.
#[derive(Debug, Clone)]
pub struct ServerMetricsMiddleware<S> {
    inner: S,
}

/// `a` describes a server-side call to `path` over `version`.
pub open spec fn server_call(a: CallAttributes, path: Seq<char>, version: ProtocolVersion) -> bool {
    &&& a.route.service@ == route_service(path)
    &&& a.route.method@ == route_method(path)
    &&& a.version == version
    &&& a.server_address is None
}

impl ServerMetricsLayer {
    /// Wraps `service`; the wrapped handler is exactly `service`.
    pub fn layer<S>(&self, service: S) -> (r: ServerMetricsMiddleware<S>)
        ensures
            r.spec_inner() == service,
    {
        ServerMetricsMiddleware { inner: service }
    }
}

impl<S> ServerMetricsMiddleware<S> {
    /// The wrapped handler.
    pub closed spec fn spec_inner(&self) -> S {
        self.inner
    }

    /// The wrapped handler.
    pub fn inner(&self) -> (r: &S)
        ensures
            *r == self.spec_inner(),
    {
        &self.inner
    }

    /// Gives back the wrapped handler.
    pub fn into_inner(self) -> (r: S)
        ensures
            r == self.spec_inner(),
    {
        self.inner
    }

    /// The attributes of a call to `path` over `version`.
    pub fn attributes_for(&self, path: &str, version: ProtocolVersion) -> (r: CallAttributes)
        ensures
            server_call(r, path@, version),
    {
        CallAttributes { route: parse_route(path), version, server_address: None }
    }

    /// The attributes of the call that `req` starts, read before the request
    /// is handed on.
    pub fn call_attributes<B>(&self, req: &http::Request<B>) -> (r: CallAttributes)
        ensures
            exists|path: Seq<char>| server_call(r, path, r.version),
    {
        let path = request_path(req);
        let version = request_version(req);
        self.attributes_for(path.as_str(), version)
    }
}

} // verus!
