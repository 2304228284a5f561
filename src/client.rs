//! The client-side interceptor: measures outbound calls and names the peer.
use crate::labels::CallAttributes;
use crate::route::{parse_route, route_method, route_service};
use crate::transport::{request_host, request_path, request_version};
use crate::version::{opt_chars, ProtocolVersion};
use vstd::prelude::*;

verus! {

broadcast use vstd::string::group_string_axioms;

/// `s` begins with `p`.
pub open spec fn has_prefix(s: Seq<char>, p: Seq<char>) -> bool {
    p.len() <= s.len() && s.subrange(0, p.len() as int) == p
}

/// A server address with one leading `http://` or `https://` removed.
pub open spec fn canonical_address(a: Seq<char>) -> Seq<char> {
    if has_prefix(a, "http://"@) {
        a.subrange(7, a.len() as int)
    } else if has_prefix(a, "https://"@) {
        a.subrange(8, a.len() as int)
    } else {
        a
    }
}

/// The `server.address` label of a call: the configured address if there
/// is one, else the request's canonical target host, else `unknown`.
pub open spec fn resolved_address(configured: Option<Seq<char>>, host: Option<Seq<char>>) -> Seq<
    char,
> {
    match configured {
        Some(a) => a,
        None => match host {
            Some(h) => canonical_address(h),
            None => "unknown"@,
        },
    }
}

/// `a` describes a client-side call to `path` over `version`, sent to
/// `address`.
pub open spec fn client_call(
    a: CallAttributes,
    path: Seq<char>,
    version: ProtocolVersion,
    address: Seq<char>,
) -> bool {
    &&& a.route.service@ == route_service(path)
    &&& a.route.method@ == route_method(path)
    &&& a.version == version
    &&& opt_chars(a.server_address) == Some(address)
}

/// Whether `s` begins with `p`.
fn starts_with(s: &str, p: &str) -> (r: bool)
    ensures
        r == has_prefix(s@, p@),
{
    let n = s.unicode_len();
    let m = p.unicode_len();
    if m > n {
        return false;
    }
    let mut i: usize = 0;
    while i < m
        invariant
            n == s@.len(),
            m == p@.len(),
            m <= n,
            i <= m,
            forall|j: int| 0 <= j < i ==> s@[j] == p@[j],
        decreases m - i,
    {
        if s.get_char(i) != p.get_char(i) {
            assert(s@.subrange(0, m as int)[i as int] != p@[i as int]);
            return false;
        }
        i = i + 1;
    }
    assert(s@.subrange(0, m as int) =~= p@);
    true
}

/// Removes one leading `http://` or `https://` from a server address.
pub fn canonical_server_address(addr: &str) -> (r: String)
    ensures
        r@ == canonical_address(addr@),
{
    let n = addr.unicode_len();
    proof {
        reveal_strlit("http://");
        reveal_strlit("https://");
    }
    if starts_with(addr, "http://") {
        addr.substring_char(7, n).to_string()
    } else if starts_with(addr, "https://") {
        addr.substring_char(8, n).to_string()
    } else {
        addr.to_string()
    }
}

/// Wraps one outbound-call invoker; every completed call through it is
/// recorded under the client duration metric.
#[derive(Debug, Clone)]
pub struct ClientMetricsMiddleware<S> {
    inner: S,
    server_address: Option<String>,
}

impl<S> ClientMetricsMiddleware<S> {
    /// The wrapped invoker.
    pub closed spec fn spec_inner(&self) -> S {
        self.inner
    }

    /// The canonical server address fixed at construction, if any.
    pub closed spec fn spec_server_address(&self) -> Option<Seq<char>> {
        opt_chars(self.server_address)
    }

    /// Wraps `inner`; the server address is resolved per call.
    pub fn new(inner: S) -> (r: Self)
        ensures
            r.spec_inner() == inner,
            r.spec_server_address() is None,
    {
        Self::with_server_address(inner, None)
    }

    /// Wraps `inner` with an optional server address, kept in canonical form.
    pub fn with_server_address(inner: S, addr: Option<String>) -> (r: Self)
        ensures
            r.spec_inner() == inner,
            r.spec_server_address() == match addr {
                Some(a) => Some(canonical_address(a@)),
                None => None,
            },
    {
        let server_address = match addr {
            Some(a) => Some(canonical_server_address(a.as_str())),
            None => None,
        };
        Self { inner, server_address }
    }

    /// The canonical server address fixed at construction, if any.
    pub fn server_address(&self) -> (r: Option<String>)
        ensures
            opt_chars(r) == self.spec_server_address(),
    {
        match &self.server_address {
            Some(a) => Some(a.clone()),
            None => None,
        }
    }

    /// The wrapped invoker.
    pub fn inner(&self) -> (r: &S)
        ensures
            *r == self.spec_inner(),
    {
        &self.inner
    }

    /// Gives back the wrapped invoker.
    pub fn into_inner(self) -> (r: S)
        ensures
            r == self.spec_inner(),
    {
        self.inner
    }

    /// Puts `inner` in place of the wrapped invoker, keeping the server
    /// address; gives back the invoker it replaces.
    pub fn replace_inner<T>(self, inner: T) -> (r: (ClientMetricsMiddleware<T>, S))
        ensures
            r.0.spec_inner() == inner,
            r.0.spec_server_address() == self.spec_server_address(),
            r.1 == self.spec_inner(),
    {
        (ClientMetricsMiddleware { inner, server_address: self.server_address }, self.inner)
    }

    /// The `server.address` label of a call whose target host is `host`.
    pub fn address_for(&self, host: Option<String>) -> (r: String)
        ensures
            r@ == resolved_address(self.spec_server_address(), opt_chars(host)),
    {
        match &self.server_address {
            Some(a) => a.clone(),
            None => match host {
                Some(h) => canonical_server_address(h.as_str()),
                None => "unknown".to_string(),
            },
        }
    }

    /// The attributes of a call to `path` over `version`, aimed at `host`.
    pub fn attributes_for(&self, path: &str, version: ProtocolVersion, host: Option<String>) -> (r:
        CallAttributes)
        ensures
            client_call(
                r,
                path@,
                version,
                resolved_address(self.spec_server_address(), opt_chars(host)),
            ),
    {
        let address = self.address_for(host);
        CallAttributes { route: parse_route(path), version, server_address: Some(address) }
    }

    /// The attributes of the call that `req` starts, read before the request
    /// is handed on.
    pub fn call_attributes<B>(&self, req: &http::Request<B>) -> (r: CallAttributes)
        ensures
            exists|path: Seq<char>, host: Option<Seq<char>>|
                client_call(
                    r,
                    path,
                    r.version,
                    resolved_address(self.spec_server_address(), host),
                ),
    {
        let path = request_path(req);
        let host = request_host(req);
        let version = request_version(req);
        self.attributes_for(path.as_str(), version, host)
    }
}

} // verus!
