//! The ordered label set recorded with each duration observation.
use crate::route::{route_method, route_service, RouteDescriptor};
use crate::transport::{canonical_status_text, response_status, status_text};
use crate::version::{opt_chars, version_label, ProtocolVersion};
use vstd::prelude::*;

verus! {

broadcast use vstd::string::group_string_axioms;

/// A label set as a sequence of (key, value) character strings.
pub open spec fn label_view(v: Seq<(String, String)>) -> Seq<(Seq<char>, Seq<char>)> {
    v.map_values(|p: (String, String)| (p.0@, p.1@))
}

/// A status is labeled as an error when it is a client error (4xx) or a
/// server error (5xx).
pub open spec fn is_error_status(code: u16) -> bool {
    400 <= code < 600
}

/// The labels every observation carries, in order.
pub open spec fn base_labels(service: Seq<char>, method: Seq<char>) -> Seq<(Seq<char>, Seq<char>)> {
    seq![
        ("rpc.system"@, "grpc"@),
        ("network.protocol.name"@, "http"@),
        ("network.transport"@, "tcp"@),
        ("rpc.method"@, method),
        ("rpc.service"@, service),
    ]
}

/// Appends `(key, value)` when `value` is present.
pub open spec fn push_opt(
    s: Seq<(Seq<char>, Seq<char>)>,
    key: Seq<char>,
    value: Option<Seq<char>>,
) -> Seq<(Seq<char>, Seq<char>)> {
    match value {
        Some(v) => s.push((key, v)),
        None => s,
    }
}

/// The full label set of one completed call: the base labels, then the
/// server address (client side), then the protocol version if it has a
/// label, then the error type if the status is an error.
pub open spec fn call_labels(
    service: Seq<char>,
    method: Seq<char>,
    address: Option<Seq<char>>,
    version: Option<Seq<char>>,
    status: u16,
) -> Seq<(Seq<char>, Seq<char>)> {
    let with_version = push_opt(
        push_opt(base_labels(service, method), "server.address"@, address),
        "network.protocol.version"@,
        version,
    );
    if is_error_status(status) {
        with_version.push(("error.type"@, status_text(status)))
    } else {
        with_version
    }
}

/// Some label of `s` has key `k`.
pub open spec fn has_key(s: Seq<(Seq<char>, Seq<char>)>, k: Seq<char>) -> bool {
    exists|i: int| 0 <= i < s.len() && (#[trigger] s[i]).0 == k
}

/// No key occurs twice in `s`.
pub open spec fn keys_unique(s: Seq<(Seq<char>, Seq<char>)>) -> bool {
    forall|i: int, j: int| 0 <= i < j < s.len() ==> (#[trigger] s[i]).0 != (#[trigger] s[j]).0
}

/// A call that succeeds with a 2xx status carries no `error.type` label; one
/// that completes with a 4xx or 5xx status carries `error.type` with the
/// status's canonical text.
pub proof fn lemma_error_type_label(
    service: Seq<char>,
    method: Seq<char>,
    address: Option<Seq<char>>,
    version: Option<Seq<char>>,
    status: u16,
)
    ensures
        200 <= status < 300 ==> !has_key(
            call_labels(service, method, address, version, status),
            "error.type"@,
        ),
        is_error_status(status) ==> call_labels(service, method, address, version, status).contains(
            ("error.type"@, status_text(status)),
        ),
{
    reveal_strlit("error.type");
    reveal_strlit("rpc.system");
    reveal_strlit("network.protocol.name");
    reveal_strlit("network.transport");
    reveal_strlit("rpc.method");
    reveal_strlit("rpc.service");
    reveal_strlit("server.address");
    reveal_strlit("network.protocol.version");
    let labels = call_labels(service, method, address, version, status);
    if 200 <= status < 300 {
        assert forall|i: int| 0 <= i < labels.len() implies (#[trigger] labels[i]).0 != "error.type"@ by {
            assert(labels[i].0[0] != 'e');
        }
    }
    if is_error_status(status) {
        assert(labels[labels.len() - 1] == ("error.type"@, status_text(status)));
    }
}

/// Within one label set no key occurs twice.
pub proof fn lemma_label_keys_unique(
    service: Seq<char>,
    method: Seq<char>,
    address: Option<Seq<char>>,
    version: Option<Seq<char>>,
    status: u16,
)
    ensures
        keys_unique(call_labels(service, method, address, version, status)),
{
    reveal_strlit("error.type");
    reveal_strlit("rpc.system");
    reveal_strlit("network.protocol.name");
    reveal_strlit("network.transport");
    reveal_strlit("rpc.method");
    reveal_strlit("rpc.service");
    reveal_strlit("server.address");
    reveal_strlit("network.protocol.version");
    let labels = call_labels(service, method, address, version, status);
    assert forall|i: int, j: int| 0 <= i < j < labels.len() implies (#[trigger] labels[i]).0 != (
    #[trigger] labels[j]).0 by {
        let a = labels[i].0;
        let b = labels[j].0;
        assert(a.len() != b.len() || a[0] != b[0] || a[4] != b[4] || a[8] != b[8] || a[17] != b[17]);
    }
}

/// What is known of a call before it is handed to the inner service.
#[derive(Debug, Clone)]
pub struct CallAttributes {
    pub route: RouteDescriptor,
    pub version: ProtocolVersion,
    /// Present on the client side only.
    pub server_address: Option<String>,
}

impl CallAttributes {
    /// The label set of this call as it completes with `status`.
    pub open spec fn spec_labels(&self, status: u16) -> Seq<(Seq<char>, Seq<char>)> {
        call_labels(
            self.route.service@,
            self.route.method@,
            opt_chars(self.server_address),
            version_label(self.version),
            status,
        )
    }

    /// Builds the label set of this call as it completes with `status`.
    pub fn labels(&self, status: u16) -> (r: Vec<(String, String)>)
        requires
            100 <= status <= 999,
        ensures
            label_view(r@) == self.spec_labels(status),
    {
        let mut v: Vec<(String, String)> = Vec::new();
        v.push(("rpc.system".to_string(), "grpc".to_string()));
        v.push(("network.protocol.name".to_string(), "http".to_string()));
        v.push(("network.transport".to_string(), "tcp".to_string()));
        v.push(("rpc.method".to_string(), self.route.method.clone()));
        v.push(("rpc.service".to_string(), self.route.service.clone()));
        assert(label_view(v@) =~= base_labels(self.route.service@, self.route.method@));
        let ghost s0 = label_view(v@);
        match &self.server_address {
            Some(a) => {
                v.push(("server.address".to_string(), a.clone()));
                assert(label_view(v@) =~= s0.push(("server.address"@, a@)));
            },
            None => {},
        }
        let ghost s1 = label_view(v@);
        match self.version.label() {
            Some(l) => {
                let ghost lv = l@;
                v.push(("network.protocol.version".to_string(), l));
                assert(label_view(v@) =~= s1.push(("network.protocol.version"@, lv)));
            },
            None => {},
        }
        let ghost s2 = label_view(v@);
        if 400 <= status && status < 600 {
            let text = canonical_status_text(status);
            let ghost tv = text@;
            v.push(("error.type".to_string(), text));
            assert(label_view(v@) =~= s2.push(("error.type"@, tv)));
        }
        v
    }

    /// Builds the label set of this call from the response it completed
    /// with; the set is the one for the response's status code.
    pub fn response_labels<B>(&self, resp: &http::Response<B>) -> (r: Vec<(String, String)>)
        ensures
            exists|code: u16| 100 <= code <= 999 && label_view(r@) == self.spec_labels(code),
    {
        let code = response_status(resp);
        self.labels(code)
    }
}

} // verus!
