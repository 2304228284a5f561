use tonic_metrics::client::{canonical_server_address, ClientMetricsMiddleware};
use tonic_metrics::labels::CallAttributes;
use tonic_metrics::route::{parse_route, RouteDescriptor};
use tonic_metrics::server::ServerMetricsLayer;
use tonic_metrics::version::ProtocolVersion;
use tonic_metrics::{RPC_CLIENT_DURATION, RPC_SERVER_DURATION};

fn pairs(v: &[(&str, &str)]) -> Vec<(String, String)> {
    v.iter().map(|(k, v)| (k.to_string(), v.to_string())).collect()
}

fn request(uri: &str, version: http::Version) -> http::Request<()> {
    http::Request::builder().uri(uri).version(version).body(()).unwrap()
}

fn response(status: u16) -> http::Response<()> {
    http::Response::builder().status(status).body(()).unwrap()
}

fn route(service: &str, method: &str) -> RouteDescriptor {
    RouteDescriptor { service: service.to_string(), method: method.to_string() }
}

#[test]
fn route_service_and_method() {
    let r = parse_route("/echo.Echo/Echo");
    assert_eq!(r.service, "echo.Echo");
    assert_eq!(r.method, "Echo");
}

#[test]
fn route_keeps_trailing_segments_in_method() {
    let r = parse_route("/pkg.Svc/Method/extra");
    assert_eq!(r.service, "pkg.Svc");
    assert_eq!(r.method, "Method/extra");
}

#[test]
fn route_empty_path() {
    let r = parse_route("");
    assert_eq!(r.service, "");
    assert_eq!(r.method, "");
}

#[test]
fn route_without_leading_slash() {
    let r = parse_route("x");
    assert_eq!(r.service, "");
    assert_eq!(r.method, "x");
}

#[test]
fn route_without_second_slash() {
    let r = parse_route("/onlyservice");
    assert_eq!(r.service, "");
    assert_eq!(r.method, "/onlyservice");
}

#[test]
fn route_single_slash() {
    let r = parse_route("/");
    assert_eq!(r.service, "");
    assert_eq!(r.method, "/");
}

#[test]
fn route_two_slashes() {
    let r = parse_route("//");
    assert_eq!(r.service, "");
    assert_eq!(r.method, "");
}

#[test]
fn route_non_ascii() {
    let r = parse_route("/dé.Sv/Mé");
    assert_eq!(r.service, "dé.Sv");
    assert_eq!(r.method, "Mé");
}

#[test]
fn version_labels() {
    assert_eq!(ProtocolVersion::Http09.label(), Some("0.9".to_string()));
    assert_eq!(ProtocolVersion::Http10.label(), Some("1.0".to_string()));
    assert_eq!(ProtocolVersion::Http11.label(), Some("1.1".to_string()));
    assert_eq!(ProtocolVersion::Http2.label(), Some("2".to_string()));
    assert_eq!(ProtocolVersion::Http3.label(), Some("3".to_string()));
    assert_eq!(ProtocolVersion::Other.label(), None);
}

#[test]
fn success_has_no_error_type() {
    let a = CallAttributes {
        route: route("s", "m"),
        version: ProtocolVersion::Http11,
        server_address: None,
    };
    let labels = a.labels(200);
    assert_eq!(
        labels,
        pairs(&[
            ("rpc.system", "grpc"),
            ("network.protocol.name", "http"),
            ("network.transport", "tcp"),
            ("rpc.method", "m"),
            ("rpc.service", "s"),
            ("network.protocol.version", "1.1"),
        ])
    );
}

#[test]
fn client_error_has_error_type() {
    let a = CallAttributes {
        route: route("s", "m"),
        version: ProtocolVersion::Other,
        server_address: None,
    };
    let labels = a.labels(404);
    assert_eq!(
        labels,
        pairs(&[
            ("rpc.system", "grpc"),
            ("network.protocol.name", "http"),
            ("network.transport", "tcp"),
            ("rpc.method", "m"),
            ("rpc.service", "s"),
            ("error.type", "404 Not Found"),
        ])
    );
}

#[test]
fn server_error_has_error_type() {
    let a = CallAttributes {
        route: route("s", "m"),
        version: ProtocolVersion::Http2,
        server_address: Some("peer".to_string()),
    };
    let labels = a.labels(503);
    assert_eq!(
        labels,
        pairs(&[
            ("rpc.system", "grpc"),
            ("network.protocol.name", "http"),
            ("network.transport", "tcp"),
            ("rpc.method", "m"),
            ("rpc.service", "s"),
            ("server.address", "peer"),
            ("network.protocol.version", "2"),
            ("error.type", "503 Service Unavailable"),
        ])
    );
}

#[test]
fn unknown_status_text() {
    let a = CallAttributes {
        route: route("", "/x"),
        version: ProtocolVersion::Other,
        server_address: None,
    };
    let labels = a.labels(599);
    assert_eq!(labels.last().unwrap(), &("error.type".to_string(), "599 <unknown status code>".to_string()));
}

#[test]
fn redirect_and_informational_are_not_errors() {
    let a = CallAttributes {
        route: route("s", "m"),
        version: ProtocolVersion::Other,
        server_address: None,
    };
    assert_eq!(a.labels(302).len(), 5);
    assert_eq!(a.labels(101).len(), 5);
    assert_eq!(a.labels(600).len(), 5);
    assert_eq!(a.labels(399).len(), 5);
    assert_eq!(a.labels(400).len(), 6);
    assert_eq!(a.labels(599).len(), 6);
}

#[test]
fn server_echo_call_labels() {
    let mw = ServerMetricsLayer::default().layer(7u32);
    let req = request("/echo.Echo/Echo", http::Version::HTTP_2);
    let attrs = mw.call_attributes(&req);
    assert_eq!(attrs.route.service, "echo.Echo");
    assert_eq!(attrs.route.method, "Echo");
    assert_eq!(attrs.version, ProtocolVersion::Http2);
    assert_eq!(attrs.server_address, None);
    let labels = attrs.response_labels(&response(200));
    assert_eq!(
        labels,
        pairs(&[
            ("rpc.system", "grpc"),
            ("network.protocol.name", "http"),
            ("network.transport", "tcp"),
            ("rpc.method", "Echo"),
            ("rpc.service", "echo.Echo"),
            ("network.protocol.version", "2"),
        ])
    );
    assert_eq!(mw.into_inner(), 7);
}

#[test]
fn server_reads_response_status() {
    let mw = ServerMetricsLayer::default().layer(());
    let attrs = mw.call_attributes(&request("/a/b", http::Version::HTTP_11));
    let labels = attrs.response_labels(&response(500));
    assert_eq!(labels.last().unwrap(), &("error.type".to_string(), "500 Internal Server Error".to_string()));
}

#[test]
fn server_reads_request_versions() {
    let mw = ServerMetricsLayer::default().layer(());
    let cases = [
        (http::Version::HTTP_09, ProtocolVersion::Http09),
        (http::Version::HTTP_10, ProtocolVersion::Http10),
        (http::Version::HTTP_11, ProtocolVersion::Http11),
        (http::Version::HTTP_2, ProtocolVersion::Http2),
        (http::Version::HTTP_3, ProtocolVersion::Http3),
    ];
    for (v, expected) in cases {
        assert_eq!(mw.call_attributes(&request("/a/b", v)).version, expected);
    }
}

#[test]
fn server_attributes_for_unparsed_path() {
    let mw = ServerMetricsLayer::default().layer(());
    let attrs = mw.attributes_for("/onlyservice", ProtocolVersion::Http2);
    assert_eq!(attrs.route.service, "");
    assert_eq!(attrs.route.method, "/onlyservice");
}

#[test]
fn canonical_https_address() {
    let mw = ClientMetricsMiddleware::with_server_address((), Some("https://api.example.com:443".to_string()));
    assert_eq!(mw.server_address(), Some("api.example.com:443".to_string()));
}

#[test]
fn canonical_http_address() {
    assert_eq!(canonical_server_address("http://[::1]:50051"), "[::1]:50051");
}

#[test]
fn canonical_strips_scheme_once() {
    assert_eq!(canonical_server_address("http://http://x"), "http://x");
    assert_eq!(canonical_server_address("https://https://x"), "https://x");
}

#[test]
fn canonical_leaves_other_addresses() {
    assert_eq!(canonical_server_address("grpc://x:1"), "grpc://x:1");
    assert_eq!(canonical_server_address("HTTP://x"), "HTTP://x");
    assert_eq!(canonical_server_address("http:/x"), "http:/x");
    assert_eq!(canonical_server_address(""), "");
}

#[test]
fn client_new_has_no_address() {
    let mw = ClientMetricsMiddleware::new(3u8);
    assert_eq!(mw.server_address(), None);
    assert_eq!(*mw.inner(), 3);
}

#[test]
fn client_resolves_host_per_call() {
    let mw = ClientMetricsMiddleware::new(());
    let req = request("http://peer.local/svc.S/M", http::Version::HTTP_2);
    let attrs = mw.call_attributes(&req);
    assert_eq!(attrs.server_address, Some("peer.local".to_string()));
    assert_eq!(attrs.route.service, "svc.S");
    assert_eq!(attrs.route.method, "M");
    let labels = attrs.labels(200);
    assert_eq!(
        labels,
        pairs(&[
            ("rpc.system", "grpc"),
            ("network.protocol.name", "http"),
            ("network.transport", "tcp"),
            ("rpc.method", "M"),
            ("rpc.service", "svc.S"),
            ("server.address", "peer.local"),
            ("network.protocol.version", "2"),
        ])
    );
}

#[test]
fn client_without_host_is_unknown() {
    let mw = ClientMetricsMiddleware::new(());
    let attrs = mw.call_attributes(&request("/svc.S/M", http::Version::HTTP_2));
    assert_eq!(attrs.server_address, Some("unknown".to_string()));
}

#[test]
fn client_configured_address_wins() {
    let mw = ClientMetricsMiddleware::with_server_address((), Some("http://[::1]:50051".to_string()));
    let attrs = mw.call_attributes(&request("http://peer.local/svc.S/M", http::Version::HTTP_2));
    assert_eq!(attrs.server_address, Some("[::1]:50051".to_string()));
    assert_eq!(mw.address_for(None), "[::1]:50051");
}

#[test]
fn client_address_for_host() {
    let mw = ClientMetricsMiddleware::new(());
    assert_eq!(mw.address_for(Some("https://h:1".to_string())), "h:1");
    assert_eq!(mw.address_for(None), "unknown");
}

#[test]
fn metric_names() {
    assert_eq!(RPC_SERVER_DURATION, "rpc.server.duration");
    assert_eq!(RPC_CLIENT_DURATION, "rpc.client.duration");
}
