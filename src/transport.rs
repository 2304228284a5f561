//! What the library reads from the `http` crate's request and response
//! types. Each item here is taken on trust from that crate.
use crate::version::ProtocolVersion;
use vstd::prelude::*;

verus! {

broadcast use vstd::string::group_string_axioms;

/// An `http::Request`, carried through opaquely.
#[verifier::external_type_specification]
#[verifier::external_body]
#[verifier::reject_recursive_types(T)]
pub struct ExRequest<T>(http::Request<T>);

/// An `http::Response`, carried through opaquely.
#[verifier::external_type_specification]
#[verifier::external_body]
#[verifier::reject_recursive_types(T)]
pub struct ExResponse<T>(http::Response<T>);

/// The canonical text of a status code: its number, a space and its reason
/// phrase, as `http::StatusCode`'s `Display` writes it.
pub uninterp spec fn status_text(code: u16) -> Seq<char>;

/// Relies on `http::Request::uri` and `http::Uri::path`: the route path of
/// the request, copied out.
#[verifier::external_body]
pub(crate) fn request_path<T>(req: &http::Request<T>) -> (r: String) {
    req.uri().path().to_string()
}

/// Relies on `http::Request::uri` and `http::Uri::host`: the target host, if
/// the URI has an authority.
#[verifier::external_body]
pub(crate) fn request_host<T>(req: &http::Request<T>) -> (r: Option<String>) {
    req.uri().host().map(|h| h.to_string())
}

/// Relies on `http::Request::version`, telling its constants apart.
#[verifier::external_body]
pub(crate) fn request_version<T>(req: &http::Request<T>) -> (r: ProtocolVersion) {
    match req.version() {
        http::Version::HTTP_09 => ProtocolVersion::Http09,
        http::Version::HTTP_10 => ProtocolVersion::Http10,
        http::Version::HTTP_11 => ProtocolVersion::Http11,
        http::Version::HTTP_2 => ProtocolVersion::Http2,
        http::Version::HTTP_3 => ProtocolVersion::Http3,
        _ => ProtocolVersion::Other,
    }
}

/// Relies on `http::Response::status` and `http::StatusCode::as_u16`; a
/// `StatusCode` only ever holds a value in `100..=999`.
#[verifier::external_body]
pub(crate) fn response_status<T>(resp: &http::Response<T>) -> (r: u16)
    ensures
        100 <= r <= 999,
{
    resp.status().as_u16()
}

/// Relies on `http::StatusCode::from_u16`, which accepts every code in
/// `100..=999`, and on `StatusCode`'s `Display`.
#[verifier::external_body]
pub(crate) fn canonical_status_text(code: u16) -> (r: String)
    requires
        100 <= code <= 999,
    ensures
        r@ == status_text(code),
{
    match http::StatusCode::from_u16(code) {
        Ok(status) => status.to_string(),
        Err(_) => String::new(),
    }
}

} // verus!
