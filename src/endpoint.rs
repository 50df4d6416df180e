//! Endpoints: the parts of a user-supplied URL that the engine relies on, and
//! the URL of the model list derived from them.
use vstd::prelude::*;
use vstd::string::*;
use crate::error::ProxyError;
use crate::text::{decimal, decimal_text};

verus! {

/// What `url::Url::parse` makes of a string: its scheme, its host as text
/// and its explicit port (none where it is the scheme's default), or nothing
/// where the string is no absolute URL.
pub uninterp spec fn url_parts(s: Seq<char>) -> Option<(Seq<char>, Option<Seq<char>>, Option<u16>)>;

/// The characters of an optional string.
pub open spec fn opt_text(o: Option<String>) -> Option<Seq<char>> {
    match o {
        Some(s) => Some(s@),
        None => None,
    }
}

/// Relies on `url::Url::parse`, `Url::scheme`, `Url::host_str` and
/// `Url::port`: the parts of the parsed URL, or the parse error as text.
#[verifier::external_body]
fn split_url(s: &str) -> (r: Result<(String, Option<String>, Option<u16>), String>)
    ensures
        r is Ok <==> url_parts(s@) is Some,
        r matches Ok(t) ==> url_parts(s@) == Some((t.0@, opt_text(t.1), t.2)),
{
    url::Url::parse(s).map(
        |u| (u.scheme().to_string(), u.host_str().map(|h| h.to_string()), u.port()),
    ).map_err(|e| e.to_string())
}

/// A parsed endpoint that has a host.
#[derive(Clone, Debug)]
pub struct Endpoint {
    pub scheme: String,
    pub host: String,
    pub port: Option<u16>,
}

/// Whether `s` is an endpoint the engine accepts: an absolute URL with a host.
pub open spec fn endpoint_ok(s: Seq<char>) -> bool {
    url_parts(s) is Some && url_parts(s)->Some_0.1 is Some
}

/// The message for an endpoint that has no host.
pub open spec fn missing_host() -> Seq<char> {
    "Missing host"@
}

/// Parses an endpoint, failing with `InvalidEndpoint` where it is no URL or
/// has no host.
pub fn parse_endpoint(s: &str) -> (r: Result<Endpoint, ProxyError>)
    ensures
        r is Ok <==> endpoint_ok(s@),
        r matches Ok(e) ==> url_parts(s@) == Some((e.scheme@, Some(e.host@), e.port)),
        r matches Err(e) ==> e is InvalidEndpoint,
        hostless(s@) ==> r is Err
            && r->Err_0->InvalidEndpoint_0@ == missing_host(),
{
    match split_url(s) {
        Ok((scheme, host, port)) => match host {
            Some(host) => Ok(Endpoint { scheme, host, port }),
            None => Err(ProxyError::InvalidEndpoint(String::from_str("Missing host"))),
        },
        Err(msg) => Err(ProxyError::InvalidEndpoint(msg)),
    }
}

/// The path of the model list.
pub open spec fn tags_path() -> Seq<char> {
    "/api/tags"@
}

/// The origin of an endpoint: scheme, host and explicit port.
pub open spec fn origin_of(scheme: Seq<char>, host: Seq<char>, port: Option<u16>) -> Seq<char> {
    scheme + "://"@ + host + match port {
        Some(p) => ":"@ + decimal(p as nat),
        None => Seq::<char>::empty(),
    }
}

/// The model-list URL for an endpoint: its origin followed by `/api/tags`;
/// the endpoint's path and query are dropped.
pub open spec fn tags_url_of(s: Seq<char>) -> Seq<char>
    recommends
        endpoint_ok(s),
{
    let p = url_parts(s)->Some_0;
    origin_of(p.0, p.1->Some_0, p.2) + tags_path()
}

/// An endpoint that parses but has no host.
pub open spec fn hostless(s: Seq<char>) -> bool {
    url_parts(s) is Some && url_parts(s)->Some_0.1 is None
}

/// The model-list URL of a parsed endpoint: its origin followed by
/// `/api/tags`.
pub fn tags_url_for(e: &Endpoint) -> (r: String)
    ensures
        r@ == origin_of(e.scheme@, e.host@, e.port) + tags_path(),
{
    let mut u = e.scheme.clone().concat("://").concat(e.host.as_str());
    match e.port {
        Some(p) => {
            let digits = decimal_text(p as u64);
            u = u.concat(":").concat(digits.as_str());
        },
        None => {},
    }
    let r = u.concat("/api/tags");
    assert(r@ =~= origin_of(e.scheme@, e.host@, e.port) + tags_path());
    r
}

/// Derives the model-list URL from a user-supplied endpoint.
pub fn tags_url(endpoint: &str) -> (r: Result<String, ProxyError>)
    ensures
        r is Ok <==> endpoint_ok(endpoint@),
        r matches Ok(u) ==> u@ == tags_url_of(endpoint@),
        r matches Err(e) ==> e is InvalidEndpoint,
        hostless(endpoint@) ==> r is Err && r->Err_0->InvalidEndpoint_0@ == missing_host(),
{
    let e = parse_endpoint(endpoint)?;
    Ok(tags_url_for(&e))
}

} // verus!
