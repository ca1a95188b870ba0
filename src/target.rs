//! A configured target's URL: parsed with the `url` crate, given the
//! target's port, and split into what the probes need.
use vstd::prelude::*;
use crate::monitor::names_http;

verus! {

#[verifier::external_type_specification]
#[verifier::external_body]
pub struct ExUrl(url::Url);

#[verifier::external_type_specification]
#[verifier::external_body]
pub struct ExParseError(url::ParseError);

/// Whether `url::Url::parse` accepts the text `s`.
pub uninterp spec fn url_accepts(s: Seq<char>) -> bool;

/// Relies on `url::Url::parse`, which succeeds or fails on the text alone.
#[verifier::external_body]
fn parse_url(s: &str) -> (r: Result<url::Url, url::ParseError>)
    ensures
        r is Ok <==> url_accepts(s@),
{
    url::Url::parse(s)
}

/// What the `url` crate makes of the target text `s` on `port`: the scheme,
/// the host and the full URL with the port applied; `None` where the text is
/// no URL, cannot carry a port, or names no host.
pub uninterp spec fn url_parts(s: Seq<char>, port: u16) -> Option<(Seq<char>, Seq<char>, Seq<char>)>;

/// Relies on `url::Url::parse`, `url::Url::set_port`, `url::Url::scheme`,
/// `url::Url::host_str` and `url::Url::as_str`: the parts depend on the text
/// and the port alone, and a text that does not parse gives none.
#[verifier::external_body]
fn target_url_parts(s: &str, port: u16) -> (r: Option<(String, String, String)>)
    ensures
        match r {
            Some(p) => url_parts(s@, port) == Some((p.0@, p.1@, p.2@)),
            None => url_parts(s@, port) is None,
        },
        !url_accepts(s@) ==> r is None,
{
    let mut u = url::Url::parse(s).ok()?;
    u.set_port(Some(port)).ok()?;
    let host = u.host_str()?.to_string();
    Some((u.scheme().to_string(), host, u.as_str().to_string()))
}

/// Why a configured target cannot be scanned.
#[derive(Clone, Copy, Debug, PartialEq, Eq, Structural)]
pub enum TargetError {
    /// The host is not a URL.
    BadUri,
    /// The URL cannot carry a port, or names no host.
    CannotBeBase,
}

/// Where to probe a target.
pub struct Endpoint {
    /// The full URL, with the target's port.
    pub url: String,
    /// The host name, sent in the TLS handshake and resolved for the probe.
    pub host: String,
    /// The URL's scheme.
    pub scheme: String,
    pub port: u16,
}

impl Endpoint {
    /// The endpoint of a target whose host is the URL `host`, on `port`.
    pub fn from_target(host: &str, port: u16) -> (r: Result<Endpoint, TargetError>)
        ensures
            r is Ok <==> url_parts(host@, port) is Some,
            r matches Ok(e) ==> e.port == port && url_parts(host@, port) == Some(
                (e.scheme@, e.host@, e.url@),
            ),
            r == Err::<Endpoint, TargetError>(TargetError::BadUri) <==> !url_accepts(host@),
            r == Err::<Endpoint, TargetError>(TargetError::CannotBeBase) <==> url_accepts(host@)
                && url_parts(host@, port) is None,
    {
        match target_url_parts(host, port) {
            Some((scheme, name, url)) => Ok(Endpoint { url, host: name, scheme, port }),
            None => match parse_url(host) {
                Ok(_) => Err(TargetError::CannotBeBase),
                Err(_) => Err(TargetError::BadUri),
            },
        }
    }

    /// Whether the endpoint gets a liveness request: only when its scheme
    /// contains `http`.
    pub fn wants_liveness(&self) -> (r: bool)
        ensures
            r == names_http(self.scheme@),
    {
        crate::monitor::wants_liveness(self.scheme.as_str())
    }
}

} // verus!
