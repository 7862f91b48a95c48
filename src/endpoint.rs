//! Host and port of a dependency, read from its URL.
use vstd::prelude::*;
use vstd::string::*;
use crate::upload::opt_text;

verus! {

/// What the connector reads of a URL.
pub struct UrlParts {
    pub host: Option<String>,
    pub port: Option<u16>,
}

/// Whether the text parses as an absolute URL.
pub uninterp spec fn url_is_valid(s: Seq<char>) -> bool;

/// The host of the parsed URL, if it has one.
pub uninterp spec fn url_host_of(s: Seq<char>) -> Option<Seq<char>>;

/// The explicit port of the parsed URL, or its scheme's known default.
pub uninterp spec fn url_port_of(s: Seq<char>) -> Option<u16>;

/// Relies on url::Url::parse for validity, and on Url::host_str and
/// Url::port_or_known_default of the parsed value for host and port.
#[verifier::external_body]
fn url_parts(s: &str) -> (r: Option<UrlParts>)
    ensures
        r is Some == url_is_valid(s@),
        r matches Some(p) ==> (opt_text(p.host) == url_host_of(s@) && p.port == url_port_of(s@)),
{
    url::Url::parse(s).ok().map(
        |u| UrlParts { host: u.host_str().map(|h| h.to_string()), port: u.port_or_known_default() },
    )
}

/// Why no address could be read from a URL.
#[derive(Clone, Copy, Debug, PartialEq, Eq, Structural)]
pub enum EndpointError {
    InvalidUrl,
    MissingHost,
    MissingPort,
}

/// The address in parts read from a URL, or why there is none: a URL that did
/// not parse, then one without host, then one without port.
pub fn endpoint_from_parts(parts: Option<UrlParts>) -> (r: Result<(String, u16), EndpointError>)
    ensures
        match parts {
            None => r == Err::<(String, u16), EndpointError>(EndpointError::InvalidUrl),
            Some(p) => match (p.host, p.port) {
                (None, _) => r == Err::<(String, u16), EndpointError>(EndpointError::MissingHost),
                (Some(_), None) => r == Err::<(String, u16), EndpointError>(EndpointError::MissingPort),
                (Some(h), Some(port)) => (r matches Ok((rh, rp)) && rh@ == h@ && rp == port),
            },
        },
{
    match parts {
        None => Err(EndpointError::InvalidUrl),
        Some(p) => match p.host {
            None => Err(EndpointError::MissingHost),
            Some(h) => match p.port {
                None => Err(EndpointError::MissingPort),
                Some(port) => Ok((h, port)),
            },
        },
    }
}

/// Host and port of a URL, the port defaulting to the scheme's.
pub fn parse_host_port(url: &str) -> (r: Result<(String, u16), EndpointError>)
    ensures
        !url_is_valid(url@) ==> r == Err::<(String, u16), EndpointError>(EndpointError::InvalidUrl),
        url_is_valid(url@) && url_host_of(url@) is None ==> r == Err::<(String, u16), EndpointError>(
            EndpointError::MissingHost,
        ),
        url_is_valid(url@) && url_host_of(url@) is Some && url_port_of(url@) is None ==> r == Err::<
            (String, u16),
            EndpointError,
        >(EndpointError::MissingPort),
        url_is_valid(url@) && url_host_of(url@) is Some && url_port_of(url@) is Some ==> (r matches Ok(
            (h, p),
        ) && Some(h@) == url_host_of(url@) && Some(p) == url_port_of(url@)),
{
    endpoint_from_parts(url_parts(url))
}

} // verus!
