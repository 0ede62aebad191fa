//! The parts of a URL that the resolver reads, and the trusted boundary to
//! the `url` crate, which does all URL parsing and serialization.

use vstd::prelude::*;

verus! {

/// The parts of a parsed URL that the resolver reads, as plain values.
pub struct ParsedUrl {
    /// The URL's scheme, such as `"http"`.
    pub scheme: String,
    /// The URL's host, if it has one.
    pub host: Option<String>,
    /// The URL's explicitly written port, if any. A port that is merely the
    /// scheme's default is not explicit.
    pub port: Option<u16>,
}

/// The mathematical view of a `ParsedUrl`.
pub ghost struct UrlModel {
    pub scheme: Seq<char>,
    pub host: Option<Seq<char>>,
    pub port: Option<u16>,
}

impl View for ParsedUrl {
    type V = UrlModel;

    open spec fn view(&self) -> UrlModel {
        UrlModel {
            scheme: self.scheme@,
            host: match self.host {
                Some(h) => Some(h@),
                None => None,
            },
            port: self.port,
        }
    }
}

/// What `url::Url::parse` makes of a string: the scheme, host and explicit
/// port of the URL it parses, or `None` where the string is not a URL. The
/// outcome depends on the string alone.
pub uninterp spec fn url_parse(s: Seq<char>) -> Option<UrlModel>;

/// The serialization of the URL written `s` with the port `port` attached,
/// or `None` where `s` is not a URL or cannot carry a port. The outcome
/// depends on the arguments alone.
pub uninterp spec fn url_with_port(s: Seq<char>, port: u16) -> Option<Seq<char>>;

/// Relies on `url::Url::parse` and the accessors `Url::scheme`,
/// `Url::host_str` and `Url::port` to break a URL string into its scheme,
/// host and explicit port.
#[verifier::external_body]
pub(crate) fn parse_url(s: &str) -> (r: Option<ParsedUrl>)
    ensures
        r matches Some(p) ==> url_parse(s@) == Some(p@),
        r is None ==> url_parse(s@) is None,
{
    match url::Url::parse(s) {
        Ok(u) => Some(ParsedUrl {
            scheme: u.scheme().to_string(),
            host: u.host_str().map(|h| h.to_string()),
            port: u.port(),
        }),
        Err(_) => None,
    }
}

/// Relies on `url::Url::parse`, `Url::set_port` and `Url::as_str` to
/// re-serialize a URL string with the given port attached. `set_port` fails
/// on URLs that cannot carry a port, and that failure comes back as `None`.
#[verifier::external_body]
pub(crate) fn serialize_with_port(s: &str, port: u16) -> (r: Option<String>)
    ensures
        r matches Some(t) ==> url_with_port(s@, port) == Some(t@),
        r is None ==> url_with_port(s@, port) is None,
{
    match url::Url::parse(s) {
        Ok(mut u) => match u.set_port(Some(port)) {
            Ok(()) => Some(u.as_str().to_string()),
            Err(()) => None,
        },
        Err(_) => None,
    }
}

} // verus!
