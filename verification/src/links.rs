//! The `url` crate as the rest of the library sees it.
//!
//! A [`Url`] is opaque to the verifier. What the library reads from one (its
//! text, its domain, its query) is named here by uninterpreted functions, and
//! each call into the crate is a small function whose contract is believed,
//! not proved. Everything else in the library is proved against these
//! contracts.

use url::{Host, ParseError, Url};
use vstd::prelude::*;

verus! {

/// `url::Url`: a parsed absolute URL. Nothing of its fields is visible here.
#[verifier::external_type_specification]
#[verifier::external_body]
pub struct ExUrl(url::Url);

/// Why `Url::parse` turned a text down: the variants of `url::ParseError`,
/// and `Unknown` for any variant that a later version of the crate may add.
#[derive(Debug, Clone, Copy, PartialEq, Eq)]
pub enum UrlParseError {
    EmptyHost,
    IdnaError,
    InvalidPort,
    InvalidIpv4Address,
    InvalidIpv6Address,
    InvalidDomainCharacter,
    RelativeUrlWithoutBase,
    RelativeUrlWithCannotBeABaseBase,
    SetHostOnCannotBeABaseUrl,
    Overflow,
    Unknown,
}

/// The serialization of a URL: the text that `Url::as_str` hands out.
pub uninterp spec fn url_text(url: Url) -> Seq<char>;

/// The host that `Url::host` reports, where it is a domain name; `None` for
/// an IP address and for a URL without a host.
pub uninterp spec fn url_domain(url: Url) -> Option<Seq<char>>;

/// The query string that `Url::query` reports, without the leading `?`;
/// `None` where the URL has no query component.
pub uninterp spec fn url_query(url: Url) -> Option<Seq<char>>;

/// What `Url::parse` makes of a text.
pub uninterp spec fn parsed_url(input: Seq<char>) -> Result<Url, UrlParseError>;

/// The URL that `Url::set_query` leaves behind when it is given `query`.
pub uninterp spec fn url_with_query(url: Url, query: Option<Seq<char>>) -> Url;

/// The text of an optional string slice.
pub open spec fn opt_view(text: Option<&str>) -> Option<Seq<char>> {
    match text {
        Some(text) => Some(text@),
        None => None,
    }
}

/// `<Url as Clone>::clone`, which the crate derives: the copy is the same URL.
pub assume_specification[ <url::Url as Clone>::clone ](source: &url::Url) -> (copy: url::Url)
    ensures
        copy == *source,
;

/// `Url::parse`. Believed: the outcome depends on the text alone. An error
/// comes back as the variant of the same name.
#[verifier::external_body]
pub(crate) fn parse(input: &str) -> (outcome: Result<Url, UrlParseError>)
    ensures
        outcome == parsed_url(input@),
{
    Url::parse(input).map_err(|error| match error {
        ParseError::EmptyHost => UrlParseError::EmptyHost,
        ParseError::IdnaError => UrlParseError::IdnaError,
        ParseError::InvalidPort => UrlParseError::InvalidPort,
        ParseError::InvalidIpv4Address => UrlParseError::InvalidIpv4Address,
        ParseError::InvalidIpv6Address => UrlParseError::InvalidIpv6Address,
        ParseError::InvalidDomainCharacter => UrlParseError::InvalidDomainCharacter,
        ParseError::RelativeUrlWithoutBase => UrlParseError::RelativeUrlWithoutBase,
        ParseError::RelativeUrlWithCannotBeABaseBase => UrlParseError::RelativeUrlWithCannotBeABaseBase,
        ParseError::SetHostOnCannotBeABaseUrl => UrlParseError::SetHostOnCannotBeABaseUrl,
        ParseError::Overflow => UrlParseError::Overflow,
        _ => UrlParseError::Unknown,
    })
}

/// `Url::as_str`: the serialization, borrowed from the URL.
#[verifier::external_body]
pub(crate) fn text(url: &Url) -> (text: &str)
    ensures
        text@ == url_text(*url),
{
    url.as_str()
}

/// `Url::host`, narrowed to the domain name: an IP address counts as no
/// domain, as does a missing host.
#[verifier::external_body]
pub(crate) fn domain(url: &Url) -> (domain: Option<&str>)
    ensures
        opt_view(domain) == url_domain(*url),
{
    match url.host() {
        Some(Host::Domain(name)) => Some(name),
        Some(Host::Ipv4(_)) => None,
        Some(Host::Ipv6(_)) => None,
        None => None,
    }
}

/// `Url::query`: the query string, borrowed from the URL.
#[verifier::external_body]
pub(crate) fn query(url: &Url) -> (query: Option<&str>)
    ensures
        opt_view(query) == url_query(*url),
{
    url.query()
}

/// `Url::set_query`. Believed: the URL afterwards depends on the URL before
/// and on the text handed in alone; the host is left as it was; and the URL
/// has a query component afterwards exactly if one was handed in, so that
/// `None` clears it rather than leaving an empty one.
///
/// Believed too: a text made of characters of the URL's own query is written
/// as it stands. The crate drops tabs and line breaks from a new query and
/// writes with a percent sign the bytes of its query encode set and those
/// beyond ASCII; a query that a URL holds has been through that already and
/// holds none of them.
///
/// The crate keeps positions in the serialization in 32 bits and panics when
/// one does not fit. So a new query is asked to be one that is written as it
/// stands and is no longer than the old one: no position then moves up.
#[verifier::external_body]
pub(crate) fn set_query(url: &mut Url, query: Option<&str>)
    requires
        query matches Some(given) ==> match url_query(*old(url)) {
            Some(before) => given@.len() <= before.len() && forall|i: int|
                0 <= i < given@.len() ==> before.contains(#[trigger] given@[i]),
            None => false,
        },
    ensures
        *final(url) == url_with_query(*old(url), opt_view(query)),
        url_domain(*final(url)) == url_domain(*old(url)),
        url_query(*final(url)) is Some <==> query is Some,
        query matches Some(given) ==> url_query(*final(url)) == Some(given@),
{
    url.set_query(query)
}

} // verus!
