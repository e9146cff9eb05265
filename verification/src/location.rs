//! From an advertisement's location to the host that sent it.
//!
//! URL parsing is left to the `url` crate. Its verdict on a text is named
//! here, not restated: [`parsed_host`] stands for it in every contract.

use vstd::prelude::*;
use vstd::string::*;

use url::Url;

verus! {

/// The error of the `url` crate's parser, carried through unread.
#[verifier::external_type_specification]
#[verifier::external_body]
pub struct ExParseError(url::ParseError);

/// What the `url` crate makes of a location: `None` where `Url::parse`
/// rejects the text, else the host of the parsed URL as `Url::host_str`
/// gives it, which is `None` for a URL without a host.
pub uninterp spec fn parsed_host(location: Seq<char>) -> Option<Option<Seq<char>>>;

/// A parser result as plain values: the error is forgotten, the host is
/// taken by its characters.
pub open spec fn parse_outcome(parsed: Result<Option<String>, url::ParseError>) -> Option<
    Option<Seq<char>>,
> {
    match parsed {
        Ok(host) => Some(host.deep_view()),
        Err(_) => None,
    }
}

/// The host that an advertisement is attributed to, given what the parser
/// made of its location: none where the location is no URL, the empty
/// host where the URL has none.
pub open spec fn host_of(outcome: Option<Option<Seq<char>>>) -> Option<Seq<char>> {
    match outcome {
        None => None,
        Some(None) => Some(Seq::empty()),
        Some(Some(host)) => Some(host),
    }
}

/// The host that an advertisement with this location is attributed to.
pub open spec fn location_host(location: Seq<char>) -> Option<Seq<char>> {
    host_of(parsed_host(location))
}

/// Calls `url::Url::parse` on the location and, where it succeeds,
/// `Url::host_str` on the parsed URL. Trusted: the result is what
/// [`parsed_host`] names for this text, so that equal texts give equal
/// results. Nothing else is claimed of the parser.
#[verifier::external_body]
fn parse_host(location: &str) -> (parsed: Result<Option<String>, url::ParseError>)
    ensures
        parse_outcome(parsed) == parsed_host(location@),
{
    let url = Url::parse(location)?;
    Ok(url.host_str().map(String::from))
}

/// Picks the host out of a parser result: a rejected location has none, a
/// URL without a host has the empty one.
pub fn host_from_parsed(parsed: Result<Option<String>, url::ParseError>) -> (host: Option<String>)
    ensures
        host.deep_view() == host_of(parse_outcome(parsed)),
{
    match parsed {
        Ok(Some(host)) => Some(host),
        Ok(None) => Some(String::new()),
        Err(_) => None,
    }
}

/// The host that sent an advertisement, read from its location; `None`
/// where the location is not a URL.
pub fn host_of_location(location: &str) -> (host: Option<String>)
    ensures
        host.deep_view() == location_host(location@),
{
    host_from_parsed(parse_host(location))
}

} // verus!
