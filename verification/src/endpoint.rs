//! Which endpoint of the bot API a client is to talk to.
//!
//! The configuration always names a base address. Where it is the
//! standard one, clients are built without an address of their own, and
//! only another address selects a custom endpoint.

use crate::text::same_text;
use vstd::prelude::*;
use vstd::string::*;

verus! {

/// Base address of the standard bot API.
pub const API_BASE_URL: &'static str = "https://api.telegram.org/bot";

/// The custom endpoint that the configured base address `api_url` selects:
/// none for the standard address, the address itself for any other.
pub open spec fn custom_endpoint(api_url: Seq<char>) -> Option<Seq<char>> {
    if api_url == API_BASE_URL@ {
        None
    } else {
        Some(api_url)
    }
}

/// Selects the custom endpoint for the configured base address.
pub fn custom_api_url(api_url: &str) -> (custom: Option<String>)
    ensures
        custom.deep_view() == custom_endpoint(api_url@),
{
    if same_text(api_url, API_BASE_URL) {
        None
    } else {
        Some(api_url.to_owned())
    }
}

/// What `reqwest::Url::parse` makes of `input`: the address in its
/// normalised written form, or `None` where `input` is not an absolute
/// address.
pub uninterp spec fn parsed_url(input: Seq<char>) -> Option<Seq<char>>;

/// Parses an address with `reqwest::Url::parse`, and writes the result
/// out again.
///
/// Nothing is proved of this function. The contract claims that the
/// outcome depends on the text of `input` alone, and gives that outcome
/// the name [`parsed_url`]; it claims nothing about which texts are
/// accepted or what their normalised form is.
#[verifier::external_body]
fn parse_url(input: &str) -> (parsed: Option<String>)
    ensures
        parsed.deep_view() == parsed_url(input@),
{
    reqwest::Url::parse(input).ok().map(String::from)
}

/// The endpoint for a client that is configured with `api_url`, given
/// what parsing made of that address: the standard endpoint, written
/// `None`, for the standard address and for an address that does not
/// parse, and the parsed address otherwise.
pub open spec fn checked_endpoint(api_url: Seq<char>, parsed: Option<Seq<char>>) -> Option<
    Seq<char>,
> {
    if api_url == API_BASE_URL@ {
        None
    } else {
        parsed
    }
}

/// Selects the endpoint for a client that is configured with `api_url`,
/// given what parsing made of that address.
pub fn endpoint_given(api_url: &str, parsed: Option<String>) -> (endpoint: Option<String>)
    ensures
        endpoint.deep_view() == checked_endpoint(api_url@, parsed.deep_view()),
{
    if same_text(api_url, API_BASE_URL) {
        None
    } else {
        parsed
    }
}

/// Selects the endpoint for a client that must not be handed an address
/// it cannot use: a custom address counts only if it parses, and is
/// returned in its normalised form.
pub fn checked_api_url(api_url: &str) -> (endpoint: Option<String>)
    ensures
        endpoint.deep_view() == checked_endpoint(api_url@, parsed_url(api_url@)),
        api_url@ == API_BASE_URL@ ==> endpoint is None,
{
    endpoint_given(api_url, parse_url(api_url))
}

} // verus!
