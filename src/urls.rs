//! URLs as text. Parsing, resolving and extending a URL are left to the URL
//! parser of the HTTP client; this module names what they give.
use vstd::prelude::*;

use base64::Engine;
use reqwest::Url;

verus! {

/// The text of the URL that parsing `input` gives; `None` where `input` is
/// not an absolute URL.
pub uninterp spec fn parsed_url(input: Seq<char>) -> Option<Seq<char>>;

/// The text of the URL that `input` resolves to against the URL `base`;
/// `None` where either fails to parse.
pub uninterp spec fn joined_url(base: Seq<char>, input: Seq<char>) -> Option<Seq<char>>;

/// The text of `url` with one form-urlencoded `key=value` pair appended to
/// its query; `None` where `url` fails to parse.
pub uninterp spec fn url_with_pair(url: Seq<char>, key: Seq<char>, value: Seq<char>) -> Option<
    Seq<char>,
>;

/// URL-safe base64 of `data`, without padding.
pub uninterp spec fn base64_url_no_pad(data: Seq<u8>) -> Seq<char>;

pub open spec fn opt_text(o: Option<String>) -> Option<Seq<char>> {
    match o {
        Some(s) => Some(s@),
        None => None,
    }
}

/// Relies on `Url::parse`, and on `Url::as_str` for the text of the result.
#[verifier::external_body]
pub(crate) fn parse_url(input: &str) -> (r: Option<String>)
    ensures
        opt_text(r) == parsed_url(input@),
{
    match Url::parse(input) {
        Ok(url) => Some(url.as_str().to_string()),
        Err(_) => None,
    }
}

/// Relies on `Url::join`: resolves `input` against `base` (read with
/// `Url::parse`) as a browser resolves a link.
#[verifier::external_body]
pub(crate) fn join_url(base: &str, input: &str) -> (r: Option<String>)
    ensures
        opt_text(r) == joined_url(base@, input@),
{
    match Url::parse(base) {
        Ok(base) => match base.join(input) {
            Ok(url) => Some(url.as_str().to_string()),
            Err(_) => None,
        },
        Err(_) => None,
    }
}

/// Relies on `form_urlencoded::Serializer::append_pair` through
/// `Url::query_pairs_mut`: appends one encoded pair to the query of `url`.
#[verifier::external_body]
pub(crate) fn append_query_pair(url: &str, key: &str, value: &str) -> (r: Option<String>)
    ensures
        opt_text(r) == url_with_pair(url@, key@, value@),
{
    match Url::parse(url) {
        Ok(mut url) => {
            url.query_pairs_mut().append_pair(key, value);
            Some(url.as_str().to_string())
        },
        Err(_) => None,
    }
}

/// Relies on base64's `URL_SAFE_NO_PAD` engine.
#[verifier::external_body]
pub(crate) fn encode_base64_url(data: &[u8]) -> (r: String)
    ensures
        r@ == base64_url_no_pad(data@),
{
    base64::engine::general_purpose::URL_SAFE_NO_PAD.encode(data)
}

} // verus!
