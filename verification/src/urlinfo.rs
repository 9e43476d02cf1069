//! The pieces of a parsed absolute URL that the shell's rules read:
//! scheme, host, path, and the normalized serialization.
//!
//! Parsing itself is done by the `url` crate; its result on a given string is
//! a pure function of that string, named here by uninterpreted spec functions.

use vstd::prelude::*;

verus! {

/// What the library reads out of a parsed URL, as plain strings.
pub struct UrlInfo {
    /// The scheme, as the parser normalizes it (ASCII lowercase).
    pub scheme: String,
    /// The host, when the URL has one.
    pub host: Option<String>,
    /// The path component.
    pub path: String,
    /// The whole URL as the parser serializes it back.
    pub normalized: String,
}

/// Whether `url::Url::parse` accepts the string.
pub uninterp spec fn url_ok(s: Seq<char>) -> bool;

/// The scheme of the parsed URL (`url::Url::scheme`).
pub uninterp spec fn url_scheme(s: Seq<char>) -> Seq<char>;

/// The host string of the parsed URL, if any (`url::Url::host_str`).
pub uninterp spec fn url_host(s: Seq<char>) -> Option<Seq<char>>;

/// The path of the parsed URL (`url::Url::path`).
pub uninterp spec fn url_path(s: Seq<char>) -> Seq<char>;

/// The serialization of the parsed URL (`url::Url::as_str`).
pub uninterp spec fn url_normal(s: Seq<char>) -> Seq<char>;

/// Relies on `url::Url::parse`, and on `Url::scheme`, `Url::host_str`,
/// `Url::path` and `Url::as_str` applied to the parsed value: the parser is
/// deterministic, so each is a pure function of the input string, named above.
#[verifier::external_body]
pub fn parse_url(s: &str) -> (r: Option<UrlInfo>)
    ensures
        r is Some <==> url_ok(s@),
        r is Some ==> r->Some_0.scheme@ == url_scheme(s@),
        r is Some ==> (r->Some_0.host is Some <==> url_host(s@) is Some),
        r is Some && r->Some_0.host is Some ==> r->Some_0.host->Some_0@ == url_host(s@)->Some_0,
        r is Some ==> r->Some_0.path@ == url_path(s@),
        r is Some ==> r->Some_0.normalized@ == url_normal(s@),
{
    match url::Url::parse(s) {
        Ok(u) => Some(UrlInfo {
            scheme: u.scheme().to_string(),
            host: u.host_str().map(|h| h.to_string()),
            path: u.path().to_string(),
            normalized: u.as_str().to_string(),
        }),
        Err(_) => None,
    }
}

} // verus!
