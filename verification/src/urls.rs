//! What the `url` crate makes of an identifier. The two functions below hand a
//! text to `url::Url::parse`; what comes back is named, not described.

use vstd::prelude::*;

use crate::text::opt_text;

verus! {

/// The serialization of the URL that `url::Url::parse` reads from `s`; `None`
/// where it rejects `s`. It accepts absolute URLs only.
pub uninterp spec fn url_text(s: Seq<char>) -> Option<Seq<char>>;

/// The host of the URL that `url::Url::parse` reads from `s`, as
/// `Url::host_str` writes it: a domain name, or an IP address. `None` where
/// the parser rejects `s`, and where the URL has no host.
pub uninterp spec fn url_host(s: Seq<char>) -> Option<Seq<char>>;

/// Calls `url::Url::parse` on `s` and hands back the URL's serialization
/// (`String::from(Url)`), or `None` where the parser returns an error. Trusted:
/// that the outcome is the one `url_text` names, which is to say that the
/// parser's answer depends on `s` alone.
#[verifier::external_body]
pub(crate) fn parse_url(s: &str) -> (r: Option<String>)
    ensures
        opt_text(r) == url_text(s@),
{
    match url::Url::parse(s) {
        Ok(u) => Some(String::from(u)),
        Err(_) => None,
    }
}

/// Calls `url::Url::parse` on `s` and then `Url::host_str` on the URL.
/// Trusted: that the outcome is the one `url_host` names.
#[verifier::external_body]
pub(crate) fn parse_host(s: &str) -> (r: Option<String>)
    ensures
        opt_text(r) == url_host(s@),
{
    match url::Url::parse(s) {
        Ok(u) => u.host_str().map(String::from),
        Err(_) => None,
    }
}

} // verus!
