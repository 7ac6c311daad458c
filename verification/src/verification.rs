//! Whether a claimed identity is hosted where it came from.

use vstd::prelude::*;

use crate::error::FederationError;
use crate::text::{eq_ignore_ascii_case, opt_text, same_ignoring_ascii_case};
use crate::urls::{parse_host, url_host};

verus! {

/// Whether an identifier hosted at `host` belongs to the origin `expected`: it
/// has a host, a domain name or an address, and that host is `expected` up to
/// the case of ASCII letters.
pub open spec fn origin_matches(host: Option<Seq<char>>, expected: Seq<char>) -> bool {
    host matches Some(h) && same_ignoring_ascii_case(h, expected)
}

/// What the verifier answers for an identifier hosted at `host`.
pub open spec fn origin_verdict(host: Option<Seq<char>>, expected: Seq<char>) -> Result<
    (),
    FederationError,
> {
    if origin_matches(host, expected) {
        Ok(())
    } else {
        Err(FederationError::VerificationFailure)
    }
}

/// Holds the host of an identifier against the host that was expected.
pub fn check_origin(host: &Option<String>, expected_domain: &str) -> (r: Result<
    (),
    FederationError,
>)
    ensures
        r == origin_verdict(opt_text(*host), expected_domain@),
{
    match host {
        Some(h) => {
            if eq_ignore_ascii_case(h.as_str(), expected_domain) {
                Ok(())
            } else {
                Err(FederationError::VerificationFailure)
            }
        },
        None => Err(FederationError::VerificationFailure),
    }
}

/// Accepts `claimed_id` where the host in it is `expected_domain`, and
/// nowhere else: not where the hosts differ, nor where `claimed_id` is no URI
/// or names no host.
pub fn verify_origin(claimed_id: &str, expected_domain: &str) -> (r: Result<(), FederationError>)
    ensures
        r == origin_verdict(url_host(claimed_id@), expected_domain@),
{
    let host = parse_host(claimed_id);
    check_origin(&host, expected_domain)
}

} // verus!
