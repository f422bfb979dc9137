//! URL validation. Whether a string is a well-formed absolute URL is decided
//! by the WHATWG parsing grammar; the outcome is a function of the string
//! alone, named here by `url_accepts`.

use vstd::prelude::*;
use vstd::string::StringExecFns;
use crate::errors::AppError;

verus! {

/// Whether the WHATWG URL grammar accepts `s` as an absolute URL. The outcome
/// depends on the characters of `s` alone.
pub uninterp spec fn url_accepts(s: Seq<char>) -> bool;

/// Relies on url::Url::parse: succeeds exactly on the strings the WHATWG
/// grammar accepts as absolute URLs, a function of the input alone.
#[verifier::external_body]
fn parse_succeeds(candidate: &str) -> (r: bool)
    ensures
        r == url_accepts(candidate@),
{
    url::Url::parse(candidate).is_ok()
}

/// Accepts exactly the well-formed absolute URLs; everything else is rejected
/// with `InvalidUrl` and the message shown to the client. Reachability, DNS
/// and scheme allow-listing are not checked.
pub fn validate_url(url: &str) -> (r: Result<(), AppError>)
    ensures
        r is Ok <==> url_accepts(url@),
        r matches Err(e) ==> (e matches AppError::InvalidUrl(msg) && msg@ == "Invalid URL format"@),
{
    if parse_succeeds(url) {
        Ok(())
    } else {
        Err(AppError::InvalidUrl(String::from_str("Invalid URL format")))
    }
}

} // verus!
