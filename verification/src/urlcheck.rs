//! URL syntax validation, behind a trusted wrapper around the `url` crate.

use vstd::prelude::*;
use vstd::string::*;

verus! {

/// Whether a string parses as an absolute URL; a function of the string
/// alone.
pub uninterp spec fn url_valid(s: Seq<char>) -> bool;

/// Relies on `url::Url::parse`: it returns `Ok` exactly when an absolute URL
/// can be parsed from the given string, and whether it can depends on the
/// string alone. The `Err` payload describes the failure.
#[verifier::external_body]
pub(crate) fn parse_absolute_url(s: &str) -> (r: Result<(), String>)
    ensures
        r is Ok <==> url_valid(s@),
{
    match url::Url::parse(s) {
        Ok(_) => Ok(()),
        Err(err) => Err(err.to_string()),
    }
}

} // verus!
