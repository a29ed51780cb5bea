//! Request-URL construction for the two enrollment-API endpoints.

use vstd::prelude::*;
use vstd::string::StringExecFns;

verus! {

/// The characters of the URL that fetches the roster for `term_code` and
/// `crn`: the fixed roster endpoint prefix, the term code, a slash, the
/// registration number.
pub open spec fn roster_url_chars(term_code: Seq<char>, crn: Seq<char>) -> Seq<char> {
    "https://api.uoregon.edu/course/v2/roster/"@ + term_code + "/"@ + crn
}

/// The characters of the URL that resolves `banner_id` into a Duck ID: the
/// fixed resolution endpoint prefix followed by the identifier.
pub open spec fn duckid_url_chars(banner_id: Seq<char>) -> Seq<char> {
    "https://api.uoregon.edu/person/uo/duckid/"@ + banner_id
}

/// Builds the roster request URL for a term code and a registration number.
pub fn roster_url(term_code: &str, crn: &str) -> (r: String)
    ensures
        r@ == roster_url_chars(term_code@, crn@),
{
    let mut url = String::from_str("https://api.uoregon.edu/course/v2/roster/");
    url.append(term_code);
    url.append("/");
    url.append(crn);
    url
}

/// Builds the Duck ID resolution request URL for a Banner ID.
pub fn duckid_url(banner_id: &str) -> (r: String)
    ensures
        r@ == duckid_url_chars(banner_id@),
{
    let mut url = String::from_str("https://api.uoregon.edu/person/uo/duckid/");
    url.append(banner_id);
    url
}

} // verus!
