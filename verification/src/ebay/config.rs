//! Where the marketplace's service stands.

use crate::text::{chars_of, concat2, eq_ignore_ascii_case, eq_ignore_ascii_case_spec};
use vstd::prelude::*;

verus! {

/// The root address for the environment named `env`: production for `PROD`
/// in any letter case, the sandbox for every other name.
pub open spec fn api_root_spec(env: Seq<char>) -> Seq<char> {
    if eq_ignore_ascii_case_spec(env, "PROD"@) {
        "https://api.ebay.com"@
    } else {
        "https://api.sandbox.ebay.com"@
    }
}

/// The root address for the environment named `env`.
pub fn api_root(env: &str) -> (out: &'static str)
    ensures
        out@ == api_root_spec(env@),
{
    let e = chars_of(env);
    let p = chars_of("PROD");
    if eq_ignore_ascii_case(&e, &p) {
        "https://api.ebay.com"
    } else {
        "https://api.sandbox.ebay.com"
    }
}

/// The address of the token exchange below `root`.
pub fn oauth_token_url(root: &str) -> (out: String)
    ensures
        out@ == root@ + "/identity/v1/oauth2/token"@,
{
    concat2(root, "/identity/v1/oauth2/token")
}

} // verus!
