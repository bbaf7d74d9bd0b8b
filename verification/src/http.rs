//! The HTTP client of the provider clients, from `reqwest`.

use vstd::prelude::*;

verus! {

#[verifier::external_type_specification]
#[verifier::external_body]
pub struct ExHttpClient(reqwest::Client);

#[verifier::external_type_specification]
#[verifier::external_body]
pub struct ExHttpError(reqwest::Error);

/// Builds a `reqwest::Client` whose requests time out after `timeout_secs`
/// seconds (`ClientBuilder::timeout`, then `ClientBuilder::build`). Whether
/// the build succeeds depends on the environment (TLS backend, system proxy
/// settings), so nothing is stated of the result.
#[verifier::external_body]
pub(crate) fn build_http_client(timeout_secs: u64) -> Result<reqwest::Client, reqwest::Error> {
    reqwest::Client::builder().timeout(std::time::Duration::from_secs(timeout_secs)).build()
}

/// The `Display` text of a `reqwest::Error`. Its wording is `reqwest`'s own
/// and is not stated.
#[verifier::external_body]
pub(crate) fn http_error_text(e: &reqwest::Error) -> String {
    e.to_string()
}

} // verus!
