use vstd::prelude::*;
use prometheus_http_query::Client;
use prometheus_http_query::reqwest::Client as HttpClient;

verus! {

#[verifier::external_type_specification]
#[verifier::external_body]
pub struct ExClient(prometheus_http_query::Client);

#[verifier::external_type_specification]
#[verifier::external_body]
pub struct ExHttpClient(prometheus_http_query::reqwest::Client);

/// Text of the error that prometheus_http_query gives for a base URL that
/// does not parse.
pub const BASE_URL_FAILURE: &'static str = "failed to build Prometheus server base URL";

/// Whether `url` parses as a base URL (`url::Url::parse` accepts it).
pub uninterp spec fn base_url_parses(url: Seq<char>) -> bool;

/// Relies on reqwest's `ClientBuilder::build`, reached through the reqwest
/// that prometheus_http_query re-exports: it fails, without panicking, when
/// the machine's TLS backend or resolver cannot be set up. Every variant of
/// reqwest's `Error` displays as a non-empty text.
#[verifier::external_body]
pub(crate) fn http_client() -> (r: Result<HttpClient, String>)
    ensures
        r matches Err(m) ==> m@.len() > 0,
{
    match HttpClient::builder().build() {
        Ok(c) => Ok(c),
        Err(e) => Err(e.to_string()),
    }
}

/// Relies on prometheus_http_query's `Client::from`: it fails exactly when
/// `Url::parse` rejects the base URL, with an `Error::ParseUrl` that
/// displays as `BASE_URL_FAILURE`.
#[verifier::external_body]
pub(crate) fn connect_with(http: HttpClient, url: &str) -> (r: Result<Client, String>)
    ensures
        r is Ok <==> base_url_parses(url@),
        r matches Err(m) ==> m@ == BASE_URL_FAILURE@,
{
    match Client::from(http, url) {
        Ok(c) => Ok(c),
        Err(e) => Err(e.to_string()),
    }
}

} // verus!
