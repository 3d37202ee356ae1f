//! One HTTP GET with a timeout, collapsed to a single success/failure outcome.
//! Transport errors, timeouts and non-2xx statuses all read as failure.
use vstd::prelude::*;
use reqwest::blocking::{Client, ClientBuilder, RequestBuilder, Response};
use reqwest::StatusCode;

verus! {

#[verifier::external_type_specification]
#[verifier::external_body]
pub struct ExClientBuilder(ClientBuilder);

#[verifier::external_type_specification]
#[verifier::external_body]
pub struct ExClient(Client);

#[verifier::external_type_specification]
#[verifier::external_body]
pub struct ExRequestBuilder(RequestBuilder);

#[verifier::external_type_specification]
#[verifier::external_body]
pub struct ExResponse(Response);

#[verifier::external_type_specification]
#[verifier::external_body]
pub struct ExReqwestError(reqwest::Error);

#[verifier::external_type_specification]
#[verifier::external_body]
pub struct ExStatusCode(StatusCode);

/// Relies on reqwest::blocking::Client::builder: a builder with default settings.
#[verifier::external_body]
fn client_builder() -> ClientBuilder {
    Client::builder()
}

/// The largest probe timeout, in seconds. A client's deadline is the current
/// instant plus its timeout, and that sum must stay within `Instant`'s range.
pub const MAX_TIMEOUT_SEC: u64 = 4294967295;

/// Relies on reqwest::blocking::ClientBuilder::timeout: sets the whole-request
/// timeout to `secs` seconds. Sending later adds the timeout to the current
/// instant, which panics on overflow; the bound keeps that sum in range.
#[verifier::external_body]
fn with_timeout(builder: ClientBuilder, secs: u64) -> ClientBuilder
    requires
        secs <= MAX_TIMEOUT_SEC,
{
    builder.timeout(std::time::Duration::from_secs(secs))
}

/// Relies on reqwest::blocking::ClientBuilder::build: fails when the resolver
/// or TLS backend cannot be set up. It panics inside an async runtime; this
/// library never runs one.
#[verifier::external_body]
fn build_client(builder: ClientBuilder) -> Result<Client, reqwest::Error> {
    builder.build()
}

/// Relies on reqwest::blocking::Client::get: a GET request to `url`; a URL that
/// does not parse surfaces as an error of `send`.
#[verifier::external_body]
fn get_request(client: &Client, url: &String) -> RequestBuilder {
    client.get(url.as_str())
}

/// Relies on reqwest::blocking::RequestBuilder::send: performs the request and
/// waits for the response head, or fails.
#[verifier::external_body]
fn send_request(request: RequestBuilder) -> Result<Response, reqwest::Error> {
    request.send()
}

/// Relies on reqwest::blocking::Response::status: the response's status code.
#[verifier::external_body]
fn response_status(response: &Response) -> StatusCode {
    response.status()
}

/// Relies on http::StatusCode::as_u16: every status code holds a number in
/// `100..=999`, the only values its constructors accept.
#[verifier::external_body]
fn status_number(status: &StatusCode) -> (r: u16)
    ensures
        100 <= r <= 999,
{
    status.as_u16()
}

/// The success range of HTTP status codes.
pub open spec fn success_status(code: int) -> bool {
    200 <= code < 300
}

/// Whether a status code counts as a successful probe.
pub fn is_success_status(code: u16) -> (r: bool)
    ensures
        r == success_status(code as int),
{
    200 <= code && code < 300
}

/// What one GET produced: the status number of the response, or `None` when
/// the client could not be built or the request failed to complete (transport
/// error, timeout, unparsable URL).
pub fn fetch_status(url: &String, timeout_sec: u64) -> (r: Option<u16>)
    requires
        timeout_sec <= MAX_TIMEOUT_SEC,
    ensures
        r matches Some(s) ==> 100 <= s <= 999,
{
    let builder = with_timeout(client_builder(), timeout_sec);
    match build_client(builder) {
        Ok(client) => match send_request(get_request(&client, url)) {
            Ok(response) => {
                let status = response_status(&response);
                Some(status_number(&status))
            },
            Err(_) => None,
        },
        Err(_) => None,
    }
}

/// The probe's verdict on a GET's outcome: success exactly when a response
/// came back with a 2xx status; every failure collapses to `false`.
pub fn outcome_ok(outcome: Option<u16>) -> (r: bool)
    ensures
        r == (outcome matches Some(s) && success_status(s as int)),
{
    match outcome {
        Some(code) => is_success_status(code),
        None => false,
    }
}

} // verus!
