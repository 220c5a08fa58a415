use vstd::prelude::*;

verus! {

#[verifier::external_type_specification]
#[verifier::external_body]
pub struct ExClient(reqwest::blocking::Client);

#[verifier::external_type_specification]
#[verifier::external_body]
pub struct ExResponse(reqwest::blocking::Response);

#[verifier::external_type_specification]
#[verifier::external_body]
pub struct ExReqwestError(reqwest::Error);

/// Relies on reqwest::blocking::ClientBuilder::new, ::user_agent and
/// ::build: configures a blocking client that sends the given User-Agent
/// header on every request, or reports why it could not be built.
/// reqwest's blocking API panics when used from within an async runtime;
/// callers must stand outside one.
#[verifier::external_body]
pub(crate) fn build_client(user_agent: &str) -> (r: Result<
    reqwest::blocking::Client,
    reqwest::Error,
>) {
    reqwest::blocking::ClientBuilder::new().user_agent(user_agent).build()
}

/// Relies on reqwest::blocking::Client::get and
/// reqwest::blocking::RequestBuilder::send: one blocking GET of the given
/// URL, with no retry; an error when the request could not be sent or no
/// response arrived. reqwest's blocking API panics when used from within
/// an async runtime; callers must stand outside one.
#[verifier::external_body]
pub(crate) fn http_get(client: &reqwest::blocking::Client, url: &str) -> (r: Result<
    reqwest::blocking::Response,
    reqwest::Error,
>) {
    client.get(url).send()
}

/// Relies on reqwest::blocking::Response::text: reads the whole response
/// body as text. reqwest's blocking API panics when used from within an
/// async runtime; callers must stand outside one.
#[verifier::external_body]
pub(crate) fn response_text(response: reqwest::blocking::Response) -> (r: Result<
    String,
    reqwest::Error,
>) {
    response.text()
}

} // verus!
