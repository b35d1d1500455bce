//! Decoding of the random-photo API response.
//!
//! The photo service answers with a JSON envelope whose `message` field
//! holds the photo URL. The JSON parse itself is done by `serde_json`;
//! everything around it — when decoding succeeds, which error comes back
//! when it does not, and how a transport failure is reported — is verified.

use vstd::prelude::*;
use crate::errors::AppError;

verus! {

/// What decoding the JSON envelope of a response body yields: the content
/// of its `message` field if the body is a JSON object carrying a string
/// there, and nothing otherwise. The value depends on the body alone.
pub uninterp spec fn dog_api_message(body: Seq<char>) -> Option<Seq<char>>;

/// Relies on serde_json::from_str, serde_json::Value::get and
/// serde_json::Value::as_str: parses the body as JSON and extracts the
/// `message` field as a string. The result is a function of the body alone.
#[verifier::external_body]
fn parse_dog_message(body: &str) -> (r: Option<String>)
    ensures
        r is Some <==> dog_api_message(body@) is Some,
        r matches Some(s) ==> dog_api_message(body@) == Some(s@),
{
    match serde_json::from_str::<serde_json::Value>(body) {
        Ok(v) => match v.get("message") {
            Some(m) => match m.as_str() {
                Some(s) => Some(s.to_owned()),
                None => None,
            },
            None => None,
        },
        Err(_) => None,
    }
}

/// Decodes a response body into the photo URL it carries.
///
/// Succeeds exactly when the body is a JSON envelope with a string
/// `message` field; any other body is a decode failure, reported as an
/// `HttpRequestError`.
pub fn decode_photo_response(body: &str) -> (r: Result<String, AppError>)
    ensures
        dog_api_message(body@) matches Some(m) ==> (r matches Ok(u) && u@ == m),
        dog_api_message(body@) is None ==> (r matches Err(e)
            && e matches AppError::HttpRequestError(d)
            && d@ == "Failed to parse dog image response"@),
{
    match parse_dog_message(body) {
        Some(url) => Ok(url),
        None => Err(
            AppError::HttpRequestError(String::from_str("Failed to parse dog image response")),
        ),
    }
}

/// Interprets the outcome of one fetch attempt.
///
/// The transport layer hands in either the response body it read or the
/// text of its failure. A transport failure becomes an `HttpRequestError`
/// carrying that text; a body is decoded as `decode_photo_response` does.
pub fn interpret_fetch(transport: Result<String, String>) -> (r: Result<String, AppError>)
    ensures
        transport matches Ok(body) ==> (dog_api_message(body@) matches Some(m)
            ==> (r matches Ok(u) && u@ == m)),
        transport matches Ok(body) ==> (dog_api_message(body@) is None
            ==> (r matches Err(e) && e matches AppError::HttpRequestError(d)
                && d@ == "Failed to parse dog image response"@)),
        transport matches Err(t) ==> (r matches Err(e)
            && e matches AppError::HttpRequestError(d)
            && d@ == "Failed to fetch dog image: "@ + t@),
{
    match transport {
        Ok(body) => decode_photo_response(body.as_str()),
        Err(t) => Err(
            AppError::HttpRequestError(
                String::from_str("Failed to fetch dog image: ").concat(t.as_str()),
            ),
        ),
    }
}

} // verus!
