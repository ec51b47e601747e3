//! The transcription client's rules: which endpoint a provider stands for,
//! what the request carries, and what an answer means.

use vstd::prelude::*;
use crate::error::FlowError;
use crate::text::{lower_of, lowercase, same_text};

verus! {

/// The endpoint of the x.ai service.
pub const GROK_BASE_URL: &'static str = "https://api.x.ai/v1";

/// The endpoint of the Groq service.
pub const GROQ_BASE_URL: &'static str = "https://api.groq.com/openai/v1";

/// The endpoint for every other provider, OpenRouter's.
pub const FALLBACK_BASE_URL: &'static str = "https://openrouter.ai/api/v1";

/// The endpoint for a lower-case provider name: x.ai for `grok`, Groq for
/// `groq`, OpenRouter for anything else.
pub open spec fn base_url_of(provider: Seq<char>) -> Seq<char> {
    if provider == "grok"@ {
        GROK_BASE_URL@
    } else if provider == "groq"@ {
        GROQ_BASE_URL@
    } else {
        FALLBACK_BASE_URL@
    }
}

/// The endpoint for a provider name already in lower case.
pub fn base_url_from_lowered(provider: &str) -> (r: &'static str)
    ensures
        r@ == base_url_of(provider@),
{
    if same_text(provider, "grok") {
        GROK_BASE_URL
    } else if same_text(provider, "groq") {
        GROQ_BASE_URL
    } else {
        FALLBACK_BASE_URL
    }
}

/// The endpoint for a provider name, whatever its case. Unknown providers get
/// the fallback endpoint rather than an error.
pub fn provider_base_url(provider: &str) -> (r: &'static str)
    ensures
        r@ == base_url_of(lower_of(provider@)),
{
    let lowered = lowercase(provider);
    base_url_from_lowered(lowered.as_str())
}

/// One transcription request: a multipart POST of the recording and the model
/// name to `url`, with `authorization` as its Authorization header.
#[derive(Clone, Debug)]
pub struct TranscriptionRequest {
    pub url: String,
    pub authorization: String,
    pub model: String,
}

/// The request for `model` at the service under `base_url`, with a bearer token.
pub fn build_request(api_key: &str, model: &str, base_url: &str) -> (r: TranscriptionRequest)
    ensures
        r.url@ == base_url@ + "/audio/transcriptions"@,
        r.authorization@ == "Bearer "@ + api_key@,
        r.model@ == model@,
{
    let url = String::from_str(base_url).concat("/audio/transcriptions");
    let authorization = String::from_str("Bearer ").concat(api_key);
    TranscriptionRequest { url, authorization, model: String::from_str(model) }
}

/// Whether an HTTP status is a success.
pub open spec fn is_success(status: u16) -> bool {
    200 <= status <= 299
}

/// What an answer with `status` and `body` means, where `text` is the body's
/// top-level string field `text`, if it parses and has one.
pub open spec fn outcome_of(
    r: Result<String, FlowError>,
    status: u16,
    body: Seq<char>,
    text: Option<Seq<char>>,
) -> bool {
    if !is_success(status) {
        r matches Err(FlowError::ApiError { status: s, body: b }) && s == status && b@ == body
    } else {
        match text {
            Some(t) => r matches Ok(o) && o@ == t,
            None => r matches Err(FlowError::MalformedResponse),
        }
    }
}

/// The top-level string field `text` of a JSON body: `None` where the body is
/// no JSON, or holds no such field, or holds one that is not a string.
pub uninterp spec fn json_text_field(body: Seq<char>) -> Option<Seq<char>>;

/// Relies on `serde_json::from_str` to parse the body into a `Value`, and on
/// `Value::get` and `Value::as_str` to pick the top-level member `text` where
/// it is a string.
#[verifier::external_body]
fn text_field(body: &str) -> (r: Option<String>)
    ensures
        match r {
            Some(t) => json_text_field(body@) == Some(t@),
            None => json_text_field(body@) == None::<Seq<char>>,
        },
{
    let value: serde_json::Value = serde_json::from_str(body).ok()?;
    value.get("text").and_then(|t| t.as_str()).map(|t| t.to_string())
}

/// The transcript or the error an answer stands for, given the body's `text`
/// field: an `ApiError` with the status and body for a status outside 200 to
/// 299; otherwise the text, or `MalformedResponse` where there is none.
pub fn response_outcome(status: u16, body: &str, text: Option<String>) -> (r: Result<String, FlowError>)
    ensures
        outcome_of(r, status, body@, match text {
            Some(t) => Some(t@),
            None => None,
        }),
{
    if status < 200 || status > 299 {
        return Err(FlowError::ApiError { status, body: String::from_str(body) });
    }
    match text {
        Some(t) => Ok(t),
        None => Err(FlowError::MalformedResponse),
    }
}

/// The transcript or the error that the service's answer stands for. The body
/// is read as JSON only for a successful status.
pub fn interpret_response(status: u16, body: &str) -> (r: Result<String, FlowError>)
    ensures
        outcome_of(r, status, body@, json_text_field(body@)),
{
    if status < 200 || status > 299 {
        return response_outcome(status, body, None);
    }
    let text = text_field(body);
    response_outcome(status, body, text)
}

} // verus!
