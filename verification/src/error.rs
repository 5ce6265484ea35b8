//! The one error type that every operation of the library reports through.

use vstd::prelude::*;
use vstd::string::StringExecFns;

verus! {

/// `http::Error`, carried through unopened.
#[verifier::external_type_specification]
#[verifier::external_body]
pub struct ExHttpError(http::Error);

/// `reqwest::Error`, carried through unopened.
#[verifier::external_type_specification]
#[verifier::external_body]
pub struct ExReqwestError(reqwest::Error);

/// `serde_json::Error`, carried through unopened.
#[verifier::external_type_specification]
#[verifier::external_body]
pub struct ExSerdeJsonError(serde_json::Error);

/// Everything that can go wrong between building a request and reading its
/// response.
#[derive(Debug)]
pub enum OpenAiClientError {
    /// The HTTP request could not be constructed.
    HttpRequestFailed(http::Error),
    /// The transport failed: name resolution, TLS, a reset, a timeout.
    SendRequestFailed(reqwest::Error),
    /// A payload did not have the expected shape.
    ParseResponseFailed(serde_json::Error),
    /// A string that names none of the known models.
    InvalidModelId,
    /// An error that the server reported, or the status and body of a
    /// response that reported none.
    Custom(String),
}

/// What an `http::Error` says of itself.
///
/// Trusted: the `Display` of `http::Error`; nothing is claimed of the text.
#[verifier::external_body]
fn http_error_text(error: &http::Error) -> String {
    error.to_string()
}

/// What a `reqwest::Error` says of itself.
///
/// Trusted: the `Display` of `reqwest::Error`; nothing is claimed of the
/// text.
#[verifier::external_body]
fn send_error_text(error: &reqwest::Error) -> String {
    error.to_string()
}

/// What a `serde_json::Error` says of itself.
///
/// Trusted: the `Display` of `serde_json::Error`; nothing is claimed of the
/// text.
#[verifier::external_body]
fn parse_error_text(error: &serde_json::Error) -> String {
    error.to_string()
}

impl OpenAiClientError {
    /// How the message of an error begins. For an invalid model id this is
    /// the whole message.
    pub open spec fn lead(&self) -> Seq<char> {
        match self {
            OpenAiClientError::HttpRequestFailed(_) => "HTTP request failed: "@,
            OpenAiClientError::SendRequestFailed(_) => "sending request failed: "@,
            OpenAiClientError::ParseResponseFailed(_) => "parsing response failed: "@,
            OpenAiClientError::InvalidModelId => "invalid model id"@,
            OpenAiClientError::Custom(_) => "custom error: "@,
        }
    }

    /// The message of an error whose wrapped error says `detail` of
    /// itself: the lead and the detail, or the lead and the text that the
    /// error carries. An invalid model id has its lead for a message.
    pub open spec fn message_text(&self, detail: Seq<char>) -> Seq<char> {
        match self {
            OpenAiClientError::InvalidModelId => self.lead(),
            OpenAiClientError::Custom(text) => self.lead() + text@,
            _ => self.lead() + detail,
        }
    }

    /// Puts the message together from what the wrapped error says of
    /// itself. An error that wraps none does not look at `detail`.
    pub fn message_with(&self, detail: &str) -> (text: String)
        ensures
            text@ == self.message_text(detail@),
    {
        match self {
            OpenAiClientError::HttpRequestFailed(_) => String::from_str(
                "HTTP request failed: ",
            ).concat(detail),
            OpenAiClientError::SendRequestFailed(_) => String::from_str(
                "sending request failed: ",
            ).concat(detail),
            OpenAiClientError::ParseResponseFailed(_) => String::from_str(
                "parsing response failed: ",
            ).concat(detail),
            OpenAiClientError::InvalidModelId => String::from_str("invalid model id"),
            OpenAiClientError::Custom(text) => String::from_str("custom error: ").concat(
                text.as_str(),
            ),
        }
    }

    /// The error in words: its lead, and then what the error that it wraps
    /// says of itself, or the text that it carries.
    pub fn message(&self) -> (text: String)
        ensures
            self.lead().is_prefix_of(text@),
            self is InvalidModelId ==> text@ == self.lead(),
            self matches OpenAiClientError::Custom(detail) ==> text@ == self.lead() + detail@,
    {
        let detail = match self {
            OpenAiClientError::HttpRequestFailed(error) => http_error_text(error),
            OpenAiClientError::SendRequestFailed(error) => send_error_text(error),
            OpenAiClientError::ParseResponseFailed(error) => parse_error_text(error),
            _ => String::new(),
        };
        self.message_with(detail.as_str())
    }
}

} // verus!
