//! What a response that is not a success becomes: one classified error.

use vstd::prelude::*;
use vstd::string::StringExecFns;
use crate::document::{json_strings, parse_document, parsed_json, string_at};
use crate::error::OpenAiClientError;
use crate::status::{status_line, three_digits, HttpStatus};

verus! {

/// Where the message sits in the error envelope `{"error": {"message": ..}}`.
pub open spec fn message_pointer() -> Seq<char> {
    "/error/message"@
}

/// The message of the error envelope that a parsed body holds, if it holds
/// one: the body is an object whose `error` is an object whose `message` is
/// a string.
pub open spec fn message_of_document(
    parsed: Result<serde_json::Value, serde_json::Error>,
) -> Option<Seq<char>> {
    match parsed {
        Ok(document) => if json_strings(document).contains_key(message_pointer()) {
            Some(json_strings(document)[message_pointer()])
        } else {
            None
        },
        Err(_) => None,
    }
}

/// The message of the error envelope in a response body, if the body is one.
pub open spec fn envelope_message_of(body: Seq<char>) -> Option<Seq<char>> {
    message_of_document(parsed_json(body))
}

/// Whether the envelope brought a message that can stand as the error: one
/// that is there and is not empty.
pub open spec fn is_usable(message: Option<Seq<char>>) -> bool {
    message is Some && message->Some_0.len() > 0
}

/// What a failed chat completion is reported with where the server sent no
/// usable message: a fixed lead, the printed status, a space and the body as
/// it came.
pub open spec fn chat_fallback(status_text: Seq<char>, body: Seq<char>) -> Seq<char> {
    "Failed to connect to OpenAI API: "@ + status_text + " "@ + body
}

/// What a failed embedding call is reported with where the server sent no
/// usable message: a fixed lead, the number of the status, a separator and
/// the body as it came.
pub open spec fn embedding_fallback(status_digits: Seq<char>, body: Seq<char>) -> Seq<char> {
    "error during embedding, status: "@ + status_digits + ", body: "@ + body
}

/// The text of the error for a failed chat completion: the server's own
/// message where it sent a usable one, else the status and the body.
pub open spec fn failure_text(
    message: Option<Seq<char>>,
    status_text: Seq<char>,
    body: Seq<char>,
) -> Seq<char> {
    if is_usable(message) {
        message->Some_0
    } else {
        chat_fallback(status_text, body)
    }
}

/// The text of the error for a failed embedding call: the server's own
/// message where it sent a usable one, else the status and the body.
pub open spec fn embedding_failure_text(
    message: Option<Seq<char>>,
    status_digits: Seq<char>,
    body: Seq<char>,
) -> Seq<char> {
    if is_usable(message) {
        message->Some_0
    } else {
        embedding_fallback(status_digits, body)
    }
}

/// The view of an optional string.
pub open spec fn optional_view(text: Option<String>) -> Option<Seq<char>> {
    match text {
        Some(text) => Some(text@),
        None => None,
    }
}

/// Reads the message out of a parsed response body.
pub fn message_in(parsed: Result<serde_json::Value, serde_json::Error>) -> (message: Option<String>)
    ensures
        match message {
            Some(text) => message_of_document(parsed) == Some(text@),
            None => message_of_document(parsed) is None,
        },
{
    match parsed {
        Ok(document) => string_at(&document, "/error/message"),
        Err(_) => None,
    }
}

/// Reads the message out of a response body that is an error envelope.
pub fn envelope_message(body: &str) -> (message: Option<String>)
    ensures
        match message {
            Some(text) => envelope_message_of(body@) == Some(text@),
            None => envelope_message_of(body@) is None,
        },
{
    message_in(parse_document(body))
}

/// The message of the envelope, where it is usable.
fn usable(message: Option<String>) -> (usable: Option<String>)
    ensures
        match usable {
            Some(text) => is_usable(optional_view(message)) && message == Some(text),
            None => !is_usable(optional_view(message)),
        },
{
    match message {
        Some(text) => if text.as_str().is_empty() {
            None
        } else {
            Some(text)
        },
        None => None,
    }
}

/// Chooses the text of the error for a failed chat completion from the
/// message of the envelope, the printed status and the body.
pub fn failure_message(message: Option<String>, status_text: &str, body: &str) -> (text: String)
    ensures
        text@ == failure_text(optional_view(message), status_text@, body@),
{
    match usable(message) {
        Some(text) => text,
        None => {
            let mut text = String::from_str("Failed to connect to OpenAI API: ");
            text.append(status_text);
            text.append(" ");
            text.append(body);
            text
        },
    }
}

/// Chooses the text of the error for a failed embedding call from the
/// message of the envelope, the number of the status and the body.
pub fn embedding_failure_message(message: Option<String>, status_digits: &str, body: &str) -> (text:
    String)
    ensures
        text@ == embedding_failure_text(optional_view(message), status_digits@, body@),
{
    match usable(message) {
        Some(text) => text,
        None => {
            let mut text = String::from_str("error during embedding, status: ");
            text.append(status_digits);
            text.append(", body: ");
            text.append(body);
            text
        },
    }
}

/// Classifies a chat-completion response whose status is not a success.
/// Without a usable message from the server the text begins with the lead
/// and the number of the status and ends with the body as it came.
pub fn classify_failure(status: HttpStatus, body: &str) -> (error: OpenAiClientError)
    ensures
        error matches OpenAiClientError::Custom(text) && text@ == failure_text(
            envelope_message_of(body@),
            status_line(status.code()),
            body@,
        ),
        error matches OpenAiClientError::Custom(text) && (!is_usable(envelope_message_of(body@))
            ==> ("Failed to connect to OpenAI API: "@ + three_digits(status.code())).is_prefix_of(
            text@,
        ) && body@.is_suffix_of(text@)),
{
    let message = envelope_message(body);
    let status_text = status.display();
    let text = failure_message(message, status_text.as_str(), body);
    proof {
        if !is_usable(envelope_message_of(body@)) {
            lemma_chat_fallback_holds_status_and_body(
                status_text@,
                three_digits(status.code()),
                body@,
            );
        }
    }
    OpenAiClientError::Custom(text)
}

/// Classifies an embedding response whose status is not a success, by the
/// same rule: the server's own message where it sent a usable one, else the
/// number of the status and the body as it came.
pub fn classify_embedding_failure(status: HttpStatus, body: &str) -> (error: OpenAiClientError)
    ensures
        error matches OpenAiClientError::Custom(text) && text@ == (if is_usable(
            envelope_message_of(body@),
        ) {
            envelope_message_of(body@)->Some_0
        } else {
            "error during embedding, status: "@ + three_digits(status.code()) + ", body: "@
                + body@
        }),
{
    let message = envelope_message(body);
    let digits = status.digits();
    OpenAiClientError::Custom(embedding_failure_message(message, digits.as_str(), body))
}

/// A usable message in the envelope is the whole text of the error, for a
/// chat completion and for an embedding call alike.
pub proof fn lemma_server_message_is_surfaced(
    message: Seq<char>,
    status_text: Seq<char>,
    status_digits: Seq<char>,
    body: Seq<char>,
)
    requires
        message.len() > 0,
    ensures
        failure_text(Some(message), status_text, body) == message,
        embedding_failure_text(Some(message), status_digits, body) == message,
{
}

/// The fallback of a chat completion holds the status and the body: it
/// begins with the lead and whatever the printed status begins with, and it
/// ends with the body as it came.
pub proof fn lemma_chat_fallback_holds_status_and_body(
    status_text: Seq<char>,
    status_start: Seq<char>,
    body: Seq<char>,
)
    requires
        status_start.is_prefix_of(status_text),
    ensures
        ("Failed to connect to OpenAI API: "@ + status_start).is_prefix_of(
            chat_fallback(status_text, body),
        ),
        body.is_suffix_of(chat_fallback(status_text, body)),
{
    let lead = "Failed to connect to OpenAI API: "@;
    let whole = chat_fallback(status_text, body);
    assert(whole.subrange(0, (lead + status_start).len() as int) =~= lead + status_start);
    assert(whole.subrange(whole.len() - body.len(), whole.len() as int) =~= body);
}

/// The fallback of an embedding call holds the status and the body: the
/// number of the status right behind the lead, and the body, as it came, at
/// the end.
pub proof fn lemma_embedding_fallback_holds_status_and_body(
    status_digits: Seq<char>,
    body: Seq<char>,
)
    ensures
        ("error during embedding, status: "@ + status_digits).is_prefix_of(
            embedding_fallback(status_digits, body),
        ),
        body.is_suffix_of(embedding_fallback(status_digits, body)),
{
    let lead = "error during embedding, status: "@;
    let whole = embedding_fallback(status_digits, body);
    assert(whole.subrange(0, (lead + status_digits).len() as int) =~= lead + status_digits);
    assert(whole.subrange(whole.len() - body.len(), whole.len() as int) =~= body);
}

} // verus!
