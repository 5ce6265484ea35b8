use chatgpt_generative_ai::error::OpenAiClientError;
use chatgpt_generative_ai::failure::{
    classify_embedding_failure, classify_failure, embedding_failure_message, envelope_message,
    failure_message, message_in,
};
use chatgpt_generative_ai::status::HttpStatus;

fn status(code: u16) -> HttpStatus {
    HttpStatus::new(code).unwrap()
}

fn custom_text(error: OpenAiClientError) -> String {
    match error {
        OpenAiClientError::Custom(text) => text,
        other => panic!("expected a custom error, got {:?}", other),
    }
}

#[test]
fn server_message_is_surfaced() {
    let error = classify_failure(status(401), "{\"error\":{\"message\":\"invalid api key\"}}");
    assert_eq!(custom_text(error), "invalid api key");
}

#[test]
fn non_json_body_falls_back_to_status_and_body() {
    let error = classify_failure(status(500), "upstream exploded");
    assert_eq!(
        custom_text(error),
        "Failed to connect to OpenAI API: 500 Internal Server Error upstream exploded"
    );
}

#[test]
fn empty_message_falls_back_to_status_and_body() {
    let body = "{\"error\":{\"message\":\"\"}}";
    let error = classify_failure(status(429), body);
    assert_eq!(
        custom_text(error),
        "Failed to connect to OpenAI API: 429 Too Many Requests {\"error\":{\"message\":\"\"}}"
    );
}

#[test]
fn envelope_without_message_falls_back() {
    let body = "{\"error\":{\"code\":\"x\"}}";
    let error = classify_failure(status(404), body);
    assert_eq!(
        custom_text(error),
        "Failed to connect to OpenAI API: 404 Not Found {\"error\":{\"code\":\"x\"}}"
    );
}

#[test]
fn unknown_status_code_is_printed_with_a_placeholder() {
    let error = classify_failure(status(599), "x");
    assert_eq!(
        custom_text(error),
        "Failed to connect to OpenAI API: 599 <unknown status code> x"
    );
}

#[test]
fn envelope_message_reads_the_nested_string() {
    assert_eq!(
        envelope_message("{\"error\":{\"message\":\"boom\",\"type\":\"t\",\"code\":null}}"),
        Some("boom".to_string())
    );
    assert_eq!(envelope_message("{\"error\":{\"message\":7}}"), None);
    assert_eq!(envelope_message("{\"error\":\"boom\"}"), None);
    assert_eq!(envelope_message("{\"message\":\"boom\"}"), None);
    assert_eq!(envelope_message("[]"), None);
    assert_eq!(envelope_message("not json"), None);
    assert_eq!(envelope_message(""), None);
}

#[test]
fn message_in_takes_the_parsed_body() {
    let parsed = serde_json::from_str::<serde_json::Value>("{\"error\":{\"message\":\"m\"}}");
    assert_eq!(message_in(parsed), Some("m".to_string()));
    let failed = serde_json::from_str::<serde_json::Value>("{");
    assert_eq!(message_in(failed), None);
}

#[test]
fn failure_message_chooses_between_message_and_fallback() {
    assert_eq!(failure_message(Some("m".to_string()), "400 Bad Request", "b"), "m");
    assert_eq!(
        failure_message(Some(String::new()), "400 Bad Request", "b"),
        "Failed to connect to OpenAI API: 400 Bad Request b"
    );
    assert_eq!(
        failure_message(None, "400 Bad Request", ""),
        "Failed to connect to OpenAI API: 400 Bad Request "
    );
}

#[test]
fn embedding_failure_surfaces_the_server_message() {
    let error =
        classify_embedding_failure(status(401), "{\"error\":{\"message\":\"invalid api key\"}}");
    assert_eq!(custom_text(error), "invalid api key");
}

#[test]
fn embedding_failure_falls_back_to_number_and_raw_body() {
    let body = "proxy said \"no\"";
    assert_eq!(body.chars().count(), 15);
    let error = classify_embedding_failure(status(502), body);
    assert_eq!(
        custom_text(error),
        "error during embedding, status: 502, body: proxy said \"no\""
    );
}

#[test]
fn embedding_failure_with_empty_message_falls_back() {
    let body = "{\"error\":{\"message\":\"\"}}";
    let error = classify_embedding_failure(status(500), body);
    assert_eq!(
        custom_text(error),
        "error during embedding, status: 500, body: {\"error\":{\"message\":\"\"}}"
    );
}

#[test]
fn embedding_failure_message_chooses_between_message_and_fallback() {
    assert_eq!(embedding_failure_message(Some("m".to_string()), "503", "b\n"), "m");
    assert_eq!(
        embedding_failure_message(Some(String::new()), "503", "b\n"),
        "error during embedding, status: 503, body: b\n"
    );
    assert_eq!(
        embedding_failure_message(None, "503", ""),
        "error during embedding, status: 503, body: "
    );
}

#[test]
fn fallback_begins_with_the_number_of_the_status() {
    for code in [400u16, 404, 500, 599, 999] {
        let text = custom_text(classify_failure(status(code), "raw body"));
        let lead = format!("Failed to connect to OpenAI API: {}", code);
        assert!(text.starts_with(&lead));
        assert!(text.ends_with("raw body"));
    }
}

#[test]
fn status_codes_have_three_digits() {
    assert!(HttpStatus::new(99).is_none());
    assert!(HttpStatus::new(1000).is_none());
    assert!(HttpStatus::new(0).is_none());
    assert_eq!(HttpStatus::new(100).unwrap().as_u16(), 100);
    assert_eq!(HttpStatus::new(999).unwrap().as_u16(), 999);
}

#[test]
fn success_is_the_two_hundreds() {
    assert!(!status(199).is_success());
    assert!(status(200).is_success());
    assert!(status(204).is_success());
    assert!(status(299).is_success());
    assert!(!status(300).is_success());
    assert!(!status(401).is_success());
    assert!(!status(500).is_success());
}

#[test]
fn status_is_printed_as_number_and_reason() {
    assert_eq!(status(200).display(), "200 OK");
    assert_eq!(status(401).display(), "401 Unauthorized");
    assert_eq!(status(200).digits(), "200");
    assert_eq!(status(507).digits(), "507");
    assert_eq!(status(999).digits(), "999");
    assert_eq!(status(100).digits(), "100");
}

#[test]
fn error_messages() {
    assert_eq!(OpenAiClientError::InvalidModelId.message(), "invalid model id");
    assert_eq!(OpenAiClientError::Custom("boom".to_string()).message(), "custom error: boom");
    let parse = serde_json::from_str::<serde_json::Value>("{").unwrap_err();
    let expected = format!("parsing response failed: {}", parse);
    assert_eq!(OpenAiClientError::ParseResponseFailed(parse).message(), expected);
    let send = reqwest::Client::new().get("not a url").build().unwrap_err();
    let expected = format!("sending request failed: {}", send);
    assert_eq!(OpenAiClientError::SendRequestFailed(send).message(), expected);
    let http = http::Error::from(http::StatusCode::from_u16(1).unwrap_err());
    let expected = format!("HTTP request failed: {}", http);
    assert_eq!(OpenAiClientError::HttpRequestFailed(http).message(), expected);
}

#[test]
fn error_messages_from_a_given_detail() {
    let parse = serde_json::from_str::<serde_json::Value>("{").unwrap_err();
    assert_eq!(
        OpenAiClientError::ParseResponseFailed(parse).message_with("eof"),
        "parsing response failed: eof"
    );
    let send = reqwest::Client::new().get("not a url").build().unwrap_err();
    assert_eq!(
        OpenAiClientError::SendRequestFailed(send).message_with("reset"),
        "sending request failed: reset"
    );
    let http = http::Error::from(http::StatusCode::from_u16(1).unwrap_err());
    assert_eq!(
        OpenAiClientError::HttpRequestFailed(http).message_with(""),
        "HTTP request failed: "
    );
    assert_eq!(OpenAiClientError::InvalidModelId.message_with("x"), "invalid model id");
    assert_eq!(
        OpenAiClientError::Custom("boom".to_string()).message_with("x"),
        "custom error: boom"
    );
}

#[test]
fn status_agrees_with_the_http_crate_on_every_code() {
    for code in 100u16..=999 {
        let theirs = http::StatusCode::from_u16(code).unwrap();
        let ours = status(code);
        assert_eq!(ours.is_success(), theirs.is_success());
        assert_eq!(ours.digits(), format!("{:?}", theirs));
        assert_eq!(ours.display(), format!("{}", theirs));
        assert_eq!(ours.as_u16(), theirs.as_u16());
    }
}
