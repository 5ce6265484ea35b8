use chatgpt_generative_ai::client::{bearer, completion_post, completions_uri, embedding_post, embeddings_uri};
use chatgpt_generative_ai::embedding::{embedding_payload, OpenAiEmbeddingModel};
use chatgpt_generative_ai::model::Model;
use chatgpt_generative_ai::payload::Json;
use chatgpt_generative_ai::request::{
    FunctionContent, FunctionDefinition, Request, RequestMessage, ToolCall, ToolCallContent,
    ToolDefinition,
};
use chatgpt_generative_ai::utils::{is_none_or_empty, serialize_model};
use chatgpt_generative_ai::OPEN_AI_API_URL;

fn number(value: f64) -> serde_json::Number {
    serde_json::Number::from_f64(value).unwrap()
}

fn text(value: &str) -> Json {
    Json::Text(value.to_string())
}

fn member(key: &str, value: Json) -> (String, Json) {
    (key.to_string(), value)
}

fn keys(json: &Json) -> Vec<String> {
    match json {
        Json::Object(members) => members.iter().map(|(key, _)| key.clone()).collect(),
        _ => panic!("expected an object"),
    }
}

fn plain_request(model: Model) -> Request {
    Request {
        model,
        messages: vec![RequestMessage::User { content: "Tell me a joke.".to_string() }],
        stream: true,
        stop: vec![],
        temperature: number(0.5),
        tool_choice: None,
        tools: vec![],
    }
}

fn weather_tool() -> ToolDefinition {
    ToolDefinition::Function {
        function: FunctionDefinition {
            name: "weather".to_string(),
            description: Some("Looks up the weather".to_string()),
            parameters: None,
        },
    }
}

#[test]
fn empty_tools_and_no_tool_choice_are_omitted() {
    let payload = plain_request(Model::FourOmni).into_payload();
    assert_eq!(keys(&payload), vec!["model", "messages", "stream", "stop", "temperature"]);
    assert!(payload.member("tools").is_none());
    assert!(payload.member("tool_choice").is_none());
}

#[test]
fn plain_request_payload_is_exact() {
    let payload = plain_request(Model::FourOmni).into_payload();
    let expected = Json::Object(vec![
        member("model", text("gpt-4o")),
        member(
            "messages",
            Json::Array(vec![Json::Object(vec![
                member("role", text("user")),
                member("content", text("Tell me a joke.")),
            ])]),
        ),
        member("stream", Json::Bool(true)),
        member("stop", Json::Array(vec![])),
        member("temperature", Json::Number(number(0.5))),
    ]);
    assert_eq!(payload, expected);
}

#[test]
fn tool_choice_and_tools_are_sent_when_given() {
    let mut request = plain_request(Model::Four);
    request.tool_choice = Some("auto".to_string());
    request.tools = vec![weather_tool()];
    request.stop = vec!["END".to_string(), "STOP".to_string()];
    request.stream = false;
    let payload = request.into_payload();
    assert_eq!(
        keys(&payload),
        vec!["model", "messages", "stream", "stop", "temperature", "tool_choice", "tools"]
    );
    assert_eq!(payload.member("tool_choice"), Some(&text("auto")));
    assert_eq!(payload.member("stream"), Some(&Json::Bool(false)));
    assert_eq!(payload.member("stop"), Some(&Json::Array(vec![text("END"), text("STOP")])));
    let tool = Json::Object(vec![
        member("type", text("function")),
        member(
            "function",
            Json::Object(vec![
                member("name", text("weather")),
                member("description", text("Looks up the weather")),
                member("parameters", Json::Null),
            ]),
        ),
    ]);
    assert_eq!(payload.member("tools"), Some(&Json::Array(vec![tool])));
}

#[test]
fn only_tools_or_only_tool_choice() {
    let mut request = plain_request(Model::Four);
    request.tools = vec![weather_tool()];
    let payload = request.into_payload();
    assert!(payload.member("tool_choice").is_none());
    assert!(payload.member("tools").is_some());

    let mut request = plain_request(Model::Four);
    request.tool_choice = Some("none".to_string());
    let payload = request.into_payload();
    assert!(payload.member("tool_choice").is_some());
    assert!(payload.member("tools").is_none());
}

#[test]
fn model_is_sent_by_wire_identifier_or_custom_name() {
    let payload = plain_request(Model::FourTurbo).into_payload();
    assert_eq!(payload.member("model"), Some(&text("gpt-4-turbo-preview")));
    let custom = Model::Custom { name: "my-model".to_string(), max_tokens: 10 };
    let payload = plain_request(custom).into_payload();
    assert_eq!(payload.member("model"), Some(&text("my-model")));
}

#[test]
fn serialize_model_differs_from_id_for_custom_models() {
    let custom = Model::Custom { name: "my-model".to_string(), max_tokens: 10 };
    assert_eq!(serialize_model(&custom), "my-model");
    assert_eq!(custom.id(), "custom");
    assert_eq!(serialize_model(&Model::ThreePointFiveTurbo), "gpt-3.5-turbo");
    assert_eq!(serialize_model(&Model::FourTurbo), "gpt-4-turbo-preview");
}

#[test]
fn messages_are_tagged_by_role() {
    let system = RequestMessage::System { content: "be kind".to_string() }.into_json();
    assert_eq!(
        system,
        Json::Object(vec![member("role", text("system")), member("content", text("be kind"))])
    );
    let tool = RequestMessage::Tool { content: "42".to_string(), tool_call_id: "call_1".to_string() }
        .into_json();
    assert_eq!(
        tool,
        Json::Object(vec![
            member("role", text("tool")),
            member("content", text("42")),
            member("tool_call_id", text("call_1")),
        ])
    );
}

#[test]
fn assistant_without_tool_calls_has_no_such_member() {
    let message = RequestMessage::Assistant { content: Some("hi".to_string()), tool_calls: vec![] };
    assert_eq!(
        message.into_json(),
        Json::Object(vec![member("role", text("assistant")), member("content", text("hi"))])
    );
    let silent = RequestMessage::Assistant { content: None, tool_calls: vec![] };
    assert_eq!(
        silent.into_json(),
        Json::Object(vec![member("role", text("assistant")), member("content", Json::Null)])
    );
}

#[test]
fn assistant_tool_calls_lie_flat_beside_the_id() {
    let call = ToolCall {
        id: "call_1".to_string(),
        content: ToolCallContent::Function {
            function: FunctionContent {
                name: "weather".to_string(),
                arguments: "{\"city\":\"Paris\"}".to_string(),
            },
        },
    };
    let message = RequestMessage::Assistant { content: None, tool_calls: vec![call] };
    let expected_call = Json::Object(vec![
        member("id", text("call_1")),
        member("type", text("function")),
        member(
            "function",
            Json::Object(vec![
                member("name", text("weather")),
                member("arguments", text("{\"city\":\"Paris\"}")),
            ]),
        ),
    ]);
    assert_eq!(
        message.into_json(),
        Json::Object(vec![
            member("role", text("assistant")),
            member("content", Json::Null),
            member("tool_calls", Json::Array(vec![expected_call])),
        ])
    );
}

#[test]
fn function_parameters_are_passed_through() {
    let mut parameters = serde_json::Map::new();
    parameters.insert("type".to_string(), serde_json::Value::String("object".to_string()));
    let definition = FunctionDefinition {
        name: "f".to_string(),
        description: None,
        parameters: Some(parameters.clone()),
    };
    assert_eq!(
        definition.into_json(),
        Json::Object(vec![
            member("name", text("f")),
            member("description", Json::Null),
            member("parameters", Json::Raw(parameters)),
        ])
    );
}

#[test]
fn member_returns_the_first_of_equal_keys() {
    let object = Json::Object(vec![member("a", text("1")), member("b", text("2")), member("a", text("3"))]);
    assert_eq!(object.member("a"), Some(&text("1")));
    assert_eq!(object.member("b"), Some(&text("2")));
    assert_eq!(object.member("c"), None);
    assert_eq!(Json::Array(vec![]).member("a"), None);
    assert_eq!(Json::Null.member("a"), None);
}

#[test]
fn embedding_inputs_keep_their_places() {
    let payload = embedding_payload(
        OpenAiEmbeddingModel::TextEmbedding3Small,
        vec!["Hello world!".to_string(), "How are you?".to_string()],
    );
    assert_eq!(
        payload,
        Json::Object(vec![
            member("model", text("text-embedding-3-small")),
            member("input", Json::Array(vec![text("Hello world!"), text("How are you?")])),
        ])
    );
    assert_eq!(OpenAiEmbeddingModel::TextEmbedding3Large.wire_name(), "text-embedding-3-large");
}

#[test]
fn posts_carry_address_headers_and_body() {
    let post = completion_post(OPEN_AI_API_URL, "sk-test", plain_request(Model::FourOmni));
    assert_eq!(post.uri, "https://api.openai.com/v1/chat/completions");
    assert_eq!(post.content_type, "application/json");
    assert_eq!(post.authorization, "Bearer sk-test");
    assert_eq!(post.body, plain_request(Model::FourOmni).into_payload());

    let post = embedding_post(
        "http://localhost:1",
        "k",
        OpenAiEmbeddingModel::TextEmbedding3Large,
        vec!["a".to_string()],
    );
    assert_eq!(post.uri, "http://localhost:1/embeddings");
    assert_eq!(post.authorization, "Bearer k");
    assert_eq!(
        post.body,
        embedding_payload(OpenAiEmbeddingModel::TextEmbedding3Large, vec!["a".to_string()])
    );
}

#[test]
fn addresses_and_bearer() {
    assert_eq!(completions_uri("x"), "x/chat/completions");
    assert_eq!(embeddings_uri(""), "/embeddings");
    assert_eq!(bearer(""), "Bearer ");
}

#[test]
fn none_or_empty() {
    assert!(is_none_or_empty::<u8>(&None));
    assert!(is_none_or_empty::<u8>(&Some(vec![])));
    assert!(!is_none_or_empty(&Some(vec![1u8])));
}

#[test]
fn temperature_goes_out_as_it_was_given() {
    let temperature: serde_json::Number = serde_json::from_str("0.7").unwrap();
    let mut request = plain_request(Model::FourOmni);
    request.temperature = temperature.clone();
    let payload = request.into_payload();
    assert_eq!(payload.member("temperature"), Some(&Json::Number(temperature)));
}
