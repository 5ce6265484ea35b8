//! The chat-completion request and its wire format.

use vstd::prelude::*;
use crate::model::Model;
use crate::payload::{
    array, items_model, object, optional_text, optional_text_model, put, text, texts,
    texts_model, is_first_at, Json, JsonModel,
};
use crate::utils::serialize_model;

verus! {

/// A chat-completion request.
#[derive(Debug)]
pub struct Request {
    pub model: Model,
    pub messages: Vec<RequestMessage>,
    pub stream: bool,
    pub stop: Vec<String>,
    /// The sampling temperature, as the JSON number that goes on the wire.
    pub temperature: serde_json::Number,
    pub tool_choice: Option<String>,
    pub tools: Vec<ToolDefinition>,
}

/// A function that the model may call.
#[derive(Debug)]
pub struct FunctionDefinition {
    pub name: String,
    pub description: Option<String>,
    pub parameters: Option<serde_json::Map<String, serde_json::Value>>,
}

/// A tool that the model may use.
#[derive(Debug)]
pub enum ToolDefinition {
    Function { function: FunctionDefinition },
}

/// One message of the conversation; its role is its variant.
#[derive(Debug, Eq, PartialEq)]
#[allow(inconsistent_fields)]
pub enum RequestMessage {
    Assistant { content: Option<String>, tool_calls: Vec<ToolCall> },
    User { content: String },
    System { content: String },
    Tool { content: String, tool_call_id: String },
}

/// A call that the assistant made.
#[derive(Debug, Eq, PartialEq)]
pub struct ToolCall {
    pub id: String,
    pub content: ToolCallContent,
}

/// What a tool call holds.
#[derive(Debug, Eq, PartialEq)]
pub enum ToolCallContent {
    Function { function: FunctionContent },
}

/// The function that a tool call names, with its arguments as one string.
#[derive(Debug, Eq, PartialEq)]
pub struct FunctionContent {
    pub name: String,
    pub arguments: String,
}

impl FunctionContent {
    /// `{"name": .., "arguments": ..}`
    pub open spec fn wire(self) -> JsonModel {
        JsonModel::Object(
            seq![
                ("name"@, JsonModel::Text(self.name@)),
                ("arguments"@, JsonModel::Text(self.arguments@)),
            ],
        )
    }

    /// Writes the value in its wire format.
    pub fn into_json(self) -> (json: Json)
        ensures
            json@ == self.wire(),
    {
        let mut members: Vec<(String, Json)> = Vec::new();
        put(&mut members, "name", Json::Text(self.name));
        put(&mut members, "arguments", Json::Text(self.arguments));
        let json = object(members);
        assert(json@->Object_0 =~= self.wire()->Object_0);
        json
    }
}

impl ToolCall {
    /// `{"id": .., "type": "function", "function": {..}}`: the content
    /// lies flat beside the id.
    pub open spec fn wire(self) -> JsonModel {
        JsonModel::Object(
            seq![
                ("id"@, JsonModel::Text(self.id@)),
                ("type"@, JsonModel::Text("function"@)),
                ("function"@, self.content->function.wire()),
            ],
        )
    }

    /// Writes the value in its wire format.
    pub fn into_json(self) -> (json: Json)
        ensures
            json@ == self.wire(),
    {
        let mut members: Vec<(String, Json)> = Vec::new();
        put(&mut members, "id", Json::Text(self.id));
        match self.content {
            ToolCallContent::Function { function } => {
                put(&mut members, "type", text("function"));
                put(&mut members, "function", function.into_json());
            },
        }
        let json = object(members);
        assert(json@->Object_0 =~= self.wire()->Object_0);
        json
    }
}

/// The tool calls of an assistant message on the wire, in their order.
pub open spec fn tool_calls_wire(calls: Seq<ToolCall>) -> Seq<JsonModel> {
    Seq::new(calls.len(), |i: int| calls[i].wire())
}

fn tool_calls_json(calls: Vec<ToolCall>) -> (json: Json)
    ensures
        json@ == JsonModel::Array(tool_calls_wire(calls@)),
{
    let ghost all = calls@;
    let mut items: Vec<Json> = Vec::new();
    for call in it: calls
        invariant
            it.seq() == all,
            items@.len() == it.index(),
            forall|k: int| 0 <= k < items@.len() ==> (#[trigger] items@[k])@ == all[k].wire(),
    {
        items.push(call.into_json());
    }
    let json = array(items);
    assert(json@->Array_0 =~= tool_calls_wire(all));
    json
}

impl RequestMessage {
    /// The role of the message as the wire names it.
    pub open spec fn role(self) -> Seq<char> {
        match self {
            RequestMessage::Assistant { .. } => "assistant"@,
            RequestMessage::User { .. } => "user"@,
            RequestMessage::System { .. } => "system"@,
            RequestMessage::Tool { .. } => "tool"@,
        }
    }

    /// The message on the wire: an object that starts with its role. An
    /// assistant message without tool calls has no `tool_calls` member.
    pub open spec fn wire(self) -> JsonModel {
        match self {
            RequestMessage::Assistant { content, tool_calls } => JsonModel::Object(
                seq![
                    ("role"@, JsonModel::Text("assistant"@)),
                    ("content"@, optional_text_model(content)),
                ] + if tool_calls@.len() == 0 {
                    Seq::<(Seq<char>, JsonModel)>::empty()
                } else {
                    seq![("tool_calls"@, JsonModel::Array(tool_calls_wire(tool_calls@)))]
                },
            ),
            RequestMessage::User { content } => JsonModel::Object(
                seq![("role"@, JsonModel::Text("user"@)), ("content"@, JsonModel::Text(content@))],
            ),
            RequestMessage::System { content } => JsonModel::Object(
                seq![
                    ("role"@, JsonModel::Text("system"@)),
                    ("content"@, JsonModel::Text(content@)),
                ],
            ),
            RequestMessage::Tool { content, tool_call_id } => JsonModel::Object(
                seq![
                    ("role"@, JsonModel::Text("tool"@)),
                    ("content"@, JsonModel::Text(content@)),
                    ("tool_call_id"@, JsonModel::Text(tool_call_id@)),
                ],
            ),
        }
    }

    /// Writes the value in its wire format.
    pub fn into_json(self) -> (json: Json)
        ensures
            json@ == self.wire(),
    {
        let mut members: Vec<(String, Json)> = Vec::new();
        match self {
            RequestMessage::Assistant { content, tool_calls } => {
                put(&mut members, "role", text("assistant"));
                put(&mut members, "content", optional_text(content));
                if tool_calls.len() > 0 {
                    put(&mut members, "tool_calls", tool_calls_json(tool_calls));
                }
            },
            RequestMessage::User { content } => {
                put(&mut members, "role", text("user"));
                put(&mut members, "content", Json::Text(content));
            },
            RequestMessage::System { content } => {
                put(&mut members, "role", text("system"));
                put(&mut members, "content", Json::Text(content));
            },
            RequestMessage::Tool { content, tool_call_id } => {
                put(&mut members, "role", text("tool"));
                put(&mut members, "content", Json::Text(content));
                put(&mut members, "tool_call_id", Json::Text(tool_call_id));
            },
        }
        let json = object(members);
        assert(json@->Object_0 =~= self.wire()->Object_0);
        json
    }
}

/// The messages of a request on the wire, in their order.
pub open spec fn messages_wire(messages: Seq<RequestMessage>) -> Seq<JsonModel> {
    Seq::new(messages.len(), |i: int| messages[i].wire())
}

fn messages_json(messages: Vec<RequestMessage>) -> (json: Json)
    ensures
        json@ == JsonModel::Array(messages_wire(messages@)),
{
    let ghost all = messages@;
    let mut items: Vec<Json> = Vec::new();
    for message in it: messages
        invariant
            it.seq() == all,
            items@.len() == it.index(),
            forall|k: int| 0 <= k < items@.len() ==> (#[trigger] items@[k])@ == all[k].wire(),
    {
        items.push(message.into_json());
    }
    let json = array(items);
    assert(json@->Array_0 =~= messages_wire(all));
    json
}

impl FunctionDefinition {
    /// `{"name": .., "description": .., "parameters": ..}`: what is absent
    /// is written as `null`.
    pub open spec fn wire(self) -> JsonModel {
        JsonModel::Object(
            seq![
                ("name"@, JsonModel::Text(self.name@)),
                ("description"@, optional_text_model(self.description)),
                (
                    "parameters"@,
                    match self.parameters {
                        Some(parameters) => JsonModel::Raw(parameters),
                        None => JsonModel::Null,
                    },
                ),
            ],
        )
    }

    /// Writes the value in its wire format.
    pub fn into_json(self) -> (json: Json)
        ensures
            json@ == self.wire(),
    {
        let mut members: Vec<(String, Json)> = Vec::new();
        put(&mut members, "name", Json::Text(self.name));
        put(&mut members, "description", optional_text(self.description));
        let parameters = match self.parameters {
            Some(parameters) => Json::Raw(parameters),
            None => Json::Null,
        };
        put(&mut members, "parameters", parameters);
        let json = object(members);
        assert(json@->Object_0 =~= self.wire()->Object_0);
        json
    }
}

impl ToolDefinition {
    /// `{"type": "function", "function": {..}}`
    pub open spec fn wire(self) -> JsonModel {
        JsonModel::Object(
            seq![
                ("type"@, JsonModel::Text("function"@)),
                ("function"@, self->function.wire()),
            ],
        )
    }

    /// Writes the value in its wire format.
    pub fn into_json(self) -> (json: Json)
        ensures
            json@ == self.wire(),
    {
        let mut members: Vec<(String, Json)> = Vec::new();
        match self {
            ToolDefinition::Function { function } => {
                put(&mut members, "type", text("function"));
                put(&mut members, "function", function.into_json());
            },
        }
        let json = object(members);
        assert(json@->Object_0 =~= self.wire()->Object_0);
        json
    }
}

/// The tools of a request on the wire, in their order.
pub open spec fn tools_wire(tools: Seq<ToolDefinition>) -> Seq<JsonModel> {
    Seq::new(tools.len(), |i: int| tools[i].wire())
}

fn tools_json(tools: Vec<ToolDefinition>) -> (json: Json)
    ensures
        json@ == JsonModel::Array(tools_wire(tools@)),
{
    let ghost all = tools@;
    let mut items: Vec<Json> = Vec::new();
    for tool in it: tools
        invariant
            it.seq() == all,
            items@.len() == it.index(),
            forall|k: int| 0 <= k < items@.len() ==> (#[trigger] items@[k])@ == all[k].wire(),
    {
        items.push(tool.into_json());
    }
    let json = array(items);
    assert(json@->Array_0 =~= tools_wire(all));
    json
}

impl Request {
    /// The members that every request has, in the order of the wire.
    pub open spec fn fixed_members(self) -> Seq<(Seq<char>, JsonModel)> {
        seq![
            ("model"@, JsonModel::Text(self.model.spec_wire_name())),
            ("messages"@, JsonModel::Array(messages_wire(self.messages@))),
            ("stream"@, JsonModel::Bool(self.stream)),
            ("stop"@, texts_model(self.stop@)),
            ("temperature"@, JsonModel::Number(self.temperature)),
        ]
    }

    /// The `tool_choice` member, where a tool choice is given.
    pub open spec fn tool_choice_members(self) -> Seq<(Seq<char>, JsonModel)> {
        match self.tool_choice {
            Some(choice) => seq![("tool_choice"@, JsonModel::Text(choice@))],
            None => Seq::empty(),
        }
    }

    /// The `tools` member, where there is a tool.
    pub open spec fn tools_members(self) -> Seq<(Seq<char>, JsonModel)> {
        if self.tools@.len() == 0 {
            Seq::empty()
        } else {
            seq![("tools"@, JsonModel::Array(tools_wire(self.tools@)))]
        }
    }

    /// The request on the wire: the fixed members, then `tool_choice` and
    /// `tools`, each only where it has something to say.
    pub open spec fn wire(self) -> JsonModel {
        JsonModel::Object(self.fixed_members() + self.tool_choice_members() + self.tools_members())
    }

    /// Builds the JSON object that is sent for the request.
    pub fn into_payload(self) -> (json: Json)
        ensures
            json@ == self.wire(),
    {
        let mut members: Vec<(String, Json)> = Vec::new();
        put(&mut members, "model", text(serialize_model(&self.model)));
        put(&mut members, "messages", messages_json(self.messages));
        put(&mut members, "stream", Json::Bool(self.stream));
        put(&mut members, "stop", texts(self.stop));
        put(&mut members, "temperature", Json::Number(self.temperature));
        match self.tool_choice {
            Some(choice) => {
                put(&mut members, "tool_choice", Json::Text(choice));
            },
            None => {},
        }
        if self.tools.len() > 0 {
            put(&mut members, "tools", tools_json(self.tools));
        }
        let json = object(members);
        assert(json@->Object_0 =~= self.wire()->Object_0);
        json
    }
}

/// The keys of a request are seven different strings.
proof fn lemma_request_keys_differ()
    ensures
        "model"@.len() == 5 && "model"@[0] == 'm',
        "messages"@.len() == 8,
        "stream"@.len() == 6,
        "stop"@.len() == 4,
        "temperature"@.len() == 11 && "temperature"@[1] == 'e',
        "tool_choice"@.len() == 11 && "tool_choice"@[1] == 'o',
        "tools"@.len() == 5 && "tools"@[0] == 't',
{
    reveal_strlit("model");
    reveal_strlit("messages");
    reveal_strlit("stream");
    reveal_strlit("stop");
    reveal_strlit("temperature");
    reveal_strlit("tool_choice");
    reveal_strlit("tools");
}

/// The payload of a request has a `tool_choice` member exactly when a tool
/// choice is given, and a `tools` member exactly when there is at least one
/// tool.
pub proof fn lemma_optional_members(request: Request)
    ensures
        request.wire().has_key("tool_choice"@) <==> request.tool_choice is Some,
        request.wire().has_key("tools"@) <==> request.tools@.len() > 0,
{
    lemma_request_keys_differ();
    let members = request.wire()->Object_0;
    let fixed = request.fixed_members();
    assert(fixed.len() == 5);
    if request.tool_choice is Some {
        assert(members[5].0 == "tool_choice"@);
    }
    if request.tools@.len() > 0 {
        let at = fixed.len() + request.tool_choice_members().len();
        assert(members[at as int].0 == "tools"@);
    }
}

/// A request without tools and without a tool choice is sent as its five
/// fixed members and nothing else: neither `tools` nor `tool_choice` is a
/// key of the payload.
pub proof fn lemma_empty_fields_are_omitted(request: Request)
    requires
        request.tools@.len() == 0,
        request.tool_choice is None,
    ensures
        request.wire() == JsonModel::Object(request.fixed_members()),
        !request.wire().has_key("tools"@),
        !request.wire().has_key("tool_choice"@),
{
    lemma_optional_members(request);
    assert(request.wire()->Object_0 =~= request.fixed_members());
}

/// The `model` member of the payload is the wire identifier of a model of
/// the closed set and the own name of a custom model.
pub proof fn lemma_model_member(request: Request)
    ensures
        request.wire().has_member("model"@, JsonModel::Text(request.model.spec_wire_name())),
        request.model matches Model::Custom { name, .. } ==> request.model.spec_wire_name()
            == name@,
        !(request.model is Custom) ==> request.model.spec_wire_name() == request.model.spec_id(),
{
    let members = request.wire()->Object_0;
    assert(is_first_at(members, "model"@, 0));
}

/// An assistant message has a `tool_calls` member exactly when it has a
/// tool call.
pub proof fn lemma_tool_calls_member(message: RequestMessage)
    requires
        message is Assistant,
    ensures
        message.wire().has_key("tool_calls"@) <==> message->tool_calls@.len() > 0,
{
    reveal_strlit("role");
    reveal_strlit("content");
    reveal_strlit("tool_calls");
    assert("role"@.len() == 4 && "content"@.len() == 7 && "tool_calls"@.len() == 10);
    let members = message.wire()->Object_0;
    if message->tool_calls@.len() > 0 {
        assert(members[2].0 == "tool_calls"@);
    }
}

} // verus!
