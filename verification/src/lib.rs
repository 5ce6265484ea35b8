//! Client-side logic for a chat-completion and embeddings HTTP API: the model
//! registry, the request payload, the decoder of the streamed response and the
//! classification of failures, each with a verified contract.

use vstd::prelude::*;

pub mod client;
pub mod document;
pub mod embedding;
pub mod error;
pub mod failure;
pub mod model;
pub mod payload;
pub mod request;
pub mod status;
pub mod stream;
pub mod text;
pub mod utils;

pub use embedding::OpenAiEmbeddingModel;
pub use error::OpenAiClientError;
pub use model::Model;
pub use request::FunctionContent;
pub use request::FunctionDefinition;
pub use request::Request;
pub use request::RequestMessage;
pub use request::ToolCall;
pub use request::ToolCallContent;
pub use request::ToolDefinition;
pub use stream::ResponseStreamEvent;
pub use utils::is_none_or_empty;
pub use utils::serialize_model;

verus! {

/// The base address of the public API.
pub const OPEN_AI_API_URL: &'static str = "https://api.openai.com/v1";

} // verus!
