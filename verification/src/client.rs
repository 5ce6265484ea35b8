//! The two calls of the API as plain data: what is to be posted where.

use vstd::prelude::*;
use vstd::string::StringExecFns;
use crate::embedding::{embedding_payload, embedding_wire, OpenAiEmbeddingModel};
use crate::payload::Json;
use crate::request::Request;

verus! {

/// One HTTP POST, ready to be sent.
#[derive(Debug)]
pub struct Post {
    pub uri: String,
    /// The value of the `Content-Type` header.
    pub content_type: String,
    /// The value of the `Authorization` header.
    pub authorization: String,
    pub body: Json,
}

/// The address of the chat-completion endpoint under a base address.
pub open spec fn completions_uri_of(api_url: Seq<char>) -> Seq<char> {
    api_url + "/chat/completions"@
}

/// The address of the embeddings endpoint under a base address.
pub open spec fn embeddings_uri_of(api_url: Seq<char>) -> Seq<char> {
    api_url + "/embeddings"@
}

/// The `Authorization` header that carries an API key.
pub open spec fn bearer_of(api_key: Seq<char>) -> Seq<char> {
    "Bearer "@ + api_key
}

/// The address of the chat-completion endpoint under a base address.
pub fn completions_uri(api_url: &str) -> (uri: String)
    ensures
        uri@ == completions_uri_of(api_url@),
{
    String::from_str(api_url).concat("/chat/completions")
}

/// The address of the embeddings endpoint under a base address.
pub fn embeddings_uri(api_url: &str) -> (uri: String)
    ensures
        uri@ == embeddings_uri_of(api_url@),
{
    String::from_str(api_url).concat("/embeddings")
}

/// The `Authorization` header that carries an API key.
pub fn bearer(api_key: &str) -> (header: String)
    ensures
        header@ == bearer_of(api_key@),
{
    String::from_str("Bearer ").concat(api_key)
}

/// The POST of a chat completion.
pub fn completion_post(api_url: &str, api_key: &str, request: Request) -> (post: Post)
    ensures
        post.uri@ == completions_uri_of(api_url@),
        post.content_type@ == "application/json"@,
        post.authorization@ == bearer_of(api_key@),
        post.body@ == request.wire(),
{
    Post {
        uri: completions_uri(api_url),
        content_type: String::from_str("application/json"),
        authorization: bearer(api_key),
        body: request.into_payload(),
    }
}

/// The POST of an embedding batch.
pub fn embedding_post(
    api_url: &str,
    api_key: &str,
    model: OpenAiEmbeddingModel,
    texts: Vec<String>,
) -> (post: Post)
    ensures
        post.uri@ == embeddings_uri_of(api_url@),
        post.content_type@ == "application/json"@,
        post.authorization@ == bearer_of(api_key@),
        post.body@ == embedding_wire(model, texts@),
{
    Post {
        uri: embeddings_uri(api_url),
        content_type: String::from_str("application/json"),
        authorization: bearer(api_key),
        body: embedding_payload(model, texts),
    }
}

} // verus!
