//! The embeddings request and its wire format.

use vstd::prelude::*;
use crate::payload::{object, put, text, texts, texts_model, Json, JsonModel};

verus! {

/// A model that turns texts into vectors.
#[derive(Copy, Clone, Debug, PartialEq, Eq)]
pub enum OpenAiEmbeddingModel {
    TextEmbedding3Small,
    TextEmbedding3Large,
}

impl OpenAiEmbeddingModel {
    /// The name of the model on the wire.
    pub open spec fn spec_wire_name(self) -> Seq<char> {
        match self {
            OpenAiEmbeddingModel::TextEmbedding3Small => "text-embedding-3-small"@,
            OpenAiEmbeddingModel::TextEmbedding3Large => "text-embedding-3-large"@,
        }
    }

    /// The name of the model on the wire.
    pub fn wire_name(&self) -> (name: &'static str)
        ensures
            name@ == self.spec_wire_name(),
    {
        match self {
            OpenAiEmbeddingModel::TextEmbedding3Small => "text-embedding-3-small",
            OpenAiEmbeddingModel::TextEmbedding3Large => "text-embedding-3-large",
        }
    }
}

/// The embeddings request on the wire: `{"model": .., "input": [..]}`, the
/// texts in the order in which they were given.
pub open spec fn embedding_wire(model: OpenAiEmbeddingModel, texts: Seq<String>) -> JsonModel {
    JsonModel::Object(
        seq![("model"@, JsonModel::Text(model.spec_wire_name())), ("input"@, texts_model(texts))],
    )
}

/// Builds the JSON object that is sent for a batch of texts.
pub fn embedding_payload(model: OpenAiEmbeddingModel, inputs: Vec<String>) -> (json: Json)
    ensures
        json@ == embedding_wire(model, inputs@),
{
    let mut members: Vec<(String, Json)> = Vec::new();
    put(&mut members, "model", text(model.wire_name()));
    put(&mut members, "input", texts(inputs));
    let json = object(members);
    assert(json@->Object_0 =~= embedding_wire(model, inputs@)->Object_0);
    json
}

/// The texts keep their places: item `i` of `input` is text `i`, and there
/// are as many items as texts.
pub proof fn lemma_inputs_keep_their_places(model: OpenAiEmbeddingModel, texts: Seq<String>, i: int)
    requires
        0 <= i < texts.len(),
    ensures
        embedding_wire(model, texts)->Object_0[1].1->Array_0.len() == texts.len(),
        embedding_wire(model, texts)->Object_0[1].1->Array_0[i] == JsonModel::Text(texts[i]@),
{
}

} // verus!
