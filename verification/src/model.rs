//! The registry of chat models: wire identifiers, display names and context
//! lengths.

use vstd::prelude::*;
use crate::error::OpenAiClientError;
use crate::text::same_text;

verus! {

/// A chat model: one of a closed set, or a custom one that brings its own
/// name and context length.
#[derive(Clone, Debug, PartialEq)]
pub enum Model {
    ThreePointFiveTurbo,
    Four,
    FourTurbo,
    FourOmni,
    Custom { name: String, max_tokens: usize },
}

/// The model that a wire identifier names, if it names one. The identifier
/// of the custom variant names none: a custom model is built, never parsed.
pub open spec fn model_of_id(id: Seq<char>) -> Option<Model> {
    if id == "gpt-3.5-turbo"@ {
        Some(Model::ThreePointFiveTurbo)
    } else if id == "gpt-4"@ {
        Some(Model::Four)
    } else if id == "gpt-4-turbo-preview"@ {
        Some(Model::FourTurbo)
    } else if id == "gpt-4o"@ {
        Some(Model::FourOmni)
    } else {
        None
    }
}

impl Model {
    /// The wire identifier of the model.
    pub open spec fn spec_id(&self) -> Seq<char> {
        match self {
            Model::ThreePointFiveTurbo => "gpt-3.5-turbo"@,
            Model::Four => "gpt-4"@,
            Model::FourTurbo => "gpt-4-turbo-preview"@,
            Model::FourOmni => "gpt-4o"@,
            Model::Custom { .. } => "custom"@,
        }
    }

    /// The string that stands for the model in a request: a custom model
    /// goes by its own name, not by the identifier of its variant.
    pub open spec fn spec_wire_name(&self) -> Seq<char> {
        match self {
            Model::Custom { name, .. } => name@,
            _ => self.spec_id(),
        }
    }

    /// The name of the model as shown to a person.
    pub open spec fn spec_display_name(&self) -> Seq<char> {
        match self {
            Model::ThreePointFiveTurbo => "gpt-3.5-turbo"@,
            Model::Four => "gpt-4"@,
            Model::FourTurbo => "gpt-4-turbo"@,
            Model::FourOmni => "gpt-4o"@,
            Model::Custom { name, .. } => name@,
        }
    }

    /// The number of tokens that fit in the model's context.
    pub open spec fn spec_max_token_count(&self) -> nat {
        match self {
            Model::ThreePointFiveTurbo => 4096,
            Model::Four => 8192,
            Model::FourTurbo => 128000,
            Model::FourOmni => 128000,
            Model::Custom { max_tokens, .. } => *max_tokens as nat,
        }
    }

    /// Parses a wire identifier. Exactly the four identifiers of the closed
    /// set are accepted; every other string is an `InvalidModelId`.
    pub fn from_id(id: &str) -> (parsed: Result<Model, OpenAiClientError>)
        ensures
            match parsed {
                Ok(model) => model_of_id(id@) == Some(model),
                Err(error) => model_of_id(id@) is None && error is InvalidModelId,
            },
    {
        if same_text(id, "gpt-3.5-turbo") {
            Ok(Model::ThreePointFiveTurbo)
        } else if same_text(id, "gpt-4") {
            Ok(Model::Four)
        } else if same_text(id, "gpt-4-turbo-preview") {
            Ok(Model::FourTurbo)
        } else if same_text(id, "gpt-4o") {
            Ok(Model::FourOmni)
        } else {
            Err(OpenAiClientError::InvalidModelId)
        }
    }

    /// The wire identifier of the model; `"custom"` for every custom model.
    pub fn id(&self) -> (id: &'static str)
        ensures
            id@ == self.spec_id(),
    {
        match self {
            Model::ThreePointFiveTurbo => "gpt-3.5-turbo",
            Model::Four => "gpt-4",
            Model::FourTurbo => "gpt-4-turbo-preview",
            Model::FourOmni => "gpt-4o",
            Model::Custom { .. } => "custom",
        }
    }

    /// The name of the model as shown to a person; a custom model shows its
    /// own name.
    pub fn display_name(&self) -> (name: &str)
        ensures
            name@ == self.spec_display_name(),
    {
        match self {
            Model::ThreePointFiveTurbo => "gpt-3.5-turbo",
            Model::Four => "gpt-4",
            Model::FourTurbo => "gpt-4-turbo",
            Model::FourOmni => "gpt-4o",
            Model::Custom { name, .. } => name.as_str(),
        }
    }

    /// The number of tokens that fit in the model's context; a custom model
    /// brings its own.
    pub fn max_token_count(&self) -> (count: usize)
        ensures
            count == self.spec_max_token_count(),
    {
        match self {
            Model::ThreePointFiveTurbo => 4096,
            Model::Four => 8192,
            Model::FourTurbo => 128000,
            Model::FourOmni => 128000,
            Model::Custom { max_tokens, .. } => *max_tokens,
        }
    }
}

/// The model that is used where none is named.
impl Default for Model {
    fn default() -> (model: Model)
        ensures
            model == Model::FourOmni,
    {
        Model::FourOmni
    }
}

/// The five wire identifiers are pairwise different strings.
proof fn lemma_ids_differ()
    ensures
        "gpt-3.5-turbo"@.len() == 13,
        "gpt-4"@.len() == 5,
        "gpt-4-turbo-preview"@.len() == 19,
        "gpt-4o"@.len() == 6,
        "custom"@.len() == 6,
        "gpt-4o"@[0] == 'g',
        "custom"@[0] == 'c',
{
    reveal_strlit("gpt-3.5-turbo");
    reveal_strlit("gpt-4");
    reveal_strlit("gpt-4-turbo-preview");
    reveal_strlit("gpt-4o");
    reveal_strlit("custom");
}

/// Round trip: the identifier of every model of the closed set parses back to
/// that model.
pub proof fn lemma_id_round_trip(model: Model)
    requires
        !(model is Custom),
    ensures
        model_of_id(model.spec_id()) == Some(model),
{
    lemma_ids_differ();
}

/// A string is accepted only when it is the identifier of a model of the
/// closed set.
pub proof fn lemma_only_closed_ids_parse(id: Seq<char>)
    ensures
        model_of_id(id) matches Some(model) ==> !(model is Custom) && model.spec_id() == id,
{
}

/// The identifier of a custom model is not accepted: `"custom"` names no
/// model.
pub proof fn lemma_custom_id_is_rejected(model: Model)
    requires
        model is Custom,
    ensures
        model.spec_id() == "custom"@,
        model_of_id(model.spec_id()) is None,
{
    lemma_ids_differ();
}

} // verus!
