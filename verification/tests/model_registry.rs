use chatgpt_generative_ai::error::OpenAiClientError;
use chatgpt_generative_ai::model::Model;

#[test]
fn closed_identifiers_round_trip() {
    let models = vec![
        Model::ThreePointFiveTurbo,
        Model::Four,
        Model::FourTurbo,
        Model::FourOmni,
    ];
    for model in models {
        let parsed = Model::from_id(model.id()).unwrap();
        assert_eq!(parsed, model);
    }
}

#[test]
fn identifiers_are_the_wire_names() {
    assert_eq!(Model::ThreePointFiveTurbo.id(), "gpt-3.5-turbo");
    assert_eq!(Model::Four.id(), "gpt-4");
    assert_eq!(Model::FourTurbo.id(), "gpt-4-turbo-preview");
    assert_eq!(Model::FourOmni.id(), "gpt-4o");
}

#[test]
fn custom_identifier_is_not_parsed() {
    let custom = Model::Custom { name: "my-model".to_string(), max_tokens: 1000 };
    assert_eq!(custom.id(), "custom");
    assert!(matches!(Model::from_id("custom"), Err(OpenAiClientError::InvalidModelId)));
}

#[test]
fn unknown_identifiers_are_rejected() {
    for id in ["", "gpt-5", "gpt-4 ", "GPT-4", "gpt-4-turbo", "gpt-4o-2024-05-13", "gpt-3.5-turbo-0613"] {
        assert!(matches!(Model::from_id(id), Err(OpenAiClientError::InvalidModelId)));
    }
}

#[test]
fn display_names() {
    assert_eq!(Model::ThreePointFiveTurbo.display_name(), "gpt-3.5-turbo");
    assert_eq!(Model::Four.display_name(), "gpt-4");
    assert_eq!(Model::FourTurbo.display_name(), "gpt-4-turbo");
    assert_eq!(Model::FourOmni.display_name(), "gpt-4o");
    let custom = Model::Custom { name: "my-model".to_string(), max_tokens: 1000 };
    assert_eq!(custom.display_name(), "my-model");
}

#[test]
fn context_lengths() {
    assert_eq!(Model::ThreePointFiveTurbo.max_token_count(), 4096);
    assert_eq!(Model::Four.max_token_count(), 8192);
    assert_eq!(Model::FourTurbo.max_token_count(), 128000);
    assert_eq!(Model::FourOmni.max_token_count(), 128000);
    let custom = Model::Custom { name: "my-model".to_string(), max_tokens: 1000 };
    assert_eq!(custom.max_token_count(), 1000);
}

#[test]
fn default_model_is_four_omni() {
    assert_eq!(Model::default(), Model::FourOmni);
}
