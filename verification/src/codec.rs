//! The schema of the settings record: how an [`AppConfig`] is written as a
//! JSON document and read back from one.

use crate::config::{AppConfig, AppConfigView};
use crate::json::{canonical, find_member, lemma_object_view, text_before, Json, JsonView};
use vstd::prelude::*;

verus! {

/// The key under which the API key is stored.
pub const API_KEY_FIELD: &'static str = "anthropicApiKey";

/// The key under which the prompt template is stored.
pub const PROMPT_FIELD: &'static str = "systemPrompt";

/// One of the two fields of the record.
#[derive(Debug, Clone, Copy, PartialEq, Eq, Structural)]
pub enum Field {
    AnthropicApiKey,
    SystemPrompt,
}

/// Why a document is no settings record.
#[derive(Debug, Clone, Copy, PartialEq, Eq, Structural)]
pub enum DecodeError {
    /// The document is not a JSON object.
    NotAnObject,
    /// The object has no member of this field's key.
    Missing(Field),
    /// The member of this field's key is not a JSON string.
    NotText(Field),
}

/// The document that stands for a record: an object of exactly the two
/// fields, the API key first.
pub open spec fn encode_spec(config: AppConfigView) -> JsonView {
    JsonView::Object(
        seq![
            (API_KEY_FIELD@, JsonView::Text(config.anthropic_api_key)),
            (PROMPT_FIELD@, JsonView::Text(config.system_prompt)),
        ],
    )
}

/// The record that a document stands for, or why it stands for none. Both
/// fields must be present as texts; members under other keys are ignored.
pub open spec fn decode_spec(document: JsonView) -> Result<AppConfigView, DecodeError> {
    match document {
        JsonView::Object(members) => match find_member(members, API_KEY_FIELD@) {
            None => Err(DecodeError::Missing(Field::AnthropicApiKey)),
            Some(JsonView::Text(anthropic_api_key)) => match find_member(members, PROMPT_FIELD@) {
                None => Err(DecodeError::Missing(Field::SystemPrompt)),
                Some(JsonView::Text(system_prompt)) => Ok(
                    AppConfigView { anthropic_api_key, system_prompt },
                ),
                Some(_) => Err(DecodeError::NotText(Field::SystemPrompt)),
            },
            Some(_) => Err(DecodeError::NotText(Field::AnthropicApiKey)),
        },
        _ => Err(DecodeError::NotAnObject),
    }
}

/// The message that describes a [`DecodeError`].
pub open spec fn decode_error_text(error: DecodeError) -> Seq<char> {
    match error {
        DecodeError::NotAnObject => "configuration must be a JSON object"@,
        DecodeError::Missing(Field::AnthropicApiKey) => "missing field `anthropicApiKey`"@,
        DecodeError::Missing(Field::SystemPrompt) => "missing field `systemPrompt`"@,
        DecodeError::NotText(Field::AnthropicApiKey) => "field `anthropicApiKey` must be a string"@,
        DecodeError::NotText(Field::SystemPrompt) => "field `systemPrompt` must be a string"@,
    }
}

impl DecodeError {
    /// A human-readable description of the error.
    pub fn message(&self) -> (text: String)
        ensures
            text@ == decode_error_text(*self),
    {
        match self {
            DecodeError::NotAnObject => "configuration must be a JSON object".to_owned(),
            DecodeError::Missing(Field::AnthropicApiKey) => "missing field `anthropicApiKey`".to_owned(),
            DecodeError::Missing(Field::SystemPrompt) => "missing field `systemPrompt`".to_owned(),
            DecodeError::NotText(Field::AnthropicApiKey) => "field `anthropicApiKey` must be a string".to_owned(),
            DecodeError::NotText(Field::SystemPrompt) => "field `systemPrompt` must be a string".to_owned(),
        }
    }
}

/// The two keys differ, and the API key's comes first in string order.
pub proof fn lemma_field_keys()
    ensures
        API_KEY_FIELD@ != PROMPT_FIELD@,
        text_before(API_KEY_FIELD@, PROMPT_FIELD@),
{
    reveal_strlit("anthropicApiKey");
    reveal_strlit("systemPrompt");
    assert(API_KEY_FIELD@[0] == 'a');
    assert(PROMPT_FIELD@[0] == 's');
}

/// The document of a record lists its keys in increasing order.
pub proof fn lemma_encode_canonical(config: AppConfigView)
    ensures
        canonical(encode_spec(config)),
{
    lemma_field_keys();
    reveal_with_fuel(canonical, 2);
}

/// Writes a record as a JSON document.
pub fn encode(config: &AppConfig) -> (document: Json)
    ensures
        document@ == encode_spec(config@),
        canonical(document@),
{
    let mut members: Vec<(String, Json)> = Vec::new();
    members.push((API_KEY_FIELD.to_owned(), Json::Text(config.anthropic_api_key.clone())));
    members.push((PROMPT_FIELD.to_owned(), Json::Text(config.system_prompt.clone())));
    proof {
        lemma_object_view(members);
        lemma_encode_canonical(config@);
        assert(Json::Object(members)@->Object_0 =~= encode_spec(config@)->Object_0);
    }
    Json::Object(members)
}

/// Reads a record from a JSON document.
pub fn decode(document: &Json) -> (decoded: Result<AppConfig, DecodeError>)
    ensures
        match decoded {
            Ok(config) => decode_spec(document@) == Ok::<AppConfigView, DecodeError>(config@),
            Err(error) => decode_spec(document@) == Err::<AppConfigView, DecodeError>(error),
        },
{
    match document {
        Json::Object(_) => {},
        _ => {
            return Err(DecodeError::NotAnObject);
        },
    }
    let anthropic_api_key = match document.member(API_KEY_FIELD) {
        None => {
            return Err(DecodeError::Missing(Field::AnthropicApiKey));
        },
        Some(Json::Text(text)) => text.clone(),
        Some(_) => {
            return Err(DecodeError::NotText(Field::AnthropicApiKey));
        },
    };
    let system_prompt = match document.member(PROMPT_FIELD) {
        None => {
            return Err(DecodeError::Missing(Field::SystemPrompt));
        },
        Some(Json::Text(text)) => text.clone(),
        Some(_) => {
            return Err(DecodeError::NotText(Field::SystemPrompt));
        },
    };
    Ok(AppConfig { anthropic_api_key, system_prompt })
}

/// A record written as a document reads back as the same record.
pub proof fn lemma_decode_encode(config: AppConfigView)
    ensures
        decode_spec(encode_spec(config)) == Ok::<AppConfigView, DecodeError>(config),
{
    lemma_field_keys();
    let members = encode_spec(config)->Object_0;
    assert(members.skip(1)[0] == members[1]);
    reveal_with_fuel(find_member, 3);
}

} // verus!
