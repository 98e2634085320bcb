//! The settings record that the application keeps between sessions.

use vstd::prelude::*;

verus! {

/// The single persisted record: an API key and a prompt template.
#[derive(Debug, PartialEq, Eq)]
pub struct AppConfig {
    pub anthropic_api_key: String,
    pub system_prompt: String,
}

/// What an [`AppConfig`] holds, as two texts.
pub struct AppConfigView {
    pub anthropic_api_key: Seq<char>,
    pub system_prompt: Seq<char>,
}

impl View for AppConfig {
    type V = AppConfigView;

    open spec fn view(&self) -> AppConfigView {
        AppConfigView {
            anthropic_api_key: self.anthropic_api_key@,
            system_prompt: self.system_prompt@,
        }
    }
}

impl AppConfig {
    /// Builds a record from its two fields.
    pub fn new(anthropic_api_key: String, system_prompt: String) -> (config: AppConfig)
        ensures
            config.anthropic_api_key == anthropic_api_key,
            config.system_prompt == system_prompt,
            config@.anthropic_api_key == anthropic_api_key@,
            config@.system_prompt == system_prompt@,
    {
        AppConfig { anthropic_api_key, system_prompt }
    }

    /// Whether two records agree field for field.
    pub fn same_as(&self, other: &AppConfig) -> (same: bool)
        ensures
            same == (self@ == other@),
    {
        self.anthropic_api_key == other.anthropic_api_key && self.system_prompt
            == other.system_prompt
    }
}

} // verus!
