//! The settings store: one JSON-encoded record in one file.
//!
//! The library never touches the disk. Loading is a function of what was read
//! from the file; saving is a short exchange in which the library tells its
//! caller which action to perform next and learns how it went.

use crate::codec::{decode, decode_spec, encode, encode_spec};
use crate::config::{AppConfig, AppConfigView};
use crate::wire::{
    error_message, json_of, json_parse, json_text, parse_value, value_of, value_text,
};
use vstd::prelude::*;

verus! {

/// Why a save did not complete.
#[derive(Debug, PartialEq, Eq)]
pub enum SaveError {
    /// No configuration directory could be resolved.
    NoDirectory,
    /// An action on the disk failed; the text is the system's description.
    Io(String),
    /// The record could not be serialized; the text is the serializer's.
    Serialization(String),
    /// The serialized text does not read back as the record.
    Unstable,
    /// An event arrived that does not answer the action that was asked for.
    Protocol,
}

/// The mathematical value of a [`SaveError`].
pub enum SaveErrorView {
    NoDirectory,
    Io(Seq<char>),
    Serialization(Seq<char>),
    Unstable,
    Protocol,
}

impl View for SaveError {
    type V = SaveErrorView;

    open spec fn view(&self) -> SaveErrorView {
        match self {
            SaveError::NoDirectory => SaveErrorView::NoDirectory,
            SaveError::Io(text) => SaveErrorView::Io(text@),
            SaveError::Serialization(text) => SaveErrorView::Serialization(text@),
            SaveError::Unstable => SaveErrorView::Unstable,
            SaveError::Protocol => SaveErrorView::Protocol,
        }
    }
}

/// The message that describes a [`SaveError`].
pub open spec fn save_error_text(error: SaveErrorView) -> Seq<char> {
    match error {
        SaveErrorView::NoDirectory => "プロジェクトディレクトリの作成に失敗しました。"@,
        SaveErrorView::Io(text) => text,
        SaveErrorView::Serialization(text) => text,
        SaveErrorView::Unstable => "the serialized configuration does not read back as written"@,
        SaveErrorView::Protocol => "unexpected event for this step of the save"@,
    }
}

impl SaveError {
    /// A human-readable description of the error.
    pub fn message(&self) -> (text: String)
        ensures
            text@ == save_error_text(self@),
    {
        match self {
            SaveError::NoDirectory => "プロジェクトディレクトリの作成に失敗しました。".to_owned(),
            SaveError::Io(text) => text.clone(),
            SaveError::Serialization(text) => text.clone(),
            SaveError::Unstable => "the serialized configuration does not read back as written".to_owned(),
            SaveError::Protocol => "unexpected event for this step of the save".to_owned(),
        }
    }
}

/// The record that a file's text stands for: `Some` exactly when the text is
/// JSON and the document has both fields as texts.
pub open spec fn loaded(text: Seq<char>) -> Option<AppConfigView> {
    match json_parse(text) {
        Some(document) => match decode_spec(document) {
            Ok(config) => Some(config),
            Err(_) => None,
        },
        None => None,
    }
}

/// What a load returns for what was read from the file: nothing where the
/// file could not be read, else what its text stands for.
pub open spec fn loaded_from(contents: Option<Seq<char>>) -> Option<AppConfigView> {
    match contents {
        Some(text) => loaded(text),
        None => None,
    }
}

/// The text that a save writes for a record, or why it writes none. The text
/// is the serializer's, and it is written only if it reads back as the record.
pub open spec fn saved_text(config: AppConfigView) -> Result<Seq<char>, SaveErrorView> {
    match json_text(encode_spec(config)) {
        Ok(text) => if loaded(text) == Some(config) {
            Ok(text)
        } else {
            Err(SaveErrorView::Unstable)
        },
        Err(message) => Err(SaveErrorView::Serialization(message)),
    }
}

/// Reads a record from the text of a settings file.
pub fn parse_config(text: &str) -> (config: Option<AppConfig>)
    ensures
        match config {
            Some(c) => loaded(text@) == Some(c@),
            None => loaded(text@) is None,
        },
{
    match parse_value(text) {
        Ok(value) => {
            let document = json_of(&value);
            match decode(&document) {
                Ok(config) => Some(config),
                Err(_) => None,
            }
        },
        Err(_) => None,
    }
}

/// Loads the record from what was read from the settings file; `contents` is
/// `None` where the file is missing or could not be read. Absence is no
/// error: a missing, unreadable, malformed or incomplete file gives `None`.
pub fn load(contents: Option<&str>) -> (config: Option<AppConfig>)
    ensures
        match config {
            Some(c) => loaded_from(text_of(contents)) == Some(c@),
            None => loaded_from(text_of(contents)) is None,
        },
{
    match contents {
        Some(text) => parse_config(text),
        None => None,
    }
}

/// The characters of what was read, if anything was.
pub open spec fn text_of(contents: Option<&str>) -> Option<Seq<char>> {
    match contents {
        Some(text) => Some(text@),
        None => None,
    }
}

/// Whether `reread` is the record `config`.
pub open spec fn reads_back(reread: Option<AppConfig>, config: AppConfigView) -> bool {
    match reread {
        Some(other) => other@ == config,
        None => false,
    }
}

/// Decides whether a serialized text may be written: `Ok` with the text
/// exactly when `reread`, the record that the text was read back as, is
/// `config`; else [`SaveError::Unstable`].
pub fn confirm_text(config: &AppConfig, text: String, reread: Option<AppConfig>) -> (confirmed:
    Result<String, SaveError>)
    ensures
        match confirmed {
            Ok(accepted) => accepted == text && reads_back(reread, config@),
            Err(error) => error == SaveError::Unstable && !reads_back(reread, config@),
        },
{
    match reread {
        Some(other) => if other.same_as(config) {
            Ok(text)
        } else {
            Err(SaveError::Unstable)
        },
        None => Err(SaveError::Unstable),
    }
}

/// Serializes a record to the text that a save writes.
pub fn render_config(config: &AppConfig) -> (rendered: Result<String, SaveError>)
    ensures
        match rendered {
            Ok(text) => saved_text(config@) == Ok::<Seq<char>, SaveErrorView>(text@),
            Err(error) => saved_text(config@) == Err::<Seq<char>, SaveErrorView>(error@),
        },
{
    let document = encode(config);
    let value = value_of(&document);
    match value_text(&value) {
        Ok(text) => {
            let reread = parse_config(text.as_str());
            confirm_text(config, text, reread)
        },
        Err(error) => Err(SaveError::Serialization(error_message(&error))),
    }
}

} // verus!
