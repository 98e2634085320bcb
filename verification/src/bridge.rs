//! The command surface that the user interface calls: two operations that
//! take and return JSON values and descriptions of failures.

use crate::codec::{
    decode, decode_error_text, decode_spec, encode, encode_spec, lemma_encode_canonical,
    DecodeError,
};
use crate::config::{AppConfig, AppConfigView};
use crate::json::{Json, JsonView};
use crate::location::{config_location, ConfigLocation};
use crate::session::{SavePhase, SaveSession};
use crate::store::{load, loaded_from, save_error_text, text_of, SaveError, SaveErrorView};
use crate::wire::{json_of, value_model, value_of};
use vstd::prelude::*;

verus! {

/// The answer to a load: the record as a document, or `null` where there
/// is none.
pub open spec fn load_response(contents: Option<Seq<char>>) -> JsonView {
    match loaded_from(contents) {
        Some(config) => encode_spec(config),
        None => JsonView::Null,
    }
}

/// Answers the load command from what was read from the settings file;
/// `contents` is `None` where the file is missing or could not be read. The
/// command never fails: the answer is the stored record, or `null`.
pub fn load_app_config(contents: Option<&str>) -> (response: serde_json::Value)
    ensures
        value_model(response) == load_response(text_of(contents)),
{
    match load(contents) {
        Some(config) => value_of(&encode(&config)),
        None => value_of(&Json::Null),
    }
}

/// Reads the record that a save command carries. A payload that is no
/// object, or lacks a field, or holds a field that is no string, is refused
/// with a description.
pub fn decode_payload(payload: &serde_json::Value) -> (decoded: Result<AppConfig, String>)
    ensures
        match decoded {
            Ok(config) => decode_spec(value_model(*payload)) == Ok::<AppConfigView, DecodeError>(
                config@,
            ),
            Err(message) => decode_spec(value_model(*payload)) is Err && message@
                == decode_error_text(decode_spec(value_model(*payload))->Err_0),
        },
{
    match decode(&json_of(payload)) {
        Ok(config) => Ok(config),
        Err(error) => Err(error.message()),
    }
}

/// Begins the save that a save command asks for, to a location that was
/// resolved already. The payload is decoded first; then a missing location is
/// reported. On success the save stands ready for its first event.
pub fn begin_save(payload: &serde_json::Value, location: Option<ConfigLocation>) -> (begun: Result<
    SaveSession,
    String,
>)
    ensures
        match decode_spec(value_model(*payload)) {
            Err(error) => begun matches Err(message) && message@ == decode_error_text(error),
            Ok(config) => match location {
                None => begun matches Err(message) && message@ == save_error_text(
                    SaveErrorView::NoDirectory,
                ),
                Some(place) => begun matches Ok(session) && session.config_spec() == config
                    && session.location_spec() == place && session.phase_spec()
                    == SavePhase::Ready,
            },
        },
{
    let config = decode_payload(payload)?;
    match SaveSession::begin(config, location) {
        Ok(session) => Ok(session),
        Err(error) => Err(error.message()),
    }
}

/// Begins the save that a save command asks for, resolving the location of
/// the settings file for the current user. A payload that is no record is
/// always refused; for a record, the save begins if a location was found.
pub fn save_app_config(payload: &serde_json::Value) -> (begun: Result<SaveSession, String>)
    ensures
        match decode_spec(value_model(*payload)) {
            Err(error) => begun matches Err(message) && message@ == decode_error_text(error),
            Ok(config) => match begun {
                Err(message) => message@ == save_error_text(SaveErrorView::NoDirectory),
                Ok(session) => session.config_spec() == config && session.phase_spec()
                    == SavePhase::Ready,
            },
        },
{
    begin_save(payload, config_location())
}

/// The answer to a save command, from the outcome of the save: nothing on
/// success, the failure's description otherwise.
pub fn save_response(outcome: Result<(), SaveError>) -> (response: Result<(), String>)
    ensures
        match outcome {
            Ok(_) => response is Ok,
            Err(error) => response matches Err(message) && message@ == save_error_text(error@),
        },
{
    match outcome {
        Ok(()) => Ok(()),
        Err(error) => Err(error.message()),
    }
}

} // verus!
