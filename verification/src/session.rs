//! One save, as an exchange between the library and the code that owns the
//! disk. The library decides; the caller performs each action and reports
//! what happened.

use crate::config::{AppConfig, AppConfigView};
use crate::location::ConfigLocation;
use crate::store::{render_config, saved_text, SaveError, SaveErrorView};
use vstd::prelude::*;

verus! {

/// How far a save has come.
#[derive(Debug, Clone, Copy, PartialEq, Eq, Structural)]
pub enum SavePhase {
    /// Nothing has been asked for yet.
    Ready,
    /// Asked whether the configuration directory exists.
    CheckingDirectory,
    /// Asked for the directory to be created, with its parents.
    CreatingDirectory,
    /// Asked for the settings file to be created or truncated.
    CreatingFile,
    /// Asked for the record's text to be written to the file.
    Writing,
    /// The save has ended.
    Finished,
}

/// What the caller reports.
#[derive(Debug, PartialEq, Eq)]
pub enum SaveEvent {
    /// The exchange begins.
    Started,
    /// The directory that was asked about exists.
    DirectoryExists,
    /// The directory that was asked about does not exist.
    DirectoryMissing,
    /// The action that was asked for has been performed.
    Done,
    /// The action that was asked for failed; the text describes how.
    Failed(String),
}

/// The mathematical value of a [`SaveEvent`].
pub enum SaveEventView {
    Started,
    DirectoryExists,
    DirectoryMissing,
    Done,
    Failed(Seq<char>),
}

impl View for SaveEvent {
    type V = SaveEventView;

    open spec fn view(&self) -> SaveEventView {
        match self {
            SaveEvent::Started => SaveEventView::Started,
            SaveEvent::DirectoryExists => SaveEventView::DirectoryExists,
            SaveEvent::DirectoryMissing => SaveEventView::DirectoryMissing,
            SaveEvent::Done => SaveEventView::Done,
            SaveEvent::Failed(text) => SaveEventView::Failed(text@),
        }
    }
}

/// What the library asks the caller to do next.
#[derive(Debug, PartialEq, Eq)]
pub enum SaveAction {
    /// Report whether the configuration directory exists.
    CheckDirectory,
    /// Create the configuration directory and any missing parent.
    CreateDirectory,
    /// Create the settings file, or truncate it if it exists.
    CreateFile,
    /// Write this text to the file just created, in one write.
    Write(String),
    /// Stop: the save has ended with this outcome.
    Finish(Result<(), SaveError>),
}

/// The mathematical value of a [`SaveAction`].
pub enum SaveActionView {
    CheckDirectory,
    CreateDirectory,
    CreateFile,
    Write(Seq<char>),
    Finish(Result<(), SaveErrorView>),
}

impl View for SaveAction {
    type V = SaveActionView;

    open spec fn view(&self) -> SaveActionView {
        match self {
            SaveAction::CheckDirectory => SaveActionView::CheckDirectory,
            SaveAction::CreateDirectory => SaveActionView::CreateDirectory,
            SaveAction::CreateFile => SaveActionView::CreateFile,
            SaveAction::Write(text) => SaveActionView::Write(text@),
            SaveAction::Finish(Ok(())) => SaveActionView::Finish(Ok(())),
            SaveAction::Finish(Err(error)) => SaveActionView::Finish(Err(error@)),
        }
    }
}

/// The action that ends a save with `error`.
pub open spec fn fail(error: SaveErrorView) -> (SavePhase, SaveActionView) {
    (SavePhase::Finished, SaveActionView::Finish(Err(error)))
}

/// The rule of the exchange: from a phase and an event to the next phase and
/// the action to perform.
///
/// The directory is created only if it is missing; then the file is created
/// or truncated; then the record is serialized and written. A failure that
/// the caller reports ends the save with the caller's description. An event
/// that does not answer the last action, or any event after the end, ends
/// it with [`SaveError::Protocol`].
pub open spec fn step_spec(phase: SavePhase, config: AppConfigView, event: SaveEventView) -> (
    SavePhase,
    SaveActionView,
) {
    match (phase, event) {
        (SavePhase::Finished, _) => fail(SaveErrorView::Protocol),
        (_, SaveEventView::Failed(text)) => fail(SaveErrorView::Io(text)),
        (SavePhase::Ready, SaveEventView::Started) => (
            SavePhase::CheckingDirectory,
            SaveActionView::CheckDirectory,
        ),
        (SavePhase::CheckingDirectory, SaveEventView::DirectoryExists) => (
            SavePhase::CreatingFile,
            SaveActionView::CreateFile,
        ),
        (SavePhase::CheckingDirectory, SaveEventView::DirectoryMissing) => (
            SavePhase::CreatingDirectory,
            SaveActionView::CreateDirectory,
        ),
        (SavePhase::CreatingDirectory, SaveEventView::Done) => (
            SavePhase::CreatingFile,
            SaveActionView::CreateFile,
        ),
        (SavePhase::CreatingFile, SaveEventView::Done) => match saved_text(config) {
            Ok(text) => (SavePhase::Writing, SaveActionView::Write(text)),
            Err(error) => fail(error),
        },
        (SavePhase::Writing, SaveEventView::Done) => (
            SavePhase::Finished,
            SaveActionView::Finish(Ok(())),
        ),
        _ => fail(SaveErrorView::Protocol),
    }
}

/// A save in progress: the record, where it goes, and how far it has come.
pub struct SaveSession {
    config: AppConfig,
    location: ConfigLocation,
    phase: SavePhase,
}

impl SaveSession {
    /// The record being saved, as a value in contracts.
    pub closed spec fn config_spec(&self) -> AppConfigView {
        self.config@
    }

    /// The phase, as a value in contracts.
    pub closed spec fn phase_spec(&self) -> SavePhase {
        self.phase
    }

    /// The location, as a value in contracts.
    pub closed spec fn location_spec(&self) -> ConfigLocation {
        self.location
    }

    /// Prepares a save of `config` to `location`. Where no location could be
    /// resolved the save fails at once with [`SaveError::NoDirectory`].
    pub fn begin(config: AppConfig, location: Option<ConfigLocation>) -> (begun: Result<
        SaveSession,
        SaveError,
    >)
        ensures
            match begun {
                Ok(session) => location == Some(session.location_spec())
                    && session.config_spec() == config@
                    && session.phase_spec() == SavePhase::Ready,
                Err(error) => location is None && error == SaveError::NoDirectory,
            },
    {
        match location {
            Some(location) => Ok(SaveSession { config, location, phase: SavePhase::Ready }),
            None => Err(SaveError::NoDirectory),
        }
    }

    /// The record being saved.
    pub fn config(&self) -> (config: &AppConfig)
        ensures
            config@ == self.config_spec(),
    {
        &self.config
    }

    /// Where the record is being saved.
    pub fn location(&self) -> (location: &ConfigLocation)
        ensures
            *location == self.location_spec(),
    {
        &self.location
    }

    /// How far the save has come.
    pub fn phase(&self) -> (phase: SavePhase)
        ensures
            phase == self.phase_spec(),
    {
        self.phase
    }

    /// Takes the caller's report and says what to do next, by [`step_spec`].
    pub fn step(&mut self, event: SaveEvent) -> (action: SaveAction)
        ensures
            (final(self).phase_spec(), action@) == step_spec(
                old(self).phase_spec(),
                old(self).config_spec(),
                event@,
            ),
            final(self).config_spec() == old(self).config_spec(),
            final(self).location_spec() == old(self).location_spec(),
    {
        let (next, action) = match (self.phase, event) {
            (SavePhase::Finished, _) => (
                SavePhase::Finished,
                SaveAction::Finish(Err(SaveError::Protocol)),
            ),
            (_, SaveEvent::Failed(text)) => (
                SavePhase::Finished,
                SaveAction::Finish(Err(SaveError::Io(text))),
            ),
            (SavePhase::Ready, SaveEvent::Started) => (
                SavePhase::CheckingDirectory,
                SaveAction::CheckDirectory,
            ),
            (SavePhase::CheckingDirectory, SaveEvent::DirectoryExists) => (
                SavePhase::CreatingFile,
                SaveAction::CreateFile,
            ),
            (SavePhase::CheckingDirectory, SaveEvent::DirectoryMissing) => (
                SavePhase::CreatingDirectory,
                SaveAction::CreateDirectory,
            ),
            (SavePhase::CreatingDirectory, SaveEvent::Done) => (
                SavePhase::CreatingFile,
                SaveAction::CreateFile,
            ),
            (SavePhase::CreatingFile, SaveEvent::Done) => match render_config(&self.config) {
                Ok(text) => (SavePhase::Writing, SaveAction::Write(text)),
                Err(error) => (SavePhase::Finished, SaveAction::Finish(Err(error))),
            },
            (SavePhase::Writing, SaveEvent::Done) => (
                SavePhase::Finished,
                SaveAction::Finish(Ok(())),
            ),
            _ => (SavePhase::Finished, SaveAction::Finish(Err(SaveError::Protocol))),
        };
        self.phase = next;
        action
    }
}

} // verus!
