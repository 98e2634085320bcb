//! A model of the disk as the store sees it, and what holds of loading and
//! saving on it.
//!
//! The model is a disk on which every action succeeds that can succeed. It
//! says what the actions of a save mean, so that the rule of the exchange
//! can be followed from its first event to its outcome.

use crate::codec::decode_spec;
use crate::config::AppConfigView;
use crate::session::{step_spec, SaveActionView, SaveEventView, SavePhase};
use crate::store::{loaded, loaded_from, saved_text, SaveErrorView};
use crate::wire::json_parse;
use vstd::prelude::*;

verus! {

/// The part of the disk that the store touches.
pub struct Disk {
    /// Whether the configuration directory exists.
    pub directory: bool,
    /// The text of the settings file, if the file exists.
    pub file: Option<Seq<char>>,
}

/// What the disk is after an action, and what is reported of it. A file can
/// be created only in an existing directory, and only an existing file can
/// be written; the description of a failure is left empty.
pub open spec fn perform(disk: Disk, action: SaveActionView) -> (Disk, SaveEventView) {
    match action {
        SaveActionView::CheckDirectory => (
            disk,
            if disk.directory {
                SaveEventView::DirectoryExists
            } else {
                SaveEventView::DirectoryMissing
            },
        ),
        SaveActionView::CreateDirectory => (
            Disk { directory: true, file: disk.file },
            SaveEventView::Done,
        ),
        SaveActionView::CreateFile => if disk.directory {
            (Disk { directory: true, file: Some(Seq::empty()) }, SaveEventView::Done)
        } else {
            (disk, SaveEventView::Failed(Seq::empty()))
        },
        SaveActionView::Write(text) => if disk.file is Some {
            (Disk { directory: disk.directory, file: Some(text) }, SaveEventView::Done)
        } else {
            (disk, SaveEventView::Failed(Seq::empty()))
        },
        SaveActionView::Finish(_) => (disk, SaveEventView::Done),
    }
}

/// How many actions a save may still ask for in a phase.
pub open spec fn actions_left(phase: SavePhase) -> nat {
    match phase {
        SavePhase::Ready => 5,
        SavePhase::CheckingDirectory => 4,
        SavePhase::CreatingDirectory => 3,
        SavePhase::CreatingFile => 2,
        SavePhase::Writing => 1,
        SavePhase::Finished => 0,
    }
}

/// Every action but the last brings the save nearer to its end.
pub proof fn lemma_step_advances(phase: SavePhase, config: AppConfigView, event: SaveEventView)
    ensures
        step_spec(phase, config, event).1 is Finish || actions_left(
            step_spec(phase, config, event).0,
        ) < actions_left(phase),
        step_spec(phase, config, event).1 is Finish ==> step_spec(phase, config, event).0
            == SavePhase::Finished,
{
}

/// Follows a save on `disk` from `phase` and `event` to its end: the disk it
/// leaves and its outcome.
pub open spec fn run(phase: SavePhase, config: AppConfigView, event: SaveEventView, disk: Disk) -> (
    Disk,
    Result<(), SaveErrorView>,
)
    decreases actions_left(phase),
{
    let (next, action) = step_spec(phase, config, event);
    match action {
        SaveActionView::Finish(outcome) => (disk, outcome),
        _ => {
            proof {
                lemma_step_advances(phase, config, event);
            }
            let (after, report) = perform(disk, action);
            run(next, config, report, after)
        },
    }
}

/// A whole save of `config` on `disk`.
pub open spec fn save_on(disk: Disk, config: AppConfigView) -> (Disk, Result<(), SaveErrorView>) {
    run(SavePhase::Ready, config, SaveEventView::Started, disk)
}

/// A load on `disk`.
pub open spec fn load_on(disk: Disk) -> Option<AppConfigView> {
    loaded_from(disk.file)
}

/// What a save comes to: if the record has a text to write, the directory
/// exists afterwards and the file holds that text; else the file is left
/// empty and the save fails as the text did.
pub proof fn lemma_save_outcome(disk: Disk, config: AppConfigView)
    ensures
        save_on(disk, config) == match saved_text(config) {
            Ok(text) => (Disk { directory: true, file: Some(text) }, Ok::<(), SaveErrorView>(())),
            Err(error) => (
                Disk { directory: true, file: Some(Seq::empty()) },
                Err::<(), SaveErrorView>(error),
            ),
        },
{
    reveal_with_fuel(run, 6);
}

/// Round trip: after a save that succeeded, a load returns the record that
/// was saved, field for field.
pub proof fn lemma_load_after_save(disk: Disk, config: AppConfigView)
    requires
        save_on(disk, config).1 is Ok,
    ensures
        load_on(save_on(disk, config).0) == Some(config),
{
    lemma_save_outcome(disk, config);
}

/// First run: where no file exists, a load returns nothing.
pub proof fn lemma_load_without_file(disk: Disk)
    requires
        disk.file is None,
    ensures
        load_on(disk) is None,
{
}

/// Idempotence: saving the same record again leaves the disk as the first
/// save left it, and a load still returns the record.
pub proof fn lemma_save_twice(disk: Disk, config: AppConfigView)
    requires
        save_on(disk, config).1 is Ok,
    ensures
        save_on(save_on(disk, config).0, config) == save_on(disk, config),
        load_on(save_on(save_on(disk, config).0, config).0) == Some(config),
{
    lemma_save_outcome(disk, config);
    lemma_save_outcome(save_on(disk, config).0, config);
}

/// Overwrite: after two saves that succeeded, a load returns the second
/// record whole, whatever the first was.
pub proof fn lemma_save_overwrites(disk: Disk, first: AppConfigView, second: AppConfigView)
    requires
        save_on(disk, first).1 is Ok,
        save_on(save_on(disk, first).0, second).1 is Ok,
    ensures
        load_on(save_on(save_on(disk, first).0, second).0) == Some(second),
{
    lemma_save_outcome(disk, first);
    lemma_save_outcome(save_on(disk, first).0, second);
}

/// Malformed file: where the file's text is no JSON, or is a document that
/// lacks a field or holds one that is no text, a load returns nothing.
pub proof fn lemma_load_malformed(disk: Disk, text: Seq<char>)
    requires
        disk.file == Some(text),
        json_parse(text) is None || decode_spec(json_parse(text)->Some_0) is Err,
    ensures
        load_on(disk) is None,
{
}

} // verus!
