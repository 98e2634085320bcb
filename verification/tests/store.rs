use clip_translator::config::AppConfig;
use clip_translator::location::ConfigLocation;
use clip_translator::session::{SaveAction, SaveEvent, SavePhase, SaveSession};
use clip_translator::store::{confirm_text, load, parse_config, render_config, SaveError};
use std::path::PathBuf;

/// A disk in memory on which every action succeeds that can succeed.
struct MemoryDisk {
    directory: bool,
    file: Option<String>,
    actions: Vec<String>,
}

fn empty_disk() -> MemoryDisk {
    MemoryDisk { directory: false, file: None, actions: Vec::new() }
}

fn perform_on(disk: &mut MemoryDisk, action: &SaveAction) -> SaveEvent {
    match action {
        SaveAction::CheckDirectory => {
            disk.actions.push("check".to_string());
            if disk.directory {
                SaveEvent::DirectoryExists
            } else {
                SaveEvent::DirectoryMissing
            }
        }
        SaveAction::CreateDirectory => {
            disk.actions.push("mkdir".to_string());
            disk.directory = true;
            SaveEvent::Done
        }
        SaveAction::CreateFile => {
            disk.actions.push("create".to_string());
            if disk.directory {
                disk.file = Some(String::new());
                SaveEvent::Done
            } else {
                SaveEvent::Failed("no such directory".to_string())
            }
        }
        SaveAction::Write(text) => {
            disk.actions.push("write".to_string());
            if disk.file.is_some() {
                disk.file = Some(text.clone());
                SaveEvent::Done
            } else {
                SaveEvent::Failed("no open file".to_string())
            }
        }
        SaveAction::Finish(_) => SaveEvent::Done,
    }
}

fn somewhere() -> Option<ConfigLocation> {
    Some(ConfigLocation::within(PathBuf::from("/tmp/clip-translator-test")))
}

fn save_to(disk: &mut MemoryDisk, config: AppConfig) -> Result<(), SaveError> {
    let mut session = SaveSession::begin(config, somewhere())?;
    let mut event = SaveEvent::Started;
    for _ in 0..8 {
        let action = session.step(event);
        if let SaveAction::Finish(outcome) = action {
            assert_eq!(session.phase(), SavePhase::Finished);
            return outcome;
        }
        event = perform_on(disk, &action);
    }
    panic!("the save did not end");
}

fn load_from(disk: &MemoryDisk) -> Option<AppConfig> {
    load(disk.file.as_deref())
}

fn record(key: &str, prompt: &str) -> AppConfig {
    AppConfig::new(key.to_string(), prompt.to_string())
}

#[test]
fn example_scenario_survives_restart() {
    let mut disk = empty_disk();
    assert_eq!(save_to(&mut disk, record("sk-test", "Translate to English")), Ok(()));
    let fresh = MemoryDisk { directory: disk.directory, file: disk.file.clone(), actions: Vec::new() };
    assert_eq!(load_from(&fresh), Some(record("sk-test", "Translate to English")));
}

#[test]
fn save_writes_the_exact_text() {
    let mut disk = empty_disk();
    assert_eq!(save_to(&mut disk, record("sk-test", "Translate to English")), Ok(()));
    assert_eq!(
        disk.file.as_deref(),
        Some("{\"anthropicApiKey\":\"sk-test\",\"systemPrompt\":\"Translate to English\"}")
    );
    assert!(disk.directory);
}

#[test]
fn save_creates_a_missing_directory_first() {
    let mut disk = empty_disk();
    assert_eq!(save_to(&mut disk, record("k", "p")), Ok(()));
    assert_eq!(disk.actions, vec!["check", "mkdir", "create", "write"]);
}

#[test]
fn save_skips_creating_an_existing_directory() {
    let mut disk = MemoryDisk { directory: true, file: None, actions: Vec::new() };
    assert_eq!(save_to(&mut disk, record("k", "p")), Ok(()));
    assert_eq!(disk.actions, vec!["check", "create", "write"]);
}

#[test]
fn round_trip_keeps_every_character() {
    let samples = [
        ("", ""),
        ("sk-ant-\"quoted\"", "line one\nline two\ttabbed \\ backslash"),
        ("キー", "日本語に翻訳してください。 emoji: \u{1F600} nul: \u{0000} del: \u{007f}"),
        ("{\"anthropicApiKey\":1}", "null"),
    ];
    for (key, prompt) in samples {
        let mut disk = empty_disk();
        assert_eq!(save_to(&mut disk, record(key, prompt)), Ok(()));
        assert_eq!(load_from(&disk), Some(record(key, prompt)));
    }
}

#[test]
fn render_then_parse_gives_the_record_back() {
    let config = record("sk-test", "Translate to English");
    let text = render_config(&config).expect("a record of two texts serializes");
    assert_eq!(parse_config(&text), Some(config));
}

#[test]
fn first_run_loads_nothing() {
    assert_eq!(load(None), None);
    assert_eq!(load_from(&empty_disk()), None);
}

#[test]
fn saving_twice_is_saving_once() {
    let mut once = empty_disk();
    assert_eq!(save_to(&mut once, record("k", "p")), Ok(()));
    let mut twice = empty_disk();
    assert_eq!(save_to(&mut twice, record("k", "p")), Ok(()));
    assert_eq!(save_to(&mut twice, record("k", "p")), Ok(()));
    assert_eq!(once.file, twice.file);
    assert_eq!(once.directory, twice.directory);
    assert_eq!(load_from(&twice), Some(record("k", "p")));
}

#[test]
fn second_save_overwrites_the_first() {
    let mut disk = empty_disk();
    assert_eq!(save_to(&mut disk, record("first-key", "a much longer first prompt")), Ok(()));
    assert_eq!(save_to(&mut disk, record("k2", "p2")), Ok(()));
    assert_eq!(load_from(&disk), Some(record("k2", "p2")));
    assert_eq!(disk.file.as_deref(), Some("{\"anthropicApiKey\":\"k2\",\"systemPrompt\":\"p2\"}"));
}

#[test]
fn malformed_files_load_as_absent() {
    let texts = [
        "",
        "not json",
        "{",
        "{\"anthropicApiKey\":\"k\",\"systemPrompt\":\"p\"",
        "{\"anthropicApiKey\":\"k\",\"systemPrompt\":\"p\"} trailing",
        "null",
        "[]",
        "\"text\"",
        "42",
        "{}",
        "{\"anthropicApiKey\":\"k\"}",
        "{\"systemPrompt\":\"p\"}",
        "{\"anthropicApiKey\":1,\"systemPrompt\":\"p\"}",
        "{\"anthropicApiKey\":\"k\",\"systemPrompt\":null}",
        "{\"anthropicApiKey\":\"k\",\"systemPrompt\":[\"p\"]}",
        "{\"anthropic_api_key\":\"k\",\"system_prompt\":\"p\"}",
    ];
    for text in texts {
        assert_eq!(load(Some(text)), None, "text: {}", text);
    }
}

#[test]
fn unknown_fields_are_ignored_on_load() {
    let text = "{\"version\":3,\"systemPrompt\":\"p\",\"extra\":{\"a\":[1,2.5,true]},\"anthropicApiKey\":\"k\"}";
    assert_eq!(load(Some(text)), Some(record("k", "p")));
}

#[test]
fn whitespace_and_escapes_are_read() {
    let text = " {\n  \"anthropicApiKey\" : \"a\\u0041\\n\",\r\n  \"systemPrompt\" : \"\\\"q\\\"\"\n} ";
    assert_eq!(load(Some(text)), Some(record("aA\n", "\"q\"")));
}

#[test]
fn save_without_a_location_fails_at_once() {
    let begun = SaveSession::begin(record("k", "p"), None);
    assert!(matches!(begun, Err(SaveError::NoDirectory)));
    assert_eq!(
        SaveError::NoDirectory.message(),
        "プロジェクトディレクトリの作成に失敗しました。"
    );
}

#[test]
fn a_reported_failure_ends_the_save_with_its_text() {
    for steps in 0..4 {
        let mut disk = MemoryDisk { directory: true, file: None, actions: Vec::new() };
        let mut session = SaveSession::begin(record("k", "p"), somewhere()).unwrap();
        let mut event = SaveEvent::Started;
        for _ in 0..steps {
            let action = session.step(event);
            event = perform_on(&mut disk, &action);
        }
        let _ = session.step(event);
        let action = session.step(SaveEvent::Failed("disk full".to_string()));
        if steps < 3 {
            assert_eq!(action, SaveAction::Finish(Err(SaveError::Io("disk full".to_string()))));
        } else {
            assert_eq!(action, SaveAction::Finish(Err(SaveError::Protocol)));
        }
        assert_eq!(session.phase(), SavePhase::Finished);
    }
    assert_eq!(SaveError::Io("disk full".to_string()).message(), "disk full");
}

#[test]
fn a_failed_file_creation_writes_nothing() {
    let mut session = SaveSession::begin(record("k", "p"), somewhere()).unwrap();
    assert_eq!(session.step(SaveEvent::Started), SaveAction::CheckDirectory);
    assert_eq!(session.step(SaveEvent::DirectoryExists), SaveAction::CreateFile);
    assert_eq!(
        session.step(SaveEvent::Failed("permission denied".to_string())),
        SaveAction::Finish(Err(SaveError::Io("permission denied".to_string())))
    );
}

#[test]
fn events_out_of_turn_end_the_save() {
    let cases: Vec<(Vec<SaveEvent>, SaveEvent)> = vec![
        (vec![], SaveEvent::Done),
        (vec![], SaveEvent::DirectoryExists),
        (vec![SaveEvent::Started], SaveEvent::Started),
        (vec![SaveEvent::Started], SaveEvent::Done),
        (vec![SaveEvent::Started, SaveEvent::DirectoryMissing], SaveEvent::DirectoryExists),
        (vec![SaveEvent::Started, SaveEvent::DirectoryExists], SaveEvent::DirectoryMissing),
        (vec![SaveEvent::Started, SaveEvent::DirectoryExists, SaveEvent::Done], SaveEvent::Started),
    ];
    for (before, wrong) in cases {
        let mut session = SaveSession::begin(record("k", "p"), somewhere()).unwrap();
        for event in before {
            let _ = session.step(event);
        }
        assert_eq!(session.step(wrong), SaveAction::Finish(Err(SaveError::Protocol)));
        assert_eq!(session.phase(), SavePhase::Finished);
        assert_eq!(session.step(SaveEvent::Done), SaveAction::Finish(Err(SaveError::Protocol)));
    }
    assert_eq!(SaveError::Protocol.message(), "unexpected event for this step of the save");
}

#[test]
fn the_phases_follow_one_another() {
    let mut session = SaveSession::begin(record("k", "p"), somewhere()).unwrap();
    assert_eq!(session.phase(), SavePhase::Ready);
    assert_eq!(session.step(SaveEvent::Started), SaveAction::CheckDirectory);
    assert_eq!(session.phase(), SavePhase::CheckingDirectory);
    assert_eq!(session.step(SaveEvent::DirectoryMissing), SaveAction::CreateDirectory);
    assert_eq!(session.phase(), SavePhase::CreatingDirectory);
    assert_eq!(session.step(SaveEvent::Done), SaveAction::CreateFile);
    assert_eq!(session.phase(), SavePhase::CreatingFile);
    assert_eq!(
        session.step(SaveEvent::Done),
        SaveAction::Write("{\"anthropicApiKey\":\"k\",\"systemPrompt\":\"p\"}".to_string())
    );
    assert_eq!(session.phase(), SavePhase::Writing);
    assert_eq!(session.step(SaveEvent::Done), SaveAction::Finish(Ok(())));
    assert_eq!(session.phase(), SavePhase::Finished);
    assert_eq!(session.config(), &record("k", "p"));
}

#[test]
fn a_text_is_confirmed_only_if_it_reads_back() {
    let config = record("k", "p");
    assert_eq!(
        confirm_text(&config, "text".to_string(), Some(record("k", "p"))),
        Ok("text".to_string())
    );
    assert_eq!(
        confirm_text(&config, "text".to_string(), Some(record("k", "other"))),
        Err(SaveError::Unstable)
    );
    assert_eq!(
        confirm_text(&config, "text".to_string(), Some(record("other", "p"))),
        Err(SaveError::Unstable)
    );
    assert_eq!(confirm_text(&config, "text".to_string(), None), Err(SaveError::Unstable));
    assert_eq!(
        SaveError::Unstable.message(),
        "the serialized configuration does not read back as written"
    );
}

#[test]
fn a_serializer_failure_is_described_by_its_text() {
    let error = SaveError::Serialization("key must be a string".to_string());
    assert_eq!(error.message(), "key must be a string");
}
