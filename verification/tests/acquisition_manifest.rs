//! Bot acquisition: the descriptor, the language registry and the blame
//! of a failed step.

use pokerbots::acquisition::{
    classify_acquire_failure, parse_manifest, resolve_language, AcquireStep, BotManifest,
};
use pokerbots::languages::{detect_language, LanguageError, LanguageKind};
use pokerbots::outcome::{GameError, WhichBot};

#[test]
fn manifest_fields_are_read() {
    let m = parse_manifest("{\"run\": \"./bot --play\", \"language\": \"python\"}").unwrap();
    assert_eq!(m.run, "./bot --play");
    assert_eq!(m.language, "python");
}

#[test]
fn manifest_field_order_does_not_matter() {
    let m = parse_manifest("{\"language\": \"rust\", \"run\": \"cargo run\"}").unwrap();
    assert_eq!(m.run, "cargo run");
    assert_eq!(m.language, "rust");
}

#[test]
fn broken_manifests_are_internal_failures() {
    for text in [
        "not json",
        "{}",
        "{\"run\": 3, \"language\": \"python\"}",
        "{\"run\": \"./bot\"}",
        "[1, 2]",
    ] {
        assert!(matches!(parse_manifest(text), Err(GameError::InternalError)));
    }
}

#[test]
fn language_registry_is_closed() {
    assert_eq!(detect_language("python"), Ok(LanguageKind::Python));
    assert_eq!(detect_language("rust"), Ok(LanguageKind::Rust));
    assert_eq!(
        detect_language("cobol"),
        Err(LanguageError::UnsupportedLanguage)
    );
    assert_eq!(
        detect_language("Python"),
        Err(LanguageError::UnsupportedLanguage)
    );
}

#[test]
fn manifest_language_resolves_over_the_registry() {
    let m = BotManifest {
        run: "./bot".to_string(),
        language: "rust".to_string(),
    };
    assert_eq!(resolve_language(&m), Ok(LanguageKind::Rust));
    let bad = BotManifest {
        run: "./bot".to_string(),
        language: "lisp".to_string(),
    };
    assert!(matches!(resolve_language(&bad), Err(GameError::InternalError)));
}

#[test]
fn environment_steps_blame_neither_seat() {
    for step in [AcquireStep::Download, AcquireStep::Unpack, AcquireStep::ReadManifest] {
        assert_eq!(
            classify_acquire_failure(step, WhichBot::Challenger),
            GameError::InternalError
        );
    }
    assert_eq!(
        classify_acquire_failure(AcquireStep::Launch, WhichBot::Challenger),
        GameError::RunTimeError(WhichBot::Challenger)
    );
}
