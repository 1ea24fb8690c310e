//! Bot acquisition: the manifest a bot ships and the blame each
//! acquisition step carries when it fails.
//!
//! A bot's artifact holds a descriptor with a shell run command and a
//! language name.  Fetching, unpacking or reading the descriptor are
//! environment work: their failures are `InternalError`, attributable
//! to neither seat.  Launching the bot is that seat's own: a launch
//! failure is a `RunTimeError` for it.

use vstd::prelude::*;
use crate::languages::LanguageError;
use crate::languages::LanguageKind;
use crate::languages::detect_language;
use crate::outcome::GameError;
use crate::outcome::WhichBot;

verus! {

/// A bot's descriptor: how to start it, and in which language's
/// sandbox.
#[derive(Debug, Clone)]
pub struct BotManifest {
    /// The shell command that starts the bot.
    pub run: String,
    /// The declared language's name.
    pub language: String,
}

/// The two string fields of a manifest text, as the JSON reader
/// extracts them, or nothing where the text is not a JSON object with
/// string fields `run` and `language`.
pub uninterp spec fn manifest_fields_of(s: Seq<char>) -> Option<(Seq<char>, Seq<char>)>;

/// Relies on `serde_json::from_str::<Value>`, `Value::get` and
/// `Value::as_str`: parses the text as JSON and hands out the `run` and
/// `language` string fields, which depend on the text alone.
#[verifier::external_body]
fn manifest_fields(s: &str) -> (r: Option<(String, String)>)
    ensures
        r matches Some(f) ==> manifest_fields_of(s@) == Some((f.0@, f.1@)),
        r is None ==> manifest_fields_of(s@) is None,
{
    let v: serde_json::Value = serde_json::from_str(s).ok()?;
    let run = v.get("run")?.as_str()?.to_string();
    let language = v.get("language")?.as_str()?.to_string();
    Some((run, language))
}

/// Reads a bot's descriptor text.  A text whose `run` and `language`
/// string fields the JSON reader finds yields exactly those; any other
/// text is an internal failure, attributable to neither seat.
pub fn parse_manifest(s: &str) -> (r: Result<BotManifest, GameError>)
    ensures
        r matches Ok(m) ==> manifest_fields_of(s@) == Some((m.run@, m.language@)),
        r is Err ==> manifest_fields_of(s@) is None && r == Err::<BotManifest, GameError>(
            GameError::InternalError,
        ),
{
    match manifest_fields(s) {
        Some((run, language)) => Ok(BotManifest { run, language }),
        None => Err(GameError::InternalError),
    }
}

/// Resolves a manifest's declared language over the registry.  An
/// unregistered name is an internal failure: the environment accepted
/// an artifact it cannot run.
pub fn resolve_language(m: &BotManifest) -> (r: Result<LanguageKind, GameError>)
    ensures
        m.language@ == "python"@ ==> r == Ok::<LanguageKind, GameError>(LanguageKind::Python),
        m.language@ == "rust"@ ==> r == Ok::<LanguageKind, GameError>(LanguageKind::Rust),
        m.language@ != "python"@ && m.language@ != "rust"@ ==> r == Err::<LanguageKind, GameError>(
            GameError::InternalError,
        ),
{
    match detect_language(m.language.as_str()) {
        Ok(kind) => Ok(kind),
        Err(LanguageError::UnsupportedLanguage) => Err(GameError::InternalError),
    }
}

/// One step of acquiring a bot.
#[derive(PartialEq, Eq, Structural, Debug, Clone, Copy)]
pub enum AcquireStep {
    /// Fetching the compiled artifact from storage.
    Download,
    /// Unpacking the artifact into the scratch directory.
    Unpack,
    /// Reading and parsing the descriptor.
    ReadManifest,
    /// Launching the bot's process.
    Launch,
}

/// Who a failed acquisition step blames: the environment steps —
/// download, unpack, descriptor — blame neither seat and are internal;
/// only a failed launch is the acquired seat's own runtime failure.
pub fn classify_acquire_failure(step: AcquireStep, seat: WhichBot) -> (r: GameError)
    ensures
        step is Launch ==> r == GameError::RunTimeError(seat),
        !(step is Launch) ==> r == GameError::InternalError,
{
    match step {
        AcquireStep::Launch => GameError::RunTimeError(seat),
        _ => GameError::InternalError,
    }
}

} // verus!
