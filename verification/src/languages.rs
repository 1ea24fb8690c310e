//! The language registry: a closed set of sandbox languages a bot may
//! declare, selected by exact name.
//!
//! A language's build and run behaviour lives with the process code;
//! here is only what the core decides: which names resolve, and to
//! which language.  An unregistered name is a typed failure, never an
//! abort.

use vstd::prelude::*;
use crate::protocol::str_eq;

verus! {

/// How building a bot's sandbox artifact went.
#[derive(PartialEq, Eq, Structural, Debug, Clone, Copy)]
pub enum BuildResult {
    Success,
    Failure,
}

/// How launching a bot went.
#[derive(PartialEq, Eq, Structural, Debug, Clone, Copy)]
pub enum RunResult {
    Success,
    Failure,
}

/// The closed set of supported sandbox languages.
#[derive(PartialEq, Eq, Structural, Debug, Clone, Copy)]
pub enum LanguageKind {
    Python,
    Rust,
}

/// A language name outside the registry.
#[derive(PartialEq, Eq, Structural, Debug, Clone, Copy)]
pub enum LanguageError {
    UnsupportedLanguage,
}

/// Resolves a declared language name over the registry: exactly
/// `"python"` and `"rust"` resolve; every other name is a typed
/// unsupported-language failure.
pub fn detect_language(name: &str) -> (r: Result<LanguageKind, LanguageError>)
    ensures
        name@ == "python"@ ==> r == Ok::<LanguageKind, LanguageError>(LanguageKind::Python),
        name@ == "rust"@ ==> r == Ok::<LanguageKind, LanguageError>(LanguageKind::Rust),
        name@ != "python"@ && name@ != "rust"@ ==> r == Err::<LanguageKind, LanguageError>(
            LanguageError::UnsupportedLanguage,
        ),
{
    proof {
        reveal_strlit("python");
        reveal_strlit("rust");
        assert("python"@.len() == 6);
        assert("rust"@.len() == 4);
    }
    if str_eq(name, "python") {
        Ok(LanguageKind::Python)
    } else if str_eq(name, "rust") {
        Ok(LanguageKind::Rust)
    } else {
        Err(LanguageError::UnsupportedLanguage)
    }
}

} // verus!
