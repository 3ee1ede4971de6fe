//! The library's error type.

use vstd::prelude::*;

verus! {

/// Why an operation failed. Each variant carries the values that name the
/// failing input.
#[derive(Debug, Clone, PartialEq, Eq)]
pub enum DotfilesError {
    /// A required environment variable is not set; holds its name.
    MissingEnvironment(String),
    /// A shell that is neither zsh nor bash; holds the value as given.
    UnsupportedShell(String),
    /// A path that had to exist does not; holds the path and what it was for.
    PathNotFound(String, String),
    /// A filesystem operation failed; holds the path and the reason.
    IoFailure(String, String),
    /// A command-line program needed to install tools is not available.
    ToolUnavailable(String),
    /// An install command ran and failed; holds the tool and its error output.
    SubprocessFailure(String, String),
}

} // verus!
