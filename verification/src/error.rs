//! The failures of path resolution. Each ends the resolution: there is no
//! partial result and no fallback.
use vstd::prelude::*;

verus! {

/// Why a path spec could not be resolved, with the context of the failure.
#[derive(Clone, Debug, PartialEq, Eq)]
pub enum ResolveError {
    /// A variable that the path spec refers to is not set to valid text.
    EnvExpansion { var_name: String, path: String },
    /// The traversal screen rejected the expanded path.
    SuspiciousPath { path: String, up_count: usize, total_count: usize },
    /// The calling file has no parent directory to anchor a relative path at.
    NoParentDirectory { caller: String },
    /// The path could not be looked up on the filesystem.
    Canonicalization { raw_path: String, os_error: String, cwd: String },
    /// The canonical path is not valid text.
    NonUtf8Path { display: String },
}

/// A failure as contracts speak of it: the same variants over sequences of
/// characters and mathematical integers.
pub ghost enum ResolveFailure {
    EnvExpansion { var_name: Seq<char>, path: Seq<char> },
    SuspiciousPath { path: Seq<char>, up_count: nat, total_count: nat },
    NoParentDirectory { caller: Seq<char> },
    Canonicalization { raw_path: Seq<char>, os_error: Seq<char>, cwd: Seq<char> },
    NonUtf8Path { display: Seq<char> },
}

impl View for ResolveError {
    type V = ResolveFailure;

    open spec fn view(&self) -> ResolveFailure {
        match *self {
            ResolveError::EnvExpansion { var_name, path } => ResolveFailure::EnvExpansion {
                var_name: var_name@,
                path: path@,
            },
            ResolveError::SuspiciousPath {
                path,
                up_count,
                total_count,
            } => ResolveFailure::SuspiciousPath {
                path: path@,
                up_count: up_count as nat,
                total_count: total_count as nat,
            },
            ResolveError::NoParentDirectory { caller } => ResolveFailure::NoParentDirectory {
                caller: caller@,
            },
            ResolveError::Canonicalization {
                raw_path,
                os_error,
                cwd,
            } => ResolveFailure::Canonicalization {
                raw_path: raw_path@,
                os_error: os_error@,
                cwd: cwd@,
            },
            ResolveError::NonUtf8Path { display } => ResolveFailure::NonUtf8Path {
                display: display@,
            },
        }
    }
}

/// What a resolution stage returned, as contracts speak of it.
pub open spec fn outcome_view(outcome: Result<String, ResolveError>) -> Result<
    Seq<char>,
    ResolveFailure,
> {
    match outcome {
        Ok(text) => Ok(text@),
        Err(error) => Err(error@),
    }
}

/// The diagnostic for a failure: what went wrong, with the context that the
/// failure carries, and what to look at.
pub open spec fn message_text(failure: ResolveFailure) -> Seq<char> {
    match failure {
        ResolveFailure::EnvExpansion { var_name, path } => {
            "Failed to expand environment variable '"@ + var_name + "' in path '"@ + path
                + "'. Make sure the environment variable exists and is valid."@
        },
        ResolveFailure::SuspiciousPath { path, up_count, total_count } => {
            "Path '"@ + path
                + "' contains suspicious traversal patterns. For security reasons, paths with excessive '..' segments are not allowed."@
        },
        ResolveFailure::NoParentDirectory { caller } => {
            "Failed to get parent directory of the source file '"@ + caller
                + "'. The file appears to be in the root directory."@
        },
        ResolveFailure::Canonicalization { raw_path, os_error, cwd } => {
            "Failed to resolve path '"@ + raw_path + "': "@ + os_error
                + ". Make sure the file or directory exists and is accessible. Current working directory: "@
                + cwd
        },
        ResolveFailure::NonUtf8Path { display } => {
            "Path '"@ + display
                + "' contains invalid UTF-8 characters. This is common on systems with non-UTF-8 file paths. Consider using ASCII-only paths."@
        },
    }
}

impl ResolveError {
    /// The diagnostic to show for this failure.
    pub fn message(&self) -> (text: String)
        ensures
            text@ == message_text(self@),
    {
        match self {
            ResolveError::EnvExpansion { var_name, path } => {
                let mut text = String::from_str("Failed to expand environment variable '");
                text.append(var_name.as_str());
                text.append("' in path '");
                text.append(path.as_str());
                text.append("'. Make sure the environment variable exists and is valid.");
                text
            },
            ResolveError::SuspiciousPath { path, up_count: _, total_count: _ } => {
                let mut text = String::from_str("Path '");
                text.append(path.as_str());
                text.append(
                    "' contains suspicious traversal patterns. For security reasons, paths with excessive '..' segments are not allowed.",
                );
                text
            },
            ResolveError::NoParentDirectory { caller } => {
                let mut text = String::from_str(
                    "Failed to get parent directory of the source file '",
                );
                text.append(caller.as_str());
                text.append("'. The file appears to be in the root directory.");
                text
            },
            ResolveError::Canonicalization { raw_path, os_error, cwd } => {
                let mut text = String::from_str("Failed to resolve path '");
                text.append(raw_path.as_str());
                text.append("': ");
                text.append(os_error.as_str());
                text.append(
                    ". Make sure the file or directory exists and is accessible. Current working directory: ",
                );
                text.append(cwd.as_str());
                text
            },
            ResolveError::NonUtf8Path { display } => {
                let mut text = String::from_str("Path '");
                text.append(display.as_str());
                text.append(
                    "' contains invalid UTF-8 characters. This is common on systems with non-UTF-8 file paths. Consider using ASCII-only paths.",
                );
                text
            },
        }
    }
}

} // verus!
