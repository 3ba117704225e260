//! The pipeline: expansion, the traversal screen and anchoring give the path
//! to look up; what the lookup found gives the result.
use crate::anchor::anchor;
use crate::anchor::anchored;
use crate::anchor::path_is_absolute;
use crate::anchor::path_join;
use crate::anchor::path_parent;
use crate::environment::Environment;
use crate::environment::expand_env;
use crate::environment::classified;
use crate::environment::expanded;
use crate::environment::expansion;
use crate::environment::is_plain_reference;
use crate::environment::referenced;
use crate::environment::lookup;
use crate::error::ResolveError;
use crate::error::ResolveFailure;
use crate::error::outcome_view;
use crate::traversal::is_suspicious;
use crate::traversal::parent_dir_count;
use crate::traversal::path_components;
use crate::traversal::screen_components;
use crate::traversal::screened;
use crate::traversal::split_components;
use vstd::prelude::*;

verus! {

/// What looking an absolute path up on the filesystem came to.
#[derive(Clone, Debug, PartialEq, Eq)]
pub enum LookupOutcome {
    /// The path exists; this is its canonical form.
    Found(String),
    /// The path exists, but its canonical form is not valid text; `display`
    /// is the nearest text.
    NotText { display: String },
    /// The path does not exist or cannot be reached; `os_error` is the
    /// system's description and `cwd` the working directory at that moment.
    Failed { os_error: String, cwd: String },
}

/// The screen and the anchoring of an expanded path spec.
pub open spec fn placed(path: Seq<char>, text: Seq<char>, caller: Seq<char>) -> Result<
    Seq<char>,
    ResolveFailure,
> {
    match screened(path, path_components(text)) {
        Some(failure) => Err(failure),
        None => anchored(text, caller),
    }
}

/// The path to look up for the path spec `path`, named in the file `caller`,
/// with the variables of `table`: the first failure of expansion, screen and
/// anchoring, in that order, or the anchored path.
pub open spec fn prepared(
    path: Seq<char>,
    caller: Seq<char>,
    table: Map<Seq<char>, Seq<char>>,
) -> Result<Seq<char>, ResolveFailure> {
    continued(path, caller, expanded(path, table))
}

/// What follows the expansion of the path spec `path`: its failure, or the
/// screen and the anchoring of the expanded text.
pub open spec fn continued(
    path: Seq<char>,
    caller: Seq<char>,
    expansion: Result<Seq<char>, ResolveFailure>,
) -> Result<Seq<char>, ResolveFailure> {
    match expansion {
        Ok(text) => placed(path, text, caller),
        Err(failure) => Err(failure),
    }
}

/// The result of a resolution whose lookup of `raw_path` came to `outcome`.
pub open spec fn concluded(raw_path: Seq<char>, outcome: LookupOutcome) -> Result<
    Seq<char>,
    ResolveFailure,
> {
    match outcome {
        LookupOutcome::Found(canonical) => Ok(canonical@),
        LookupOutcome::NotText { display } => Err(
            ResolveFailure::NonUtf8Path { display: display@ },
        ),
        LookupOutcome::Failed { os_error, cwd } => Err(
            ResolveFailure::Canonicalization {
                raw_path,
                os_error: os_error@,
                cwd: cwd@,
            },
        ),
    }
}

/// Screens and anchors the expansion `text` of the path spec `path`.
pub fn place(path: &str, text: &str, caller: &str) -> (result: Result<String, ResolveError>)
    ensures
        outcome_view(result) == placed(path@, text@, caller@),
{
    let components = split_components(text);
    match screen_components(path, &components) {
        Ok(_) => anchor(text, caller),
        Err(error) => Err(error),
    }
}

/// Runs the stages that need no filesystem: expands the variables of `path`
/// from `env`, screens the expanded path for upward traversal, and anchors it
/// at the directory of `caller`. The result is the absolute path to look up.
/// For a path spec without `$` the expansion is the path spec itself; for one
/// that is a plain reference it is the value of the name, and a failure where
/// `env` lacks the name. A failure of the expansion always carries a name that
/// `env` lacks.
pub fn prepare(path: &str, caller: &str, env: &Environment) -> (result: Result<
    String,
    ResolveError,
>)
    ensures
        outcome_view(result) == prepared(path@, caller@, env@),
        !path@.contains('$') ==> outcome_view(result) == placed(path@, path@, caller@),
        is_plain_reference(path@) ==> outcome_view(result) == continued(
            path@,
            caller@,
            classified(path@, referenced(path@.skip(1), env@)),
        ),
        result matches Err(error) ==> (error@ matches ResolveFailure::EnvExpansion {
            var_name,
            path: named,
        } ==> named == path@ && lookup(env@, var_name) is None),
{
    match expand_env(path, env) {
        Ok(text) => place(path, text.as_str(), caller),
        Err(error) => Err(error),
    }
}

/// Turns what the lookup of `raw_path` found into the result of the
/// resolution: the canonical path where it was found, and otherwise the
/// failure with its context.
pub fn conclude(raw_path: &str, outcome: LookupOutcome) -> (result: Result<String, ResolveError>)
    ensures
        outcome_view(result) == concluded(raw_path@, outcome),
        result is Ok <==> outcome is Found,
{
    match outcome {
        LookupOutcome::Found(canonical) => Ok(canonical),
        LookupOutcome::NotText { display } => Err(ResolveError::NonUtf8Path { display }),
        LookupOutcome::Failed { os_error, cwd } => Err(
            ResolveError::Canonicalization { raw_path: raw_path.to_owned(), os_error, cwd },
        ),
    }
}

/// The screen comes before anchoring: an expansion that the screen rejects
/// fails with the path spec and the two counts, whatever the calling file.
pub proof fn lemma_rejected_before_anchoring(path: Seq<char>, text: Seq<char>, caller: Seq<char>)
    requires
        is_suspicious(path_components(text)),
    ensures
        placed(path, text, caller) == Err::<Seq<char>, ResolveFailure>(
            ResolveFailure::SuspiciousPath {
                path,
                up_count: parent_dir_count(path_components(text)),
                total_count: path_components(text).len(),
            },
        ),
{
}

/// An absolute expansion is placed the same way from every calling file: at
/// itself, where it passes the screen.
pub proof fn lemma_absolute_ignores_caller(
    path: Seq<char>,
    text: Seq<char>,
    caller: Seq<char>,
    other: Seq<char>,
)
    requires
        path_is_absolute(text),
    ensures
        placed(path, text, caller) == placed(path, text, other),
        !is_suspicious(path_components(text)) ==> placed(path, text, caller) == Ok::<
            Seq<char>,
            ResolveFailure,
        >(text),
{
}

/// A relative expansion that passes the screen is placed at the join of the
/// calling file's parent directory and the expansion.
pub proof fn lemma_relative_placed_under_caller(
    path: Seq<char>,
    text: Seq<char>,
    caller: Seq<char>,
    directory: Seq<char>,
)
    requires
        !path_is_absolute(text),
        !is_suspicious(path_components(text)),
        path_parent(caller) == Some(directory),
    ensures
        placed(path, text, caller) == Ok::<Seq<char>, ResolveFailure>(
            path_join(directory, text),
        ),
{
}

/// A failed expansion ends the resolution: the failure names the variable and
/// the path spec, and neither the screen nor the calling file changes it.
pub proof fn lemma_expansion_failure_is_final(
    path: Seq<char>,
    caller: Seq<char>,
    table: Map<Seq<char>, Seq<char>>,
)
    requires
        expansion(path, table) is Err,
    ensures
        prepared(path, caller, table) == Err::<Seq<char>, ResolveFailure>(
            ResolveFailure::EnvExpansion { var_name: expansion(path, table)->Err_0, path },
        ),
{
}

/// A lookup that failed never yields a path: the resolution fails with the
/// path that was looked up, the system's description and the working
/// directory.
pub proof fn lemma_failed_lookup_is_an_error(raw_path: Seq<char>, os_error: String, cwd: String)
    ensures
        concluded(raw_path, LookupOutcome::Failed { os_error, cwd }) == Err::<
            Seq<char>,
            ResolveFailure,
        >(ResolveFailure::Canonicalization { raw_path, os_error: os_error@, cwd: cwd@ }),
{
}

} // verus!
