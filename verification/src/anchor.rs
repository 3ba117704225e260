//! Anchoring: a relative path is joined onto the directory of the file that
//! names it. This is path algebra; nothing here touches the filesystem.
use crate::error::ResolveError;
use crate::error::ResolveFailure;
use crate::error::outcome_view;
use std::path::Path;
use vstd::prelude::*;

verus! {

/// Whether `std::path::Path::is_absolute` holds of `path`, by the path syntax
/// of the platform the library is built for.
pub uninterp spec fn path_is_absolute(path: Seq<char>) -> bool;

/// What `std::path::Path::parent` gives for `path`: the path without its last
/// component, or nothing where the path ends in a root or is empty.
pub uninterp spec fn path_parent(path: Seq<char>) -> Option<Seq<char>>;

/// What `std::path::Path::join` gives for `path` adjoined to `base`.
pub uninterp spec fn path_join(base: Seq<char>, path: Seq<char>) -> Seq<char>;

/// The view of a directory that may be absent.
pub open spec fn directory_view(directory: Option<String>) -> Option<Seq<char>> {
    match directory {
        Some(text) => Some(text@),
        None => None,
    }
}

/// The anchored path, given whether `expanded` is absolute and what the parent
/// directory of `caller` is: an absolute path stays as it is; a relative one is
/// joined onto the parent, and fails where there is none.
pub open spec fn anchored_with(
    expanded: Seq<char>,
    caller: Seq<char>,
    absolute: bool,
    parent: Option<Seq<char>>,
) -> Result<Seq<char>, ResolveFailure> {
    if absolute {
        Ok(expanded)
    } else {
        match parent {
            Some(directory) => Ok(path_join(directory, expanded)),
            None => Err(ResolveFailure::NoParentDirectory { caller }),
        }
    }
}

/// The anchored path of `expanded` for a calling file `caller`.
pub open spec fn anchored(expanded: Seq<char>, caller: Seq<char>) -> Result<
    Seq<char>,
    ResolveFailure,
> {
    anchored_with(expanded, caller, path_is_absolute(expanded), path_parent(caller))
}

/// Calls `std::path::Path::is_absolute` on `path`. Trusted: the result is what
/// `path_is_absolute` names.
#[verifier::external_body]
fn is_absolute_path(path: &str) -> (absolute: bool)
    ensures
        absolute == path_is_absolute(path@),
{
    Path::new(path).is_absolute()
}

/// Calls `std::path::Path::parent` on `path` and hands the parent back as
/// text. Trusted: the result is what `path_parent` names.
#[verifier::external_body]
fn parent_of(path: &str) -> (parent: Option<String>)
    ensures
        directory_view(parent) == path_parent(path@),
{
    match Path::new(path).parent() {
        Some(directory) => Some(directory.to_string_lossy().into_owned()),
        None => None,
    }
}

/// Calls `std::path::Path::join` on `base` with `path` and hands the joined
/// path back as text. Trusted: the result is what `path_join` names.
#[verifier::external_body]
fn join_paths(base: &str, path: &str) -> (joined: String)
    ensures
        joined@ == path_join(base@, path@),
{
    Path::new(base).join(path).to_string_lossy().into_owned()
}

/// Anchors `expanded`, given whether it is absolute and the parent directory
/// of `caller`.
pub fn anchor_with(expanded: &str, caller: &str, absolute: bool, parent: Option<String>) -> (result:
    Result<String, ResolveError>)
    ensures
        outcome_view(result) == anchored_with(
            expanded@,
            caller@,
            absolute,
            directory_view(parent),
        ),
{
    if absolute {
        Ok(expanded.to_owned())
    } else {
        match parent {
            Some(directory) => Ok(join_paths(directory.as_str(), expanded)),
            None => Err(ResolveError::NoParentDirectory { caller: caller.to_owned() }),
        }
    }
}

/// Makes `expanded` absolute: returns it unchanged where it is absolute
/// already, and otherwise joins it, without normalising, onto the parent
/// directory of `caller`. Fails where `caller` has no parent directory.
pub fn anchor(expanded: &str, caller: &str) -> (result: Result<String, ResolveError>)
    ensures
        outcome_view(result) == anchored(expanded@, caller@),
{
    if is_absolute_path(expanded) {
        anchor_with(expanded, caller, true, None)
    } else {
        let parent = parent_of(caller);
        anchor_with(expanded, caller, false, parent)
    }
}

/// An absolute path is anchored at itself, whatever the calling file.
pub proof fn lemma_absolute_path_unchanged(expanded: Seq<char>, caller: Seq<char>)
    requires
        path_is_absolute(expanded),
    ensures
        anchored(expanded, caller) == Ok::<Seq<char>, ResolveFailure>(expanded),
{
}

/// A relative path is anchored at the join of the calling file's parent
/// directory and the path, where the calling file has a parent directory, and
/// fails with the calling file named where it has none.
pub proof fn lemma_relative_path_joined(expanded: Seq<char>, caller: Seq<char>)
    requires
        !path_is_absolute(expanded),
    ensures
        path_parent(caller) matches Some(directory) ==> anchored(expanded, caller) == Ok::<
            Seq<char>,
            ResolveFailure,
        >(path_join(directory, expanded)),
        path_parent(caller) is None ==> anchored(expanded, caller) == Err::<
            Seq<char>,
            ResolveFailure,
        >(ResolveFailure::NoParentDirectory { caller }),
{
}

} // verus!
