//! The traversal screen: a coarse structural filter on the components of a
//! path. It counts components, it does not anchor the path against a trusted
//! root, and so it is a heuristic rather than a security boundary.
use crate::error::ResolveError;
use crate::error::ResolveFailure;
use std::path::Component;
use std::path::Path;
use vstd::prelude::*;

verus! {

/// The kind of one structural component of a path.
#[derive(Clone, Copy, Debug, PartialEq, Eq, Structural)]
pub enum PathComponent {
    /// A drive or volume prefix.
    Prefix,
    /// The root directory.
    RootDir,
    /// A current-directory marker, `.`.
    CurDir,
    /// A parent-directory marker, `..`.
    ParentDir,
    /// A named segment.
    Normal,
}

/// The most parent-directory markers that a path may hold.
pub const MAX_PARENT_DIRS: usize = 3;

/// The kinds of the components that `std::path::Path::components` yields for
/// `path`, in order, by the path syntax of the platform the library is built
/// for.
pub uninterp spec fn path_components(path: Seq<char>) -> Seq<PathComponent>;

/// How many of `components` are parent-directory markers.
pub open spec fn parent_dir_count(components: Seq<PathComponent>) -> nat
    decreases components.len(),
{
    if components.len() == 0 {
        0
    } else {
        parent_dir_count(components.drop_last()) + if components.last()
            == PathComponent::ParentDir {
            1nat
        } else {
            0nat
        }
    }
}

/// The rule of the screen over the two counts: more than three markers, or,
/// in a path that has components at all, more markers than half its
/// components (the half rounded down).
pub open spec fn counts_suspicious(up: nat, total: nat) -> bool {
    up > 3 || (total > 0 && up > total / 2)
}

/// Whether a sequence of components is rejected by the screen.
pub open spec fn is_suspicious(components: Seq<PathComponent>) -> bool {
    counts_suspicious(parent_dir_count(components), components.len())
}

/// The failure, if any, with which the screen answers the path spec `path`
/// whose expansion has the components `components`.
pub open spec fn screened(path: Seq<char>, components: Seq<PathComponent>) -> Option<
    ResolveFailure,
> {
    if is_suspicious(components) {
        Some(
            ResolveFailure::SuspiciousPath {
                path,
                up_count: parent_dir_count(components),
                total_count: components.len(),
            },
        )
    } else {
        None
    }
}

/// A sequence never holds more parent-directory markers than components.
pub proof fn lemma_parent_dir_count_bounded(components: Seq<PathComponent>)
    ensures
        parent_dir_count(components) <= components.len(),
    decreases components.len(),
{
    if components.len() > 0 {
        lemma_parent_dir_count_bounded(components.drop_last());
    }
}

/// Calls `std::path::Path::components` on `path` and keeps the kind of each
/// component. Trusted: the result is what `path_components` names.
#[verifier::external_body]
pub(crate) fn split_components(path: &str) -> (kinds: Vec<PathComponent>)
    ensures
        kinds@ == path_components(path@),
{
    let mut kinds = Vec::new();
    for component in Path::new(path).components() {
        kinds.push(match component {
            Component::Prefix(_) => PathComponent::Prefix,
            Component::RootDir => PathComponent::RootDir,
            Component::CurDir => PathComponent::CurDir,
            Component::ParentDir => PathComponent::ParentDir,
            Component::Normal(_) => PathComponent::Normal,
        });
    }
    kinds
}

/// Counts the parent-directory markers among `components`.
pub fn count_parent_dirs(components: &Vec<PathComponent>) -> (up: usize)
    ensures
        up == parent_dir_count(components@),
        up <= components@.len(),
{
    let mut up: usize = 0;
    let mut i: usize = 0;
    while i < components.len()
        invariant
            i <= components@.len(),
            up == parent_dir_count(components@.take(i as int)),
            up <= i,
        decreases components@.len() - i,
    {
        proof {
            assert(components@.take(i + 1).drop_last() =~= components@.take(i as int));
        }
        if components[i] == PathComponent::ParentDir {
            up = up + 1;
        }
        i = i + 1;
    }
    proof {
        assert(components@.take(i as int) =~= components@);
    }
    up
}

/// Applies the screen to a sequence of components.
pub fn components_suspicious(components: &Vec<PathComponent>) -> (suspicious: bool)
    ensures
        suspicious == is_suspicious(components@),
{
    let up: usize = count_parent_dirs(components);
    let total: usize = components.len();
    up > MAX_PARENT_DIRS || (total > 0 && up > total / 2)
}

/// Applies the screen to a path: splits it into its components and rejects it
/// when more than three of them are parent-directory markers, or more than
/// half of them are.
pub fn contains_suspicious_patterns(path: &str) -> (suspicious: bool)
    ensures
        suspicious == is_suspicious(path_components(path@)),
{
    let components = split_components(path);
    components_suspicious(&components)
}

/// Screens the components of an expanded path spec: accepts them, or fails
/// with the path spec `path` and the two counts.
pub fn screen_components(path: &str, components: &Vec<PathComponent>) -> (result: Result<
    (),
    ResolveError,
>)
    ensures
        match result {
            Ok(_) => screened(path@, components@) is None,
            Err(error) => screened(path@, components@) == Some(error@),
        },
{
    let up: usize = count_parent_dirs(components);
    let total: usize = components.len();
    if up > MAX_PARENT_DIRS || (total > 0 && up > total / 2) {
        Err(ResolveError::SuspiciousPath { path: path.to_owned(), up_count: up, total_count: total })
    } else {
        Ok(())
    }
}

/// The screen rejects a sequence exactly when it holds more than three
/// parent-directory markers, or when twice their number exceeds the number of
/// its components.
pub proof fn lemma_screen_rule(components: Seq<PathComponent>)
    ensures
        is_suspicious(components) <==> (parent_dir_count(components) > 3 || 2 * parent_dir_count(
            components,
        ) > components.len()),
{
    lemma_parent_dir_count_bounded(components);
}

/// A sequence without a parent-directory marker passes the screen.
pub proof fn lemma_no_parent_dir_accepted(components: Seq<PathComponent>)
    requires
        forall|i: int|
            0 <= i < components.len() ==> components[i] != PathComponent::ParentDir,
    ensures
        parent_dir_count(components) == 0,
        !is_suspicious(components),
    decreases components.len(),
{
    if components.len() > 0 {
        lemma_no_parent_dir_accepted(components.drop_last());
    }
}

} // verus!
