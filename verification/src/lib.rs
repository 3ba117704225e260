//! Resolution of a path spec into an absolute path, anchored at the file that
//! names it.
//!
//! A path spec may be relative or absolute and may refer to variables of an
//! environment (`$NAME`, `${NAME}`). Resolution runs in four stages: the
//! variables are expanded, the expanded path is screened for excessive upward
//! traversal, a relative path is joined onto the directory of the calling file,
//! and the outcome of looking the path up on the filesystem is turned into the
//! final text or a structured failure. The lookup itself is left to the caller:
//! [`resolve::prepare`] yields the path to look up, [`resolve::conclude`]
//! takes what the lookup found.
pub mod anchor;
pub mod environment;
pub mod error;
pub mod resolve;
pub mod traversal;
