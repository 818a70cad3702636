//! Plain data about a repository: commits, branches, remotes, stashes.

pub mod commit;
pub mod remote;
pub mod stash;
pub mod worktree;

pub use commit::{Commit, CommitStatus, Divergence};
pub use remote::{Remote, RemoteBranch};
pub use stash::StashEntry;
pub use worktree::Worktree;

use vstd::prelude::*;

verus! {

/// A file with changes in the working tree.
#[derive(Debug, Clone)]
pub struct File {
    pub name: String,
}

/// A local branch.
#[derive(Debug, Clone)]
pub struct Branch {
    pub name: String,
    pub hash: String,
}

/// A tag.
#[derive(Debug, Clone)]
pub struct Tag {
    pub name: String,
    pub hash: String,
    pub message: String,
}

/// Everything the panels list.
pub struct Model {
    pub files: Vec<File>,
    pub branches: Vec<Branch>,
    pub commits: Vec<Commit>,
    pub stash_entries: Vec<StashEntry>,
    pub remotes: Vec<Remote>,
    pub tags: Vec<Tag>,
}

} // verus!
