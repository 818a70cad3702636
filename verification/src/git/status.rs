//! Repository state: branch, distance to upstream, operation in progress.

use vstd::prelude::*;
use crate::text::{parse_usize, parse_usize_of, split_ws, split_ws_of, to_chars, trim, trim_of};
use super::{CmdOutput, GitCmd, GitCommands};

verus! {

#[derive(Debug)]
pub struct RepoStatus {
    pub branch: String,
    pub ahead: usize,
    pub behind: usize,
    pub is_rebasing: bool,
    pub is_merging: bool,
    pub is_cherry_picking: bool,
    pub is_bisecting: bool,
}

/// Which marker entries exist in the `.git` directory.
pub struct GitDirState {
    pub rebase_merge: bool,
    pub rebase_apply: bool,
    pub merge_head: bool,
    pub cherry_pick_head: bool,
    pub bisect_log: bool,
}

/// A count as `parse().unwrap_or(0)` reads it.
pub open spec fn count_or_zero(s: Seq<char>) -> usize {
    match parse_usize(s) {
        Some(v) => v,
        None => 0,
    }
}

/// Ahead/behind counts from `git rev-list --left-right --count`: two
/// whitespace-separated numbers (each 0 when unreadable); (0, 0) when the run
/// failed or printed anything else.
pub open spec fn ahead_behind_spec(out_ok: bool, stdout: Seq<char>) -> (usize, usize) {
    let parts = split_ws(trim(stdout));
    if !out_ok || parts.len() != 2 {
        (0, 0)
    } else {
        (count_or_zero(parts[0]), count_or_zero(parts[1]))
    }
}

/// Reads the output of [`GitCommands::ahead_behind`].
pub fn ahead_behind_from(out: &CmdOutput) -> (r: (usize, usize))
    ensures
        r == ahead_behind_spec(out.success, out.stdout@),
{
    if !out.success {
        return (0, 0);
    }
    let t = trim_of(&to_chars(out.stdout.as_str()));
    let parts = split_ws_of(&t);
    if parts.len() == 2 {
        let a = match parse_usize_of(&parts[0]) {
            Some(v) => v,
            None => 0,
        };
        let b = match parse_usize_of(&parts[1]) {
            Some(v) => v,
            None => 0,
        };
        assert(crate::text::views(parts@)[0] == parts@[0]@);
        assert(crate::text::views(parts@)[1] == parts@[1]@);
        (a, b)
    } else {
        (0, 0)
    }
}

impl GitCommands {
    /// The repository status from its parts: the current branch (`HEAD` when
    /// unknown), the ahead/behind counts, and the `.git` markers of a rebase,
    /// merge, cherry-pick or bisect in progress.
    pub fn repo_status(
        &self,
        branch: Option<String>,
        counts: (usize, usize),
        git_dir: &GitDirState,
    ) -> (s: RepoStatus)
        ensures
            s.branch@ == (match branch {
                Some(b) => b@,
                None => "HEAD"@,
            }),
            s.ahead == counts.0,
            s.behind == counts.1,
            s.is_rebasing == (git_dir.rebase_merge || git_dir.rebase_apply),
            s.is_merging == git_dir.merge_head,
            s.is_cherry_picking == git_dir.cherry_pick_head,
            s.is_bisecting == git_dir.bisect_log,
    {
        let branch = match branch {
            Some(b) => b,
            None => String::from_str("HEAD"),
        };
        RepoStatus {
            branch,
            ahead: counts.0,
            behind: counts.1,
            is_rebasing: git_dir.rebase_merge || git_dir.rebase_apply,
            is_merging: git_dir.merge_head,
            is_cherry_picking: git_dir.cherry_pick_head,
            is_bisecting: git_dir.bisect_log,
        }
    }

    /// `git rev-list --left-right --count HEAD...@{u}`; read with
    /// [`ahead_behind_from`].
    pub fn ahead_behind(&self) -> (c: GitCmd)
        ensures
            c.arg_views() == seq!["rev-list"@, "--left-right"@, "--count"@, "HEAD...@{u}"@],
            c.env_view().len() == 0,
    {
        let mut c = GitCmd::new();
        c.arg("rev-list");
        c.arg("--left-right");
        c.arg("--count");
        c.arg("HEAD...@{u}");
        c
    }

    /// `git rebase --continue`.
    pub fn continue_rebase(&self) -> (c: GitCmd)
        ensures
            c.arg_views() == seq!["rebase"@, "--continue"@],
            c.env_view().len() == 0,
    {
        let mut c = GitCmd::new();
        c.arg("rebase");
        c.arg("--continue");
        c
    }

    /// `git rebase --abort`.
    pub fn abort_rebase(&self) -> (c: GitCmd)
        ensures
            c.arg_views() == seq!["rebase"@, "--abort"@],
            c.env_view().len() == 0,
    {
        let mut c = GitCmd::new();
        c.arg("rebase");
        c.arg("--abort");
        c
    }

    /// `git merge --abort`.
    pub fn abort_merge(&self) -> (c: GitCmd)
        ensures
            c.arg_views() == seq!["merge"@, "--abort"@],
            c.env_view().len() == 0,
    {
        let mut c = GitCmd::new();
        c.arg("merge");
        c.arg("--abort");
        c
    }
}

} // verus!
