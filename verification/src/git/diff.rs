//! Commands that show changes and file contents. Their output is read with
//! [`super::expect_stdout`] (diffs) or [`super::stdout_or_empty`] (contents).

use vstd::prelude::*;
use super::{GitCmd, GitCommands};

verus! {

impl GitCommands {
    /// `git diff --color=never -- <path>`: unstaged changes of one file.
    pub fn diff_file(&self, path: &str) -> (c: GitCmd)
        ensures
            c.arg_views() == seq!["diff"@, "--color=never"@, "--"@, path@],
            c.env_view().len() == 0,
    {
        let mut c = GitCmd::new();
        c.arg("diff");
        c.arg("--color=never");
        c.arg("--");
        c.arg(path);
        c
    }

    /// `git diff --cached --color=never -- <path>`: staged changes of one file.
    pub fn diff_file_staged(&self, path: &str) -> (c: GitCmd)
        ensures
            c.arg_views() == seq!["diff"@, "--cached"@, "--color=never"@, "--"@, path@],
            c.env_view().len() == 0,
    {
        let mut c = GitCmd::new();
        c.arg("diff");
        c.arg("--cached");
        c.arg("--color=never");
        c.arg("--");
        c.arg(path);
        c
    }

    /// `git diff --cached --color=never`: everything staged.
    pub fn diff_staged(&self) -> (c: GitCmd)
        ensures
            c.arg_views() == seq!["diff"@, "--cached"@, "--color=never"@],
            c.env_view().len() == 0,
    {
        let mut c = GitCmd::new();
        c.arg("diff");
        c.arg("--cached");
        c.arg("--color=never");
        c
    }

    /// `git show --color=never --format= <hash>`: the patch of one commit.
    pub fn diff_commit(&self, hash: &str) -> (c: GitCmd)
        ensures
            c.arg_views() == seq!["show"@, "--color=never"@, "--format="@, hash@],
            c.env_view().len() == 0,
    {
        let mut c = GitCmd::new();
        c.arg("show");
        c.arg("--color=never");
        c.arg("--format=");
        c.arg(hash);
        c
    }

    /// `git show <hash>:<path>`: a file as it was in a commit.
    pub fn file_content_at_commit(&self, hash: &str, path: &str) -> (c: GitCmd)
        ensures
            c.arg_views() == seq!["show"@, hash@ + ":"@ + path@],
            c.env_view().len() == 0,
    {
        let mut spec_arg = String::from_str(hash);
        spec_arg.append(":");
        spec_arg.append(path);
        let mut c = GitCmd::new();
        c.arg("show");
        c.arg_string(spec_arg);
        c
    }

    /// `git show :<path>`: a file as it is staged.
    pub fn file_content_staged(&self, path: &str) -> (c: GitCmd)
        ensures
            c.arg_views() == seq!["show"@, ":"@ + path@],
            c.env_view().len() == 0,
    {
        let mut spec_arg = String::from_str(":");
        spec_arg.append(path);
        let mut c = GitCmd::new();
        c.arg("show");
        c.arg_string(spec_arg);
        c
    }
}

} // verus!
