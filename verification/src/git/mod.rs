//! Git invocations as plain values, and what their output means.
//!
//! A [`GitCmd`] is the argument list after `git` plus environment overrides;
//! the caller runs it in the repository and hands the [`CmdOutput`] back to
//! the functions here that read it.

pub mod commit;
pub mod diff;
pub mod rebase;
pub mod stash;
pub mod status;

use vstd::prelude::*;
use crate::text::strs;

verus! {

/// A git invocation: the arguments after `git`, and environment overrides.
pub struct GitCmd {
    pub args: Vec<String>,
    pub env: Vec<(String, String)>,
}

/// The environment overrides as character sequences.
pub open spec fn env_views(e: Seq<(String, String)>) -> Seq<(Seq<char>, Seq<char>)> {
    e.map_values(|p: (String, String)| (p.0@, p.1@))
}

impl GitCmd {
    pub open spec fn arg_views(&self) -> Seq<Seq<char>> {
        strs(self.args@)
    }

    pub open spec fn env_view(&self) -> Seq<(Seq<char>, Seq<char>)> {
        env_views(self.env@)
    }

    /// `git` with no arguments yet.
    pub fn new() -> (c: GitCmd)
        ensures
            c.arg_views() == Seq::<Seq<char>>::empty(),
            c.env_view() == Seq::<(Seq<char>, Seq<char>)>::empty(),
    {
        let c = GitCmd { args: Vec::new(), env: Vec::new() };
        assert(c.arg_views() =~= Seq::<Seq<char>>::empty());
        assert(c.env_view() =~= Seq::<(Seq<char>, Seq<char>)>::empty());
        c
    }

    /// Appends one argument.
    pub fn arg(&mut self, a: &str)
        ensures
            final(self).arg_views() == old(self).arg_views().push(a@),
            final(self).env_view() == old(self).env_view(),
    {
        self.args.push(String::from_str(a));
        assert(self.arg_views() =~= old(self).arg_views().push(a@));
    }

    /// Appends one argument.
    pub fn arg_string(&mut self, a: String)
        ensures
            final(self).arg_views() == old(self).arg_views().push(a@),
            final(self).env_view() == old(self).env_view(),
    {
        self.args.push(a);
        assert(self.arg_views() =~= old(self).arg_views().push(a@));
    }

    /// Adds one environment override.
    pub fn env(&mut self, key: &str, value: String)
        ensures
            final(self).arg_views() == old(self).arg_views(),
            final(self).env_view() == old(self).env_view().push((key@, value@)),
    {
        self.env.push((String::from_str(key), value));
        assert(self.env_view() =~= old(self).env_view().push((key@, value@)));
    }
}

/// What a finished command reported.
pub struct CmdOutput {
    pub success: bool,
    pub stdout: String,
    pub stderr: String,
}

/// A git command that exited unsuccessfully; holds its standard error.
#[derive(Debug)]
pub enum GitError {
    Failed(String),
}

/// `Ok` exactly when the command succeeded; otherwise its standard error.
pub fn expect_success(out: &CmdOutput) -> (r: Result<(), GitError>)
    ensures
        r.is_ok() == out.success,
        r matches Err(GitError::Failed(e)) ==> e@ == out.stderr@,
{
    if out.success {
        Ok(())
    } else {
        Err(GitError::Failed(out.stderr.clone()))
    }
}

/// The standard output of a successful command; otherwise its standard error.
pub fn expect_stdout(out: &CmdOutput) -> (r: Result<String, GitError>)
    ensures
        r.is_ok() == out.success,
        r matches Ok(s) ==> s@ == out.stdout@,
        r matches Err(GitError::Failed(e)) ==> e@ == out.stderr@,
{
    if out.success {
        Ok(out.stdout.clone())
    } else {
        Err(GitError::Failed(out.stderr.clone()))
    }
}

/// The standard output of a successful command, or the empty string.
pub fn stdout_or_empty(out: &CmdOutput) -> (r: String)
    ensures
        r@ == (if out.success {
            out.stdout@
        } else {
            Seq::<char>::empty()
        }),
{
    if out.success {
        out.stdout.clone()
    } else {
        String::new()
    }
}

/// Runs git commands in one repository.
pub struct GitCommands {
    pub repo_path: String,
}

impl GitCommands {
    pub fn new(repo_path: String) -> (g: GitCommands)
        ensures
            g.repo_path@ == repo_path@,
    {
        GitCommands { repo_path }
    }
}

} // verus!
