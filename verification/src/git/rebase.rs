//! Interactive-rebase commands: each edits the rebase todo list through
//! `GIT_SEQUENCE_EDITOR`.

use vstd::prelude::*;
use crate::text::{
    append_chars, is_char_boundary, shell_quote_body, shell_quote_body_of, short7, short7_of,
    short_len, to_chars, trim, trim_of, from_chars,
};
use super::{CmdOutput, GitCmd, GitCommands, GitError};

verus! {

/// Actions that can be performed on commits during interactive rebase.
#[derive(Debug, Clone, Copy, PartialEq, Eq, Structural)]
pub enum RebaseAction {
    Pick,
    Reword,
    Edit,
    Squash,
    Fixup,
    Drop,
}

/// The todo-list word for an action.
pub open spec fn action_name(a: RebaseAction) -> Seq<char> {
    match a {
        RebaseAction::Pick => "pick"@,
        RebaseAction::Reword => "reword"@,
        RebaseAction::Edit => "edit"@,
        RebaseAction::Squash => "squash"@,
        RebaseAction::Fixup => "fixup"@,
        RebaseAction::Drop => "drop"@,
    }
}

/// The action after `a` in the order pick, reword, edit, squash, fixup, drop
/// (wrapping around).
pub open spec fn next_action(a: RebaseAction) -> RebaseAction {
    match a {
        RebaseAction::Pick => RebaseAction::Reword,
        RebaseAction::Reword => RebaseAction::Edit,
        RebaseAction::Edit => RebaseAction::Squash,
        RebaseAction::Squash => RebaseAction::Fixup,
        RebaseAction::Fixup => RebaseAction::Drop,
        RebaseAction::Drop => RebaseAction::Pick,
    }
}

/// The action before `a` in the same order.
pub open spec fn prev_action(a: RebaseAction) -> RebaseAction {
    match a {
        RebaseAction::Pick => RebaseAction::Drop,
        RebaseAction::Reword => RebaseAction::Pick,
        RebaseAction::Edit => RebaseAction::Reword,
        RebaseAction::Squash => RebaseAction::Edit,
        RebaseAction::Fixup => RebaseAction::Squash,
        RebaseAction::Drop => RebaseAction::Fixup,
    }
}

impl RebaseAction {
    /// The todo-list word (`pick`, `reword`, …).
    pub fn as_str(&self) -> (r: &'static str)
        ensures
            r@ == action_name(*self),
    {
        match self {
            RebaseAction::Pick => "pick",
            RebaseAction::Reword => "reword",
            RebaseAction::Edit => "edit",
            RebaseAction::Squash => "squash",
            RebaseAction::Fixup => "fixup",
            RebaseAction::Drop => "drop",
        }
    }

    /// The next action in cycling order.
    pub fn next(&self) -> (r: RebaseAction)
        ensures
            r == next_action(*self),
    {
        match self {
            RebaseAction::Pick => RebaseAction::Reword,
            RebaseAction::Reword => RebaseAction::Edit,
            RebaseAction::Edit => RebaseAction::Squash,
            RebaseAction::Squash => RebaseAction::Fixup,
            RebaseAction::Fixup => RebaseAction::Drop,
            RebaseAction::Drop => RebaseAction::Pick,
        }
    }

    /// The previous action in cycling order.
    pub fn prev(&self) -> (r: RebaseAction)
        ensures
            r == prev_action(*self),
    {
        match self {
            RebaseAction::Pick => RebaseAction::Drop,
            RebaseAction::Reword => RebaseAction::Pick,
            RebaseAction::Edit => RebaseAction::Reword,
            RebaseAction::Squash => RebaseAction::Edit,
            RebaseAction::Fixup => RebaseAction::Squash,
            RebaseAction::Drop => RebaseAction::Fixup,
        }
    }
}

/// Cycling forward then backward (or backward then forward) returns to the
/// same action, and six steps forward go all the way round.
pub proof fn law_action_cycle(a: RebaseAction)
    ensures
        prev_action(next_action(a)) == a,
        next_action(prev_action(a)) == a,
        next_action(next_action(next_action(next_action(next_action(next_action(a)))))) == a,
{
}

/// The actions come round in the order of the todo-list words pick,
/// reword, edit, squash, fixup, drop: the next action after the one at
/// position `i` of that order is the one at `i + 1` (after drop: pick), and
/// the previous one is at `i - 1` (before pick: drop).
pub proof fn law_action_order(a: RebaseAction, i: int)
    requires
        0 <= i < 6,
        seq!["pick"@, "reword"@, "edit"@, "squash"@, "fixup"@, "drop"@][i] == action_name(a),
    ensures
        action_name(next_action(a)) == seq![
            "pick"@,
            "reword"@,
            "edit"@,
            "squash"@,
            "fixup"@,
            "drop"@,
        ][(i + 1) % 6],
        action_name(prev_action(a)) == seq![
            "pick"@,
            "reword"@,
            "edit"@,
            "squash"@,
            "fixup"@,
            "drop"@,
        ][(i + 5) % 6],
{
    reveal_strlit("pick");
    reveal_strlit("reword");
    reveal_strlit("edit");
    reveal_strlit("squash");
    reveal_strlit("fixup");
    reveal_strlit("drop");
    let w = seq!["pick"@, "reword"@, "edit"@, "squash"@, "fixup"@, "drop"@];
    assert(w[i][0] == action_name(a)[0]);
    assert(w[i].len() == action_name(a).len());
}

/// Sequence-editor script turning `pick <short>` into `<word> <short>`.
pub open spec fn set_action_script(short: Seq<char>, word: Seq<char>) -> Seq<char> {
    "sed -i '' 's/^pick "@ + short + " /"@ + word + " "@ + short + " /'"@
}

/// The script rewrites the target's todo line to start with the action
/// word: it ends with the replacement `<word> <short> /'`, so the line
/// `pick <short> …` becomes `<word> <short> …`; and different action words
/// give different scripts.
pub proof fn law_action_script_names_action(short: Seq<char>, word: Seq<char>, other: Seq<char>)
    ensures
        set_action_script(short, word).len() >= word.len() + short.len() + 4,
        set_action_script(short, word).skip(
            set_action_script(short, word).len() - (word.len() + short.len() + 4),
        ) == word + " "@ + short + " /'"@,
        set_action_script(short, word) == set_action_script(short, other) ==> word == other,
{
    reveal_strlit(" ");
    reveal_strlit(" /'");
    let head = "sed -i '' 's/^pick "@ + short + " /"@;
    let tail = " "@ + short + " /'"@;
    assert(tail.len() == short.len() + 4);
    let x = set_action_script(short, word);
    let y = set_action_script(short, other);
    assert(x =~= head + word + tail);
    assert(y =~= head + other + tail);
    assert(x.skip(x.len() - (word.len() + short.len() + 4)) =~= word + tail);
    assert(word + " "@ + short + " /'"@ =~= word + tail);
    if x == y {
        assert(word.len() == other.len());
        assert(word =~= x.subrange(head.len() as int, (head.len() + word.len()) as int));
        assert(other =~= y.subrange(head.len() as int, (head.len() + other.len()) as int));
    }
}

/// Sequence-editor script that swaps the `pick <a>` line with the following
/// `pick <c>` line (`b` names the first line again in the pattern; an empty
/// `c` takes whichever line follows).
pub open spec fn swap_script(a: Seq<char>, b: Seq<char>, c: Seq<char>) -> Seq<char> {
    "sed -i '' '/^pick "@ + a + "/{ N; s/^\\(pick "@ + b + ".*\\)\\n\\(pick "@ + c
        + ".*\\)/\\2\\n\\1/ }'"@
}

/// Editor script that writes the new message into the message file.
pub open spec fn echo_script(message: Seq<char>) -> Seq<char> {
    "echo '"@ + shell_quote_body(message) + "' >"@
}

fn set_action_script_of(short: &Vec<char>, word: &str) -> (r: String)
    ensures
        r@ == set_action_script(short@, word@),
{
    let mut r = String::from_str("sed -i '' 's/^pick ");
    append_chars(&mut r, short);
    r.append(" /");
    r.append(word);
    r.append(" ");
    append_chars(&mut r, short);
    r.append(" /'");
    r
}

fn swap_script_of(a: &Vec<char>, b: &Vec<char>, c: &Vec<char>) -> (r: String)
    ensures
        r@ == swap_script(a@, b@, c@),
{
    let mut r = String::from_str("sed -i '' '/^pick ");
    append_chars(&mut r, a);
    r.append("/{ N; s/^\\(pick ");
    append_chars(&mut r, b);
    r.append(".*\\)\\n\\(pick ");
    append_chars(&mut r, c);
    r.append(".*\\)/\\2\\n\\1/ }'");
    r
}

/// The trimmed standard output of a successful `rev-parse`.
pub fn parent_from_output(out: &CmdOutput) -> (r: Result<String, GitError>)
    ensures
        r.is_ok() == out.success,
        r matches Ok(s) ==> s@ == trim(out.stdout@),
        r matches Err(GitError::Failed(e)) ==> e@ == out.stderr@,
{
    if out.success {
        let t = trim_of(&to_chars(out.stdout.as_str()));
        Ok(from_chars(t.as_slice()))
    } else {
        Err(GitError::Failed(out.stderr.clone()))
    }
}

impl GitCommands {
    /// `git rebase -i <parent>` with a sequence editor that changes the
    /// target's `pick` line to `action`. `parent` is what
    /// [`GitCommands::commit_parent`] reported for `commit_hash`.
    pub fn rebase_interactive_action(
        &self,
        commit_hash: &str,
        action: RebaseAction,
        parent: &str,
    ) -> (c: GitCmd)
        requires
            is_char_boundary(commit_hash@, short_len(commit_hash@)),
        ensures
            c.arg_views() == seq!["rebase"@, "-i"@, parent@],
            c.env_view() == seq![
                (
                    "GIT_SEQUENCE_EDITOR"@,
                    set_action_script(short7(commit_hash@), action_name(action)),
                ),
            ],
    {
        let short = short7_of(&to_chars(commit_hash));
        let script = set_action_script_of(&short, action.as_str());
        let mut c = GitCmd::new();
        c.arg("rebase");
        c.arg("-i");
        c.arg(parent);
        c.env("GIT_SEQUENCE_EDITOR", script);
        c
    }

    /// Swaps a commit with the one above it (its child): `git rebase -i
    /// <parent>`, whose todo list starts with the commit's line, with a script
    /// that puts the line after it before it.
    pub fn move_commit_up(&self, commit_hash: &str, parent: &str) -> (c: GitCmd)
        requires
            is_char_boundary(commit_hash@, short_len(commit_hash@)),
        ensures
            c.arg_views() == seq!["rebase"@, "-i"@, parent@],
            c.env_view() == seq![
                (
                    "GIT_SEQUENCE_EDITOR"@,
                    swap_script(short7(commit_hash@), short7(commit_hash@), Seq::empty()),
                ),
            ],
    {
        let sh = short7_of(&to_chars(commit_hash));
        let any: Vec<char> = Vec::new();
        let script = swap_script_of(&sh, &sh, &any);
        let mut c = GitCmd::new();
        c.arg("rebase");
        c.arg("-i");
        c.arg(parent);
        c.env("GIT_SEQUENCE_EDITOR", script);
        c
    }

    /// Swaps a commit with the one below it (its parent): `git rebase -i
    /// <grandparent>`, whose todo list reads `pick <parent>` then
    /// `pick <commit>`, with a script that puts the commit's line before its
    /// parent's.
    pub fn move_commit_down(&self, commit_hash: &str, parent: &str, grandparent: &str) -> (c:
        GitCmd)
        requires
            is_char_boundary(commit_hash@, short_len(commit_hash@)),
            is_char_boundary(parent@, short_len(parent@)),
        ensures
            c.arg_views() == seq!["rebase"@, "-i"@, grandparent@],
            c.env_view() == seq![
                (
                    "GIT_SEQUENCE_EDITOR"@,
                    swap_script(short7(parent@), short7(parent@), short7(commit_hash@)),
                ),
            ],
    {
        let sh = short7_of(&to_chars(commit_hash));
        let sp = short7_of(&to_chars(parent));
        let script = swap_script_of(&sp, &sp, &sh);
        let mut c = GitCmd::new();
        c.arg("rebase");
        c.arg("-i");
        c.arg(grandparent);
        c.env("GIT_SEQUENCE_EDITOR", script);
        c
    }

    /// Squashes a commit into its parent.
    pub fn squash_commit(&self, commit_hash: &str, parent: &str) -> (c: GitCmd)
        requires
            is_char_boundary(commit_hash@, short_len(commit_hash@)),
        ensures
            c.arg_views() == seq!["rebase"@, "-i"@, parent@],
            c.env_view() == seq![
                (
                    "GIT_SEQUENCE_EDITOR"@,
                    set_action_script(short7(commit_hash@), "squash"@),
                ),
            ],
    {
        self.rebase_interactive_action(commit_hash, RebaseAction::Squash, parent)
    }

    /// Folds a commit into its parent, discarding its message.
    pub fn fixup_commit(&self, commit_hash: &str, parent: &str) -> (c: GitCmd)
        requires
            is_char_boundary(commit_hash@, short_len(commit_hash@)),
        ensures
            c.arg_views() == seq!["rebase"@, "-i"@, parent@],
            c.env_view() == seq![
                (
                    "GIT_SEQUENCE_EDITOR"@,
                    set_action_script(short7(commit_hash@), "fixup"@),
                ),
            ],
    {
        self.rebase_interactive_action(commit_hash, RebaseAction::Fixup, parent)
    }

    /// Drops a commit from history.
    pub fn drop_commit(&self, commit_hash: &str, parent: &str) -> (c: GitCmd)
        requires
            is_char_boundary(commit_hash@, short_len(commit_hash@)),
        ensures
            c.arg_views() == seq!["rebase"@, "-i"@, parent@],
            c.env_view() == seq![
                (
                    "GIT_SEQUENCE_EDITOR"@,
                    set_action_script(short7(commit_hash@), "drop"@),
                ),
            ],
    {
        self.rebase_interactive_action(commit_hash, RebaseAction::Drop, parent)
    }

    /// Rewords a non-HEAD commit: the sequence editor marks it `reword` and
    /// the message editor writes `new_message`.
    pub fn reword_commit_rebase(&self, commit_hash: &str, new_message: &str, parent: &str) -> (c:
        GitCmd)
        requires
            is_char_boundary(commit_hash@, short_len(commit_hash@)),
        ensures
            c.arg_views() == seq!["rebase"@, "-i"@, parent@],
            c.env_view() == seq![
                (
                    "GIT_SEQUENCE_EDITOR"@,
                    set_action_script(short7(commit_hash@), "reword"@),
                ),
                ("GIT_EDITOR"@, echo_script(new_message@)),
            ],
    {
        let short = short7_of(&to_chars(commit_hash));
        let script = set_action_script_of(&short, "reword");
        let mut echo = String::from_str("echo '");
        append_chars(&mut echo, &shell_quote_body_of(&to_chars(new_message)));
        echo.append("' >");
        let mut c = GitCmd::new();
        c.arg("rebase");
        c.arg("-i");
        c.arg(parent);
        c.env("GIT_SEQUENCE_EDITOR", script);
        c.env("GIT_EDITOR", echo);
        c
    }

    /// `git commit --fixup <target>`.
    pub fn create_fixup_commit(&self, target_hash: &str) -> (c: GitCmd)
        ensures
            c.arg_views() == seq!["commit"@, "--fixup"@, target_hash@],
            c.env_view().len() == 0,
    {
        let mut c = GitCmd::new();
        c.arg("commit");
        c.arg("--fixup");
        c.arg(target_hash);
        c
    }

    /// `git rebase -i --autosquash <base>` with an editor that accepts the
    /// todo list unchanged.
    pub fn rebase_autosquash(&self, base_hash: &str) -> (c: GitCmd)
        ensures
            c.arg_views() == seq!["rebase"@, "-i"@, "--autosquash"@, base_hash@],
            c.env_view() == seq![("GIT_SEQUENCE_EDITOR"@, "true"@)],
    {
        let mut c = GitCmd::new();
        c.arg("rebase");
        c.arg("-i");
        c.arg("--autosquash");
        c.arg(base_hash);
        c.env("GIT_SEQUENCE_EDITOR", String::from_str("true"));
        c
    }

    /// `git rebase --skip`.
    pub fn rebase_skip(&self) -> (c: GitCmd)
        ensures
            c.arg_views() == seq!["rebase"@, "--skip"@],
            c.env_view().len() == 0,
    {
        let mut c = GitCmd::new();
        c.arg("rebase");
        c.arg("--skip");
        c
    }

    /// `git rev-parse <hash>^`; read the answer with [`parent_from_output`].
    pub fn commit_parent(&self, hash: &str) -> (c: GitCmd)
        ensures
            c.arg_views() == seq!["rev-parse"@, hash@ + "^"@],
            c.env_view().len() == 0,
    {
        let mut p = String::from_str(hash);
        p.append("^");
        let mut c = GitCmd::new();
        c.arg("rev-parse");
        c.arg_string(p);
        c
    }
}

} // verus!
