//! What the list panels show, as plain text: the tag rows with the branches
//! that point at the same commit, and the remote-branch rows.

use vstd::prelude::*;
use crate::model::{Branch, Model, Remote, RemoteBranch, Tag};
use crate::pager::dynamic::concat;
use crate::text::{starts_with, starts_with_of, strs, to_chars};

verus! {

/// Two hashes name the same commit: both are non-empty and one is a prefix
/// of the other (an abbreviated hash matches the full one).
pub open spec fn hashes_match_spec(a: Seq<char>, b: Seq<char>) -> bool {
    a.len() > 0 && b.len() > 0 && (a == b || starts_with(a, b) || starts_with(b, a))
}

/// Whether hashes `a` and `b` name the same commit.
pub fn hashes_match(a: &str, b: &str) -> (r: bool)
    ensures
        r == hashes_match_spec(a@, b@),
{
    let x = to_chars(a);
    let y = to_chars(b);
    x.len() > 0 && y.len() > 0 && (crate::text::vec_eq(&x, &y) || starts_with_of(&x, &y)
        || starts_with_of(&y, &x))
}

/// Names of the local branches at `hash`, in order.
pub open spec fn branch_labels(bs: Seq<Branch>, hash: Seq<char>) -> Seq<Seq<char>>
    decreases bs.len(),
{
    if bs.len() == 0 {
        Seq::empty()
    } else {
        let r = branch_labels(bs.drop_last(), hash);
        if hashes_match_spec(bs.last().hash@, hash) {
            r.push(bs.last().name@)
        } else {
            r
        }
    }
}

/// `<remote>/<branch>` for the branches of one remote at `hash`, in order.
pub open spec fn remote_branch_labels(bs: Seq<RemoteBranch>, hash: Seq<char>) -> Seq<Seq<char>>
    decreases bs.len(),
{
    if bs.len() == 0 {
        Seq::empty()
    } else {
        let r = remote_branch_labels(bs.drop_last(), hash);
        if hashes_match_spec(bs.last().hash@, hash) {
            r.push(bs.last().remote_name@ + "/"@ + bs.last().name@)
        } else {
            r
        }
    }
}

/// The remote branches at `hash`, remote by remote.
pub open spec fn remote_labels(rs: Seq<Remote>, hash: Seq<char>) -> Seq<Seq<char>>
    decreases rs.len(),
{
    if rs.len() == 0 {
        Seq::empty()
    } else {
        remote_labels(rs.drop_last(), hash) + remote_branch_labels(rs.last().branches@, hash)
    }
}

/// Local branch names, then remote branch full names, that point at `hash`.
pub fn colocated_branch_labels(model: &Model, hash: &str) -> (r: Vec<String>)
    ensures
        strs(r@) == branch_labels(model.branches@, hash@) + remote_labels(model.remotes@, hash@),
{
    let mut labels: Vec<String> = Vec::new();
    let mut i: usize = 0;
    while i < model.branches.len()
        invariant
            i <= model.branches.len(),
            strs(labels@) == branch_labels(model.branches@.take(i as int), hash@),
        decreases model.branches.len() - i,
    {
        assert(model.branches@.take(i + 1).drop_last() =~= model.branches@.take(i as int));
        let b = &model.branches[i];
        if hashes_match(b.hash.as_str(), hash) {
            let ghost before = strs(labels@);
            labels.push(b.name.clone());
            assert(strs(labels@) =~= before.push(b.name@));
        }
        i += 1;
    }
    assert(model.branches@.take(i as int) =~= model.branches@);
    let ghost local = strs(labels@);
    let mut k: usize = 0;
    while k < model.remotes.len()
        invariant
            k <= model.remotes.len(),
            local == branch_labels(model.branches@, hash@),
            strs(labels@) == local + remote_labels(model.remotes@.take(k as int), hash@),
        decreases model.remotes.len() - k,
    {
        assert(model.remotes@.take(k + 1).drop_last() =~= model.remotes@.take(k as int));
        let remote = &model.remotes[k];
        let ghost at_start = strs(labels@);
        let mut j: usize = 0;
        while j < remote.branches.len()
            invariant
                j <= remote.branches.len(),
                strs(labels@) == at_start + remote_branch_labels(
                    remote.branches@.take(j as int),
                    hash@,
                ),
            decreases remote.branches.len() - j,
        {
            assert(remote.branches@.take(j + 1).drop_last() =~= remote.branches@.take(j as int));
            let rb = &remote.branches[j];
            if hashes_match(rb.hash.as_str(), hash) {
                let ghost before = strs(labels@);
                labels.push(rb.full_name());
                assert(strs(labels@) =~= before.push(
                    rb.remote_name@ + "/"@ + rb.name@,
                ));
            }
            j += 1;
        }
        assert(remote.branches@.take(j as int) =~= remote.branches@);
        k += 1;
        assert(strs(labels@) =~= local + remote_labels(model.remotes@.take(k as int), hash@));
    }
    assert(model.remotes@.take(k as int) =~= model.remotes@);
    labels
}

/// `parts` joined with `sep` between them.
pub open spec fn join_spec(parts: Seq<Seq<char>>, sep: Seq<char>) -> Seq<char>
    decreases parts.len(),
{
    if parts.len() == 0 {
        Seq::empty()
    } else if parts.len() == 1 {
        parts[0]
    } else {
        join_spec(parts.drop_last(), sep) + sep + parts.last()
    }
}

/// The strings of `parts` joined with `sep`.
pub fn join(parts: &Vec<String>, sep: &str) -> (r: String)
    ensures
        r@ == join_spec(strs(parts@), sep@),
{
    let mut r = String::new();
    let mut i: usize = 0;
    while i < parts.len()
        invariant
            i <= parts.len(),
            r@ == join_spec(strs(parts@.take(i as int)), sep@),
        decreases parts.len() - i,
    {
        assert(strs(parts@.take(i + 1)).drop_last() =~= strs(parts@.take(i as int)));
        assert(strs(parts@.take(i + 1)).last() == parts@[i as int]@);
        if i > 0 {
            r = concat(r.as_str(), sep);
        }
        r = concat(r.as_str(), parts[i].as_str());
        i += 1;
    }
    assert(parts@.take(i as int) =~= parts@);
    r
}

/// The text of one tag row: ` <name> `, `<hash> `, then `(<branches>) ` when
/// branches point at the tag's commit, then the message when there is one.
pub struct TagRow {
    pub name: String,
    pub hash: String,
    pub branches: Option<String>,
    pub message: Option<String>,
}

/// The row of `tag`.
pub fn tag_row(model: &Model, tag: &Tag) -> (r: TagRow)
    ensures
        r.name@ == " "@ + tag.name@ + " "@,
        r.hash@ == tag.hash@ + " "@,
        ({
            let labels = branch_labels(model.branches@, tag.hash@) + remote_labels(
                model.remotes@,
                tag.hash@,
            );
            match r.branches {
                Some(b) => labels.len() > 0 && b@ == "("@ + join_spec(labels, ","@) + ") "@,
                None => labels.len() == 0,
            }
        }),
        match r.message {
            Some(m) => tag.message@.len() > 0 && m@ == tag.message@,
            None => tag.message@.len() == 0,
        },
{
    let lead = concat(" ", tag.name.as_str());
    let name = concat(lead.as_str(), " ");
    let hash = concat(tag.hash.as_str(), " ");
    let labels = colocated_branch_labels(model, tag.hash.as_str());
    let branches = if labels.len() > 0 {
        let joined = join(&labels, ",");
        let open = concat("(", joined.as_str());
        Some(concat(open.as_str(), ") "))
    } else {
        None
    };
    let message = if tag.message.as_str().is_empty() {
        None
    } else {
        Some(tag.message.clone())
    };
    TagRow { name, hash, branches, message }
}

/// A remote branch is the checked-out one when a head branch name is given
/// and equals its name.
pub open spec fn is_head_branch(name: Seq<char>, head: Seq<char>) -> bool {
    head.len() > 0 && name == head
}

/// The text of one remote-branch row (`* ` marks the checked-out branch)
/// and whether it is the checked-out one.
pub fn remote_branch_row(branch: &RemoteBranch, head_branch_name: &str) -> (r: (String, bool))
    ensures
        r.1 == is_head_branch(branch.name@, head_branch_name@),
        r.0@ == (if r.1 {
            "* "@
        } else {
            "  "@
        }) + branch.name@ + " "@,
{
    let is_head = !head_branch_name.is_empty() && crate::text::str_is(
        branch.name.as_str(),
        head_branch_name,
    );
    let marker = if is_head {
        "* "
    } else {
        "  "
    };
    let text = concat(marker, branch.name.as_str());
    (concat(text.as_str(), " "), is_head)
}

} // verus!

verus! {

/// How the node of a todo-list row is drawn.
#[derive(Debug, Clone, Copy, PartialEq, Eq, Structural)]
pub enum NodeGlyph {
    /// A vertical bar: the commit is dropped or squashed into the one below.
    Pipe,
    /// A circle.
    Circle,
}

/// How one row of the interactive-rebase todo list is drawn.
#[derive(Debug, Clone, Copy, PartialEq, Eq, Structural)]
pub struct RebaseRowStyle {
    pub glyph: NodeGlyph,
    /// The action whose colour the node takes: a squash or fixup of the row
    /// above lends its colour to the commit it folds into.
    pub node_action: crate::git::rebase::RebaseAction,
    /// The message is struck through (the commit is dropped).
    pub crossed_out: bool,
    pub selected: bool,
}

/// Squash and fixup fold a commit into the one below it.
pub open spec fn folds_down(a: crate::git::rebase::RebaseAction) -> bool {
    a == crate::git::rebase::RebaseAction::Squash || a == crate::git::rebase::RebaseAction::Fixup
}

/// The style of row `i` of todo list `actions` with row `selected`
/// selected.
pub open spec fn row_style_spec(
    actions: Seq<crate::git::rebase::RebaseAction>,
    i: int,
    selected: int,
) -> RebaseRowStyle {
    let a = actions[i];
    RebaseRowStyle {
        glyph: if a == crate::git::rebase::RebaseAction::Drop || a
            == crate::git::rebase::RebaseAction::Squash {
            NodeGlyph::Pipe
        } else {
            NodeGlyph::Circle
        },
        node_action: if i > 0 && folds_down(actions[i - 1]) {
            actions[i - 1]
        } else {
            a
        },
        crossed_out: a == crate::git::rebase::RebaseAction::Drop,
        selected: i == selected,
    }
}

pub open spec fn entry_actions(
    entries: Seq<crate::gui::rebase_mode::RebaseEntry>,
) -> Seq<crate::git::rebase::RebaseAction> {
    entries.map_values(|e: crate::gui::rebase_mode::RebaseEntry| e.action)
}

/// How each row of the todo list is drawn, newest first, and the colour of
/// the base commit's node: the action of the last row when it folds into the
/// base, none (dimmed) otherwise.
pub fn rebase_row_styles(state: &crate::gui::rebase_mode::RebaseModeState) -> (r: (
    Vec<RebaseRowStyle>,
    Option<crate::git::rebase::RebaseAction>,
))
    ensures
        r.0@.len() == state.entries@.len(),
        forall|i: int|
            0 <= i < r.0@.len() ==> #[trigger] r.0@[i] == row_style_spec(
                entry_actions(state.entries@),
                i,
                state.selected as int,
            ),
        r.1 == (if state.entries@.len() > 0 && folds_down(state.entries@.last().action) {
            Some(state.entries@.last().action)
        } else {
            None::<crate::git::rebase::RebaseAction>
        }),
{
    let ghost acts = entry_actions(state.entries@);
    let mut rows: Vec<RebaseRowStyle> = Vec::new();
    let mut i: usize = 0;
    while i < state.entries.len()
        invariant
            i <= state.entries.len(),
            acts == entry_actions(state.entries@),
            rows@.len() == i,
            forall|j: int|
                0 <= j < i ==> #[trigger] rows@[j] == row_style_spec(
                    acts,
                    j,
                    state.selected as int,
                ),
        decreases state.entries.len() - i,
    {
        let a = state.entries[i].action;
        let glyph = match a {
            crate::git::rebase::RebaseAction::Drop => NodeGlyph::Pipe,
            crate::git::rebase::RebaseAction::Squash => NodeGlyph::Pipe,
            _ => NodeGlyph::Circle,
        };
        let node_action = if i > 0 {
            let above = state.entries[i - 1].action;
            match above {
                crate::git::rebase::RebaseAction::Squash => above,
                crate::git::rebase::RebaseAction::Fixup => above,
                _ => a,
            }
        } else {
            a
        };
        let crossed_out = match a {
            crate::git::rebase::RebaseAction::Drop => true,
            _ => false,
        };
        rows.push(RebaseRowStyle { glyph, node_action, crossed_out, selected: i == state.selected });
        i += 1;
    }
    let n = state.entries.len();
    let base = if n > 0 {
        let last = state.entries[n - 1].action;
        match last {
            crate::git::rebase::RebaseAction::Squash => Some(last),
            crate::git::rebase::RebaseAction::Fixup => Some(last),
            _ => None,
        }
    } else {
        None
    };
    (rows, base)
}

} // verus!

verus! {

/// The header of the interactive-rebase screen while planning:
/// `Rebasing <n> commits onto ` and `◆ <base short hash>`.
pub fn rebase_header(state: &crate::gui::rebase_mode::RebaseModeState) -> (r: (String, String))
    ensures
        r.0@ == "Rebasing "@ + crate::text::decimal(state.entries@.len()) + " commits onto "@,
        r.1@ == "◆ "@ + state.base_short_hash@,
{
    let count = crate::text::decimal_of(state.entries.len());
    let mut first = String::from_str("Rebasing ");
    crate::text::append_chars(&mut first, &count);
    let first = concat(first.as_str(), " commits onto ");
    (first, concat("◆ ", state.base_short_hash.as_str()))
}

} // verus!
