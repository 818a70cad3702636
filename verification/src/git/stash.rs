//! The stash: listing it and commands on its entries.

use vstd::prelude::*;
use crate::model::StashEntry;
use crate::model::stash::{stash_ref, stash_ref_of};
use crate::text::{from_chars, lines, lines_of, splitn, splitn_of, to_chars, views};
use super::{CmdOutput, GitCmd, GitCommands};

verus! {

/// A stash-list line names an entry when it holds a `|`.
pub open spec fn is_stash_line(line: Seq<char>) -> bool {
    splitn(line, 2, '|').len() >= 2
}

/// Positions of the lines that name stash entries, in order.
pub open spec fn stash_line_indices(ls: Seq<Seq<char>>) -> Seq<int>
    decreases ls.len(),
{
    if ls.len() == 0 {
        Seq::empty()
    } else {
        let rest = stash_line_indices(ls.drop_last());
        if is_stash_line(ls.last()) {
            rest.push(ls.len() - 1)
        } else {
            rest
        }
    }
}

/// `e` is the entry on line `i` of the list.
pub open spec fn stash_entry_from_line(e: StashEntry, i: int, line: Seq<char>) -> bool {
    let p = splitn(line, 2, '|');
    &&& e.index == i
    &&& e.hash@ == p[0]
    &&& e.name@ == p[1]
}

/// The entries a `git stash list --format=%H|%gs` run printed: the i-th line
/// `<hash>|<message>` gives entry `i` (lines without `|` are skipped but still
/// counted). A failed run lists nothing.
pub fn stash_entries_from(out: &CmdOutput) -> (r: Vec<StashEntry>)
    ensures
        !out.success ==> r@.len() == 0,
        out.success ==> r@.len() == stash_line_indices(lines(out.stdout@)).len(),
        out.success ==> forall|j: int|
            0 <= j < r@.len() ==> stash_entry_from_line(
                #[trigger] r@[j],
                stash_line_indices(lines(out.stdout@))[j],
                lines(out.stdout@)[stash_line_indices(lines(out.stdout@))[j]],
            ),
{
    let mut r: Vec<StashEntry> = Vec::new();
    if !out.success {
        return r;
    }
    let text = to_chars(out.stdout.as_str());
    let ls = lines_of(&text);
    let ghost all = views(ls@);
    let mut i: usize = 0;
    assert(all.take(0) =~= Seq::<Seq<char>>::empty());
    while i < ls.len()
        invariant
            i <= ls.len(),
            all == views(ls@),
            all == lines(out.stdout@),
            r@.len() == stash_line_indices(all.take(i as int)).len(),
            forall|j: int|
                0 <= j < r@.len() ==> stash_entry_from_line(
                    #[trigger] r@[j],
                    stash_line_indices(all.take(i as int))[j],
                    all[stash_line_indices(all.take(i as int))[j]],
                ),
        decreases ls.len() - i,
    {
        let parts = splitn_of(&ls[i], 2, '|');
        let ghost line = all[i as int];
        assert(line == ls@[i as int]@);
        let ghost pre = all.take(i as int);
        let ghost next = all.take(i + 1);
        assert(next.drop_last() =~= pre);
        assert(next.last() == line);
        if parts.len() >= 2 {
            let e = StashEntry {
                index: i,
                hash: from_chars(parts[0].as_slice()),
                name: from_chars(parts[1].as_slice()),
            };
            assert(views(parts@)[0] == parts@[0]@);
            assert(views(parts@)[1] == parts@[1]@);
            assert(stash_line_indices(next) == stash_line_indices(pre).push(i as int));
            r.push(e);
        } else {
            assert(stash_line_indices(next) == stash_line_indices(pre));
        }
        i += 1;
    }
    assert(all.take(i as int) =~= all);
    r
}

impl GitCommands {
    /// `git stash list --format=%H|%gs`; read with [`stash_entries_from`].
    pub fn load_stash(&self) -> (c: GitCmd)
        ensures
            c.arg_views() == seq!["stash"@, "list"@, "--format=%H|%gs"@],
            c.env_view().len() == 0,
    {
        let mut c = GitCmd::new();
        c.arg("stash");
        c.arg("list");
        c.arg("--format=%H|%gs");
        c
    }

    /// `git stash`, or `git stash push -m <message>` when a message is given.
    pub fn stash_save(&self, message: &str) -> (c: GitCmd)
        ensures
            c.arg_views() == (if message@.len() == 0 {
                seq!["stash"@]
            } else {
                seq!["stash"@, "push"@, "-m"@, message@]
            }),
            c.env_view().len() == 0,
    {
        let mut c = GitCmd::new();
        c.arg("stash");
        if !message.is_empty() {
            c.arg("push");
            c.arg("-m");
            c.arg(message);
        }
        c
    }

    /// Stashes only staged changes: `git stash push --staged [-m <message>]`.
    pub fn stash_staged(&self, message: &str) -> (c: GitCmd)
        ensures
            c.arg_views() == (if message@.len() == 0 {
                seq!["stash"@, "push"@, "--staged"@]
            } else {
                seq!["stash"@, "push"@, "--staged"@, "-m"@, message@]
            }),
            c.env_view().len() == 0,
    {
        let mut c = GitCmd::new();
        c.arg("stash");
        c.arg("push");
        c.arg("--staged");
        if !message.is_empty() {
            c.arg("-m");
            c.arg(message);
        }
        c
    }

    /// Renames stash entry `index` in place (git has no rename). `entries`
    /// is the stash list, newest first. The newest entries down to `index`
    /// are dropped, newest first, then stored again, oldest first, each
    /// under its own message and entry `index` under `new_message`; so every
    /// entry keeps its commit and its position. The commands run in order,
    /// each only when the one before succeeded.
    pub fn stash_rename(&self, index: usize, new_message: &str, entries: &Vec<StashEntry>) -> (c:
        Vec<GitCmd>)
        requires
            index < entries@.len(),
        ensures
            cmd_args(c@) == rename_plan(stash_pairs(entries@), index as int, new_message@),
            forall|k: int| 0 <= k < c@.len() ==> (#[trigger] c@[k]).env_view().len() == 0,
    {
        let ghost list = stash_pairs(entries@);
        let ghost plan = rename_plan(list, index as int, new_message@);
        let n = entries.len();
        let mut c: Vec<GitCmd> = Vec::new();
        let mut k: usize = 0;
        while k <= index
            invariant
                k <= index + 1,
                index < n,
                n == entries@.len(),
                plan == rename_plan(list, index as int, new_message@),
                cmd_args(c@) == plan.take(k as int),
                forall|m: int| 0 <= m < c@.len() ==> (#[trigger] c@[m]).env_view().len() == 0,
            decreases index + 1 - k,
        {
            let ghost before = cmd_args(c@);
            c.push(self.stash_drop(0));
            assert(cmd_args(c@) =~= before.push(drop_newest_args()));
            k += 1;
            assert(plan.take(k as int) =~= plan.take(k - 1).push(plan[k - 1]));
        }
        let mut j: usize = 0;
        while j <= index
            invariant
                j <= index + 1,
                index < n,
                n == entries@.len(),
                list == stash_pairs(entries@),
                plan == rename_plan(list, index as int, new_message@),
                cmd_args(c@) == plan.take(index + 1 + j),
                forall|m: int| 0 <= m < c@.len() ==> (#[trigger] c@[m]).env_view().len() == 0,
            decreases index + 1 - j,
        {
            let at = index - j;
            let mut store = GitCmd::new();
            store.arg("stash");
            store.arg("store");
            store.arg("-m");
            if at == index {
                store.arg(new_message);
            } else {
                store.arg(entries[at].name.as_str());
            }
            store.arg(entries[at].hash.as_str());
            let ghost before = cmd_args(c@);
            assert(list[at as int] == (entries@[at as int].hash@, entries@[at as int].name@));
            assert(store.arg_views() == plan[index + 1 + j]);
            c.push(store);
            assert(cmd_args(c@) =~= before.push(plan[index + 1 + j]));
            j += 1;
            assert(plan.take(index + 1 + j) =~= plan.take(index + j).push(plan[index + j]));
        }
        assert(plan.take(index + 1 + j) =~= plan);
        c
    }

    /// `git stash show -p stash@{<index>}`.
    pub fn stash_diff(&self, index: usize) -> (c: GitCmd)
        ensures
            c.arg_views() == seq!["stash"@, "show"@, "-p"@, stash_ref(index)],
            c.env_view().len() == 0,
    {
        let mut c = GitCmd::new();
        c.arg("stash");
        c.arg("show");
        c.arg("-p");
        c.arg_string(stash_ref_of(index));
        c
    }

    /// `git stash pop stash@{<index>}`.
    pub fn stash_pop(&self, index: usize) -> (c: GitCmd)
        ensures
            c.arg_views() == seq!["stash"@, "pop"@, stash_ref(index)],
            c.env_view().len() == 0,
    {
        let mut c = GitCmd::new();
        c.arg("stash");
        c.arg("pop");
        c.arg_string(stash_ref_of(index));
        c
    }

    /// `git stash apply stash@{<index>}`.
    pub fn stash_apply(&self, index: usize) -> (c: GitCmd)
        ensures
            c.arg_views() == seq!["stash"@, "apply"@, stash_ref(index)],
            c.env_view().len() == 0,
    {
        let mut c = GitCmd::new();
        c.arg("stash");
        c.arg("apply");
        c.arg_string(stash_ref_of(index));
        c
    }

    /// `git stash drop stash@{<index>}`.
    pub fn stash_drop(&self, index: usize) -> (c: GitCmd)
        ensures
            c.arg_views() == seq!["stash"@, "drop"@, stash_ref(index)],
            c.env_view().len() == 0,
    {
        let mut c = GitCmd::new();
        c.arg("stash");
        c.arg("drop");
        c.arg_string(stash_ref_of(index));
        c
    }
}


/// The arguments of each command.
pub open spec fn cmd_args(c: Seq<GitCmd>) -> Seq<Seq<Seq<char>>> {
    c.map_values(|g: GitCmd| g.arg_views())
}

/// The stash list as (commit, message) pairs, newest first.
pub open spec fn stash_pairs(entries: Seq<StashEntry>) -> Seq<(Seq<char>, Seq<char>)> {
    entries.map_values(|e: StashEntry| (e.hash@, e.name@))
}

/// `stash drop stash@{0}`: drop the newest entry.
pub open spec fn drop_newest_args() -> Seq<Seq<char>> {
    seq!["stash"@, "drop"@, stash_ref(0)]
}

/// `stash store -m <message> <commit>`: add `commit` as the newest entry.
pub open spec fn store_args(message: Seq<char>, commit: Seq<char>) -> Seq<Seq<char>> {
    seq!["stash"@, "store"@, "-m"@, message, commit]
}

/// The commands that rename entry `index` of `list` in place.
pub open spec fn rename_plan(
    list: Seq<(Seq<char>, Seq<char>)>,
    index: int,
    new_message: Seq<char>,
) -> Seq<Seq<Seq<char>>> {
    Seq::new((index + 1) as nat, |k: int| drop_newest_args()) + Seq::new(
        (index + 1) as nat,
        |j: int|
            store_args(
                if j == 0 {
                    new_message
                } else {
                    list[index - j].1
                },
                list[index - j].0,
            ),
    )
}

/// What a stash command does to the stash list (newest first), as git
/// documents it: dropping `stash@{0}` removes the newest entry, storing a
/// commit with a message adds it as the newest; other commands leave the
/// list alone.
pub open spec fn stash_effect(list: Seq<(Seq<char>, Seq<char>)>, args: Seq<Seq<char>>) -> Seq<
    (Seq<char>, Seq<char>),
> {
    if args == drop_newest_args() {
        list.drop_first()
    } else if args.len() == 5 && args[0] == "stash"@ && args[1] == "store"@ && args[2] == "-m"@ {
        seq![(args[4], args[3])] + list
    } else {
        list
    }
}

/// The stash list after running `cmds` in order.
pub open spec fn stash_run(list: Seq<(Seq<char>, Seq<char>)>, cmds: Seq<Seq<Seq<char>>>) -> Seq<
    (Seq<char>, Seq<char>),
>
    decreases cmds.len(),
{
    if cmds.len() == 0 {
        list
    } else {
        stash_run(stash_effect(list, cmds[0]), cmds.drop_first())
    }
}

proof fn lemma_run_concat(
    list: Seq<(Seq<char>, Seq<char>)>,
    a: Seq<Seq<Seq<char>>>,
    b: Seq<Seq<Seq<char>>>,
)
    ensures
        stash_run(list, a + b) == stash_run(stash_run(list, a), b),
    decreases a.len(),
{
    if a.len() > 0 {
        assert((a + b).drop_first() =~= a.drop_first() + b);
        assert((a + b)[0] == a[0]);
        lemma_run_concat(stash_effect(list, a[0]), a.drop_first(), b);
    } else {
        assert(a + b =~= b);
    }
}

proof fn lemma_run_drops(list: Seq<(Seq<char>, Seq<char>)>, n: nat)
    requires
        n <= list.len(),
    ensures
        stash_run(list, Seq::new(n, |k: int| drop_newest_args())) == list.skip(n as int),
    decreases n,
{
    let d = Seq::new(n, |k: int| drop_newest_args());
    if n > 0 {
        assert(d[0] == drop_newest_args());
        assert(d.drop_first() =~= Seq::new((n - 1) as nat, |k: int| drop_newest_args()));
        lemma_run_drops(list.drop_first(), (n - 1) as nat);
        assert(list.drop_first().skip(n - 1) =~= list.skip(n as int));
    } else {
        assert(list.skip(0) =~= list);
    }
}

proof fn lemma_run_stores(
    list: Seq<(Seq<char>, Seq<char>)>,
    index: int,
    new_message: Seq<char>,
    m: nat,
)
    requires
        0 <= index < list.len(),
        m <= index + 1,
    ensures
        ({
            let renamed = list.update(index, (list[index].0, new_message));
            let stores = rename_plan(list, index, new_message).skip(index + 1);
            stash_run(renamed.skip(index + 1), stores.take(m as int)) == renamed.skip(
                index + 1 - m,
            )
        }),
    decreases m,
{
    let renamed = list.update(index, (list[index].0, new_message));
    let stores = rename_plan(list, index, new_message).skip(index + 1);
    if m > 0 {
        lemma_run_stores(list, index, new_message, (m - 1) as nat);
        assert(stores.take(m as int) =~= stores.take(m - 1) + seq![stores[m - 1]]);
        lemma_run_concat(renamed.skip(index + 1), stores.take(m - 1), seq![stores[m - 1]]);
        let before = renamed.skip(index + 1 - (m - 1));
        let k = index + 1 - m;
        let x = stores[m - 1];
        assert(x == rename_plan(list, index, new_message)[index + m]);
        assert(x == store_args(renamed[k].1, renamed[k].0));
        assert(x.len() == 5);
        assert(x != drop_newest_args());
        assert(stash_effect(before, x) == seq![(x[4], x[3])] + before);
        assert(stash_effect(before, x) =~= renamed.skip(k));
        let one = seq![x];
        assert(one[0] == x);
        assert(one.drop_first() =~= Seq::<Seq<Seq<char>>>::empty());
        assert(stash_run(before, one) == stash_run(stash_effect(before, x), one.drop_first()));
        assert(stash_run(stash_effect(before, x), Seq::<Seq<Seq<char>>>::empty()) == stash_effect(
            before,
            x,
        ));
    } else {
        assert(stores.take(0) =~= Seq::<Seq<Seq<char>>>::empty());
    }
}

/// Renaming a stash entry keeps the list in place: after the planned
/// commands the list holds the same commits in the same order, and only
/// entry `index` has a new message.
pub proof fn law_stash_rename_in_place(
    list: Seq<(Seq<char>, Seq<char>)>,
    index: int,
    new_message: Seq<char>,
)
    requires
        0 <= index < list.len(),
    ensures
        stash_run(list, rename_plan(list, index, new_message)) == list.update(
            index,
            (list[index].0, new_message),
        ),
{
    let plan = rename_plan(list, index, new_message);
    let drops = Seq::new((index + 1) as nat, |k: int| drop_newest_args());
    let stores = plan.skip(index + 1);
    assert(plan =~= drops + stores);
    lemma_run_concat(list, drops, stores);
    lemma_run_drops(list, (index + 1) as nat);
    let renamed = list.update(index, (list[index].0, new_message));
    assert(renamed.skip(index + 1) =~= list.skip(index + 1));
    lemma_run_stores(list, index, new_message, (index + 1) as nat);
    assert(stores.take(index + 1) =~= stores);
    assert(renamed.skip(0) =~= renamed);
}

} // verus!
