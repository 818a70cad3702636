//! State of the interactive-rebase screen: the todo entries, their actions,
//! the selection and the scroll position.

use vstd::prelude::*;
use crate::git::rebase::{next_action, prev_action, RebaseAction};
use crate::model::Commit;
use crate::model::commit::short_hash_spec;

verus! {

/// A single entry in the interactive rebase todo list.
#[derive(Debug, Clone)]
pub struct RebaseEntry {
    pub hash: String,
    pub short_hash: String,
    pub message: String,
    pub author_name: String,
    pub unix_timestamp: i64,
    pub action: RebaseAction,
}

/// State for the interactive rebase mode screen.
pub struct RebaseModeState {
    pub active: bool,
    /// The branch being rebased.
    pub branch_name: String,
    /// The base commit hash (rebasing onto this; not included in entries).
    pub base_hash: String,
    /// Short hash of the base commit for display.
    pub base_short_hash: String,
    /// Message of the base commit for display.
    pub base_message: String,
    /// The rebase todo entries, in display order (newest first, oldest last).
    pub entries: Vec<RebaseEntry>,
    /// Currently selected entry index.
    pub selected: usize,
    /// Scroll offset for the list.
    pub scroll: usize,
}

/// `e` is the todo entry made from commit `c`, with action `pick`.
pub open spec fn entry_from_commit(e: RebaseEntry, c: Commit) -> bool {
    &&& e.hash@ == c.hash@
    &&& e.short_hash@ == short_hash_spec(c.hash@)
    &&& e.message@ == c.name@
    &&& e.author_name@ == c.author_name@
    &&& e.unix_timestamp == c.unix_timestamp
    &&& e.action == RebaseAction::Pick
}

/// `new` keeps the branch and base of `old`, its scroll offset and whether
/// the mode is active.
pub open spec fn keeps_rest(old: RebaseModeState, new: RebaseModeState) -> bool {
    &&& new.branch_name@ == old.branch_name@
    &&& new.base_hash@ == old.base_hash@
    &&& new.base_short_hash@ == old.base_short_hash@
    &&& new.base_message@ == old.base_message@
    &&& new.scroll == old.scroll
    &&& new.active == old.active
}

/// The state `exit` leaves: inactive, nothing listed, no branch or base,
/// selection and scroll at the top.
pub open spec fn is_exited(s: RebaseModeState) -> bool {
    &&& !s.active
    &&& s.branch_name@.len() == 0
    &&& s.base_hash@.len() == 0
    &&& s.base_short_hash@.len() == 0
    &&& s.base_message@.len() == 0
    &&& s.entries@.len() == 0
    &&& s.selected == 0
    &&& s.scroll == 0
}

/// The entries with the one at `i` given action `a` (unchanged when `i` is
/// out of range).
pub open spec fn set_action_at(s: Seq<RebaseEntry>, i: int, a: RebaseAction) -> Seq<
    RebaseEntry,
> {
    if 0 <= i < s.len() {
        s.update(i, RebaseEntry { action: a, ..s[i] })
    } else {
        s
    }
}

/// `s` with the entries at `i` and `j` exchanged.
pub open spec fn swap_at(s: Seq<RebaseEntry>, i: int, j: int) -> Seq<RebaseEntry> {
    s.update(i, s[j]).update(j, s[i])
}

/// What the todo list asks of git: `(hash, action)` pairs oldest first.
pub open spec fn actions_of(s: Seq<RebaseEntry>) -> Seq<(Seq<char>, RebaseAction)> {
    Seq::new(s.len(), |i: int| (s[s.len() - 1 - i].hash@, s[s.len() - 1 - i].action))
}

/// The scroll offset that keeps `selected` within `height` visible rows.
pub open spec fn visible_scroll(selected: int, scroll: int, height: int) -> int {
    if height == 0 {
        scroll
    } else if selected < scroll {
        selected
    } else if selected >= scroll + height {
        selected + 1 - height
    } else {
        scroll
    }
}

impl RebaseModeState {
    /// Inactive, with nothing listed.
    pub fn new() -> (s: Self)
        ensures
            !s.active,
            s.branch_name@.len() == 0,
            s.base_hash@.len() == 0,
            s.base_short_hash@.len() == 0,
            s.base_message@.len() == 0,
            s.entries@.len() == 0,
            s.selected == 0,
            s.scroll == 0,
    {
        RebaseModeState {
            active: false,
            branch_name: String::new(),
            base_hash: String::new(),
            base_short_hash: String::new(),
            base_message: String::new(),
            entries: Vec::new(),
            selected: 0,
            scroll: 0,
        }
    }

    /// Enters interactive rebase mode. `commits` are newest first (as the
    /// commits panel shows them) and each becomes a `pick` entry, in the same
    /// order; `base_commit` is the commit rebased onto.
    pub fn enter(&mut self, branch_name: String, base_commit: &Commit, commits: &[Commit])
        ensures
            final(self).active,
            final(self).branch_name@ == branch_name@,
            final(self).base_hash@ == base_commit.hash@,
            final(self).base_short_hash@ == short_hash_spec(base_commit.hash@),
            final(self).base_message@ == base_commit.name@,
            final(self).entries@.len() == commits@.len(),
            forall|i: int|
                0 <= i < commits@.len() ==> entry_from_commit(
                    #[trigger] final(self).entries@[i],
                    commits@[i],
                ),
            final(self).selected == 0,
            final(self).scroll == 0,
    {
        self.active = true;
        self.branch_name = branch_name;
        self.base_hash = base_commit.hash.clone();
        self.base_short_hash = base_commit.short_hash();
        self.base_message = base_commit.name.clone();
        let mut entries: Vec<RebaseEntry> = Vec::new();
        let mut i: usize = 0;
        while i < commits.len()
            invariant
                i <= commits@.len(),
                entries@.len() == i,
                forall|j: int| 0 <= j < i ==> entry_from_commit(#[trigger] entries@[j], commits@[j]),
            decreases commits.len() - i,
        {
            let c = &commits[i];
            entries.push(
                RebaseEntry {
                    hash: c.hash.clone(),
                    short_hash: c.short_hash(),
                    message: c.name.clone(),
                    author_name: c.author_name.clone(),
                    unix_timestamp: c.unix_timestamp,
                    action: RebaseAction::Pick,
                },
            );
            i += 1;
        }
        self.entries = entries;
        self.selected = 0;
        self.scroll = 0;
    }

    /// Leaves the mode and forgets everything listed.
    pub fn exit(&mut self)
        ensures
            !final(self).active,
            final(self).branch_name@.len() == 0,
            final(self).base_hash@.len() == 0,
            final(self).base_short_hash@.len() == 0,
            final(self).base_message@.len() == 0,
            final(self).entries@.len() == 0,
            final(self).selected == 0,
            final(self).scroll == 0,
            is_exited(*final(self)),
    {
        self.active = false;
        self.entries.clear();
        self.branch_name = String::new();
        self.base_hash = String::new();
        self.base_short_hash = String::new();
        self.base_message = String::new();
        self.selected = 0;
        self.scroll = 0;
    }

    /// Replaces the action of the selected entry with `a`, if there is one.
    fn replace_selected_action(&mut self, a: RebaseAction)
        ensures
            final(self).entries@ == set_action_at(old(self).entries@, old(self).selected as int, a),
            final(self).selected == old(self).selected,
            final(self).scroll == old(self).scroll,
            final(self).active == old(self).active,
            keeps_rest(*old(self), *final(self)),
    {
        if self.selected < self.entries.len() {
            let i = self.selected;
            let mut e = self.entries.remove(i);
            e.action = a;
            self.entries.insert(i, e);
            assert(self.entries@ =~= set_action_at(old(self).entries@, i as int, a));
        }
    }

    /// Sets the action on the currently selected entry.
    pub fn set_action(&mut self, action: RebaseAction)
        ensures
            final(self).entries@ == set_action_at(
                old(self).entries@,
                old(self).selected as int,
                action,
            ),
            final(self).selected == old(self).selected,
            final(self).scroll == old(self).scroll,
            final(self).active == old(self).active,
            keeps_rest(*old(self), *final(self)),
    {
        self.replace_selected_action(action);
    }

    /// Cycles the selected entry's action forward.
    pub fn cycle_action_forward(&mut self)
        ensures
            final(self).entries@ == (if old(self).selected < old(self).entries@.len() {
                set_action_at(
                    old(self).entries@,
                    old(self).selected as int,
                    next_action(old(self).entries@[old(self).selected as int].action),
                )
            } else {
                old(self).entries@
            }),
            final(self).selected == old(self).selected,
            final(self).scroll == old(self).scroll,
            final(self).active == old(self).active,
            keeps_rest(*old(self), *final(self)),
    {
        if self.selected < self.entries.len() {
            let a = self.entries[self.selected].action.next();
            self.replace_selected_action(a);
        }
    }

    /// Cycles the selected entry's action backward.
    pub fn cycle_action_backward(&mut self)
        ensures
            final(self).entries@ == (if old(self).selected < old(self).entries@.len() {
                set_action_at(
                    old(self).entries@,
                    old(self).selected as int,
                    prev_action(old(self).entries@[old(self).selected as int].action),
                )
            } else {
                old(self).entries@
            }),
            final(self).selected == old(self).selected,
            final(self).scroll == old(self).scroll,
            final(self).active == old(self).active,
            keeps_rest(*old(self), *final(self)),
    {
        if self.selected < self.entries.len() {
            let a = self.entries[self.selected].action.prev();
            self.replace_selected_action(a);
        }
    }

    /// Moves the selected entry up (swaps it with the one above), keeping it
    /// selected; nothing happens at the top.
    pub fn move_up(&mut self)
        requires
            old(self).selected < old(self).entries@.len() || old(self).selected == 0,
        ensures
            old(self).selected > 0 ==> final(self).entries@ == swap_at(
                old(self).entries@,
                old(self).selected as int,
                old(self).selected - 1,
            ) && final(self).selected == old(self).selected - 1,
            old(self).selected == 0 ==> final(self).entries@ == old(self).entries@
                && final(self).selected == 0,
            final(self).scroll == old(self).scroll,
            final(self).active == old(self).active,
            keeps_rest(*old(self), *final(self)),
    {
        if self.selected > 0 {
            let i = self.selected;
            let e = self.entries.remove(i);
            self.entries.insert(i - 1, e);
            assert(self.entries@ =~= swap_at(old(self).entries@, i as int, i - 1));
            self.selected = i - 1;
        }
    }

    /// Moves the selected entry down (swaps it with the one below), keeping
    /// it selected; nothing happens at the bottom.
    pub fn move_down(&mut self)
        requires
            old(self).selected < usize::MAX,
        ensures
            old(self).selected + 1 < old(self).entries@.len() ==> final(self).entries@ == swap_at(
                old(self).entries@,
                old(self).selected as int,
                old(self).selected + 1,
            ) && final(self).selected == old(self).selected + 1,
            old(self).selected + 1 >= old(self).entries@.len() ==> final(self).entries@ == old(
                self,
            ).entries@ && final(self).selected == old(self).selected,
            final(self).scroll == old(self).scroll,
            final(self).active == old(self).active,
            keeps_rest(*old(self), *final(self)),
    {
        if self.selected + 1 < self.entries.len() {
            let i = self.selected;
            let e = self.entries.remove(i);
            self.entries.insert(i + 1, e);
            assert(self.entries@ =~= swap_at(old(self).entries@, i as int, i + 1));
            self.selected = i + 1;
        }
    }

    /// The `(hash, action)` pairs for git, oldest first (the display is
    /// newest first).
    pub fn build_actions(&self) -> (r: Vec<(String, RebaseAction)>)
        ensures
            r@.map_values(|p: (String, RebaseAction)| (p.0@, p.1)) == actions_of(self.entries@),
    {
        let mut r: Vec<(String, RebaseAction)> = Vec::new();
        let n = self.entries.len();
        let mut k: usize = 0;
        while k < n
            invariant
                n == self.entries@.len(),
                k <= n,
                r@.len() == k,
                forall|j: int|
                    0 <= j < k ==> (#[trigger] r@[j]).0@ == self.entries@[n - 1 - j].hash@ && r@[j].1
                        == self.entries@[n - 1 - j].action,
            decreases n - k,
        {
            let e = &self.entries[n - 1 - k];
            r.push((e.hash.clone(), e.action));
            k += 1;
        }
        assert(r@.map_values(|p: (String, RebaseAction)| (p.0@, p.1)) =~= actions_of(
            self.entries@,
        ));
        r
    }

    /// Adjusts the scroll offset so the selected entry is among the
    /// `visible_height` rows shown.
    pub fn ensure_visible(&mut self, visible_height: usize)
        requires
            old(self).selected >= old(self).scroll ==> old(self).scroll + visible_height
                <= usize::MAX,
            visible_height > 0 && old(self).selected >= old(self).scroll + visible_height
                ==> old(self).selected < usize::MAX,
        ensures
            final(self).scroll == visible_scroll(
                old(self).selected as int,
                old(self).scroll as int,
                visible_height as int,
            ),
            final(self).selected == old(self).selected,
            final(self).entries@ == old(self).entries@,
            final(self).active == old(self).active,
            final(self).branch_name@ == old(self).branch_name@,
            final(self).base_hash@ == old(self).base_hash@,
            final(self).base_short_hash@ == old(self).base_short_hash@,
            final(self).base_message@ == old(self).base_message@,
    {
        if visible_height == 0 {
            return;
        }
        if self.selected < self.scroll {
            self.scroll = self.selected;
        } else if self.selected >= self.scroll + visible_height {
            self.scroll = self.selected + 1 - visible_height;
        }
    }
}

} // verus!

verus! {

/// Cycling the selected entry's action forward and then backward leaves the
/// todo list as it was.
pub proof fn law_cycle_round_trip(s: Seq<RebaseEntry>, i: int)
    requires
        0 <= i < s.len(),
    ensures
        ({
            let fwd = set_action_at(s, i, next_action(s[i].action));
            set_action_at(fwd, i, prev_action(fwd[i].action)) == s
        }),
{
    let fwd = set_action_at(s, i, next_action(s[i].action));
    let back = set_action_at(fwd, i, prev_action(fwd[i].action));
    assert(back =~= s);
}

/// Moving an entry up and then down again restores the todo list.
pub proof fn law_move_up_then_down(s: Seq<RebaseEntry>, i: int)
    requires
        0 < i < s.len(),
    ensures
        swap_at(swap_at(s, i, i - 1), i - 1, i) == s,
{
    assert(swap_at(swap_at(s, i, i - 1), i - 1, i) =~= s);
}

/// The actions handed to git are the display list read bottom-up.
pub proof fn law_actions_reverse_display(s: Seq<RebaseEntry>)
    ensures
        actions_of(s).len() == s.len(),
        forall|k: int|
            0 <= k < s.len() ==> #[trigger] actions_of(s)[k] == (
                s[s.len() - 1 - k].hash@,
                s[s.len() - 1 - k].action,
            ),
{
}

/// After `ensure_visible` with a positive height the selection is on screen.
pub proof fn law_selection_visible(selected: int, scroll: int, height: int)
    requires
        height > 0,
        0 <= selected,
        0 <= scroll,
    ensures
        visible_scroll(selected, scroll, height) <= selected < visible_scroll(
            selected,
            scroll,
            height,
        ) + height,
{
}

} // verus!
