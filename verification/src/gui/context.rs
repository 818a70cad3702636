//! Which panel is active, and the selection and scroll position of each.

use vstd::prelude::*;
use crate::model::Model;

verus! {

/// Identifies which panel/context is active.
#[derive(Debug, Clone, Copy, PartialEq, Eq, Hash, Structural)]
pub enum ContextId {
    Status,
    Files,
    Branches,
    Commits,
    Stash,
    Remotes,
    Tags,
    CommitFiles,
    Staging,
}

/// Position of a context in declaration order (0 to 8).
pub open spec fn ctx_index(c: ContextId) -> int {
    match c {
        ContextId::Status => 0,
        ContextId::Files => 1,
        ContextId::Branches => 2,
        ContextId::Commits => 3,
        ContextId::Stash => 4,
        ContextId::Remotes => 5,
        ContextId::Tags => 6,
        ContextId::CommitFiles => 7,
        ContextId::Staging => 8,
    }
}

/// The sidebar panels in tab order.
pub open spec fn sidebar() -> Seq<ContextId> {
    seq![
        ContextId::Status,
        ContextId::Files,
        ContextId::Branches,
        ContextId::Commits,
        ContextId::Stash,
    ]
}

/// Position of a context in the sidebar order, or -1.
pub open spec fn sidebar_pos(c: ContextId) -> int {
    match c {
        ContextId::Status => 0,
        ContextId::Files => 1,
        ContextId::Branches => 2,
        ContextId::Commits => 3,
        ContextId::Stash => 4,
        _ => -1,
    }
}

pub open spec fn title_spec(c: ContextId) -> Seq<char> {
    match c {
        ContextId::Status => "Status"@,
        ContextId::Files => "Files"@,
        ContextId::Branches => "Branches"@,
        ContextId::Commits => "Commits"@,
        ContextId::Stash => "Stash"@,
        ContextId::Remotes => "Remotes"@,
        ContextId::Tags => "Tags"@,
        ContextId::CommitFiles => "Commit Files"@,
        ContextId::Staging => "Staging"@,
    }
}

pub open spec fn short_key_spec(c: ContextId) -> Seq<char> {
    match c {
        ContextId::Status => "1"@,
        ContextId::Files => "2"@,
        ContextId::Branches => "3"@,
        ContextId::Commits => "4"@,
        ContextId::Stash => "5"@,
        _ => ""@,
    }
}

impl ContextId {
    /// The sidebar panels in order (for tab navigation).
    pub fn sidebar_order() -> (v: Vec<ContextId>)
        ensures
            v@ == sidebar(),
    {
        let v = vec![
            ContextId::Status,
            ContextId::Files,
            ContextId::Branches,
            ContextId::Commits,
            ContextId::Stash,
        ];
        assert(v@ =~= sidebar());
        v
    }

    pub fn title(&self) -> (r: &'static str)
        ensures
            r@ == title_spec(*self),
    {
        match self {
            ContextId::Status => "Status",
            ContextId::Files => "Files",
            ContextId::Branches => "Branches",
            ContextId::Commits => "Commits",
            ContextId::Stash => "Stash",
            ContextId::Remotes => "Remotes",
            ContextId::Tags => "Tags",
            ContextId::CommitFiles => "Commit Files",
            ContextId::Staging => "Staging",
        }
    }

    /// The number key that jumps to a sidebar panel (empty for others).
    pub fn short_key(&self) -> (r: &'static str)
        ensures
            r@ == short_key_spec(*self),
    {
        match self {
            ContextId::Status => "1",
            ContextId::Files => "2",
            ContextId::Branches => "3",
            ContextId::Commits => "4",
            ContextId::Stash => "5",
            _ => "",
        }
    }

    fn index(&self) -> (i: usize)
        ensures
            i == ctx_index(*self),
    {
        match self {
            ContextId::Status => 0,
            ContextId::Files => 1,
            ContextId::Branches => 2,
            ContextId::Commits => 3,
            ContextId::Stash => 4,
            ContextId::Remotes => 5,
            ContextId::Tags => 6,
            ContextId::CommitFiles => 7,
            ContextId::Staging => 8,
        }
    }
}

/// The context after `c` in the sidebar (wrapping); `c` itself when it is
/// not a sidebar panel.
pub open spec fn next_ctx(c: ContextId) -> ContextId {
    if sidebar_pos(c) < 0 {
        c
    } else {
        sidebar()[(sidebar_pos(c) + 1) % 5]
    }
}

/// The context before `c` in the sidebar (wrapping); `c` itself otherwise.
pub open spec fn prev_ctx(c: ContextId) -> ContextId {
    if sidebar_pos(c) < 0 {
        c
    } else {
        sidebar()[(sidebar_pos(c) + 4) % 5]
    }
}

/// Length of the list `c` shows in the sidebar bookkeeping of
/// [`ContextManager::clamp_selections`].
pub open spec fn sidebar_len(c: ContextId, m: &Model) -> int {
    match c {
        ContextId::Status => 1,
        ContextId::Files => m.files@.len() as int,
        ContextId::Branches => m.branches@.len() as int,
        ContextId::Commits => m.commits@.len() as int,
        ContextId::Stash => m.stash_entries@.len() as int,
        _ => 0,
    }
}

/// Length of the list shown by context `c`.
pub open spec fn list_len_spec(c: ContextId, m: &Model) -> int {
    match c {
        ContextId::Status => 1,
        ContextId::Files => m.files@.len() as int,
        ContextId::Branches => m.branches@.len() as int,
        ContextId::Commits => m.commits@.len() as int,
        ContextId::Stash => m.stash_entries@.len() as int,
        ContextId::Remotes => m.remotes@.len() as int,
        ContextId::Tags => m.tags@.len() as int,
        _ => 0,
    }
}

/// Manages which context is active and selection state per context.
pub struct ContextManager {
    active: ContextId,
    selections: [Option<usize>; 9],
    scroll_offsets: [Option<usize>; 9],
}

/// A per-context table stored by context index, as a map.
pub open spec fn table_map(t: Seq<Option<usize>>) -> Map<ContextId, usize> {
    Map::new(|c: ContextId| t[ctx_index(c)] is Some, |c: ContextId| t[ctx_index(c)]->0)
}

impl ContextManager {
    /// The active context.
    pub closed spec fn active_ctx(&self) -> ContextId {
        self.active
    }

    /// Stored selections, per context.
    pub closed spec fn selections_map(&self) -> Map<ContextId, usize> {
        table_map(self.selections@)
    }

    /// Stored scroll offsets, per context.
    pub closed spec fn scrolls_map(&self) -> Map<ContextId, usize> {
        table_map(self.scroll_offsets@)
    }

    /// The selection of `c`, 0 when none is stored.
    pub open spec fn selected_spec(&self, c: ContextId) -> usize {
        if self.selections_map().dom().contains(c) {
            self.selections_map()[c]
        } else {
            0
        }
    }

    /// The Files panel is active; each sidebar panel has selection 0; no
    /// scroll offsets are stored.
    pub fn new() -> (m: ContextManager)
        ensures
            m.active_ctx() == ContextId::Files,
            m.selections_map() == Map::new(|c: ContextId| sidebar_pos(c) >= 0, |c: ContextId| 0usize),
            m.scrolls_map() == Map::<ContextId, usize>::empty(),
    {
        let selections: [Option<usize>; 9] = [
            Some(0),
            Some(0),
            Some(0),
            Some(0),
            Some(0),
            None,
            None,
            None,
            None,
        ];
        let scroll_offsets: [Option<usize>; 9] = [
            None,
            None,
            None,
            None,
            None,
            None,
            None,
            None,
            None,
        ];
        let m = ContextManager { active: ContextId::Files, selections, scroll_offsets };
        assert(m.selections_map() =~= Map::new(
            |c: ContextId| sidebar_pos(c) >= 0,
            |c: ContextId| 0usize,
        ));
        assert(m.scrolls_map() =~= Map::<ContextId, usize>::empty());
        m
    }

    pub fn active(&self) -> (c: ContextId)
        ensures
            c == self.active_ctx(),
    {
        self.active
    }

    pub fn set_active(&mut self, ctx: ContextId)
        ensures
            final(self).active_ctx() == ctx,
            final(self).selections_map() == old(self).selections_map(),
            final(self).scrolls_map() == old(self).scrolls_map(),
    {
        self.active = ctx;
    }

    /// Moves to the next sidebar panel (wrapping); stays put when the active
    /// context is not in the sidebar.
    pub fn next_context(&mut self)
        ensures
            final(self).active_ctx() == next_ctx(old(self).active_ctx()),
            final(self).selections_map() == old(self).selections_map(),
            final(self).scrolls_map() == old(self).scrolls_map(),
    {
        self.active = sidebar_step(self.active, true);
    }

    /// Moves to the previous sidebar panel (wrapping); stays put when the
    /// active context is not in the sidebar.
    pub fn prev_context(&mut self)
        ensures
            final(self).active_ctx() == prev_ctx(old(self).active_ctx()),
            final(self).selections_map() == old(self).selections_map(),
            final(self).scrolls_map() == old(self).scrolls_map(),
    {
        self.active = sidebar_step(self.active, false);
    }

    /// The selection stored for `ctx`, or 0.
    pub fn selected(&self, ctx: ContextId) -> (r: usize)
        ensures
            r == self.selected_spec(ctx),
    {
        match self.selections[ctx.index()] {
            Some(v) => v,
            None => 0,
        }
    }

    /// The selection of the active context.
    pub fn selected_active(&self) -> (r: usize)
        ensures
            r == self.selected_spec(self.active_ctx()),
    {
        self.selected(self.active)
    }

    /// Stores `idx` as the active context's selection.
    pub fn set_selection(&mut self, idx: usize)
        ensures
            final(self).active_ctx() == old(self).active_ctx(),
            final(self).selections_map() == old(self).selections_map().insert(
                old(self).active_ctx(),
                idx,
            ),
            final(self).scrolls_map() == old(self).scrolls_map(),
    {
        let i = self.active.index();
        self.selections.set(i, Some(idx));
        assert(self.selections_map() =~= old(self).selections_map().insert(
            old(self).active_ctx(),
            idx,
        ));
    }

    /// The scroll offset stored for `ctx`, or 0.
    pub fn scroll_offset(&self, ctx: ContextId) -> (r: usize)
        ensures
            r == (if self.scrolls_map().dom().contains(ctx) {
                self.scrolls_map()[ctx]
            } else {
                0
            }),
    {
        match self.scroll_offsets[ctx.index()] {
            Some(v) => v,
            None => 0,
        }
    }

    /// Stores a scroll offset for `ctx`.
    pub fn set_scroll_offset(&mut self, ctx: ContextId, offset: usize)
        ensures
            final(self).active_ctx() == old(self).active_ctx(),
            final(self).selections_map() == old(self).selections_map(),
            final(self).scrolls_map() == old(self).scrolls_map().insert(ctx, offset),
    {
        let i = ctx.index();
        self.scroll_offsets.set(i, Some(offset));
        assert(self.scrolls_map() =~= old(self).scrolls_map().insert(ctx, offset));
    }

    /// Length of the active context's list.
    pub fn list_len(&self, model: &Model) -> (n: usize)
        ensures
            n == list_len_spec(self.active_ctx(), model),
    {
        match self.active {
            ContextId::Status => 1,
            ContextId::Files => model.files.len(),
            ContextId::Branches => model.branches.len(),
            ContextId::Commits => model.commits.len(),
            ContextId::Stash => model.stash_entries.len(),
            ContextId::Remotes => model.remotes.len(),
            ContextId::Tags => model.tags.len(),
            _ => 0,
        }
    }

    /// Moves the active selection by `delta`, stopping at the first and last
    /// item; does nothing when the list is empty.
    pub fn move_selection(&mut self, delta: isize, model: &Model)
        requires
            delta < 0 || old(self).selected_spec(old(self).active_ctx()) + delta <= usize::MAX,
        ensures
            final(self).active_ctx() == old(self).active_ctx(),
            final(self).scrolls_map() == old(self).scrolls_map(),
            list_len_spec(old(self).active_ctx(), model) == 0 ==> final(self).selections_map()
                == old(self).selections_map(),
            list_len_spec(old(self).active_ctx(), model) > 0 ==> final(self).selections_map()
                == old(self).selections_map().insert(
                old(self).active_ctx(),
                move_target(
                    old(self).selected_spec(old(self).active_ctx()) as int,
                    delta as int,
                    list_len_spec(old(self).active_ctx(), model),
                ) as usize,
            ),
    {
        let len = self.list_len(model);
        if len == 0 {
            return;
        }
        let current = self.selected_active();
        let new_idx = if delta < 0 {
            let mag: i128 = 0i128 - (delta as i128);
            if mag > current as i128 {
                0
            } else {
                (current as i128 - mag) as usize
            }
        } else {
            let t = current + delta as usize;
            if t < len - 1 {
                t
            } else {
                len - 1
            }
        };
        self.set_selection(new_idx);
    }

    /// Keeps each stored sidebar selection inside its list after a refresh:
    /// 0 for an empty list, the last item when past the end.
    pub fn clamp_selections(&mut self, model: &Model)
        ensures
            final(self).active_ctx() == old(self).active_ctx(),
            final(self).scrolls_map() == old(self).scrolls_map(),
            final(self).selections_map().dom() == old(self).selections_map().dom(),
            forall|c: ContextId| #[trigger]
                final(self).selections_map().dom().contains(c) ==> final(self).selections_map()[c]
                    == (if sidebar_pos(c) < 0 {
                    old(self).selections_map()[c] as int
                } else {
                    clamp_index(old(self).selections_map()[c] as int, sidebar_len(c, model))
                }),
    {
        let order = ContextId::sidebar_order();
        let mut k: usize = 0;
        while k < order.len()
            invariant
                order@ == sidebar(),
                k <= 5,
                self.active == old(self).active,
                self.scroll_offsets == old(self).scroll_offsets,
                forall|j: int|
                    0 <= j < 9 ==> (#[trigger] self.selections@[j] is Some) == (old(
                        self,
                    ).selections@[j] is Some),
                forall|j: int|
                    k <= j < 9 ==> #[trigger] self.selections@[j] == old(self).selections@[j],
                forall|j: int|
                    0 <= j < k ==> (#[trigger] self.selections@[j] is Some) ==> self.selections@[j]->0
                        == clamp_index(
                        old(self).selections@[j]->0 as int,
                        sidebar_len(sidebar()[j], model),
                    ),
            decreases 5 - k,
        {
            let ctx = order[k];
            assert(ctx_index(ctx) == k);
            let len: usize = match ctx {
                ContextId::Status => 1,
                ContextId::Files => model.files.len(),
                ContextId::Branches => model.branches.len(),
                ContextId::Commits => model.commits.len(),
                ContextId::Stash => model.stash_entries.len(),
                _ => 0,
            };
            let i = ctx.index();
            match self.selections[i] {
                Some(sel) => {
                    if len == 0 {
                        self.selections.set(i, Some(0));
                    } else if sel >= len {
                        self.selections.set(i, Some(len - 1));
                    }
                },
                None => {},
            }
            k += 1;
        }
        assert(self.selections_map().dom() =~= old(self).selections_map().dom());
        assert forall|c: ContextId| #[trigger]
            self.selections_map().dom().contains(c) implies self.selections_map()[c] == (if sidebar_pos(
            c,
        ) < 0 {
            old(self).selections_map()[c] as int
        } else {
            clamp_index(old(self).selections_map()[c] as int, sidebar_len(c, model))
        }) by {
            if sidebar_pos(c) >= 0 {
                assert(sidebar()[ctx_index(c)] == c);
            }
        }
    }
}

/// Where a selection at `current` lands after moving by `delta` in a list of
/// `len > 0` items.
pub open spec fn move_target(current: int, delta: int, len: int) -> int {
    if delta < 0 {
        if current + delta < 0 {
            0
        } else {
            current + delta
        }
    } else if current + delta < len - 1 {
        current + delta
    } else {
        len - 1
    }
}

/// The sidebar neighbour of `c` (next when `forward`), or `c` itself when
/// it is not in the sidebar.
fn sidebar_step(c: ContextId, forward: bool) -> (r: ContextId)
    ensures
        r == (if forward {
            next_ctx(c)
        } else {
            prev_ctx(c)
        }),
{
    let order = ContextId::sidebar_order();
    let mut idx: usize = 0;
    while idx < order.len()
        invariant
            order@ == sidebar(),
            idx <= 5,
            forall|j: int| 0 <= j < idx ==> order@[j] != c,
        decreases 5 - idx,
    {
        if order[idx] == c {
            assert(sidebar_pos(c) == idx);
            if forward {
                return order[(idx + 1) % order.len()];
            } else {
                return order[(idx + order.len() - 1) % order.len()];
            }
        }
        idx += 1;
    }
    assert(sidebar_pos(c) < 0);
    c
}

/// A selection kept inside a list of `len` items: 0 when empty, else at most
/// `len - 1`.
pub open spec fn clamp_index(sel: int, len: int) -> int {
    if len == 0 {
        0
    } else if sel >= len {
        len - 1
    } else {
        sel
    }
}

} // verus!

verus! {

/// Tab then shift-tab (or the reverse) returns to the same panel; outside
/// the sidebar both keep the panel.
pub proof fn law_next_prev_inverse(c: ContextId)
    ensures
        sidebar_pos(c) >= 0 ==> prev_ctx(next_ctx(c)) == c && next_ctx(prev_ctx(c)) == c,
        sidebar_pos(c) < 0 ==> next_ctx(c) == c && prev_ctx(c) == c,
{
}

/// Five steps forward visit every sidebar panel and come back.
pub proof fn law_next_cycles(c: ContextId)
    ensures
        next_ctx(next_ctx(next_ctx(next_ctx(next_ctx(c))))) == c,
{
}

/// A selection that was just stored is what is read back.
pub proof fn law_selection_read_back(pre: ContextManager, post: ContextManager, idx: usize)
    requires
        post.active_ctx() == pre.active_ctx(),
        post.selections_map() == pre.selections_map().insert(pre.active_ctx(), idx),
    ensures
        post.selected_spec(post.active_ctx()) == idx,
{
}

/// After clamping, every stored sidebar selection points into its list (or
/// is 0 for an empty list).
pub proof fn law_clamped_in_range(post: ContextManager, pre: ContextManager, model: &Model)
    requires
        post.selections_map().dom() == pre.selections_map().dom(),
        forall|c: ContextId| #[trigger]
            post.selections_map().dom().contains(c) ==> post.selections_map()[c] == (if sidebar_pos(
                c,
            ) < 0 {
                pre.selections_map()[c] as int
            } else {
                clamp_index(pre.selections_map()[c] as int, sidebar_len(c, model))
            }),
    ensures
        forall|c: ContextId|
            sidebar_pos(c) >= 0 && #[trigger] post.selections_map().dom().contains(c) ==> (
            sidebar_len(c, model) == 0 && post.selections_map()[c] == 0) || post.selections_map()[c]
                < sidebar_len(c, model),
{
    assert forall|c: ContextId|
        sidebar_pos(c) >= 0 && #[trigger] post.selections_map().dom().contains(c) implies (
        sidebar_len(c, model) == 0 && post.selections_map()[c] == 0) || post.selections_map()[c]
        < sidebar_len(c, model) by {
        if sidebar_len(c, model) > 0 {
            assert(pre.selections_map()[c] >= 0);
        }
    }
}

/// Moving a selection that is inside a non-empty list keeps it inside.
pub proof fn law_move_stays_in_list(current: int, delta: int, len: int)
    requires
        0 <= current < len,
    ensures
        0 <= move_target(current, delta, len) < len,
{
}


/// A panel moves its selection within the list it shows: the length used
/// for the active panel is its number of items (one status line, then the
/// files, branches, commits, stash entries, remotes or tags of the model),
/// the same length the sidebar clamps to; so from a valid selection a move
/// stays inside that list.
pub proof fn law_list_len_is_shown_list(m: &Model, c: ContextId, current: int, delta: int)
    ensures
        list_len_spec(ContextId::Status, m) == 1,
        list_len_spec(ContextId::Files, m) == m.files@.len(),
        list_len_spec(ContextId::Branches, m) == m.branches@.len(),
        list_len_spec(ContextId::Commits, m) == m.commits@.len(),
        list_len_spec(ContextId::Stash, m) == m.stash_entries@.len(),
        list_len_spec(ContextId::Remotes, m) == m.remotes@.len(),
        list_len_spec(ContextId::Tags, m) == m.tags@.len(),
        sidebar_pos(c) >= 0 ==> list_len_spec(c, m) == sidebar_len(c, m),
        sidebar_pos(c) >= 0 && 0 <= current < sidebar_len(c, m) ==> 0 <= move_target(
            current,
            delta,
            list_len_spec(c, m),
        ) < sidebar_len(c, m),
{
}

} // verus!
