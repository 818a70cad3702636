use vstd::prelude::*;
use crate::gui::context::ContextManager;
use crate::gui::controller::commits::sel;
use crate::gui::keys::{is_char, matches_binding, matches_key, Key, KeyCode};
use crate::gui::popup::{cancel_item, item_is, menu_item, Command, InputCommand, Popup};
use crate::model::Model;

verus! {

/// A menu offering one stash operation on an entry, then Cancel.
pub open spec fn stash_menu_is(
    p: Option<Popup>,
    title: Seq<char>,
    label: Seq<char>,
    desc: Seq<char>,
    key: Seq<char>,
    action: spec_fn(Command) -> bool,
) -> bool {
    p matches Some(Popup::Menu { title: t, items, selected }) && t@ == title && selected == 0
        && items@.len() == 2 && item_is(items@[0], label, desc, key) && (items@[0].action matches Some(
        c,
    ) && action(c)) && item_is(items@[1], "Cancel"@, Seq::empty(), "c"@) && (items@[1].action matches Some(
        Command::Cancel,
    ))
}

/// `<verb> stash '<name>'?`
pub open spec fn stash_title(verb: Seq<char>, name: Seq<char>) -> Seq<char> {
    verb + " stash '"@ + name + "'?"@
}

fn stash_title_of(verb: &str, name: &String) -> (r: String)
    ensures
        r@ == stash_title(verb@, name@),
{
    let mut r = String::from_str(verb);
    r.append(" stash '");
    r.append(name.as_str());
    r.append("'?");
    r
}

/// Asks to pop the selected stash entry.
pub fn pop_stash(ctx: &ContextManager, model: &Model) -> (p: Option<Popup>)
    ensures
        sel(ctx) >= model.stash_entries@.len() ==> p is None,
        sel(ctx) < model.stash_entries@.len() ==> stash_menu_is(
            p,
            stash_title("Pop"@, model.stash_entries@[sel(ctx)].name@),
            "Pop"@,
            "apply and drop this stash"@,
            "g"@,
            |c: Command| c == Command::StashPop(model.stash_entries@[sel(ctx)].index),
        ),
{
    let selected = ctx.selected_active();
    if selected < model.stash_entries.len() {
        let entry = &model.stash_entries[selected];
        let items = vec![
            menu_item(
                "Pop",
                String::from_str("apply and drop this stash"),
                "g",
                Command::StashPop(entry.index),
            ),
            cancel_item(),
        ];
        Some(Popup::Menu { title: stash_title_of("Pop", &entry.name), items, selected: 0 })
    } else {
        None
    }
}

/// Asks to apply the selected stash entry (keeping it).
pub fn apply_stash(ctx: &ContextManager, model: &Model) -> (p: Option<Popup>)
    ensures
        sel(ctx) >= model.stash_entries@.len() ==> p is None,
        sel(ctx) < model.stash_entries@.len() ==> stash_menu_is(
            p,
            stash_title("Apply"@, model.stash_entries@[sel(ctx)].name@),
            "Apply"@,
            "apply stash (keep in stash list)"@,
            "a"@,
            |c: Command| c == Command::StashApply(model.stash_entries@[sel(ctx)].index),
        ),
{
    let selected = ctx.selected_active();
    if selected < model.stash_entries.len() {
        let entry = &model.stash_entries[selected];
        let items = vec![
            menu_item(
                "Apply",
                String::from_str("apply stash (keep in stash list)"),
                "a",
                Command::StashApply(entry.index),
            ),
            cancel_item(),
        ];
        Some(Popup::Menu { title: stash_title_of("Apply", &entry.name), items, selected: 0 })
    } else {
        None
    }
}

/// Asks to drop the selected stash entry.
pub fn drop_stash(ctx: &ContextManager, model: &Model) -> (p: Option<Popup>)
    ensures
        sel(ctx) >= model.stash_entries@.len() ==> p is None,
        sel(ctx) < model.stash_entries@.len() ==> stash_menu_is(
            p,
            stash_title("Drop"@, model.stash_entries@[sel(ctx)].name@),
            "Drop"@,
            "permanently remove this stash"@,
            "d"@,
            |c: Command| c == Command::StashDrop(model.stash_entries@[sel(ctx)].index),
        ),
{
    let selected = ctx.selected_active();
    if selected < model.stash_entries.len() {
        let entry = &model.stash_entries[selected];
        let items = vec![
            menu_item(
                "Drop",
                String::from_str("permanently remove this stash"),
                "d",
                Command::StashDrop(entry.index),
            ),
            cancel_item(),
        ];
        Some(Popup::Menu { title: stash_title_of("Drop", &entry.name), items, selected: 0 })
    } else {
        None
    }
}

/// Asks for a new name for the selected stash entry, starting from its
/// current one.
pub fn rename_stash(ctx: &ContextManager, model: &Model) -> (p: Option<Popup>)
    ensures
        sel(ctx) >= model.stash_entries@.len() ==> p is None,
        sel(ctx) < model.stash_entries@.len() ==> (p matches Some(
            Popup::Input { title, buffer, on_confirm: InputCommand::RenameStash(i) },
        ) && title@ == "Rename stash"@ && buffer@ == model.stash_entries@[sel(ctx)].name@ && i
            == model.stash_entries@[sel(ctx)].index),
{
    let selected = ctx.selected_active();
    if selected < model.stash_entries.len() {
        let entry = &model.stash_entries[selected];
        Some(
            Popup::Input {
                title: String::from_str("Rename stash"),
                buffer: entry.name.clone(),
                on_confirm: InputCommand::RenameStash(entry.index),
            },
        )
    } else {
        None
    }
}

/// Commands of the stash panel.
#[derive(Debug, Clone, Copy, PartialEq, Eq, Structural)]
pub enum StashKey {
    Pop,
    Apply,
    Drop,
    Rename,
    Ignore,
}

/// Key handling of the stash panel: the configured pop binding, space to
/// apply, `d` to drop, the configured rename binding.
pub fn handle_key(key: &Key, pop_binding: &Option<Key>, rename_binding: &Option<Key>) -> (r:
    StashKey)
    ensures
        r == (if matches_binding(*key, *pop_binding) {
            StashKey::Pop
        } else if is_char(*key, ' ') {
            StashKey::Apply
        } else if is_char(*key, 'd') {
            StashKey::Drop
        } else if matches_binding(*key, *rename_binding) {
            StashKey::Rename
        } else {
            StashKey::Ignore
        }),
{
    if matches_key(key, pop_binding) {
        StashKey::Pop
    } else if key.code == KeyCode::Char(' ') {
        StashKey::Apply
    } else if key.code == KeyCode::Char('d') {
        StashKey::Drop
    } else if matches_key(key, rename_binding) {
        StashKey::Rename
    } else {
        StashKey::Ignore
    }
}

} // verus!
