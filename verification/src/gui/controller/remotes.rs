use vstd::prelude::*;
use crate::gui::context::ContextManager;
use crate::gui::controller::commits::sel;
use crate::gui::keys::{is_char, matches_binding, matches_key, Key, KeyCode};
use crate::gui::popup::{item_is, menu_item, Command, Popup};
use crate::model::Model;

verus! {

/// Fetches from the selected remote (nothing when none is selected).
pub fn fetch_remote(ctx: &ContextManager, model: &Model) -> (c: Option<Command>)
    ensures
        sel(ctx) >= model.remotes@.len() ==> c is None,
        sel(ctx) < model.remotes@.len() ==> (c matches Some(Command::Fetch(n)) && n@
            == model.remotes@[sel(ctx)].name@),
{
    let selected = ctx.selected_active();
    if selected < model.remotes.len() {
        Some(Command::Fetch(model.remotes[selected].name.clone()))
    } else {
        None
    }
}

/// The push menu for the current branch (empty when unknown): push, force
/// push with lease, push and set upstream on `origin`.
pub fn show_push_menu(branch: &str) -> (p: Popup)
    ensures
        p matches Popup::Menu { title, items, selected } && title@ == "Push"@ && selected == 0
            && items@.len() == 3 && item_is(
            items@[0],
            "Push"@,
            "Push "@ + branch@ + " to origin"@,
            "p"@,
        ) && (items@[0].action matches Some(Command::Push { force }) && !force) && item_is(
            items@[1],
            "Push (force-with-lease)"@,
            "Force push with safety check"@,
            "f"@,
        ) && (items@[1].action matches Some(Command::Push { force }) && force) && item_is(
            items@[2],
            "Push and set upstream"@,
            "Push -u origin "@ + branch@,
            "u"@,
        ) && (items@[2].action matches Some(Command::PushWithUpstream { remote, branch: b })
            && remote@ == "origin"@ && b@ == branch@),
{
    let mut d0 = String::from_str("Push ");
    d0.append(branch);
    d0.append(" to origin");
    let mut d2 = String::from_str("Push -u origin ");
    d2.append(branch);
    let items = vec![
        menu_item("Push", d0, "p", Command::Push { force: false }),
        menu_item(
            "Push (force-with-lease)",
            String::from_str("Force push with safety check"),
            "f",
            Command::Push { force: true },
        ),
        menu_item(
            "Push and set upstream",
            d2,
            "u",
            Command::PushWithUpstream {
                remote: String::from_str("origin"),
                branch: String::from_str(branch),
            },
        ),
    ];
    Popup::Menu { title: String::from_str("Push"), items, selected: 0 }
}

/// The pull menu: pull from upstream, or fetch all remotes.
pub fn show_pull_menu() -> (p: Popup)
    ensures
        p matches Popup::Menu { title, items, selected } && title@ == "Pull"@ && selected == 0
            && items@.len() == 2 && item_is(items@[0], "Pull"@, "Pull from upstream"@, "p"@)
            && (items@[0].action matches Some(Command::Pull)) && item_is(
            items@[1],
            "Fetch all"@,
            "Fetch from all remotes"@,
            "f"@,
        ) && (items@[1].action matches Some(Command::FetchAll)),
{
    let items = vec![
        menu_item("Pull", String::from_str("Pull from upstream"), "p", Command::Pull),
        menu_item("Fetch all", String::from_str("Fetch from all remotes"), "f", Command::FetchAll),
    ];
    Popup::Menu { title: String::from_str("Pull"), items, selected: 0 }
}

/// Commands of the remotes panel.
#[derive(Debug, Clone, Copy, PartialEq, Eq, Structural)]
pub enum RemotesKey {
    Fetch,
    PushMenu,
    PullMenu,
    Ignore,
}

/// Key handling of the remotes panel: `f` fetches, then the configured push
/// and pull bindings.
pub fn handle_key(key: &Key, push_binding: &Option<Key>, pull_binding: &Option<Key>) -> (r:
    RemotesKey)
    ensures
        r == (if is_char(*key, 'f') {
            RemotesKey::Fetch
        } else if matches_binding(*key, *push_binding) {
            RemotesKey::PushMenu
        } else if matches_binding(*key, *pull_binding) {
            RemotesKey::PullMenu
        } else {
            RemotesKey::Ignore
        }),
{
    if key.code == KeyCode::Char('f') {
        RemotesKey::Fetch
    } else if matches_key(key, push_binding) {
        RemotesKey::PushMenu
    } else if matches_key(key, pull_binding) {
        RemotesKey::PullMenu
    } else {
        RemotesKey::Ignore
    }
}

} // verus!
