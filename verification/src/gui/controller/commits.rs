use vstd::prelude::*;
use crate::gui::context::ContextManager;
use crate::gui::popup::{menu_item, item_is, Command, InputCommand, Popup};
use crate::model::Model;
use crate::model::commit::short_hash_spec;

verus! {

/// Index of the selected row of the active panel.
pub open spec fn sel(ctx: &ContextManager) -> int {
    ctx.selected_spec(ctx.active_ctx()) as int
}

/// Asks to revert the selected commit.
pub fn revert_commit(ctx: &ContextManager, model: &Model) -> (p: Option<Popup>)
    ensures
        sel(ctx) >= model.commits@.len() ==> p is None,
        sel(ctx) < model.commits@.len() ==> (p matches Some(
            Popup::Confirm { title, message, on_confirm: Command::RevertCommit(h) },
        ) && title@ == "Revert commit"@ && message@ == "Revert commit "@ + short_hash_spec(
            model.commits@[sel(ctx)].hash@,
        ) + "?"@ && h@ == model.commits@[sel(ctx)].hash@),
{
    let selected = ctx.selected_active();
    if selected < model.commits.len() {
        let commit = &model.commits[selected];
        let hash = commit.hash.clone();
        let short = commit.short_hash();
        let mut message = String::from_str("Revert commit ");
        message.append(short.as_str());
        message.append("?");
        Some(
            Popup::Confirm {
                title: String::from_str("Revert commit"),
                message,
                on_confirm: Command::RevertCommit(hash),
            },
        )
    } else {
        None
    }
}

/// Asks for a new message for the selected commit, starting from its current
/// one.
pub fn reword_commit(ctx: &ContextManager, model: &Model) -> (p: Option<Popup>)
    ensures
        sel(ctx) >= model.commits@.len() ==> p is None,
        sel(ctx) < model.commits@.len() ==> (p matches Some(
            Popup::Input { title, buffer, on_confirm: InputCommand::RewordCommit(h) },
        ) && title@ == "Reword commit"@ && buffer@ == model.commits@[sel(ctx)].name@ && h@
            == model.commits@[sel(ctx)].hash@),
{
    let selected = ctx.selected_active();
    if selected < model.commits.len() {
        let commit = &model.commits[selected];
        Some(
            Popup::Input {
                title: String::from_str("Reword commit"),
                buffer: commit.name.clone(),
                on_confirm: InputCommand::RewordCommit(commit.hash.clone()),
            },
        )
    } else {
        None
    }
}

/// A reset-menu entry resetting to `hash` with `mode`.
pub open spec fn reset_item_is(
    it: crate::gui::popup::MenuItem,
    label: Seq<char>,
    desc: Seq<char>,
    key: Seq<char>,
    hash: Seq<char>,
    mode: Seq<char>,
) -> bool {
    &&& item_is(it, label, desc, key)
    &&& it.action matches Some(Command::ResetToCommit { hash: h, mode: m }) && h@ == hash && m@
        == mode
}

/// Offers a soft, mixed or hard reset to the selected commit.
pub fn show_reset_menu(ctx: &ContextManager, model: &Model) -> (p: Option<Popup>)
    ensures
        sel(ctx) >= model.commits@.len() ==> p is None,
        sel(ctx) < model.commits@.len() ==> (p matches Some(Popup::Menu { title, items, selected })
            && title@ == "Reset to this commit"@ && selected == 0 && items@.len() == 3
            && reset_item_is(
            items@[0],
            "Soft reset"@,
            "Keep changes staged"@,
            "s"@,
            model.commits@[sel(ctx)].hash@,
            "--soft"@,
        ) && reset_item_is(
            items@[1],
            "Mixed reset"@,
            "Keep changes unstaged"@,
            "m"@,
            model.commits@[sel(ctx)].hash@,
            "--mixed"@,
        ) && reset_item_is(
            items@[2],
            "Hard reset"@,
            "Discard all changes"@,
            "h"@,
            model.commits@[sel(ctx)].hash@,
            "--hard"@,
        )),
{
    let selected = ctx.selected_active();
    if selected < model.commits.len() {
        let hash = &model.commits[selected].hash;
        let items = vec![
            menu_item(
                "Soft reset",
                String::from_str("Keep changes staged"),
                "s",
                Command::ResetToCommit { hash: hash.clone(), mode: String::from_str("--soft") },
            ),
            menu_item(
                "Mixed reset",
                String::from_str("Keep changes unstaged"),
                "m",
                Command::ResetToCommit { hash: hash.clone(), mode: String::from_str("--mixed") },
            ),
            menu_item(
                "Hard reset",
                String::from_str("Discard all changes"),
                "h",
                Command::ResetToCommit { hash: hash.clone(), mode: String::from_str("--hard") },
            ),
        ];
        Some(Popup::Menu { title: String::from_str("Reset to this commit"), items, selected: 0 })
    } else {
        None
    }
}

/// Asks to cherry-pick the selected commit.
pub fn cherry_pick_copy(ctx: &ContextManager, model: &Model) -> (p: Option<Popup>)
    ensures
        sel(ctx) >= model.commits@.len() ==> p is None,
        sel(ctx) < model.commits@.len() ==> (p matches Some(
            Popup::Confirm { title, message, on_confirm: Command::CherryPick(hs) },
        ) && title@ == "Cherry-pick"@ && message@ == "Cherry-pick commit "@ + short_hash_spec(
            model.commits@[sel(ctx)].hash@,
        ) + "?"@ && hs@.len() == 1 && hs@[0]@ == model.commits@[sel(ctx)].hash@),
{
    let selected = ctx.selected_active();
    if selected < model.commits.len() {
        let commit = &model.commits[selected];
        let short = commit.short_hash();
        let mut message = String::from_str("Cherry-pick commit ");
        message.append(short.as_str());
        message.append("?");
        let hashes = vec![commit.hash.clone()];
        Some(
            Popup::Confirm {
                title: String::from_str("Cherry-pick"),
                message,
                on_confirm: Command::CherryPick(hashes),
            },
        )
    } else {
        None
    }
}

/// Asks for the name of a tag to create (when a commit is selected).
pub fn tag_commit(ctx: &ContextManager, model: &Model) -> (p: Option<Popup>)
    ensures
        sel(ctx) >= model.commits@.len() ==> p is None,
        sel(ctx) < model.commits@.len() ==> (p matches Some(
            Popup::Input { title, buffer, on_confirm: InputCommand::CreateTag },
        ) && title@ == "Tag name"@ && buffer@.len() == 0),
{
    let selected = ctx.selected_active();
    if selected < model.commits.len() {
        Some(
            Popup::Input {
                title: String::from_str("Tag name"),
                buffer: String::new(),
                on_confirm: InputCommand::CreateTag,
            },
        )
    } else {
        None
    }
}

} // verus!

verus! {

/// The configured bindings of the commits panel (`None` when unparsable).
pub struct CommitsBindings {
    pub revert_commit: Option<crate::gui::keys::Key>,
    pub rename_commit: Option<crate::gui::keys::Key>,
    pub view_reset_options: Option<crate::gui::keys::Key>,
    pub cherry_pick_copy: Option<crate::gui::keys::Key>,
    pub tag_commit: Option<crate::gui::keys::Key>,
}

/// Commands of the commits panel.
#[derive(Debug, Clone, Copy, PartialEq, Eq, Structural)]
pub enum CommitsKey {
    Revert,
    Reword,
    ResetMenu,
    CherryPick,
    Tag,
    Ignore,
}

/// Key handling of the commits panel: the first configured binding that the
/// press matches, tested in the order revert, reword, reset, cherry-pick, tag.
pub fn handle_key(key: &crate::gui::keys::Key, b: &CommitsBindings) -> (r: CommitsKey)
    ensures
        r == (if crate::gui::keys::matches_binding(*key, b.revert_commit) {
            CommitsKey::Revert
        } else if crate::gui::keys::matches_binding(*key, b.rename_commit) {
            CommitsKey::Reword
        } else if crate::gui::keys::matches_binding(*key, b.view_reset_options) {
            CommitsKey::ResetMenu
        } else if crate::gui::keys::matches_binding(*key, b.cherry_pick_copy) {
            CommitsKey::CherryPick
        } else if crate::gui::keys::matches_binding(*key, b.tag_commit) {
            CommitsKey::Tag
        } else {
            CommitsKey::Ignore
        }),
{
    if crate::gui::keys::matches_key(key, &b.revert_commit) {
        CommitsKey::Revert
    } else if crate::gui::keys::matches_key(key, &b.rename_commit) {
        CommitsKey::Reword
    } else if crate::gui::keys::matches_key(key, &b.view_reset_options) {
        CommitsKey::ResetMenu
    } else if crate::gui::keys::matches_key(key, &b.cherry_pick_copy) {
        CommitsKey::CherryPick
    } else if crate::gui::keys::matches_key(key, &b.tag_commit) {
        CommitsKey::Tag
    } else {
        CommitsKey::Ignore
    }
}

} // verus!
