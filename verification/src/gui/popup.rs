//! Popups as plain values: what they show and what confirming them runs.

use vstd::prelude::*;

verus! {

/// A git operation a popup runs when confirmed.
pub enum Command {
    RevertCommit(String),
    ResetToCommit { hash: String, mode: String },
    CherryPick(Vec<String>),
    RewordCommit { hash: String, message: String },
    CreateTag { name: String, message: String },
    DeleteTag(String),
    PushTag(String),
    StashPop(usize),
    StashApply(usize),
    StashDrop(usize),
    StashRename { index: usize, message: String },
    Fetch(String),
    FetchAll,
    Pull,
    Push { force: bool },
    PushWithUpstream { remote: String, branch: String },
    UpdateSubmodules,
    InitSubmodules,
    /// Close the popup and do nothing.
    Cancel,
}

/// What an input popup does with the text typed into it.
pub enum InputCommand {
    RewordCommit(String),
    CreateTag,
    RenameStash(usize),
}

/// One entry of a menu popup.
pub struct MenuItem {
    pub label: String,
    pub description: String,
    pub key: Option<String>,
    pub action: Option<Command>,
}

#[derive(Debug, Clone, Copy, PartialEq, Eq, Structural)]
pub enum MessageKind {
    Info,
    Error,
}

/// One line of a help popup.
pub struct HelpEntry {
    pub key: String,
    pub description: String,
}

/// A titled group of help lines.
pub struct HelpSection {
    pub title: String,
    pub entries: Vec<HelpEntry>,
}

pub enum Popup {
    Confirm { title: String, message: String, on_confirm: Command },
    Input { title: String, buffer: String, on_confirm: InputCommand },
    Menu { title: String, items: Vec<MenuItem>, selected: usize },
    Message { title: String, message: String, kind: MessageKind },
    Help { sections: Vec<HelpSection>, selected: usize, scroll_offset: usize },
}

/// The command an input popup runs for the typed `text`; nothing for empty
/// text.
pub open spec fn input_confirm_spec(c: InputCommand, text: Seq<char>, r: Option<Command>) -> bool {
    if text.len() == 0 {
        r is None
    } else {
        match c {
            InputCommand::RewordCommit(h) => r matches Some(Command::RewordCommit { hash, message })
                && hash@ == h@ && message@ == text,
            InputCommand::CreateTag => r matches Some(Command::CreateTag { name, message })
                && name@ == text && message@.len() == 0,
            InputCommand::RenameStash(i) => r matches Some(Command::StashRename { index, message })
                && index == i && message@ == text,
        }
    }
}

/// What confirming an input popup with `text` runs.
pub fn input_confirmed(c: &InputCommand, text: &str) -> (r: Option<Command>)
    ensures
        input_confirm_spec(*c, text@, r),
{
    if text.is_empty() {
        return None;
    }
    match c {
        InputCommand::RewordCommit(h) => Some(
            Command::RewordCommit { hash: h.clone(), message: String::from_str(text) },
        ),
        InputCommand::CreateTag => Some(
            Command::CreateTag { name: String::from_str(text), message: String::new() },
        ),
        InputCommand::RenameStash(i) => Some(
            Command::StashRename { index: *i, message: String::from_str(text) },
        ),
    }
}

/// A menu entry with the given label, description and key.
pub open spec fn item_is(it: MenuItem, label: Seq<char>, desc: Seq<char>, key: Seq<char>) -> bool {
    &&& it.label@ == label
    &&& it.description@ == desc
    &&& it.key matches Some(k) && k@ == key
}

pub fn menu_item(label: &str, description: String, key: &str, action: Command) -> (it: MenuItem)
    ensures
        item_is(it, label@, description@, key@),
        it.action == Some(action),
{
    MenuItem {
        label: String::from_str(label),
        description,
        key: Some(String::from_str(key)),
        action: Some(action),
    }
}

/// A menu entry that closes the menu.
pub fn cancel_item() -> (it: MenuItem)
    ensures
        item_is(it, "Cancel"@, Seq::empty(), "c"@),
        it.action matches Some(Command::Cancel),
{
    menu_item("Cancel", String::new(), "c", Command::Cancel)
}

pub fn help_entry(key: &str, description: &str) -> (e: HelpEntry)
    ensures
        e.key@ == key@,
        e.description@ == description@,
{
    HelpEntry { key: String::from_str(key), description: String::from_str(description) }
}

} // verus!
