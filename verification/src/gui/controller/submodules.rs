use vstd::prelude::*;
use crate::gui::keys::{is_char, Key, KeyCode};
use crate::gui::popup::{Command, Popup};

verus! {

/// Asks to update all submodules.
pub fn update_submodule() -> (p: Popup)
    ensures
        p matches Popup::Confirm { title, message, on_confirm: Command::UpdateSubmodules }
            && title@ == "Update submodules"@ && message@ == "Update all submodules?"@,
{
    Popup::Confirm {
        title: String::from_str("Update submodules"),
        message: String::from_str("Update all submodules?"),
        on_confirm: Command::UpdateSubmodules,
    }
}

/// Initializes submodules right away, without asking.
pub fn init_submodules() -> (c: Command)
    ensures
        c is InitSubmodules,
{
    Command::InitSubmodules
}

/// Commands of the submodules panel.
#[derive(Debug, Clone, Copy, PartialEq, Eq, Structural)]
pub enum SubmodulesKey {
    Update,
    Init,
    Ignore,
}

/// `u` updates, `i` initializes.
pub fn handle_key(key: &Key) -> (r: SubmodulesKey)
    ensures
        r == (if is_char(*key, 'u') {
            SubmodulesKey::Update
        } else if is_char(*key, 'i') {
            SubmodulesKey::Init
        } else {
            SubmodulesKey::Ignore
        }),
{
    if key.code == KeyCode::Char('u') {
        SubmodulesKey::Update
    } else if key.code == KeyCode::Char('i') {
        SubmodulesKey::Init
    } else {
        SubmodulesKey::Ignore
    }
}

} // verus!
