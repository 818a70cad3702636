//! Key presses as plain values.

use vstd::prelude::*;

verus! {

/// The key of a key press.
#[derive(Debug, Clone, Copy, PartialEq, Eq, Structural)]
pub enum KeyCode {
    Char(char),
    Enter,
    Esc,
    Up,
    Down,
    Left,
    Right,
    Tab,
    BackTab,
    Backspace,
    Other,
}

/// A key press: the key and its modifier bits (shift 1, control 2, alt 4).
#[derive(Debug, Clone, Copy, PartialEq, Eq, Structural)]
pub struct Key {
    pub code: KeyCode,
    pub modifiers: u8,
}

/// Modifier bit of the Alt key.
pub const ALT: u8 = 4;

/// Whether Alt is held.
pub open spec fn alt_held(k: Key) -> bool {
    k.modifiers & 4 != 0
}

pub fn has_alt(k: &Key) -> (b: bool)
    ensures
        b == alt_held(*k),
{
    k.modifiers & ALT != 0
}

/// The key is the character `c`.
pub open spec fn is_char(k: Key, c: char) -> bool {
    k.code == KeyCode::Char(c)
}

/// A press matches a configured binding when key and modifiers agree; an
/// unparsable binding matches nothing.
pub open spec fn matches_binding(k: Key, binding: Option<Key>) -> bool {
    match binding {
        Some(b) => b.code == k.code && b.modifiers == k.modifiers,
        None => false,
    }
}

pub fn matches_key(k: &Key, binding: &Option<Key>) -> (b: bool)
    ensures
        b == matches_binding(*k, *binding),
{
    match binding {
        Some(e) => e.code == k.code && e.modifiers == k.modifiers,
        None => false,
    }
}

} // verus!
