//! Keys of the interactive-rebase screen, starting the rebase, and its help.

use vstd::prelude::*;
use crate::git::rebase::{action_name, next_action, prev_action, RebaseAction};
use crate::gui::keys::{alt_held, has_alt, is_char, Key, KeyCode};
use crate::gui::popup::{help_entry, HelpEntry, HelpSection, MessageKind, Popup};
use crate::gui::rebase_mode::{actions_of, is_exited, keeps_rest, set_action_at, swap_at, RebaseModeState};

verus! {

/// What a key press means on the rebase screen, in the order they are tested.
#[derive(Debug, Clone, Copy, PartialEq, Eq, Structural)]
pub enum RebaseKey {
    Quit,
    Help,
    Execute,
    SelectDown,
    SelectUp,
    SetAction(RebaseAction),
    CycleForward,
    CycleBackward,
    MoveUp,
    MoveDown,
    Top,
    Bottom,
    Ignore,
}

pub open spec fn classify(k: Key) -> RebaseKey {
    if is_char(k, 'q') || k.code == KeyCode::Esc {
        RebaseKey::Quit
    } else if is_char(k, '?') {
        RebaseKey::Help
    } else if k.code == KeyCode::Enter {
        RebaseKey::Execute
    } else if (is_char(k, 'j') || k.code == KeyCode::Down) && !alt_held(k) {
        RebaseKey::SelectDown
    } else if (is_char(k, 'k') || k.code == KeyCode::Up) && !alt_held(k) {
        RebaseKey::SelectUp
    } else if is_char(k, 'p') {
        RebaseKey::SetAction(RebaseAction::Pick)
    } else if is_char(k, 'r') {
        RebaseKey::SetAction(RebaseAction::Reword)
    } else if is_char(k, 'e') {
        RebaseKey::SetAction(RebaseAction::Edit)
    } else if is_char(k, 's') {
        RebaseKey::SetAction(RebaseAction::Squash)
    } else if is_char(k, 'f') {
        RebaseKey::SetAction(RebaseAction::Fixup)
    } else if is_char(k, 'd') {
        RebaseKey::SetAction(RebaseAction::Drop)
    } else if is_char(k, 'l') || k.code == KeyCode::Right {
        RebaseKey::CycleForward
    } else if is_char(k, 'h') || k.code == KeyCode::Left {
        RebaseKey::CycleBackward
    } else if (k.code == KeyCode::Up || is_char(k, 'k')) && alt_held(k) {
        RebaseKey::MoveUp
    } else if (k.code == KeyCode::Down || is_char(k, 'j')) && alt_held(k) {
        RebaseKey::MoveDown
    } else if is_char(k, '[') {
        RebaseKey::MoveUp
    } else if is_char(k, ']') {
        RebaseKey::MoveDown
    } else if is_char(k, 'g') {
        RebaseKey::Top
    } else if is_char(k, 'G') {
        RebaseKey::Bottom
    } else {
        RebaseKey::Ignore
    }
}

/// Each action shortcut sets its own action: the key carrying the first
/// letter of an action's todo word (`p`ick, `r`eword, `e`dit, `s`quash,
/// `f`ixup, `d`rop) sets exactly that action, whatever modifiers are held.
pub proof fn law_action_keys(a: RebaseAction, modifiers: u8)
    ensures
        classify(Key { code: KeyCode::Char(action_name(a)[0]), modifiers }) == RebaseKey::SetAction(
            a,
        ),
{
    reveal_strlit("pick");
    reveal_strlit("reword");
    reveal_strlit("edit");
    reveal_strlit("squash");
    reveal_strlit("fixup");
    reveal_strlit("drop");
}

fn is_ch(k: &Key, c: char) -> (b: bool)
    ensures
        b == is_char(*k, c),
{
    match k.code {
        KeyCode::Char(x) => x == c,
        _ => false,
    }
}

/// The meaning of a key press on the rebase screen.
pub fn classify_key(k: &Key) -> (r: RebaseKey)
    ensures
        r == classify(*k),
{
    let alt = has_alt(k);
    if is_ch(k, 'q') || k.code == KeyCode::Esc {
        RebaseKey::Quit
    } else if is_ch(k, '?') {
        RebaseKey::Help
    } else if k.code == KeyCode::Enter {
        RebaseKey::Execute
    } else if (is_ch(k, 'j') || k.code == KeyCode::Down) && !alt {
        RebaseKey::SelectDown
    } else if (is_ch(k, 'k') || k.code == KeyCode::Up) && !alt {
        RebaseKey::SelectUp
    } else if is_ch(k, 'p') {
        RebaseKey::SetAction(RebaseAction::Pick)
    } else if is_ch(k, 'r') {
        RebaseKey::SetAction(RebaseAction::Reword)
    } else if is_ch(k, 'e') {
        RebaseKey::SetAction(RebaseAction::Edit)
    } else if is_ch(k, 's') {
        RebaseKey::SetAction(RebaseAction::Squash)
    } else if is_ch(k, 'f') {
        RebaseKey::SetAction(RebaseAction::Fixup)
    } else if is_ch(k, 'd') {
        RebaseKey::SetAction(RebaseAction::Drop)
    } else if is_ch(k, 'l') || k.code == KeyCode::Right {
        RebaseKey::CycleForward
    } else if is_ch(k, 'h') || k.code == KeyCode::Left {
        RebaseKey::CycleBackward
    } else if (k.code == KeyCode::Up || is_ch(k, 'k')) && alt {
        RebaseKey::MoveUp
    } else if (k.code == KeyCode::Down || is_ch(k, 'j')) && alt {
        RebaseKey::MoveDown
    } else if is_ch(k, '[') {
        RebaseKey::MoveUp
    } else if is_ch(k, ']') {
        RebaseKey::MoveDown
    } else if is_ch(k, 'g') {
        RebaseKey::Top
    } else if is_ch(k, 'G') {
        RebaseKey::Bottom
    } else {
        RebaseKey::Ignore
    }
}

/// What the screen asks of its caller after a key press.
#[derive(Debug, Clone, Copy, PartialEq, Eq, Structural)]
pub enum RebaseKeyOutcome {
    /// A popup is open: the key belongs to it.
    ToPopup,
    /// Show [`show_rebase_help`].
    ShowHelp,
    /// Start the rebase ([`execute_rebase`]).
    Execute,
    /// Handled here (the state may have changed).
    Done,
}

/// The state after a handled key press (the entries list is not empty).
pub open spec fn key_effect(old: RebaseModeState, new: RebaseModeState, rk: RebaseKey) -> bool {
    let n = old.entries@.len();
    let i = old.selected as int;
    match rk {
        RebaseKey::SelectDown => new == RebaseModeState {
            selected: if i + 1 < n {
                (i + 1) as usize
            } else {
                old.selected
            },
            ..old
        },
        RebaseKey::SelectUp => new == RebaseModeState {
            selected: if i > 0 {
                (i - 1) as usize
            } else {
                old.selected
            },
            ..old
        },
        RebaseKey::SetAction(a) => new.entries@ == set_action_at(old.entries@, i, a)
            && new.selected == old.selected && keeps_rest(old, new),
        RebaseKey::CycleForward => new.entries@ == (if i < n {
            set_action_at(old.entries@, i, next_action(old.entries@[i].action))
        } else {
            old.entries@
        }) && new.selected == old.selected && keeps_rest(old, new),
        RebaseKey::CycleBackward => new.entries@ == (if i < n {
            set_action_at(old.entries@, i, prev_action(old.entries@[i].action))
        } else {
            old.entries@
        }) && new.selected == old.selected && keeps_rest(old, new),
        RebaseKey::MoveUp => keeps_rest(old, new) && if i > 0 {
            new.entries@ == swap_at(old.entries@, i, i - 1) && new.selected == i - 1
        } else {
            new.entries@ == old.entries@ && new.selected == 0
        },
        RebaseKey::MoveDown => keeps_rest(old, new) && if i + 1 < n {
            new.entries@ == swap_at(old.entries@, i, i + 1) && new.selected == i + 1
        } else {
            new.entries@ == old.entries@ && new.selected == old.selected
        },
        RebaseKey::Top => new == RebaseModeState { selected: 0, ..old },
        RebaseKey::Bottom => new == RebaseModeState { selected: (n - 1) as usize, ..old },
        _ => new == old,
    }
}

/// The navigation keys do what they say: `j`/Down moves the selection one
/// down (stopping at the last entry) and `k`/Up one up (stopping at the
/// first), `g` goes to the top and `G` to the bottom, `[` (or Alt+Up) swaps
/// the selected entry with the one above and `]` (or Alt+Down) with the one
/// below, each keeping it selected; `l`/Right and `h`/Left turn the
/// selected entry's action to the next and previous one; `q` and Esc quit.
pub proof fn law_navigation_keys(old: RebaseModeState, new: RebaseModeState, k: Key)
    requires
        0 <= old.selected < old.entries@.len(),
        key_effect(old, new, classify(k)),
    ensures
        ({
            let n = old.entries@.len();
            let i = old.selected as int;
            &&& (is_char(k, 'j') || k.code == KeyCode::Down) && !alt_held(k) ==> new.selected == (
            if i + 1 < n {
                i + 1
            } else {
                i
            }) && new.entries@ == old.entries@
            &&& (is_char(k, 'k') || k.code == KeyCode::Up) && !alt_held(k) ==> new.selected == (
            if i > 0 {
                i - 1
            } else {
                0
            }) && new.entries@ == old.entries@
            &&& is_char(k, 'g') ==> new.selected == 0
            &&& is_char(k, 'G') ==> new.selected == n - 1
            &&& (is_char(k, '[') || k.code == KeyCode::Up && alt_held(k)) && i > 0 ==> new.selected
                == i - 1 && new.entries@[i - 1] == old.entries@[i] && new.entries@[i]
                == old.entries@[i - 1]
            &&& (is_char(k, ']') || k.code == KeyCode::Down && alt_held(k)) && i + 1 < n
                ==> new.selected == i + 1 && new.entries@[i + 1] == old.entries@[i]
                && new.entries@[i] == old.entries@[i + 1]
            &&& is_char(k, 'l') || k.code == KeyCode::Right ==> new.entries@ == set_action_at(
                old.entries@,
                i,
                next_action(old.entries@[i].action),
            ) && new.selected == old.selected
            &&& is_char(k, 'h') || k.code == KeyCode::Left ==> new.entries@ == set_action_at(
                old.entries@,
                i,
                prev_action(old.entries@[i].action),
            ) && new.selected == old.selected
            &&& is_char(k, 'q') || k.code == KeyCode::Esc ==> classify(k) == RebaseKey::Quit
        }),
{
    assert(old.entries.len() == old.entries@.len());
}

/// Handles a key press on the rebase screen.
pub fn handle_key(state: &mut RebaseModeState, popup_open: bool, key: &Key) -> (r:
    RebaseKeyOutcome)
    requires
        !popup_open && classify(*key) == RebaseKey::MoveUp ==> old(state).selected == 0 || old(
            state,
        ).selected < old(state).entries@.len(),
        !popup_open && (classify(*key) == RebaseKey::MoveDown || classify(*key)
            == RebaseKey::SelectDown) ==> old(state).selected < usize::MAX,
    ensures
        popup_open ==> r == RebaseKeyOutcome::ToPopup && *final(state) == *old(state),
        !popup_open && classify(*key) == RebaseKey::Quit ==> r == RebaseKeyOutcome::Done
            && is_exited(*final(state)),
        !popup_open && classify(*key) == RebaseKey::Help ==> r == RebaseKeyOutcome::ShowHelp
            && *final(state) == *old(state),
        !popup_open && classify(*key) == RebaseKey::Execute ==> r == RebaseKeyOutcome::Execute
            && *final(state) == *old(state),
        !popup_open && classify(*key) != RebaseKey::Quit && classify(*key) != RebaseKey::Help
            && classify(*key) != RebaseKey::Execute ==> r == RebaseKeyOutcome::Done && (if old(
            state,
        ).entries@.len() == 0 {
            *final(state) == *old(state)
        } else {
            key_effect(*old(state), *final(state), classify(*key))
        }),
{
    if popup_open {
        return RebaseKeyOutcome::ToPopup;
    }
    let rk = classify_key(key);
    match rk {
        RebaseKey::Quit => {
            state.exit();
            return RebaseKeyOutcome::Done;
        },
        RebaseKey::Help => {
            return RebaseKeyOutcome::ShowHelp;
        },
        RebaseKey::Execute => {
            return RebaseKeyOutcome::Execute;
        },
        _ => {},
    }
    let entry_count = state.entries.len();
    if entry_count == 0 {
        return RebaseKeyOutcome::Done;
    }
    match rk {
        RebaseKey::SelectDown => {
            if state.selected + 1 < entry_count {
                state.selected += 1;
            }
        },
        RebaseKey::SelectUp => {
            if state.selected > 0 {
                state.selected -= 1;
            }
        },
        RebaseKey::SetAction(a) => state.set_action(a),
        RebaseKey::CycleForward => state.cycle_action_forward(),
        RebaseKey::CycleBackward => state.cycle_action_backward(),
        RebaseKey::MoveUp => state.move_up(),
        RebaseKey::MoveDown => state.move_down(),
        RebaseKey::Top => {
            state.selected = 0;
        },
        RebaseKey::Bottom => {
            state.selected = entry_count - 1;
        },
        _ => {},
    }
    RebaseKeyOutcome::Done
}

/// What pressing Enter on the rebase screen leads to.
pub enum RebasePlan {
    /// The todo list is refused; show this message.
    Invalid(Popup),
    /// Run the rebase onto `base_hash` with these `(hash, action)` pairs,
    /// oldest first.
    Run { base_hash: String, actions: Vec<(String, RebaseAction)> },
}

/// The message refusing a todo list that starts with `squash` or `fixup`.
pub open spec fn first_action_message(a: RebaseAction) -> Seq<char> {
    "Cannot "@ + action_name(a) + " the first commit — there is nothing to "@ + action_name(a)
        + " into."@
}

/// Checks the todo list: the oldest entry may not be squashed or fixed up
/// (there is nothing to fold it into); otherwise the rebase runs.
pub fn execute_rebase(state: &RebaseModeState) -> (p: RebasePlan)
    ensures
        ({
            let acts = actions_of(state.entries@);
            if acts.len() > 0 && (acts[0].1 == RebaseAction::Squash || acts[0].1
                == RebaseAction::Fixup) {
                p matches RebasePlan::Invalid(Popup::Message { title, message, kind })
                    && title@ == "Invalid rebase"@ && message@ == first_action_message(acts[0].1)
                    && kind == MessageKind::Error
            } else {
                p matches RebasePlan::Run { base_hash, actions } && base_hash@
                    == state.base_hash@ && actions@.map_values(
                    |q: (String, RebaseAction)| (q.0@, q.1),
                ) == acts
            }
        }),
{
    let actions = state.build_actions();
    let ghost views = actions@.map_values(|q: (String, RebaseAction)| (q.0@, q.1));
    if actions.len() > 0 {
        let first = actions[0].1;
        assert(views[0].1 == first);
        if first == RebaseAction::Squash || first == RebaseAction::Fixup {
            let mut message = String::from_str("Cannot ");
            message.append(first.as_str());
            message.append(" the first commit — there is nothing to ");
            message.append(first.as_str());
            message.append(" into.");
            return RebasePlan::Invalid(
                Popup::Message {
                    title: String::from_str("Invalid rebase"),
                    message,
                    kind: MessageKind::Error,
                },
            );
        }
    }
    RebasePlan::Run { base_hash: state.base_hash.clone(), actions }
}

/// The text shown when a rebase could not be carried out.
pub open spec fn rebase_failed_message(err: Seq<char>) -> Seq<char> {
    err
        + "\n\nThe repo may be in a rebase-in-progress state.\nUse 'git rebase --abort' to cancel or resolve conflicts externally."@
}

/// After the rebase ran: on success the screen closes; on failure it stays
/// and a message explains what happened.
pub fn rebase_finished(state: &mut RebaseModeState, error: Option<String>) -> (p: Option<Popup>)
    ensures
        error is None ==> p is None && is_exited(*final(state)),
        error matches Some(e) ==> *final(state) == *old(state) && (p matches Some(
            Popup::Message { title, message, kind },
        ) && title@ == "Rebase failed"@ && message@ == rebase_failed_message(e@) && kind
            == MessageKind::Error),
{
    match error {
        None => {
            state.exit();
            None
        },
        Some(e) => {
            let mut message = e;
            message.append(
                "\n\nThe repo may be in a rebase-in-progress state.\nUse 'git rebase --abort' to cancel or resolve conflicts externally.",
            );
            Some(
                Popup::Message {
                    title: String::from_str("Rebase failed"),
                    message,
                    kind: MessageKind::Error,
                },
            )
        },
    }
}

/// The lines of a help section, as (key, description) pairs.
pub open spec fn help_lines(s: HelpSection) -> Seq<(Seq<char>, Seq<char>)> {
    s.entries@.map_values(|e: HelpEntry| (e.key@, e.description@))
}

/// The help popup of the rebase screen: Actions, Navigation, General.
pub fn show_rebase_help() -> (p: Popup)
    ensures
        p matches Popup::Help { sections, selected, scroll_offset } && selected == 0
            && scroll_offset == 0 && sections@.len() == 3 && sections@[0].title@ == "Actions"@
            && help_lines(sections@[0]) == seq![
            ("p"@, "Set action to Pick"@),
            ("r"@, "Set action to Reword"@),
            ("e"@, "Set action to Edit"@),
            ("s"@, "Set action to Squash"@),
            ("f"@, "Set action to Fixup"@),
            ("d"@, "Set action to Drop"@),
            ("h / ←"@, "Cycle action backward"@),
            ("l / →"@, "Cycle action forward"@),
        ] && sections@[1].title@ == "Navigation"@ && help_lines(sections@[1]) == seq![
            ("j / ↓"@, "Select next commit"@),
            ("k / ↑"@, "Select previous commit"@),
            ("g"@, "Jump to top"@),
            ("G"@, "Jump to bottom"@),
            ("Alt+↑"@, "Move commit up"@),
            ("Alt+↓"@, "Move commit down"@),
            ("["@, "Swap with previous"@),
            ("]"@, "Swap with next"@),
        ] && sections@[2].title@ == "General"@ && help_lines(sections@[2]) == seq![
            ("Enter"@, "Start rebase"@),
            ("q / Esc"@, "Abort (exit without rebasing)"@),
        ],
{
    let actions = HelpSection {
        title: String::from_str("Actions"),
        entries: vec![
            help_entry("p", "Set action to Pick"),
            help_entry("r", "Set action to Reword"),
            help_entry("e", "Set action to Edit"),
            help_entry("s", "Set action to Squash"),
            help_entry("f", "Set action to Fixup"),
            help_entry("d", "Set action to Drop"),
            help_entry("h / ←", "Cycle action backward"),
            help_entry("l / →", "Cycle action forward"),
        ],
    };
    assert(help_lines(actions) =~= seq![
        ("p"@, "Set action to Pick"@),
        ("r"@, "Set action to Reword"@),
        ("e"@, "Set action to Edit"@),
        ("s"@, "Set action to Squash"@),
        ("f"@, "Set action to Fixup"@),
        ("d"@, "Set action to Drop"@),
        ("h / ←"@, "Cycle action backward"@),
        ("l / →"@, "Cycle action forward"@),
    ]);
    let navigation = HelpSection {
        title: String::from_str("Navigation"),
        entries: vec![
            help_entry("j / ↓", "Select next commit"),
            help_entry("k / ↑", "Select previous commit"),
            help_entry("g", "Jump to top"),
            help_entry("G", "Jump to bottom"),
            help_entry("Alt+↑", "Move commit up"),
            help_entry("Alt+↓", "Move commit down"),
            help_entry("[", "Swap with previous"),
            help_entry("]", "Swap with next"),
        ],
    };
    assert(help_lines(navigation) =~= seq![
        ("j / ↓"@, "Select next commit"@),
        ("k / ↑"@, "Select previous commit"@),
        ("g"@, "Jump to top"@),
        ("G"@, "Jump to bottom"@),
        ("Alt+↑"@, "Move commit up"@),
        ("Alt+↓"@, "Move commit down"@),
        ("["@, "Swap with previous"@),
        ("]"@, "Swap with next"@),
    ]);
    let general = HelpSection {
        title: String::from_str("General"),
        entries: vec![
            help_entry("Enter", "Start rebase"),
            help_entry("q / Esc", "Abort (exit without rebasing)"),
        ],
    };
    assert(help_lines(general) =~= seq![
        ("Enter"@, "Start rebase"@),
        ("q / Esc"@, "Abort (exit without rebasing)"@),
    ]);
    Popup::Help { sections: vec![actions, navigation, general], selected: 0, scroll_offset: 0 }
}

} // verus!
