//! The colour themes: the default dark theme, the configuration's
//! overrides of it, and the colour a syntax capture is drawn in.

use vstd::prelude::*;
use super::theme::{Color, ThemeOverrides};
use crate::pager::highlight::SyntaxColor;

verus! {

/// A colour of a theme: one of the terminal's named colours or an RGB
/// triple.
#[derive(Debug, Clone, Copy, PartialEq, Eq, Structural)]
pub enum Paint {
    Black,
    Blue,
    Cyan,
    DarkGray,
    Gray,
    Green,
    LightBlue,
    LightCyan,
    LightGreen,
    LightRed,
    Magenta,
    Red,
    White,
    Yellow,
    Rgb(u8, u8, u8),
}

/// How a kind of text is drawn: its foreground and background colours
/// (`None`: the terminal's own) and whether it is bold.
#[derive(Debug, Clone, Copy, PartialEq, Eq, Structural)]
pub struct Brush {
    pub fg: Option<Paint>,
    pub bg: Option<Paint>,
    pub bold: bool,
}

/// Every colour of the interface, as plain data: a theme.
///
/// Every colour the UI draws with is a field here, so that themes can be
/// swapped at runtime.
#[derive(Debug, Clone, Copy)]
pub struct Theme {
    // ── Borders & chrome ─────────────────────────────────────────────
    pub active_border: Brush,
    pub inactive_border: Brush,
    pub selected_line: Brush,
    pub options_text: Brush,
    pub title: Brush,

    // ── Diff ─────────────────────────────────────────────────────────
    pub diff_add: Brush,
    pub diff_remove: Brush,
    pub diff_context: Brush,
    pub diff_add_bg: Paint,
    pub diff_remove_bg: Paint,
    pub diff_add_word: Paint,
    pub diff_remove_word: Paint,

    // ── Commits ──────────────────────────────────────────────────────
    pub commit_hash: Brush,
    pub commit_author: Brush,
    pub commit_date: Brush,
    pub commit_hash_pushed: Paint,
    pub commit_hash_merged: Paint,

    // ── Branches ─────────────────────────────────────────────────────
    pub branch_local: Brush,
    pub branch_remote: Brush,
    pub branch_head: Brush,

    // ── Files ────────────────────────────────────────────────────────
    pub file_staged: Brush,
    pub file_unstaged: Brush,
    pub file_untracked: Brush,
    pub file_conflicted: Brush,

    // ── Search ───────────────────────────────────────────────────────
    pub search_match: Brush,

    // ── Status bar ───────────────────────────────────────────────────
    pub status_bar: Brush,
    pub spinner: Brush,

    // ── UI chrome colors (popups, dialogs, etc.) ─────────────────────
    /// Primary accent color used for borders, focused elements, section headers.
    pub accent: Paint,
    /// Secondary accent color (keybinding highlights, search highlights).
    pub accent_secondary: Paint,
    /// Color for dimmed / secondary text.
    pub text_dimmed: Paint,
    /// Default text color.
    pub text: Paint,
    /// Strong/bright text color.
    pub text_strong: Paint,
    /// Color for separator lines.
    pub separator: Paint,
    /// Background for selected / highlighted items.
    pub selected_bg: Paint,
    /// Background for popup overlays.
    pub popup_border: Paint,

    // ── Command log ──────────────────────────────────────────────────
    pub cmd_log_border: Paint,
    pub cmd_log_title: Paint,
    pub cmd_log_hint: Paint,
    pub cmd_log_text: Paint,
    pub cmd_log_timestamp: Paint,
    pub cmd_log_success: Paint,

    // ── Diff panel (side-by-side viewer) ─────────────────────────────
    pub diff_gutter: Paint,
    pub diff_line_number: Paint,
    pub diff_selection_fg: Paint,
    pub diff_selection_bg: Paint,
    pub diff_search_highlight_bg: Paint,
    pub diff_search_highlight_fg: Paint,
    pub diff_search_cursor_bg: Paint,
    pub diff_search_cursor_fg: Paint,
    pub diff_grid_bg: Paint,
    pub diff_grid_fg: Paint,

    // ── Syntax highlighting ──────────────────────────────────────────
    pub syntax_comment: Paint,
    pub syntax_keyword: Paint,
    pub syntax_string: Paint,
    pub syntax_number: Paint,
    pub syntax_function: Paint,
    pub syntax_function_macro: Paint,
    pub syntax_type: Paint,
    pub syntax_variable_builtin: Paint,
    pub syntax_variable_member: Paint,
    pub syntax_module: Paint,
    pub syntax_operator: Paint,
    pub syntax_tag: Paint,
    pub syntax_attribute: Paint,
    pub syntax_label: Paint,
    pub syntax_punctuation: Paint,
    pub syntax_default: Paint,

    // ── Graph colors ─────────────────────────────────────────────────
    pub graph_colors: [Paint; 8],

    // ── Rebase mode ──────────────────────────────────────────────────
    pub rebase_pick: Paint,
    pub rebase_reword: Paint,
    pub rebase_edit: Paint,
    pub rebase_squash: Paint,
    pub rebase_fixup: Paint,
    pub rebase_drop: Paint,
    pub rebase_paused_bg: Paint,

    // ── File change status badges ────────────────────────────────────
    pub change_added: Paint,
    pub change_deleted: Paint,
    pub change_renamed: Paint,
    pub change_copied: Paint,
    pub change_unmerged: Paint,

    // ── Ref label colors ─────────────────────────────────────────────
    pub ref_head: Paint,
    pub ref_remote: Paint,
    pub ref_local: Paint,
    pub ref_tag: Paint,

    // ── Tag list ─────────────────────────────────────────────────────
    pub tag_name: Paint,
    pub tag_hash: Paint,
    pub tag_message: Paint,

    // ── Stash list ───────────────────────────────────────────────────
    pub stash_index: Paint,
    pub stash_message: Paint,

    // ── Reflog ───────────────────────────────────────────────────────
    pub reflog_hash: Paint,
    pub reflog_message: Paint,

    // ── Remotes ──────────────────────────────────────────────────────
    pub remote_name: Paint,
    pub remote_url: Paint,
    pub remote_branch_name: Paint,
    pub remote_branch_detail: Paint,
}

/// The default dark theme.
pub open spec fn dark_spec() -> Theme {
    Theme {
        active_border: Brush { fg: Some(Paint::Green), bg: None, bold: true },
        inactive_border: Brush { fg: Some(Paint::DarkGray), bg: None, bold: false },
        selected_line: Brush { fg: None, bg: Some(Paint::DarkGray), bold: false },
        options_text: Brush { fg: Some(Paint::Blue), bg: None, bold: false },
        title: Brush { fg: Some(Paint::White), bg: None, bold: true },
        diff_add: Brush { fg: Some(Paint::Green), bg: None, bold: false },
        diff_remove: Brush { fg: Some(Paint::Red), bg: None, bold: false },
        diff_context: Brush { fg: Some(Paint::Gray), bg: None, bold: false },
        diff_add_bg: Paint::Rgb(0, 60, 0),
        diff_remove_bg: Paint::Rgb(60, 0, 0),
        diff_add_word: Paint::Rgb(0, 120, 0),
        diff_remove_word: Paint::Rgb(120, 0, 0),
        commit_hash: Brush { fg: Some(Paint::Yellow), bg: None, bold: false },
        commit_author: Brush { fg: Some(Paint::Green), bg: None, bold: false },
        commit_date: Brush { fg: Some(Paint::Blue), bg: None, bold: false },
        commit_hash_pushed: Paint::Rgb(102, 102, 102),
        commit_hash_merged: Paint::Rgb(80, 80, 80),
        branch_local: Brush { fg: Some(Paint::Green), bg: None, bold: false },
        branch_remote: Brush { fg: Some(Paint::Red), bg: None, bold: false },
        branch_head: Brush { fg: Some(Paint::Cyan), bg: None, bold: true },
        file_staged: Brush { fg: Some(Paint::Green), bg: None, bold: false },
        file_unstaged: Brush { fg: Some(Paint::Red), bg: None, bold: false },
        file_untracked: Brush { fg: Some(Paint::LightRed), bg: None, bold: false },
        file_conflicted: Brush { fg: Some(Paint::Red), bg: None, bold: true },
        search_match: Brush { fg: Some(Paint::Black), bg: Some(Paint::Yellow), bold: false },
        status_bar: Brush { fg: Some(Paint::DarkGray), bg: None, bold: false },
        spinner: Brush { fg: Some(Paint::Cyan), bg: None, bold: false },
        accent: Paint::Cyan,
        accent_secondary: Paint::Yellow,
        text_dimmed: Paint::DarkGray,
        text: Paint::Gray,
        text_strong: Paint::White,
        separator: Paint::DarkGray,
        selected_bg: Paint::DarkGray,
        popup_border: Paint::Cyan,
        cmd_log_border: Paint::Rgb(80, 80, 80),
        cmd_log_title: Paint::Rgb(140, 140, 140),
        cmd_log_hint: Paint::Rgb(90, 90, 90),
        cmd_log_text: Paint::Rgb(100, 100, 100),
        cmd_log_timestamp: Paint::Rgb(160, 160, 160),
        cmd_log_success: Paint::Rgb(80, 130, 80),
        diff_gutter: Paint::DarkGray,
        diff_line_number: Paint::Rgb(60, 60, 60),
        diff_selection_fg: Paint::Rgb(158, 203, 255),
        diff_selection_bg: Paint::Rgb(30, 40, 55),
        diff_search_highlight_bg: Paint::Rgb(120, 100, 30),
        diff_search_highlight_fg: Paint::White,
        diff_search_cursor_bg: Paint::Rgb(200, 170, 40),
        diff_search_cursor_fg: Paint::Black,
        diff_grid_bg: Paint::Rgb(40, 40, 50),
        diff_grid_fg: Paint::Yellow,
        syntax_comment: Paint::Rgb(106, 115, 125),
        syntax_keyword: Paint::Rgb(255, 123, 114),
        syntax_string: Paint::Rgb(158, 203, 255),
        syntax_number: Paint::Rgb(121, 192, 255),
        syntax_function: Paint::Rgb(210, 168, 255),
        syntax_function_macro: Paint::Rgb(240, 160, 240),
        syntax_type: Paint::Rgb(255, 203, 107),
        syntax_variable_builtin: Paint::Rgb(255, 123, 114),
        syntax_variable_member: Paint::Rgb(121, 192, 255),
        syntax_module: Paint::Rgb(255, 203, 107),
        syntax_operator: Paint::Rgb(255, 123, 114),
        syntax_tag: Paint::Rgb(126, 231, 135),
        syntax_attribute: Paint::Rgb(210, 168, 255),
        syntax_label: Paint::Rgb(255, 203, 107),
        syntax_punctuation: Paint::Rgb(150, 160, 170),
        syntax_default: Paint::Rgb(201, 209, 217),
        graph_colors: [Paint::Cyan, Paint::Green, Paint::Yellow, Paint::Magenta, Paint::Blue, Paint::Red, Paint::LightCyan, Paint::LightGreen],
        rebase_pick: Paint::Green,
        rebase_reword: Paint::LightBlue,
        rebase_edit: Paint::Yellow,
        rebase_squash: Paint::Rgb(255, 165, 0),
        rebase_fixup: Paint::Rgb(180, 130, 255),
        rebase_drop: Paint::Red,
        rebase_paused_bg: Paint::Rgb(50, 40, 10),
        change_added: Paint::Green,
        change_deleted: Paint::Red,
        change_renamed: Paint::Yellow,
        change_copied: Paint::Cyan,
        change_unmerged: Paint::Red,
        ref_head: Paint::Cyan,
        ref_remote: Paint::Red,
        ref_local: Paint::Green,
        ref_tag: Paint::Cyan,
        tag_name: Paint::Green,
        tag_hash: Paint::Yellow,
        tag_message: Paint::White,
        stash_index: Paint::Yellow,
        stash_message: Paint::White,
        reflog_hash: Paint::Blue,
        reflog_message: Paint::White,
        remote_name: Paint::Cyan,
        remote_url: Paint::White,
        remote_branch_name: Paint::Cyan,
        remote_branch_detail: Paint::DarkGray,
    }
}

/// The theme colour of a colour named in the configuration.
pub open spec fn paint_spec(c: Color) -> Paint {
    match c {
        Color::Black => Paint::Black,
        Color::Red => Paint::Red,
        Color::Green => Paint::Green,
        Color::Yellow => Paint::Yellow,
        Color::Blue => Paint::Blue,
        Color::Magenta => Paint::Magenta,
        Color::Cyan => Paint::Cyan,
        Color::White => Paint::White,
        Color::Rgb(r, g, b) => Paint::Rgb(r, g, b),
    }
}

/// The theme colour of a colour named in the configuration.
pub fn paint_of(c: Color) -> (p: Paint)
    ensures
        p == paint_spec(c),
{
    match c {
        Color::Black => Paint::Black,
        Color::Red => Paint::Red,
        Color::Green => Paint::Green,
        Color::Yellow => Paint::Yellow,
        Color::Blue => Paint::Blue,
        Color::Magenta => Paint::Magenta,
        Color::Cyan => Paint::Cyan,
        Color::White => Paint::White,
        Color::Rgb(r, g, b) => Paint::Rgb(r, g, b),
    }
}

/// The default theme with the configuration's colours: a bold active
/// border, the inactive border, the background of the selected line and
/// the options text, each where the configuration names one.
pub open spec fn overridden_spec(o: ThemeOverrides) -> Theme {
    let d = dark_spec();
    Theme {
        active_border: match o.active_border {
            Some(c) => Brush { fg: Some(paint_spec(c)), bg: None, bold: true },
            None => d.active_border,
        },
        inactive_border: match o.inactive_border {
            Some(c) => Brush { fg: Some(paint_spec(c)), bg: None, bold: false },
            None => d.inactive_border,
        },
        selected_line: match o.selected_line_bg {
            Some(c) => Brush { fg: None, bg: Some(paint_spec(c)), bold: false },
            None => d.selected_line,
        },
        options_text: match o.options_text {
            Some(c) => Brush { fg: Some(paint_spec(c)), bg: None, bold: false },
            None => d.options_text,
        },
        ..d
    }
}

/// The colour of each kind of syntax capture in theme `t`.
pub open spec fn syntax_spec(t: Theme, c: SyntaxColor) -> Paint {
    match c {
        SyntaxColor::Comment => t.syntax_comment,
        SyntaxColor::Keyword => t.syntax_keyword,
        SyntaxColor::StringLiteral => t.syntax_string,
        SyntaxColor::Number => t.syntax_number,
        SyntaxColor::Function => t.syntax_function,
        SyntaxColor::FunctionMacro => t.syntax_function_macro,
        SyntaxColor::Type => t.syntax_type,
        SyntaxColor::VariableBuiltin => t.syntax_variable_builtin,
        SyntaxColor::VariableMember => t.syntax_variable_member,
        SyntaxColor::Module => t.syntax_module,
        SyntaxColor::Operator => t.syntax_operator,
        SyntaxColor::Tag => t.syntax_tag,
        SyntaxColor::Attribute => t.syntax_attribute,
        SyntaxColor::Label => t.syntax_label,
        SyntaxColor::Punctuation => t.syntax_punctuation,
        SyntaxColor::Default => t.syntax_default,
    }
}

impl Theme {
    /// The default dark theme.
    pub fn dark() -> (t: Theme)
        ensures
            t == dark_spec(),
    {
        Theme {
            active_border: Brush { fg: Some(Paint::Green), bg: None, bold: true },
            inactive_border: Brush { fg: Some(Paint::DarkGray), bg: None, bold: false },
            selected_line: Brush { fg: None, bg: Some(Paint::DarkGray), bold: false },
            options_text: Brush { fg: Some(Paint::Blue), bg: None, bold: false },
            title: Brush { fg: Some(Paint::White), bg: None, bold: true },
            diff_add: Brush { fg: Some(Paint::Green), bg: None, bold: false },
            diff_remove: Brush { fg: Some(Paint::Red), bg: None, bold: false },
            diff_context: Brush { fg: Some(Paint::Gray), bg: None, bold: false },
            diff_add_bg: Paint::Rgb(0, 60, 0),
            diff_remove_bg: Paint::Rgb(60, 0, 0),
            diff_add_word: Paint::Rgb(0, 120, 0),
            diff_remove_word: Paint::Rgb(120, 0, 0),
            commit_hash: Brush { fg: Some(Paint::Yellow), bg: None, bold: false },
            commit_author: Brush { fg: Some(Paint::Green), bg: None, bold: false },
            commit_date: Brush { fg: Some(Paint::Blue), bg: None, bold: false },
            commit_hash_pushed: Paint::Rgb(102, 102, 102),
            commit_hash_merged: Paint::Rgb(80, 80, 80),
            branch_local: Brush { fg: Some(Paint::Green), bg: None, bold: false },
            branch_remote: Brush { fg: Some(Paint::Red), bg: None, bold: false },
            branch_head: Brush { fg: Some(Paint::Cyan), bg: None, bold: true },
            file_staged: Brush { fg: Some(Paint::Green), bg: None, bold: false },
            file_unstaged: Brush { fg: Some(Paint::Red), bg: None, bold: false },
            file_untracked: Brush { fg: Some(Paint::LightRed), bg: None, bold: false },
            file_conflicted: Brush { fg: Some(Paint::Red), bg: None, bold: true },
            search_match: Brush { fg: Some(Paint::Black), bg: Some(Paint::Yellow), bold: false },
            status_bar: Brush { fg: Some(Paint::DarkGray), bg: None, bold: false },
            spinner: Brush { fg: Some(Paint::Cyan), bg: None, bold: false },
            accent: Paint::Cyan,
            accent_secondary: Paint::Yellow,
            text_dimmed: Paint::DarkGray,
            text: Paint::Gray,
            text_strong: Paint::White,
            separator: Paint::DarkGray,
            selected_bg: Paint::DarkGray,
            popup_border: Paint::Cyan,
            cmd_log_border: Paint::Rgb(80, 80, 80),
            cmd_log_title: Paint::Rgb(140, 140, 140),
            cmd_log_hint: Paint::Rgb(90, 90, 90),
            cmd_log_text: Paint::Rgb(100, 100, 100),
            cmd_log_timestamp: Paint::Rgb(160, 160, 160),
            cmd_log_success: Paint::Rgb(80, 130, 80),
            diff_gutter: Paint::DarkGray,
            diff_line_number: Paint::Rgb(60, 60, 60),
            diff_selection_fg: Paint::Rgb(158, 203, 255),
            diff_selection_bg: Paint::Rgb(30, 40, 55),
            diff_search_highlight_bg: Paint::Rgb(120, 100, 30),
            diff_search_highlight_fg: Paint::White,
            diff_search_cursor_bg: Paint::Rgb(200, 170, 40),
            diff_search_cursor_fg: Paint::Black,
            diff_grid_bg: Paint::Rgb(40, 40, 50),
            diff_grid_fg: Paint::Yellow,
            syntax_comment: Paint::Rgb(106, 115, 125),
            syntax_keyword: Paint::Rgb(255, 123, 114),
            syntax_string: Paint::Rgb(158, 203, 255),
            syntax_number: Paint::Rgb(121, 192, 255),
            syntax_function: Paint::Rgb(210, 168, 255),
            syntax_function_macro: Paint::Rgb(240, 160, 240),
            syntax_type: Paint::Rgb(255, 203, 107),
            syntax_variable_builtin: Paint::Rgb(255, 123, 114),
            syntax_variable_member: Paint::Rgb(121, 192, 255),
            syntax_module: Paint::Rgb(255, 203, 107),
            syntax_operator: Paint::Rgb(255, 123, 114),
            syntax_tag: Paint::Rgb(126, 231, 135),
            syntax_attribute: Paint::Rgb(210, 168, 255),
            syntax_label: Paint::Rgb(255, 203, 107),
            syntax_punctuation: Paint::Rgb(150, 160, 170),
            syntax_default: Paint::Rgb(201, 209, 217),
            graph_colors: [Paint::Cyan, Paint::Green, Paint::Yellow, Paint::Magenta, Paint::Blue, Paint::Red, Paint::LightCyan, Paint::LightGreen],
            rebase_pick: Paint::Green,
            rebase_reword: Paint::LightBlue,
            rebase_edit: Paint::Yellow,
            rebase_squash: Paint::Rgb(255, 165, 0),
            rebase_fixup: Paint::Rgb(180, 130, 255),
            rebase_drop: Paint::Red,
            rebase_paused_bg: Paint::Rgb(50, 40, 10),
            change_added: Paint::Green,
            change_deleted: Paint::Red,
            change_renamed: Paint::Yellow,
            change_copied: Paint::Cyan,
            change_unmerged: Paint::Red,
            ref_head: Paint::Cyan,
            ref_remote: Paint::Red,
            ref_local: Paint::Green,
            ref_tag: Paint::Cyan,
            tag_name: Paint::Green,
            tag_hash: Paint::Yellow,
            tag_message: Paint::White,
            stash_index: Paint::Yellow,
            stash_message: Paint::White,
            reflog_hash: Paint::Blue,
            reflog_message: Paint::White,
            remote_name: Paint::Cyan,
            remote_url: Paint::White,
            remote_branch_name: Paint::Cyan,
            remote_branch_detail: Paint::DarkGray,
        }
    }

    /// The default theme with the configuration's colour overrides.
    pub fn from_overrides(o: &ThemeOverrides) -> (t: Theme)
        ensures
            t == overridden_spec(*o),
    {
        let mut t = Theme::dark();
        match o.active_border {
            Some(c) => {
                t.active_border = Brush { fg: Some(paint_of(c)), bg: None, bold: true };
            },
            None => {},
        }
        match o.inactive_border {
            Some(c) => {
                t.inactive_border = Brush { fg: Some(paint_of(c)), bg: None, bold: false };
            },
            None => {},
        }
        match o.selected_line_bg {
            Some(c) => {
                t.selected_line = Brush { fg: None, bg: Some(paint_of(c)), bold: false };
            },
            None => {},
        }
        match o.options_text {
            Some(c) => {
                t.options_text = Brush { fg: Some(paint_of(c)), bg: None, bold: false };
            },
            None => {},
        }
        t
    }

    /// The colour a syntax capture is drawn in.
    pub fn syntax(&self, c: SyntaxColor) -> (p: Paint)
        ensures
            p == syntax_spec(*self, c),
    {
        match c {
            SyntaxColor::Comment => self.syntax_comment,
            SyntaxColor::Keyword => self.syntax_keyword,
            SyntaxColor::StringLiteral => self.syntax_string,
            SyntaxColor::Number => self.syntax_number,
            SyntaxColor::Function => self.syntax_function,
            SyntaxColor::FunctionMacro => self.syntax_function_macro,
            SyntaxColor::Type => self.syntax_type,
            SyntaxColor::VariableBuiltin => self.syntax_variable_builtin,
            SyntaxColor::VariableMember => self.syntax_variable_member,
            SyntaxColor::Module => self.syntax_module,
            SyntaxColor::Operator => self.syntax_operator,
            SyntaxColor::Tag => self.syntax_tag,
            SyntaxColor::Attribute => self.syntax_attribute,
            SyntaxColor::Label => self.syntax_label,
            SyntaxColor::Punctuation => self.syntax_punctuation,
            SyntaxColor::Default => self.syntax_default,
        }
    }
}

} // verus!
