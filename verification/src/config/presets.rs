//! The built-in colour themes besides the default one.

use vstd::prelude::*;
use super::palette::{dark_spec, Brush, Paint, Theme};
use super::theme::ThemeKind;

verus! {

/// The Catppuccin Mocha theme.
pub open spec fn catppuccin_mocha_spec() -> Theme {
    let flamingo = Paint::Rgb(242, 205, 205);
    let pink = Paint::Rgb(245, 194, 231);
    let mauve = Paint::Rgb(203, 166, 247);
    let red = Paint::Rgb(243, 139, 168);
    let maroon = Paint::Rgb(235, 160, 172);
    let peach = Paint::Rgb(250, 179, 135);
    let yellow = Paint::Rgb(249, 226, 175);
    let green = Paint::Rgb(166, 227, 161);
    let teal = Paint::Rgb(148, 226, 213);
    let sky = Paint::Rgb(137, 220, 235);
    let sapphire = Paint::Rgb(116, 199, 236);
    let blue = Paint::Rgb(137, 180, 250);
    let lavender = Paint::Rgb(180, 190, 254);
    let text = Paint::Rgb(205, 214, 244);
    let subtext1 = Paint::Rgb(186, 194, 222);
    let subtext0 = Paint::Rgb(166, 173, 200);
    let overlay2 = Paint::Rgb(147, 153, 178);
    let overlay1 = Paint::Rgb(127, 132, 156);
    let overlay0 = Paint::Rgb(108, 112, 134);
    let surface2 = Paint::Rgb(88, 91, 112);
    let surface1 = Paint::Rgb(69, 71, 90);
    let surface0 = Paint::Rgb(49, 50, 68);
    Theme {
        active_border: Brush { fg: Some(mauve), bg: None, bold: true },
        inactive_border: Brush { fg: Some(surface1), bg: None, bold: false },
        selected_line: Brush { fg: None, bg: Some(surface0), bold: false },
        options_text: Brush { fg: Some(blue), bg: None, bold: false },
        title: Brush { fg: Some(text), bg: None, bold: true },
        diff_add: Brush { fg: Some(green), bg: None, bold: false },
        diff_remove: Brush { fg: Some(red), bg: None, bold: false },
        diff_context: Brush { fg: Some(overlay0), bg: None, bold: false },
        diff_add_bg: Paint::Rgb(30, 60, 30),
        diff_remove_bg: Paint::Rgb(60, 30, 35),
        diff_add_word: Paint::Rgb(50, 120, 50),
        diff_remove_word: Paint::Rgb(120, 50, 60),
        commit_hash: Brush { fg: Some(yellow), bg: None, bold: false },
        commit_author: Brush { fg: Some(blue), bg: None, bold: false },
        commit_date: Brush { fg: Some(sapphire), bg: None, bold: false },
        commit_hash_pushed: overlay0,
        commit_hash_merged: surface2,
        branch_local: Brush { fg: Some(green), bg: None, bold: false },
        branch_remote: Brush { fg: Some(red), bg: None, bold: false },
        branch_head: Brush { fg: Some(mauve), bg: None, bold: true },
        file_staged: Brush { fg: Some(green), bg: None, bold: false },
        file_unstaged: Brush { fg: Some(peach), bg: None, bold: false },
        file_untracked: Brush { fg: Some(flamingo), bg: None, bold: false },
        file_conflicted: Brush { fg: Some(red), bg: None, bold: true },
        search_match: Brush { fg: Some(Paint::Rgb(30, 30, 46)), bg: Some(yellow), bold: false },
        status_bar: Brush { fg: Some(overlay0), bg: None, bold: false },
        spinner: Brush { fg: Some(mauve), bg: None, bold: false },
        accent: mauve,
        accent_secondary: yellow,
        text_dimmed: overlay0,
        text: subtext0,
        text_strong: text,
        separator: surface1,
        selected_bg: surface0,
        popup_border: mauve,
        cmd_log_border: surface1,
        cmd_log_title: subtext0,
        cmd_log_hint: overlay0,
        cmd_log_text: overlay1,
        cmd_log_timestamp: subtext1,
        cmd_log_success: green,
        diff_gutter: overlay0,
        diff_line_number: surface2,
        diff_selection_fg: sky,
        diff_selection_bg: Paint::Rgb(30, 40, 55),
        diff_search_highlight_bg: Paint::Rgb(120, 100, 30),
        diff_search_highlight_fg: text,
        diff_search_cursor_bg: yellow,
        diff_search_cursor_fg: Paint::Rgb(30, 30, 46),
        diff_grid_bg: surface0,
        diff_grid_fg: yellow,
        syntax_comment: overlay0,
        syntax_keyword: mauve,
        syntax_string: green,
        syntax_number: peach,
        syntax_function: blue,
        syntax_function_macro: pink,
        syntax_type: yellow,
        syntax_variable_builtin: red,
        syntax_variable_member: lavender,
        syntax_module: peach,
        syntax_operator: sky,
        syntax_tag: teal,
        syntax_attribute: mauve,
        syntax_label: flamingo,
        syntax_punctuation: overlay2,
        syntax_default: text,
        graph_colors: [mauve, green, yellow, pink, blue, red, teal, peach],
        rebase_pick: green,
        rebase_reword: blue,
        rebase_edit: yellow,
        rebase_squash: peach,
        rebase_fixup: mauve,
        rebase_drop: red,
        rebase_paused_bg: Paint::Rgb(50, 45, 25),
        change_added: green,
        change_deleted: red,
        change_renamed: yellow,
        change_copied: teal,
        change_unmerged: maroon,
        ref_head: mauve,
        ref_remote: red,
        ref_local: green,
        ref_tag: teal,
        tag_name: green,
        tag_hash: yellow,
        tag_message: subtext0,
        stash_index: yellow,
        stash_message: subtext0,
        reflog_hash: blue,
        reflog_message: subtext0,
        remote_name: teal,
        remote_url: subtext0,
        remote_branch_name: teal,
        remote_branch_detail: overlay0,
    }
}

/// The Catppuccin Mocha theme.
pub fn catppuccin_mocha() -> (t: Theme)
    ensures
        t == catppuccin_mocha_spec(),
{
    let flamingo = Paint::Rgb(242, 205, 205);
    let pink = Paint::Rgb(245, 194, 231);
    let mauve = Paint::Rgb(203, 166, 247);
    let red = Paint::Rgb(243, 139, 168);
    let maroon = Paint::Rgb(235, 160, 172);
    let peach = Paint::Rgb(250, 179, 135);
    let yellow = Paint::Rgb(249, 226, 175);
    let green = Paint::Rgb(166, 227, 161);
    let teal = Paint::Rgb(148, 226, 213);
    let sky = Paint::Rgb(137, 220, 235);
    let sapphire = Paint::Rgb(116, 199, 236);
    let blue = Paint::Rgb(137, 180, 250);
    let lavender = Paint::Rgb(180, 190, 254);
    let text = Paint::Rgb(205, 214, 244);
    let subtext1 = Paint::Rgb(186, 194, 222);
    let subtext0 = Paint::Rgb(166, 173, 200);
    let overlay2 = Paint::Rgb(147, 153, 178);
    let overlay1 = Paint::Rgb(127, 132, 156);
    let overlay0 = Paint::Rgb(108, 112, 134);
    let surface2 = Paint::Rgb(88, 91, 112);
    let surface1 = Paint::Rgb(69, 71, 90);
    let surface0 = Paint::Rgb(49, 50, 68);
    Theme {
        active_border: Brush { fg: Some(mauve), bg: None, bold: true },
        inactive_border: Brush { fg: Some(surface1), bg: None, bold: false },
        selected_line: Brush { fg: None, bg: Some(surface0), bold: false },
        options_text: Brush { fg: Some(blue), bg: None, bold: false },
        title: Brush { fg: Some(text), bg: None, bold: true },
        diff_add: Brush { fg: Some(green), bg: None, bold: false },
        diff_remove: Brush { fg: Some(red), bg: None, bold: false },
        diff_context: Brush { fg: Some(overlay0), bg: None, bold: false },
        diff_add_bg: Paint::Rgb(30, 60, 30),
        diff_remove_bg: Paint::Rgb(60, 30, 35),
        diff_add_word: Paint::Rgb(50, 120, 50),
        diff_remove_word: Paint::Rgb(120, 50, 60),
        commit_hash: Brush { fg: Some(yellow), bg: None, bold: false },
        commit_author: Brush { fg: Some(blue), bg: None, bold: false },
        commit_date: Brush { fg: Some(sapphire), bg: None, bold: false },
        commit_hash_pushed: overlay0,
        commit_hash_merged: surface2,
        branch_local: Brush { fg: Some(green), bg: None, bold: false },
        branch_remote: Brush { fg: Some(red), bg: None, bold: false },
        branch_head: Brush { fg: Some(mauve), bg: None, bold: true },
        file_staged: Brush { fg: Some(green), bg: None, bold: false },
        file_unstaged: Brush { fg: Some(peach), bg: None, bold: false },
        file_untracked: Brush { fg: Some(flamingo), bg: None, bold: false },
        file_conflicted: Brush { fg: Some(red), bg: None, bold: true },
        search_match: Brush { fg: Some(Paint::Rgb(30, 30, 46)), bg: Some(yellow), bold: false },
        status_bar: Brush { fg: Some(overlay0), bg: None, bold: false },
        spinner: Brush { fg: Some(mauve), bg: None, bold: false },
        accent: mauve,
        accent_secondary: yellow,
        text_dimmed: overlay0,
        text: subtext0,
        text_strong: text,
        separator: surface1,
        selected_bg: surface0,
        popup_border: mauve,
        cmd_log_border: surface1,
        cmd_log_title: subtext0,
        cmd_log_hint: overlay0,
        cmd_log_text: overlay1,
        cmd_log_timestamp: subtext1,
        cmd_log_success: green,
        diff_gutter: overlay0,
        diff_line_number: surface2,
        diff_selection_fg: sky,
        diff_selection_bg: Paint::Rgb(30, 40, 55),
        diff_search_highlight_bg: Paint::Rgb(120, 100, 30),
        diff_search_highlight_fg: text,
        diff_search_cursor_bg: yellow,
        diff_search_cursor_fg: Paint::Rgb(30, 30, 46),
        diff_grid_bg: surface0,
        diff_grid_fg: yellow,
        syntax_comment: overlay0,
        syntax_keyword: mauve,
        syntax_string: green,
        syntax_number: peach,
        syntax_function: blue,
        syntax_function_macro: pink,
        syntax_type: yellow,
        syntax_variable_builtin: red,
        syntax_variable_member: lavender,
        syntax_module: peach,
        syntax_operator: sky,
        syntax_tag: teal,
        syntax_attribute: mauve,
        syntax_label: flamingo,
        syntax_punctuation: overlay2,
        syntax_default: text,
        graph_colors: [mauve, green, yellow, pink, blue, red, teal, peach],
        rebase_pick: green,
        rebase_reword: blue,
        rebase_edit: yellow,
        rebase_squash: peach,
        rebase_fixup: mauve,
        rebase_drop: red,
        rebase_paused_bg: Paint::Rgb(50, 45, 25),
        change_added: green,
        change_deleted: red,
        change_renamed: yellow,
        change_copied: teal,
        change_unmerged: maroon,
        ref_head: mauve,
        ref_remote: red,
        ref_local: green,
        ref_tag: teal,
        tag_name: green,
        tag_hash: yellow,
        tag_message: subtext0,
        stash_index: yellow,
        stash_message: subtext0,
        reflog_hash: blue,
        reflog_message: subtext0,
        remote_name: teal,
        remote_url: subtext0,
        remote_branch_name: teal,
        remote_branch_detail: overlay0,
    }
}

/// The Catppuccin Macchiato theme.
pub open spec fn catppuccin_macchiato_spec() -> Theme {
    let flamingo = Paint::Rgb(240, 198, 198);
    let pink = Paint::Rgb(245, 189, 230);
    let mauve = Paint::Rgb(198, 160, 246);
    let red = Paint::Rgb(237, 135, 150);
    let maroon = Paint::Rgb(238, 153, 160);
    let peach = Paint::Rgb(245, 169, 127);
    let yellow = Paint::Rgb(238, 212, 159);
    let green = Paint::Rgb(166, 218, 149);
    let teal = Paint::Rgb(139, 213, 202);
    let sky = Paint::Rgb(145, 215, 227);
    let sapphire = Paint::Rgb(125, 196, 228);
    let blue = Paint::Rgb(138, 173, 244);
    let lavender = Paint::Rgb(183, 189, 248);
    let text = Paint::Rgb(202, 211, 245);
    let subtext1 = Paint::Rgb(184, 192, 224);
    let subtext0 = Paint::Rgb(165, 173, 203);
    let overlay2 = Paint::Rgb(147, 154, 183);
    let overlay1 = Paint::Rgb(128, 135, 162);
    let overlay0 = Paint::Rgb(110, 115, 141);
    let surface2 = Paint::Rgb(91, 96, 120);
    let surface1 = Paint::Rgb(73, 77, 100);
    let surface0 = Paint::Rgb(54, 58, 79);
    Theme {
        active_border: Brush { fg: Some(mauve), bg: None, bold: true },
        inactive_border: Brush { fg: Some(surface1), bg: None, bold: false },
        selected_line: Brush { fg: None, bg: Some(surface0), bold: false },
        options_text: Brush { fg: Some(blue), bg: None, bold: false },
        title: Brush { fg: Some(text), bg: None, bold: true },
        diff_add: Brush { fg: Some(green), bg: None, bold: false },
        diff_remove: Brush { fg: Some(red), bg: None, bold: false },
        diff_context: Brush { fg: Some(overlay0), bg: None, bold: false },
        diff_add_bg: Paint::Rgb(30, 55, 30),
        diff_remove_bg: Paint::Rgb(55, 30, 35),
        diff_add_word: Paint::Rgb(50, 110, 50),
        diff_remove_word: Paint::Rgb(110, 50, 55),
        commit_hash: Brush { fg: Some(yellow), bg: None, bold: false },
        commit_author: Brush { fg: Some(blue), bg: None, bold: false },
        commit_date: Brush { fg: Some(sapphire), bg: None, bold: false },
        commit_hash_pushed: overlay0,
        commit_hash_merged: surface2,
        branch_local: Brush { fg: Some(green), bg: None, bold: false },
        branch_remote: Brush { fg: Some(red), bg: None, bold: false },
        branch_head: Brush { fg: Some(mauve), bg: None, bold: true },
        file_staged: Brush { fg: Some(green), bg: None, bold: false },
        file_unstaged: Brush { fg: Some(peach), bg: None, bold: false },
        file_untracked: Brush { fg: Some(flamingo), bg: None, bold: false },
        file_conflicted: Brush { fg: Some(red), bg: None, bold: true },
        search_match: Brush { fg: Some(Paint::Rgb(36, 39, 58)), bg: Some(yellow), bold: false },
        status_bar: Brush { fg: Some(overlay0), bg: None, bold: false },
        spinner: Brush { fg: Some(mauve), bg: None, bold: false },
        accent: mauve,
        accent_secondary: yellow,
        text_dimmed: overlay0,
        text: subtext0,
        text_strong: text,
        separator: surface1,
        selected_bg: surface0,
        popup_border: mauve,
        cmd_log_border: surface1,
        cmd_log_title: subtext0,
        cmd_log_hint: overlay0,
        cmd_log_text: overlay1,
        cmd_log_timestamp: subtext1,
        cmd_log_success: green,
        diff_gutter: overlay0,
        diff_line_number: surface2,
        diff_selection_fg: sky,
        diff_selection_bg: Paint::Rgb(30, 38, 50),
        diff_search_highlight_bg: Paint::Rgb(110, 95, 30),
        diff_search_highlight_fg: text,
        diff_search_cursor_bg: yellow,
        diff_search_cursor_fg: Paint::Rgb(36, 39, 58),
        diff_grid_bg: surface0,
        diff_grid_fg: yellow,
        syntax_comment: overlay0,
        syntax_keyword: mauve,
        syntax_string: green,
        syntax_number: peach,
        syntax_function: blue,
        syntax_function_macro: pink,
        syntax_type: yellow,
        syntax_variable_builtin: red,
        syntax_variable_member: lavender,
        syntax_module: peach,
        syntax_operator: sky,
        syntax_tag: teal,
        syntax_attribute: mauve,
        syntax_label: flamingo,
        syntax_punctuation: overlay2,
        syntax_default: text,
        graph_colors: [mauve, green, yellow, pink, blue, red, teal, peach],
        rebase_pick: green,
        rebase_reword: blue,
        rebase_edit: yellow,
        rebase_squash: peach,
        rebase_fixup: mauve,
        rebase_drop: red,
        rebase_paused_bg: Paint::Rgb(50, 45, 25),
        change_added: green,
        change_deleted: red,
        change_renamed: yellow,
        change_copied: teal,
        change_unmerged: maroon,
        ref_head: mauve,
        ref_remote: red,
        ref_local: green,
        ref_tag: teal,
        tag_name: green,
        tag_hash: yellow,
        tag_message: subtext0,
        stash_index: yellow,
        stash_message: subtext0,
        reflog_hash: blue,
        reflog_message: subtext0,
        remote_name: teal,
        remote_url: subtext0,
        remote_branch_name: teal,
        remote_branch_detail: overlay0,
    }
}

/// The Catppuccin Macchiato theme.
pub fn catppuccin_macchiato() -> (t: Theme)
    ensures
        t == catppuccin_macchiato_spec(),
{
    let flamingo = Paint::Rgb(240, 198, 198);
    let pink = Paint::Rgb(245, 189, 230);
    let mauve = Paint::Rgb(198, 160, 246);
    let red = Paint::Rgb(237, 135, 150);
    let maroon = Paint::Rgb(238, 153, 160);
    let peach = Paint::Rgb(245, 169, 127);
    let yellow = Paint::Rgb(238, 212, 159);
    let green = Paint::Rgb(166, 218, 149);
    let teal = Paint::Rgb(139, 213, 202);
    let sky = Paint::Rgb(145, 215, 227);
    let sapphire = Paint::Rgb(125, 196, 228);
    let blue = Paint::Rgb(138, 173, 244);
    let lavender = Paint::Rgb(183, 189, 248);
    let text = Paint::Rgb(202, 211, 245);
    let subtext1 = Paint::Rgb(184, 192, 224);
    let subtext0 = Paint::Rgb(165, 173, 203);
    let overlay2 = Paint::Rgb(147, 154, 183);
    let overlay1 = Paint::Rgb(128, 135, 162);
    let overlay0 = Paint::Rgb(110, 115, 141);
    let surface2 = Paint::Rgb(91, 96, 120);
    let surface1 = Paint::Rgb(73, 77, 100);
    let surface0 = Paint::Rgb(54, 58, 79);
    Theme {
        active_border: Brush { fg: Some(mauve), bg: None, bold: true },
        inactive_border: Brush { fg: Some(surface1), bg: None, bold: false },
        selected_line: Brush { fg: None, bg: Some(surface0), bold: false },
        options_text: Brush { fg: Some(blue), bg: None, bold: false },
        title: Brush { fg: Some(text), bg: None, bold: true },
        diff_add: Brush { fg: Some(green), bg: None, bold: false },
        diff_remove: Brush { fg: Some(red), bg: None, bold: false },
        diff_context: Brush { fg: Some(overlay0), bg: None, bold: false },
        diff_add_bg: Paint::Rgb(30, 55, 30),
        diff_remove_bg: Paint::Rgb(55, 30, 35),
        diff_add_word: Paint::Rgb(50, 110, 50),
        diff_remove_word: Paint::Rgb(110, 50, 55),
        commit_hash: Brush { fg: Some(yellow), bg: None, bold: false },
        commit_author: Brush { fg: Some(blue), bg: None, bold: false },
        commit_date: Brush { fg: Some(sapphire), bg: None, bold: false },
        commit_hash_pushed: overlay0,
        commit_hash_merged: surface2,
        branch_local: Brush { fg: Some(green), bg: None, bold: false },
        branch_remote: Brush { fg: Some(red), bg: None, bold: false },
        branch_head: Brush { fg: Some(mauve), bg: None, bold: true },
        file_staged: Brush { fg: Some(green), bg: None, bold: false },
        file_unstaged: Brush { fg: Some(peach), bg: None, bold: false },
        file_untracked: Brush { fg: Some(flamingo), bg: None, bold: false },
        file_conflicted: Brush { fg: Some(red), bg: None, bold: true },
        search_match: Brush { fg: Some(Paint::Rgb(36, 39, 58)), bg: Some(yellow), bold: false },
        status_bar: Brush { fg: Some(overlay0), bg: None, bold: false },
        spinner: Brush { fg: Some(mauve), bg: None, bold: false },
        accent: mauve,
        accent_secondary: yellow,
        text_dimmed: overlay0,
        text: subtext0,
        text_strong: text,
        separator: surface1,
        selected_bg: surface0,
        popup_border: mauve,
        cmd_log_border: surface1,
        cmd_log_title: subtext0,
        cmd_log_hint: overlay0,
        cmd_log_text: overlay1,
        cmd_log_timestamp: subtext1,
        cmd_log_success: green,
        diff_gutter: overlay0,
        diff_line_number: surface2,
        diff_selection_fg: sky,
        diff_selection_bg: Paint::Rgb(30, 38, 50),
        diff_search_highlight_bg: Paint::Rgb(110, 95, 30),
        diff_search_highlight_fg: text,
        diff_search_cursor_bg: yellow,
        diff_search_cursor_fg: Paint::Rgb(36, 39, 58),
        diff_grid_bg: surface0,
        diff_grid_fg: yellow,
        syntax_comment: overlay0,
        syntax_keyword: mauve,
        syntax_string: green,
        syntax_number: peach,
        syntax_function: blue,
        syntax_function_macro: pink,
        syntax_type: yellow,
        syntax_variable_builtin: red,
        syntax_variable_member: lavender,
        syntax_module: peach,
        syntax_operator: sky,
        syntax_tag: teal,
        syntax_attribute: mauve,
        syntax_label: flamingo,
        syntax_punctuation: overlay2,
        syntax_default: text,
        graph_colors: [mauve, green, yellow, pink, blue, red, teal, peach],
        rebase_pick: green,
        rebase_reword: blue,
        rebase_edit: yellow,
        rebase_squash: peach,
        rebase_fixup: mauve,
        rebase_drop: red,
        rebase_paused_bg: Paint::Rgb(50, 45, 25),
        change_added: green,
        change_deleted: red,
        change_renamed: yellow,
        change_copied: teal,
        change_unmerged: maroon,
        ref_head: mauve,
        ref_remote: red,
        ref_local: green,
        ref_tag: teal,
        tag_name: green,
        tag_hash: yellow,
        tag_message: subtext0,
        stash_index: yellow,
        stash_message: subtext0,
        reflog_hash: blue,
        reflog_message: subtext0,
        remote_name: teal,
        remote_url: subtext0,
        remote_branch_name: teal,
        remote_branch_detail: overlay0,
    }
}

/// The Dracula theme.
pub open spec fn dracula_spec() -> Theme {
    let bg = Paint::Rgb(40, 42, 54);
    let fg = Paint::Rgb(248, 248, 242);
    let selection = Paint::Rgb(68, 71, 90);
    let comment = Paint::Rgb(98, 114, 164);
    let cyan = Paint::Rgb(139, 233, 253);
    let green = Paint::Rgb(80, 250, 123);
    let orange = Paint::Rgb(255, 184, 108);
    let pink = Paint::Rgb(255, 121, 198);
    let purple = Paint::Rgb(189, 147, 249);
    let red = Paint::Rgb(255, 85, 85);
    let yellow = Paint::Rgb(241, 250, 140);
    Theme {
        active_border: Brush { fg: Some(purple), bg: None, bold: true },
        inactive_border: Brush { fg: Some(comment), bg: None, bold: false },
        selected_line: Brush { fg: None, bg: Some(selection), bold: false },
        options_text: Brush { fg: Some(cyan), bg: None, bold: false },
        title: Brush { fg: Some(fg), bg: None, bold: true },
        diff_add: Brush { fg: Some(green), bg: None, bold: false },
        diff_remove: Brush { fg: Some(red), bg: None, bold: false },
        diff_context: Brush { fg: Some(comment), bg: None, bold: false },
        diff_add_bg: Paint::Rgb(25, 60, 25),
        diff_remove_bg: Paint::Rgb(60, 25, 25),
        diff_add_word: Paint::Rgb(40, 130, 50),
        diff_remove_word: Paint::Rgb(130, 40, 40),
        commit_hash: Brush { fg: Some(yellow), bg: None, bold: false },
        commit_author: Brush { fg: Some(cyan), bg: None, bold: false },
        commit_date: Brush { fg: Some(purple), bg: None, bold: false },
        commit_hash_pushed: comment,
        commit_hash_merged: Paint::Rgb(60, 62, 75),
        branch_local: Brush { fg: Some(green), bg: None, bold: false },
        branch_remote: Brush { fg: Some(red), bg: None, bold: false },
        branch_head: Brush { fg: Some(pink), bg: None, bold: true },
        file_staged: Brush { fg: Some(green), bg: None, bold: false },
        file_unstaged: Brush { fg: Some(orange), bg: None, bold: false },
        file_untracked: Brush { fg: Some(cyan), bg: None, bold: false },
        file_conflicted: Brush { fg: Some(red), bg: None, bold: true },
        search_match: Brush { fg: Some(bg), bg: Some(yellow), bold: false },
        status_bar: Brush { fg: Some(comment), bg: None, bold: false },
        spinner: Brush { fg: Some(purple), bg: None, bold: false },
        accent: purple,
        accent_secondary: yellow,
        text_dimmed: comment,
        text: Paint::Rgb(180, 180, 200),
        text_strong: fg,
        separator: Paint::Rgb(68, 71, 90),
        selected_bg: selection,
        popup_border: purple,
        cmd_log_border: Paint::Rgb(68, 71, 90),
        cmd_log_title: Paint::Rgb(150, 150, 170),
        cmd_log_hint: comment,
        cmd_log_text: Paint::Rgb(130, 130, 150),
        cmd_log_timestamp: Paint::Rgb(180, 180, 200),
        cmd_log_success: green,
        diff_gutter: comment,
        diff_line_number: Paint::Rgb(68, 71, 90),
        diff_selection_fg: cyan,
        diff_selection_bg: Paint::Rgb(35, 45, 60),
        diff_search_highlight_bg: Paint::Rgb(120, 120, 30),
        diff_search_highlight_fg: fg,
        diff_search_cursor_bg: yellow,
        diff_search_cursor_fg: bg,
        diff_grid_bg: Paint::Rgb(50, 52, 66),
        diff_grid_fg: yellow,
        syntax_comment: comment,
        syntax_keyword: pink,
        syntax_string: yellow,
        syntax_number: purple,
        syntax_function: green,
        syntax_function_macro: cyan,
        syntax_type: cyan,
        syntax_variable_builtin: purple,
        syntax_variable_member: fg,
        syntax_module: orange,
        syntax_operator: pink,
        syntax_tag: pink,
        syntax_attribute: green,
        syntax_label: cyan,
        syntax_punctuation: fg,
        syntax_default: fg,
        graph_colors: [purple, green, yellow, pink, cyan, red, orange, Paint::Rgb(139, 233, 253)],
        rebase_pick: green,
        rebase_reword: cyan,
        rebase_edit: yellow,
        rebase_squash: orange,
        rebase_fixup: purple,
        rebase_drop: red,
        rebase_paused_bg: Paint::Rgb(55, 50, 25),
        change_added: green,
        change_deleted: red,
        change_renamed: orange,
        change_copied: cyan,
        change_unmerged: red,
        ref_head: pink,
        ref_remote: red,
        ref_local: green,
        ref_tag: cyan,
        tag_name: green,
        tag_hash: yellow,
        tag_message: Paint::Rgb(180, 180, 200),
        stash_index: yellow,
        stash_message: Paint::Rgb(180, 180, 200),
        reflog_hash: purple,
        reflog_message: Paint::Rgb(180, 180, 200),
        remote_name: cyan,
        remote_url: Paint::Rgb(180, 180, 200),
        remote_branch_name: cyan,
        remote_branch_detail: comment,
    }
}

/// The Dracula theme.
pub fn dracula() -> (t: Theme)
    ensures
        t == dracula_spec(),
{
    let bg = Paint::Rgb(40, 42, 54);
    let fg = Paint::Rgb(248, 248, 242);
    let selection = Paint::Rgb(68, 71, 90);
    let comment = Paint::Rgb(98, 114, 164);
    let cyan = Paint::Rgb(139, 233, 253);
    let green = Paint::Rgb(80, 250, 123);
    let orange = Paint::Rgb(255, 184, 108);
    let pink = Paint::Rgb(255, 121, 198);
    let purple = Paint::Rgb(189, 147, 249);
    let red = Paint::Rgb(255, 85, 85);
    let yellow = Paint::Rgb(241, 250, 140);
    Theme {
        active_border: Brush { fg: Some(purple), bg: None, bold: true },
        inactive_border: Brush { fg: Some(comment), bg: None, bold: false },
        selected_line: Brush { fg: None, bg: Some(selection), bold: false },
        options_text: Brush { fg: Some(cyan), bg: None, bold: false },
        title: Brush { fg: Some(fg), bg: None, bold: true },
        diff_add: Brush { fg: Some(green), bg: None, bold: false },
        diff_remove: Brush { fg: Some(red), bg: None, bold: false },
        diff_context: Brush { fg: Some(comment), bg: None, bold: false },
        diff_add_bg: Paint::Rgb(25, 60, 25),
        diff_remove_bg: Paint::Rgb(60, 25, 25),
        diff_add_word: Paint::Rgb(40, 130, 50),
        diff_remove_word: Paint::Rgb(130, 40, 40),
        commit_hash: Brush { fg: Some(yellow), bg: None, bold: false },
        commit_author: Brush { fg: Some(cyan), bg: None, bold: false },
        commit_date: Brush { fg: Some(purple), bg: None, bold: false },
        commit_hash_pushed: comment,
        commit_hash_merged: Paint::Rgb(60, 62, 75),
        branch_local: Brush { fg: Some(green), bg: None, bold: false },
        branch_remote: Brush { fg: Some(red), bg: None, bold: false },
        branch_head: Brush { fg: Some(pink), bg: None, bold: true },
        file_staged: Brush { fg: Some(green), bg: None, bold: false },
        file_unstaged: Brush { fg: Some(orange), bg: None, bold: false },
        file_untracked: Brush { fg: Some(cyan), bg: None, bold: false },
        file_conflicted: Brush { fg: Some(red), bg: None, bold: true },
        search_match: Brush { fg: Some(bg), bg: Some(yellow), bold: false },
        status_bar: Brush { fg: Some(comment), bg: None, bold: false },
        spinner: Brush { fg: Some(purple), bg: None, bold: false },
        accent: purple,
        accent_secondary: yellow,
        text_dimmed: comment,
        text: Paint::Rgb(180, 180, 200),
        text_strong: fg,
        separator: Paint::Rgb(68, 71, 90),
        selected_bg: selection,
        popup_border: purple,
        cmd_log_border: Paint::Rgb(68, 71, 90),
        cmd_log_title: Paint::Rgb(150, 150, 170),
        cmd_log_hint: comment,
        cmd_log_text: Paint::Rgb(130, 130, 150),
        cmd_log_timestamp: Paint::Rgb(180, 180, 200),
        cmd_log_success: green,
        diff_gutter: comment,
        diff_line_number: Paint::Rgb(68, 71, 90),
        diff_selection_fg: cyan,
        diff_selection_bg: Paint::Rgb(35, 45, 60),
        diff_search_highlight_bg: Paint::Rgb(120, 120, 30),
        diff_search_highlight_fg: fg,
        diff_search_cursor_bg: yellow,
        diff_search_cursor_fg: bg,
        diff_grid_bg: Paint::Rgb(50, 52, 66),
        diff_grid_fg: yellow,
        syntax_comment: comment,
        syntax_keyword: pink,
        syntax_string: yellow,
        syntax_number: purple,
        syntax_function: green,
        syntax_function_macro: cyan,
        syntax_type: cyan,
        syntax_variable_builtin: purple,
        syntax_variable_member: fg,
        syntax_module: orange,
        syntax_operator: pink,
        syntax_tag: pink,
        syntax_attribute: green,
        syntax_label: cyan,
        syntax_punctuation: fg,
        syntax_default: fg,
        graph_colors: [purple, green, yellow, pink, cyan, red, orange, Paint::Rgb(139, 233, 253)],
        rebase_pick: green,
        rebase_reword: cyan,
        rebase_edit: yellow,
        rebase_squash: orange,
        rebase_fixup: purple,
        rebase_drop: red,
        rebase_paused_bg: Paint::Rgb(55, 50, 25),
        change_added: green,
        change_deleted: red,
        change_renamed: orange,
        change_copied: cyan,
        change_unmerged: red,
        ref_head: pink,
        ref_remote: red,
        ref_local: green,
        ref_tag: cyan,
        tag_name: green,
        tag_hash: yellow,
        tag_message: Paint::Rgb(180, 180, 200),
        stash_index: yellow,
        stash_message: Paint::Rgb(180, 180, 200),
        reflog_hash: purple,
        reflog_message: Paint::Rgb(180, 180, 200),
        remote_name: cyan,
        remote_url: Paint::Rgb(180, 180, 200),
        remote_branch_name: cyan,
        remote_branch_detail: comment,
    }
}

/// The Tokyo Night theme.
pub open spec fn tokyonight_spec() -> Theme {
    let fg = Paint::Rgb(192, 202, 245);
    let bg = Paint::Rgb(26, 27, 38);
    let blue = Paint::Rgb(122, 162, 247);
    let cyan = Paint::Rgb(125, 207, 255);
    let green = Paint::Rgb(158, 206, 106);
    let magenta = Paint::Rgb(187, 154, 247);
    let orange = Paint::Rgb(255, 158, 100);
    let red = Paint::Rgb(247, 118, 142);
    let yellow = Paint::Rgb(224, 175, 104);
    let teal = Paint::Rgb(26, 188, 156);
    let comment = Paint::Rgb(86, 95, 137);
    let dark3 = Paint::Rgb(68, 75, 106);
    let dark5 = Paint::Rgb(55, 62, 89);
    let fg_dark = Paint::Rgb(162, 173, 210);
    let fg_gutter = Paint::Rgb(59, 66, 97);
    Theme {
        active_border: Brush { fg: Some(blue), bg: None, bold: true },
        inactive_border: Brush { fg: Some(dark5), bg: None, bold: false },
        selected_line: Brush { fg: None, bg: Some(Paint::Rgb(41, 46, 66)), bold: false },
        options_text: Brush { fg: Some(cyan), bg: None, bold: false },
        title: Brush { fg: Some(fg), bg: None, bold: true },
        diff_add: Brush { fg: Some(green), bg: None, bold: false },
        diff_remove: Brush { fg: Some(red), bg: None, bold: false },
        diff_context: Brush { fg: Some(comment), bg: None, bold: false },
        diff_add_bg: Paint::Rgb(20, 50, 25),
        diff_remove_bg: Paint::Rgb(55, 25, 30),
        diff_add_word: Paint::Rgb(40, 100, 45),
        diff_remove_word: Paint::Rgb(110, 40, 50),
        commit_hash: Brush { fg: Some(orange), bg: None, bold: false },
        commit_author: Brush { fg: Some(blue), bg: None, bold: false },
        commit_date: Brush { fg: Some(teal), bg: None, bold: false },
        commit_hash_pushed: comment,
        commit_hash_merged: dark3,
        branch_local: Brush { fg: Some(green), bg: None, bold: false },
        branch_remote: Brush { fg: Some(red), bg: None, bold: false },
        branch_head: Brush { fg: Some(blue), bg: None, bold: true },
        file_staged: Brush { fg: Some(green), bg: None, bold: false },
        file_unstaged: Brush { fg: Some(orange), bg: None, bold: false },
        file_untracked: Brush { fg: Some(cyan), bg: None, bold: false },
        file_conflicted: Brush { fg: Some(red), bg: None, bold: true },
        search_match: Brush { fg: Some(bg), bg: Some(yellow), bold: false },
        status_bar: Brush { fg: Some(comment), bg: None, bold: false },
        spinner: Brush { fg: Some(blue), bg: None, bold: false },
        accent: blue,
        accent_secondary: yellow,
        text_dimmed: comment,
        text: fg_dark,
        text_strong: fg,
        separator: dark5,
        selected_bg: Paint::Rgb(41, 46, 66),
        popup_border: blue,
        cmd_log_border: dark5,
        cmd_log_title: fg_dark,
        cmd_log_hint: comment,
        cmd_log_text: dark3,
        cmd_log_timestamp: fg_dark,
        cmd_log_success: green,
        diff_gutter: comment,
        diff_line_number: fg_gutter,
        diff_selection_fg: cyan,
        diff_selection_bg: Paint::Rgb(30, 40, 55),
        diff_search_highlight_bg: Paint::Rgb(100, 90, 25),
        diff_search_highlight_fg: fg,
        diff_search_cursor_bg: yellow,
        diff_search_cursor_fg: bg,
        diff_grid_bg: Paint::Rgb(36, 40, 55),
        diff_grid_fg: yellow,
        syntax_comment: comment,
        syntax_keyword: magenta,
        syntax_string: green,
        syntax_number: orange,
        syntax_function: blue,
        syntax_function_macro: cyan,
        syntax_type: yellow,
        syntax_variable_builtin: red,
        syntax_variable_member: cyan,
        syntax_module: yellow,
        syntax_operator: magenta,
        syntax_tag: red,
        syntax_attribute: yellow,
        syntax_label: orange,
        syntax_punctuation: fg_dark,
        syntax_default: fg,
        graph_colors: [blue, green, yellow, magenta, cyan, red, teal, orange],
        rebase_pick: green,
        rebase_reword: blue,
        rebase_edit: yellow,
        rebase_squash: orange,
        rebase_fixup: magenta,
        rebase_drop: red,
        rebase_paused_bg: Paint::Rgb(50, 40, 20),
        change_added: green,
        change_deleted: red,
        change_renamed: yellow,
        change_copied: cyan,
        change_unmerged: red,
        ref_head: blue,
        ref_remote: red,
        ref_local: green,
        ref_tag: cyan,
        tag_name: green,
        tag_hash: orange,
        tag_message: fg_dark,
        stash_index: orange,
        stash_message: fg_dark,
        reflog_hash: blue,
        reflog_message: fg_dark,
        remote_name: cyan,
        remote_url: fg_dark,
        remote_branch_name: cyan,
        remote_branch_detail: comment,
    }
}

/// The Tokyo Night theme.
pub fn tokyonight() -> (t: Theme)
    ensures
        t == tokyonight_spec(),
{
    let fg = Paint::Rgb(192, 202, 245);
    let bg = Paint::Rgb(26, 27, 38);
    let blue = Paint::Rgb(122, 162, 247);
    let cyan = Paint::Rgb(125, 207, 255);
    let green = Paint::Rgb(158, 206, 106);
    let magenta = Paint::Rgb(187, 154, 247);
    let orange = Paint::Rgb(255, 158, 100);
    let red = Paint::Rgb(247, 118, 142);
    let yellow = Paint::Rgb(224, 175, 104);
    let teal = Paint::Rgb(26, 188, 156);
    let comment = Paint::Rgb(86, 95, 137);
    let dark3 = Paint::Rgb(68, 75, 106);
    let dark5 = Paint::Rgb(55, 62, 89);
    let fg_dark = Paint::Rgb(162, 173, 210);
    let fg_gutter = Paint::Rgb(59, 66, 97);
    Theme {
        active_border: Brush { fg: Some(blue), bg: None, bold: true },
        inactive_border: Brush { fg: Some(dark5), bg: None, bold: false },
        selected_line: Brush { fg: None, bg: Some(Paint::Rgb(41, 46, 66)), bold: false },
        options_text: Brush { fg: Some(cyan), bg: None, bold: false },
        title: Brush { fg: Some(fg), bg: None, bold: true },
        diff_add: Brush { fg: Some(green), bg: None, bold: false },
        diff_remove: Brush { fg: Some(red), bg: None, bold: false },
        diff_context: Brush { fg: Some(comment), bg: None, bold: false },
        diff_add_bg: Paint::Rgb(20, 50, 25),
        diff_remove_bg: Paint::Rgb(55, 25, 30),
        diff_add_word: Paint::Rgb(40, 100, 45),
        diff_remove_word: Paint::Rgb(110, 40, 50),
        commit_hash: Brush { fg: Some(orange), bg: None, bold: false },
        commit_author: Brush { fg: Some(blue), bg: None, bold: false },
        commit_date: Brush { fg: Some(teal), bg: None, bold: false },
        commit_hash_pushed: comment,
        commit_hash_merged: dark3,
        branch_local: Brush { fg: Some(green), bg: None, bold: false },
        branch_remote: Brush { fg: Some(red), bg: None, bold: false },
        branch_head: Brush { fg: Some(blue), bg: None, bold: true },
        file_staged: Brush { fg: Some(green), bg: None, bold: false },
        file_unstaged: Brush { fg: Some(orange), bg: None, bold: false },
        file_untracked: Brush { fg: Some(cyan), bg: None, bold: false },
        file_conflicted: Brush { fg: Some(red), bg: None, bold: true },
        search_match: Brush { fg: Some(bg), bg: Some(yellow), bold: false },
        status_bar: Brush { fg: Some(comment), bg: None, bold: false },
        spinner: Brush { fg: Some(blue), bg: None, bold: false },
        accent: blue,
        accent_secondary: yellow,
        text_dimmed: comment,
        text: fg_dark,
        text_strong: fg,
        separator: dark5,
        selected_bg: Paint::Rgb(41, 46, 66),
        popup_border: blue,
        cmd_log_border: dark5,
        cmd_log_title: fg_dark,
        cmd_log_hint: comment,
        cmd_log_text: dark3,
        cmd_log_timestamp: fg_dark,
        cmd_log_success: green,
        diff_gutter: comment,
        diff_line_number: fg_gutter,
        diff_selection_fg: cyan,
        diff_selection_bg: Paint::Rgb(30, 40, 55),
        diff_search_highlight_bg: Paint::Rgb(100, 90, 25),
        diff_search_highlight_fg: fg,
        diff_search_cursor_bg: yellow,
        diff_search_cursor_fg: bg,
        diff_grid_bg: Paint::Rgb(36, 40, 55),
        diff_grid_fg: yellow,
        syntax_comment: comment,
        syntax_keyword: magenta,
        syntax_string: green,
        syntax_number: orange,
        syntax_function: blue,
        syntax_function_macro: cyan,
        syntax_type: yellow,
        syntax_variable_builtin: red,
        syntax_variable_member: cyan,
        syntax_module: yellow,
        syntax_operator: magenta,
        syntax_tag: red,
        syntax_attribute: yellow,
        syntax_label: orange,
        syntax_punctuation: fg_dark,
        syntax_default: fg,
        graph_colors: [blue, green, yellow, magenta, cyan, red, teal, orange],
        rebase_pick: green,
        rebase_reword: blue,
        rebase_edit: yellow,
        rebase_squash: orange,
        rebase_fixup: magenta,
        rebase_drop: red,
        rebase_paused_bg: Paint::Rgb(50, 40, 20),
        change_added: green,
        change_deleted: red,
        change_renamed: yellow,
        change_copied: cyan,
        change_unmerged: red,
        ref_head: blue,
        ref_remote: red,
        ref_local: green,
        ref_tag: cyan,
        tag_name: green,
        tag_hash: orange,
        tag_message: fg_dark,
        stash_index: orange,
        stash_message: fg_dark,
        reflog_hash: blue,
        reflog_message: fg_dark,
        remote_name: cyan,
        remote_url: fg_dark,
        remote_branch_name: cyan,
        remote_branch_detail: comment,
    }
}

/// The Gruvbox Dark theme.
pub open spec fn gruvbox_spec() -> Theme {
    let fg = Paint::Rgb(235, 219, 178);
    let bg = Paint::Rgb(40, 40, 40);
    let red = Paint::Rgb(251, 73, 52);
    let green = Paint::Rgb(184, 187, 38);
    let yellow = Paint::Rgb(250, 189, 47);
    let blue = Paint::Rgb(131, 165, 152);
    let purple = Paint::Rgb(211, 134, 155);
    let aqua = Paint::Rgb(142, 192, 124);
    let orange = Paint::Rgb(254, 128, 25);
    let gray = Paint::Rgb(146, 131, 116);
    let bg1 = Paint::Rgb(60, 56, 54);
    let bg2 = Paint::Rgb(80, 73, 69);
    let bg3 = Paint::Rgb(102, 92, 84);
    let fg4 = Paint::Rgb(168, 153, 132);
    Theme {
        active_border: Brush { fg: Some(yellow), bg: None, bold: true },
        inactive_border: Brush { fg: Some(bg3), bg: None, bold: false },
        selected_line: Brush { fg: None, bg: Some(bg1), bold: false },
        options_text: Brush { fg: Some(blue), bg: None, bold: false },
        title: Brush { fg: Some(fg), bg: None, bold: true },
        diff_add: Brush { fg: Some(green), bg: None, bold: false },
        diff_remove: Brush { fg: Some(red), bg: None, bold: false },
        diff_context: Brush { fg: Some(gray), bg: None, bold: false },
        diff_add_bg: Paint::Rgb(30, 50, 15),
        diff_remove_bg: Paint::Rgb(55, 20, 15),
        diff_add_word: Paint::Rgb(50, 90, 25),
        diff_remove_word: Paint::Rgb(100, 30, 20),
        commit_hash: Brush { fg: Some(yellow), bg: None, bold: false },
        commit_author: Brush { fg: Some(aqua), bg: None, bold: false },
        commit_date: Brush { fg: Some(blue), bg: None, bold: false },
        commit_hash_pushed: gray,
        commit_hash_merged: bg3,
        branch_local: Brush { fg: Some(green), bg: None, bold: false },
        branch_remote: Brush { fg: Some(red), bg: None, bold: false },
        branch_head: Brush { fg: Some(yellow), bg: None, bold: true },
        file_staged: Brush { fg: Some(green), bg: None, bold: false },
        file_unstaged: Brush { fg: Some(orange), bg: None, bold: false },
        file_untracked: Brush { fg: Some(aqua), bg: None, bold: false },
        file_conflicted: Brush { fg: Some(red), bg: None, bold: true },
        search_match: Brush { fg: Some(bg), bg: Some(yellow), bold: false },
        status_bar: Brush { fg: Some(gray), bg: None, bold: false },
        spinner: Brush { fg: Some(yellow), bg: None, bold: false },
        accent: yellow,
        accent_secondary: orange,
        text_dimmed: gray,
        text: fg4,
        text_strong: fg,
        separator: bg2,
        selected_bg: bg1,
        popup_border: yellow,
        cmd_log_border: bg2,
        cmd_log_title: fg4,
        cmd_log_hint: gray,
        cmd_log_text: bg3,
        cmd_log_timestamp: fg4,
        cmd_log_success: green,
        diff_gutter: gray,
        diff_line_number: bg3,
        diff_selection_fg: aqua,
        diff_selection_bg: Paint::Rgb(35, 40, 45),
        diff_search_highlight_bg: Paint::Rgb(120, 90, 20),
        diff_search_highlight_fg: fg,
        diff_search_cursor_bg: yellow,
        diff_search_cursor_fg: bg,
        diff_grid_bg: Paint::Rgb(50, 48, 45),
        diff_grid_fg: yellow,
        syntax_comment: gray,
        syntax_keyword: red,
        syntax_string: green,
        syntax_number: purple,
        syntax_function: aqua,
        syntax_function_macro: orange,
        syntax_type: yellow,
        syntax_variable_builtin: orange,
        syntax_variable_member: blue,
        syntax_module: aqua,
        syntax_operator: fg,
        syntax_tag: aqua,
        syntax_attribute: yellow,
        syntax_label: orange,
        syntax_punctuation: fg4,
        syntax_default: fg,
        graph_colors: [yellow, green, aqua, purple, blue, red, orange, Paint::Rgb(184, 187, 38)],
        rebase_pick: green,
        rebase_reword: blue,
        rebase_edit: yellow,
        rebase_squash: orange,
        rebase_fixup: purple,
        rebase_drop: red,
        rebase_paused_bg: Paint::Rgb(55, 50, 20),
        change_added: green,
        change_deleted: red,
        change_renamed: yellow,
        change_copied: aqua,
        change_unmerged: red,
        ref_head: yellow,
        ref_remote: red,
        ref_local: green,
        ref_tag: aqua,
        tag_name: green,
        tag_hash: yellow,
        tag_message: fg4,
        stash_index: yellow,
        stash_message: fg4,
        reflog_hash: blue,
        reflog_message: fg4,
        remote_name: aqua,
        remote_url: fg4,
        remote_branch_name: aqua,
        remote_branch_detail: gray,
    }
}

/// The Gruvbox Dark theme.
pub fn gruvbox() -> (t: Theme)
    ensures
        t == gruvbox_spec(),
{
    let fg = Paint::Rgb(235, 219, 178);
    let bg = Paint::Rgb(40, 40, 40);
    let red = Paint::Rgb(251, 73, 52);
    let green = Paint::Rgb(184, 187, 38);
    let yellow = Paint::Rgb(250, 189, 47);
    let blue = Paint::Rgb(131, 165, 152);
    let purple = Paint::Rgb(211, 134, 155);
    let aqua = Paint::Rgb(142, 192, 124);
    let orange = Paint::Rgb(254, 128, 25);
    let gray = Paint::Rgb(146, 131, 116);
    let bg1 = Paint::Rgb(60, 56, 54);
    let bg2 = Paint::Rgb(80, 73, 69);
    let bg3 = Paint::Rgb(102, 92, 84);
    let fg4 = Paint::Rgb(168, 153, 132);
    Theme {
        active_border: Brush { fg: Some(yellow), bg: None, bold: true },
        inactive_border: Brush { fg: Some(bg3), bg: None, bold: false },
        selected_line: Brush { fg: None, bg: Some(bg1), bold: false },
        options_text: Brush { fg: Some(blue), bg: None, bold: false },
        title: Brush { fg: Some(fg), bg: None, bold: true },
        diff_add: Brush { fg: Some(green), bg: None, bold: false },
        diff_remove: Brush { fg: Some(red), bg: None, bold: false },
        diff_context: Brush { fg: Some(gray), bg: None, bold: false },
        diff_add_bg: Paint::Rgb(30, 50, 15),
        diff_remove_bg: Paint::Rgb(55, 20, 15),
        diff_add_word: Paint::Rgb(50, 90, 25),
        diff_remove_word: Paint::Rgb(100, 30, 20),
        commit_hash: Brush { fg: Some(yellow), bg: None, bold: false },
        commit_author: Brush { fg: Some(aqua), bg: None, bold: false },
        commit_date: Brush { fg: Some(blue), bg: None, bold: false },
        commit_hash_pushed: gray,
        commit_hash_merged: bg3,
        branch_local: Brush { fg: Some(green), bg: None, bold: false },
        branch_remote: Brush { fg: Some(red), bg: None, bold: false },
        branch_head: Brush { fg: Some(yellow), bg: None, bold: true },
        file_staged: Brush { fg: Some(green), bg: None, bold: false },
        file_unstaged: Brush { fg: Some(orange), bg: None, bold: false },
        file_untracked: Brush { fg: Some(aqua), bg: None, bold: false },
        file_conflicted: Brush { fg: Some(red), bg: None, bold: true },
        search_match: Brush { fg: Some(bg), bg: Some(yellow), bold: false },
        status_bar: Brush { fg: Some(gray), bg: None, bold: false },
        spinner: Brush { fg: Some(yellow), bg: None, bold: false },
        accent: yellow,
        accent_secondary: orange,
        text_dimmed: gray,
        text: fg4,
        text_strong: fg,
        separator: bg2,
        selected_bg: bg1,
        popup_border: yellow,
        cmd_log_border: bg2,
        cmd_log_title: fg4,
        cmd_log_hint: gray,
        cmd_log_text: bg3,
        cmd_log_timestamp: fg4,
        cmd_log_success: green,
        diff_gutter: gray,
        diff_line_number: bg3,
        diff_selection_fg: aqua,
        diff_selection_bg: Paint::Rgb(35, 40, 45),
        diff_search_highlight_bg: Paint::Rgb(120, 90, 20),
        diff_search_highlight_fg: fg,
        diff_search_cursor_bg: yellow,
        diff_search_cursor_fg: bg,
        diff_grid_bg: Paint::Rgb(50, 48, 45),
        diff_grid_fg: yellow,
        syntax_comment: gray,
        syntax_keyword: red,
        syntax_string: green,
        syntax_number: purple,
        syntax_function: aqua,
        syntax_function_macro: orange,
        syntax_type: yellow,
        syntax_variable_builtin: orange,
        syntax_variable_member: blue,
        syntax_module: aqua,
        syntax_operator: fg,
        syntax_tag: aqua,
        syntax_attribute: yellow,
        syntax_label: orange,
        syntax_punctuation: fg4,
        syntax_default: fg,
        graph_colors: [yellow, green, aqua, purple, blue, red, orange, Paint::Rgb(184, 187, 38)],
        rebase_pick: green,
        rebase_reword: blue,
        rebase_edit: yellow,
        rebase_squash: orange,
        rebase_fixup: purple,
        rebase_drop: red,
        rebase_paused_bg: Paint::Rgb(55, 50, 20),
        change_added: green,
        change_deleted: red,
        change_renamed: yellow,
        change_copied: aqua,
        change_unmerged: red,
        ref_head: yellow,
        ref_remote: red,
        ref_local: green,
        ref_tag: aqua,
        tag_name: green,
        tag_hash: yellow,
        tag_message: fg4,
        stash_index: yellow,
        stash_message: fg4,
        reflog_hash: blue,
        reflog_message: fg4,
        remote_name: aqua,
        remote_url: fg4,
        remote_branch_name: aqua,
        remote_branch_detail: gray,
    }
}

/// The Nord theme.
pub open spec fn nord_spec() -> Theme {
    let nord0 = Paint::Rgb(46, 52, 64);
    let nord1 = Paint::Rgb(59, 66, 82);
    let nord2 = Paint::Rgb(67, 76, 94);
    let nord3 = Paint::Rgb(76, 86, 106);
    let nord4 = Paint::Rgb(216, 222, 233);
    let nord5 = Paint::Rgb(229, 233, 240);
    let nord7 = Paint::Rgb(143, 188, 187);
    let nord8 = Paint::Rgb(136, 192, 208);
    let nord9 = Paint::Rgb(129, 161, 193);
    let nord10 = Paint::Rgb(94, 129, 172);
    let nord11 = Paint::Rgb(191, 97, 106);
    let nord12 = Paint::Rgb(208, 135, 112);
    let nord13 = Paint::Rgb(235, 203, 139);
    let nord14 = Paint::Rgb(163, 190, 140);
    let nord15 = Paint::Rgb(180, 142, 173);
    Theme {
        active_border: Brush { fg: Some(nord8), bg: None, bold: true },
        inactive_border: Brush { fg: Some(nord3), bg: None, bold: false },
        selected_line: Brush { fg: None, bg: Some(nord1), bold: false },
        options_text: Brush { fg: Some(nord9), bg: None, bold: false },
        title: Brush { fg: Some(nord4), bg: None, bold: true },
        diff_add: Brush { fg: Some(nord14), bg: None, bold: false },
        diff_remove: Brush { fg: Some(nord11), bg: None, bold: false },
        diff_context: Brush { fg: Some(nord3), bg: None, bold: false },
        diff_add_bg: Paint::Rgb(30, 50, 30),
        diff_remove_bg: Paint::Rgb(50, 30, 30),
        diff_add_word: Paint::Rgb(50, 100, 50),
        diff_remove_word: Paint::Rgb(100, 50, 50),
        commit_hash: Brush { fg: Some(nord13), bg: None, bold: false },
        commit_author: Brush { fg: Some(nord8), bg: None, bold: false },
        commit_date: Brush { fg: Some(nord9), bg: None, bold: false },
        commit_hash_pushed: nord3,
        commit_hash_merged: nord2,
        branch_local: Brush { fg: Some(nord14), bg: None, bold: false },
        branch_remote: Brush { fg: Some(nord11), bg: None, bold: false },
        branch_head: Brush { fg: Some(nord8), bg: None, bold: true },
        file_staged: Brush { fg: Some(nord14), bg: None, bold: false },
        file_unstaged: Brush { fg: Some(nord12), bg: None, bold: false },
        file_untracked: Brush { fg: Some(nord7), bg: None, bold: false },
        file_conflicted: Brush { fg: Some(nord11), bg: None, bold: true },
        search_match: Brush { fg: Some(nord0), bg: Some(nord13), bold: false },
        status_bar: Brush { fg: Some(nord3), bg: None, bold: false },
        spinner: Brush { fg: Some(nord8), bg: None, bold: false },
        accent: nord8,
        accent_secondary: nord13,
        text_dimmed: nord3,
        text: nord4,
        text_strong: nord5,
        separator: nord2,
        selected_bg: nord1,
        popup_border: nord8,
        cmd_log_border: nord2,
        cmd_log_title: nord4,
        cmd_log_hint: nord3,
        cmd_log_text: nord3,
        cmd_log_timestamp: nord4,
        cmd_log_success: nord14,
        diff_gutter: nord3,
        diff_line_number: nord2,
        diff_selection_fg: nord8,
        diff_selection_bg: Paint::Rgb(30, 40, 55),
        diff_search_highlight_bg: Paint::Rgb(100, 85, 30),
        diff_search_highlight_fg: nord4,
        diff_search_cursor_bg: nord13,
        diff_search_cursor_fg: nord0,
        diff_grid_bg: Paint::Rgb(50, 55, 65),
        diff_grid_fg: nord13,
        syntax_comment: nord3,
        syntax_keyword: nord9,
        syntax_string: nord14,
        syntax_number: nord15,
        syntax_function: nord8,
        syntax_function_macro: nord7,
        syntax_type: nord7,
        syntax_variable_builtin: nord9,
        syntax_variable_member: nord4,
        syntax_module: nord7,
        syntax_operator: nord9,
        syntax_tag: nord7,
        syntax_attribute: nord8,
        syntax_label: nord12,
        syntax_punctuation: nord4,
        syntax_default: nord4,
        graph_colors: [nord8, nord14, nord13, nord15, nord9, nord11, nord7, nord12],
        rebase_pick: nord14,
        rebase_reword: nord8,
        rebase_edit: nord13,
        rebase_squash: nord12,
        rebase_fixup: nord15,
        rebase_drop: nord11,
        rebase_paused_bg: Paint::Rgb(50, 45, 25),
        change_added: nord14,
        change_deleted: nord11,
        change_renamed: nord13,
        change_copied: nord7,
        change_unmerged: nord11,
        ref_head: nord8,
        ref_remote: nord11,
        ref_local: nord14,
        ref_tag: nord7,
        tag_name: nord14,
        tag_hash: nord13,
        tag_message: nord4,
        stash_index: nord13,
        stash_message: nord4,
        reflog_hash: nord10,
        reflog_message: nord4,
        remote_name: nord7,
        remote_url: nord4,
        remote_branch_name: nord7,
        remote_branch_detail: nord3,
    }
}

/// The Nord theme.
pub fn nord() -> (t: Theme)
    ensures
        t == nord_spec(),
{
    let nord0 = Paint::Rgb(46, 52, 64);
    let nord1 = Paint::Rgb(59, 66, 82);
    let nord2 = Paint::Rgb(67, 76, 94);
    let nord3 = Paint::Rgb(76, 86, 106);
    let nord4 = Paint::Rgb(216, 222, 233);
    let nord5 = Paint::Rgb(229, 233, 240);
    let nord7 = Paint::Rgb(143, 188, 187);
    let nord8 = Paint::Rgb(136, 192, 208);
    let nord9 = Paint::Rgb(129, 161, 193);
    let nord10 = Paint::Rgb(94, 129, 172);
    let nord11 = Paint::Rgb(191, 97, 106);
    let nord12 = Paint::Rgb(208, 135, 112);
    let nord13 = Paint::Rgb(235, 203, 139);
    let nord14 = Paint::Rgb(163, 190, 140);
    let nord15 = Paint::Rgb(180, 142, 173);
    Theme {
        active_border: Brush { fg: Some(nord8), bg: None, bold: true },
        inactive_border: Brush { fg: Some(nord3), bg: None, bold: false },
        selected_line: Brush { fg: None, bg: Some(nord1), bold: false },
        options_text: Brush { fg: Some(nord9), bg: None, bold: false },
        title: Brush { fg: Some(nord4), bg: None, bold: true },
        diff_add: Brush { fg: Some(nord14), bg: None, bold: false },
        diff_remove: Brush { fg: Some(nord11), bg: None, bold: false },
        diff_context: Brush { fg: Some(nord3), bg: None, bold: false },
        diff_add_bg: Paint::Rgb(30, 50, 30),
        diff_remove_bg: Paint::Rgb(50, 30, 30),
        diff_add_word: Paint::Rgb(50, 100, 50),
        diff_remove_word: Paint::Rgb(100, 50, 50),
        commit_hash: Brush { fg: Some(nord13), bg: None, bold: false },
        commit_author: Brush { fg: Some(nord8), bg: None, bold: false },
        commit_date: Brush { fg: Some(nord9), bg: None, bold: false },
        commit_hash_pushed: nord3,
        commit_hash_merged: nord2,
        branch_local: Brush { fg: Some(nord14), bg: None, bold: false },
        branch_remote: Brush { fg: Some(nord11), bg: None, bold: false },
        branch_head: Brush { fg: Some(nord8), bg: None, bold: true },
        file_staged: Brush { fg: Some(nord14), bg: None, bold: false },
        file_unstaged: Brush { fg: Some(nord12), bg: None, bold: false },
        file_untracked: Brush { fg: Some(nord7), bg: None, bold: false },
        file_conflicted: Brush { fg: Some(nord11), bg: None, bold: true },
        search_match: Brush { fg: Some(nord0), bg: Some(nord13), bold: false },
        status_bar: Brush { fg: Some(nord3), bg: None, bold: false },
        spinner: Brush { fg: Some(nord8), bg: None, bold: false },
        accent: nord8,
        accent_secondary: nord13,
        text_dimmed: nord3,
        text: nord4,
        text_strong: nord5,
        separator: nord2,
        selected_bg: nord1,
        popup_border: nord8,
        cmd_log_border: nord2,
        cmd_log_title: nord4,
        cmd_log_hint: nord3,
        cmd_log_text: nord3,
        cmd_log_timestamp: nord4,
        cmd_log_success: nord14,
        diff_gutter: nord3,
        diff_line_number: nord2,
        diff_selection_fg: nord8,
        diff_selection_bg: Paint::Rgb(30, 40, 55),
        diff_search_highlight_bg: Paint::Rgb(100, 85, 30),
        diff_search_highlight_fg: nord4,
        diff_search_cursor_bg: nord13,
        diff_search_cursor_fg: nord0,
        diff_grid_bg: Paint::Rgb(50, 55, 65),
        diff_grid_fg: nord13,
        syntax_comment: nord3,
        syntax_keyword: nord9,
        syntax_string: nord14,
        syntax_number: nord15,
        syntax_function: nord8,
        syntax_function_macro: nord7,
        syntax_type: nord7,
        syntax_variable_builtin: nord9,
        syntax_variable_member: nord4,
        syntax_module: nord7,
        syntax_operator: nord9,
        syntax_tag: nord7,
        syntax_attribute: nord8,
        syntax_label: nord12,
        syntax_punctuation: nord4,
        syntax_default: nord4,
        graph_colors: [nord8, nord14, nord13, nord15, nord9, nord11, nord7, nord12],
        rebase_pick: nord14,
        rebase_reword: nord8,
        rebase_edit: nord13,
        rebase_squash: nord12,
        rebase_fixup: nord15,
        rebase_drop: nord11,
        rebase_paused_bg: Paint::Rgb(50, 45, 25),
        change_added: nord14,
        change_deleted: nord11,
        change_renamed: nord13,
        change_copied: nord7,
        change_unmerged: nord11,
        ref_head: nord8,
        ref_remote: nord11,
        ref_local: nord14,
        ref_tag: nord7,
        tag_name: nord14,
        tag_hash: nord13,
        tag_message: nord4,
        stash_index: nord13,
        stash_message: nord4,
        reflog_hash: nord10,
        reflog_message: nord4,
        remote_name: nord7,
        remote_url: nord4,
        remote_branch_name: nord7,
        remote_branch_detail: nord3,
    }
}

/// The Solarized Dark theme.
pub open spec fn solarized_dark_spec() -> Theme {
    let base03 = Paint::Rgb(0, 43, 54);
    let base01 = Paint::Rgb(88, 110, 117);
    let base00 = Paint::Rgb(101, 123, 131);
    let base0 = Paint::Rgb(131, 148, 150);
    let base1 = Paint::Rgb(147, 161, 161);
    let yellow = Paint::Rgb(181, 137, 0);
    let orange = Paint::Rgb(203, 75, 22);
    let red = Paint::Rgb(220, 50, 47);
    let magenta = Paint::Rgb(211, 54, 130);
    let violet = Paint::Rgb(108, 113, 196);
    let blue = Paint::Rgb(38, 139, 210);
    let cyan = Paint::Rgb(42, 161, 152);
    let green = Paint::Rgb(133, 153, 0);
    Theme {
        active_border: Brush { fg: Some(blue), bg: None, bold: true },
        inactive_border: Brush { fg: Some(base01), bg: None, bold: false },
        selected_line: Brush { fg: None, bg: Some(Paint::Rgb(7, 54, 66)), bold: false },
        options_text: Brush { fg: Some(cyan), bg: None, bold: false },
        title: Brush { fg: Some(base1), bg: None, bold: true },
        diff_add: Brush { fg: Some(green), bg: None, bold: false },
        diff_remove: Brush { fg: Some(red), bg: None, bold: false },
        diff_context: Brush { fg: Some(base01), bg: None, bold: false },
        diff_add_bg: Paint::Rgb(15, 50, 15),
        diff_remove_bg: Paint::Rgb(50, 15, 15),
        diff_add_word: Paint::Rgb(40, 90, 15),
        diff_remove_word: Paint::Rgb(100, 25, 20),
        commit_hash: Brush { fg: Some(yellow), bg: None, bold: false },
        commit_author: Brush { fg: Some(blue), bg: None, bold: false },
        commit_date: Brush { fg: Some(cyan), bg: None, bold: false },
        commit_hash_pushed: base01,
        commit_hash_merged: Paint::Rgb(60, 72, 77),
        branch_local: Brush { fg: Some(green), bg: None, bold: false },
        branch_remote: Brush { fg: Some(red), bg: None, bold: false },
        branch_head: Brush { fg: Some(blue), bg: None, bold: true },
        file_staged: Brush { fg: Some(green), bg: None, bold: false },
        file_unstaged: Brush { fg: Some(orange), bg: None, bold: false },
        file_untracked: Brush { fg: Some(cyan), bg: None, bold: false },
        file_conflicted: Brush { fg: Some(red), bg: None, bold: true },
        search_match: Brush { fg: Some(base03), bg: Some(yellow), bold: false },
        status_bar: Brush { fg: Some(base01), bg: None, bold: false },
        spinner: Brush { fg: Some(blue), bg: None, bold: false },
        accent: blue,
        accent_secondary: yellow,
        text_dimmed: base01,
        text: base0,
        text_strong: base1,
        separator: base01,
        selected_bg: Paint::Rgb(7, 54, 66),
        popup_border: blue,
        cmd_log_border: base01,
        cmd_log_title: base0,
        cmd_log_hint: base01,
        cmd_log_text: base00,
        cmd_log_timestamp: base0,
        cmd_log_success: green,
        diff_gutter: base01,
        diff_line_number: Paint::Rgb(7, 54, 66),
        diff_selection_fg: cyan,
        diff_selection_bg: Paint::Rgb(10, 50, 55),
        diff_search_highlight_bg: Paint::Rgb(90, 75, 15),
        diff_search_highlight_fg: base1,
        diff_search_cursor_bg: yellow,
        diff_search_cursor_fg: base03,
        diff_grid_bg: Paint::Rgb(10, 50, 60),
        diff_grid_fg: yellow,
        syntax_comment: base01,
        syntax_keyword: green,
        syntax_string: cyan,
        syntax_number: magenta,
        syntax_function: blue,
        syntax_function_macro: orange,
        syntax_type: yellow,
        syntax_variable_builtin: orange,
        syntax_variable_member: base0,
        syntax_module: violet,
        syntax_operator: green,
        syntax_tag: blue,
        syntax_attribute: magenta,
        syntax_label: orange,
        syntax_punctuation: base0,
        syntax_default: base0,
        graph_colors: [blue, green, yellow, magenta, cyan, red, violet, orange],
        rebase_pick: green,
        rebase_reword: blue,
        rebase_edit: yellow,
        rebase_squash: orange,
        rebase_fixup: violet,
        rebase_drop: red,
        rebase_paused_bg: Paint::Rgb(40, 45, 15),
        change_added: green,
        change_deleted: red,
        change_renamed: yellow,
        change_copied: cyan,
        change_unmerged: red,
        ref_head: blue,
        ref_remote: red,
        ref_local: green,
        ref_tag: cyan,
        tag_name: green,
        tag_hash: yellow,
        tag_message: base0,
        stash_index: yellow,
        stash_message: base0,
        reflog_hash: blue,
        reflog_message: base0,
        remote_name: cyan,
        remote_url: base0,
        remote_branch_name: cyan,
        remote_branch_detail: base01,
    }
}

/// The Solarized Dark theme.
pub fn solarized_dark() -> (t: Theme)
    ensures
        t == solarized_dark_spec(),
{
    let base03 = Paint::Rgb(0, 43, 54);
    let base01 = Paint::Rgb(88, 110, 117);
    let base00 = Paint::Rgb(101, 123, 131);
    let base0 = Paint::Rgb(131, 148, 150);
    let base1 = Paint::Rgb(147, 161, 161);
    let yellow = Paint::Rgb(181, 137, 0);
    let orange = Paint::Rgb(203, 75, 22);
    let red = Paint::Rgb(220, 50, 47);
    let magenta = Paint::Rgb(211, 54, 130);
    let violet = Paint::Rgb(108, 113, 196);
    let blue = Paint::Rgb(38, 139, 210);
    let cyan = Paint::Rgb(42, 161, 152);
    let green = Paint::Rgb(133, 153, 0);
    Theme {
        active_border: Brush { fg: Some(blue), bg: None, bold: true },
        inactive_border: Brush { fg: Some(base01), bg: None, bold: false },
        selected_line: Brush { fg: None, bg: Some(Paint::Rgb(7, 54, 66)), bold: false },
        options_text: Brush { fg: Some(cyan), bg: None, bold: false },
        title: Brush { fg: Some(base1), bg: None, bold: true },
        diff_add: Brush { fg: Some(green), bg: None, bold: false },
        diff_remove: Brush { fg: Some(red), bg: None, bold: false },
        diff_context: Brush { fg: Some(base01), bg: None, bold: false },
        diff_add_bg: Paint::Rgb(15, 50, 15),
        diff_remove_bg: Paint::Rgb(50, 15, 15),
        diff_add_word: Paint::Rgb(40, 90, 15),
        diff_remove_word: Paint::Rgb(100, 25, 20),
        commit_hash: Brush { fg: Some(yellow), bg: None, bold: false },
        commit_author: Brush { fg: Some(blue), bg: None, bold: false },
        commit_date: Brush { fg: Some(cyan), bg: None, bold: false },
        commit_hash_pushed: base01,
        commit_hash_merged: Paint::Rgb(60, 72, 77),
        branch_local: Brush { fg: Some(green), bg: None, bold: false },
        branch_remote: Brush { fg: Some(red), bg: None, bold: false },
        branch_head: Brush { fg: Some(blue), bg: None, bold: true },
        file_staged: Brush { fg: Some(green), bg: None, bold: false },
        file_unstaged: Brush { fg: Some(orange), bg: None, bold: false },
        file_untracked: Brush { fg: Some(cyan), bg: None, bold: false },
        file_conflicted: Brush { fg: Some(red), bg: None, bold: true },
        search_match: Brush { fg: Some(base03), bg: Some(yellow), bold: false },
        status_bar: Brush { fg: Some(base01), bg: None, bold: false },
        spinner: Brush { fg: Some(blue), bg: None, bold: false },
        accent: blue,
        accent_secondary: yellow,
        text_dimmed: base01,
        text: base0,
        text_strong: base1,
        separator: base01,
        selected_bg: Paint::Rgb(7, 54, 66),
        popup_border: blue,
        cmd_log_border: base01,
        cmd_log_title: base0,
        cmd_log_hint: base01,
        cmd_log_text: base00,
        cmd_log_timestamp: base0,
        cmd_log_success: green,
        diff_gutter: base01,
        diff_line_number: Paint::Rgb(7, 54, 66),
        diff_selection_fg: cyan,
        diff_selection_bg: Paint::Rgb(10, 50, 55),
        diff_search_highlight_bg: Paint::Rgb(90, 75, 15),
        diff_search_highlight_fg: base1,
        diff_search_cursor_bg: yellow,
        diff_search_cursor_fg: base03,
        diff_grid_bg: Paint::Rgb(10, 50, 60),
        diff_grid_fg: yellow,
        syntax_comment: base01,
        syntax_keyword: green,
        syntax_string: cyan,
        syntax_number: magenta,
        syntax_function: blue,
        syntax_function_macro: orange,
        syntax_type: yellow,
        syntax_variable_builtin: orange,
        syntax_variable_member: base0,
        syntax_module: violet,
        syntax_operator: green,
        syntax_tag: blue,
        syntax_attribute: magenta,
        syntax_label: orange,
        syntax_punctuation: base0,
        syntax_default: base0,
        graph_colors: [blue, green, yellow, magenta, cyan, red, violet, orange],
        rebase_pick: green,
        rebase_reword: blue,
        rebase_edit: yellow,
        rebase_squash: orange,
        rebase_fixup: violet,
        rebase_drop: red,
        rebase_paused_bg: Paint::Rgb(40, 45, 15),
        change_added: green,
        change_deleted: red,
        change_renamed: yellow,
        change_copied: cyan,
        change_unmerged: red,
        ref_head: blue,
        ref_remote: red,
        ref_local: green,
        ref_tag: cyan,
        tag_name: green,
        tag_hash: yellow,
        tag_message: base0,
        stash_index: yellow,
        stash_message: base0,
        reflog_hash: blue,
        reflog_message: base0,
        remote_name: cyan,
        remote_url: base0,
        remote_branch_name: cyan,
        remote_branch_detail: base01,
    }
}

/// The One Dark theme.
pub open spec fn onedark_spec() -> Theme {
    let fg = Paint::Rgb(171, 178, 191);
    let bg = Paint::Rgb(40, 44, 52);
    let red = Paint::Rgb(224, 108, 117);
    let green = Paint::Rgb(152, 195, 121);
    let yellow = Paint::Rgb(229, 192, 123);
    let blue = Paint::Rgb(97, 175, 239);
    let magenta = Paint::Rgb(198, 120, 221);
    let cyan = Paint::Rgb(86, 182, 194);
    let gutter = Paint::Rgb(76, 82, 99);
    let comment = Paint::Rgb(92, 99, 112);
    let selection = Paint::Rgb(62, 68, 81);
    Theme {
        active_border: Brush { fg: Some(blue), bg: None, bold: true },
        inactive_border: Brush { fg: Some(gutter), bg: None, bold: false },
        selected_line: Brush { fg: None, bg: Some(selection), bold: false },
        options_text: Brush { fg: Some(cyan), bg: None, bold: false },
        title: Brush { fg: Some(fg), bg: None, bold: true },
        diff_add: Brush { fg: Some(green), bg: None, bold: false },
        diff_remove: Brush { fg: Some(red), bg: None, bold: false },
        diff_context: Brush { fg: Some(comment), bg: None, bold: false },
        diff_add_bg: Paint::Rgb(25, 50, 25),
        diff_remove_bg: Paint::Rgb(55, 25, 28),
        diff_add_word: Paint::Rgb(45, 100, 45),
        diff_remove_word: Paint::Rgb(110, 40, 45),
        commit_hash: Brush { fg: Some(yellow), bg: None, bold: false },
        commit_author: Brush { fg: Some(blue), bg: None, bold: false },
        commit_date: Brush { fg: Some(cyan), bg: None, bold: false },
        commit_hash_pushed: comment,
        commit_hash_merged: gutter,
        branch_local: Brush { fg: Some(green), bg: None, bold: false },
        branch_remote: Brush { fg: Some(red), bg: None, bold: false },
        branch_head: Brush { fg: Some(blue), bg: None, bold: true },
        file_staged: Brush { fg: Some(green), bg: None, bold: false },
        file_unstaged: Brush { fg: Some(yellow), bg: None, bold: false },
        file_untracked: Brush { fg: Some(cyan), bg: None, bold: false },
        file_conflicted: Brush { fg: Some(red), bg: None, bold: true },
        search_match: Brush { fg: Some(bg), bg: Some(yellow), bold: false },
        status_bar: Brush { fg: Some(comment), bg: None, bold: false },
        spinner: Brush { fg: Some(blue), bg: None, bold: false },
        accent: blue,
        accent_secondary: yellow,
        text_dimmed: comment,
        text: Paint::Rgb(140, 148, 160),
        text_strong: fg,
        separator: gutter,
        selected_bg: selection,
        popup_border: blue,
        cmd_log_border: gutter,
        cmd_log_title: Paint::Rgb(140, 148, 160),
        cmd_log_hint: comment,
        cmd_log_text: comment,
        cmd_log_timestamp: Paint::Rgb(140, 148, 160),
        cmd_log_success: green,
        diff_gutter: comment,
        diff_line_number: gutter,
        diff_selection_fg: cyan,
        diff_selection_bg: Paint::Rgb(30, 40, 50),
        diff_search_highlight_bg: Paint::Rgb(110, 90, 25),
        diff_search_highlight_fg: fg,
        diff_search_cursor_bg: yellow,
        diff_search_cursor_fg: bg,
        diff_grid_bg: Paint::Rgb(48, 52, 62),
        diff_grid_fg: yellow,
        syntax_comment: comment,
        syntax_keyword: magenta,
        syntax_string: green,
        syntax_number: yellow,
        syntax_function: blue,
        syntax_function_macro: cyan,
        syntax_type: yellow,
        syntax_variable_builtin: red,
        syntax_variable_member: red,
        syntax_module: yellow,
        syntax_operator: magenta,
        syntax_tag: red,
        syntax_attribute: yellow,
        syntax_label: cyan,
        syntax_punctuation: fg,
        syntax_default: fg,
        graph_colors: [blue, green, yellow, magenta, cyan, red, Paint::Rgb(152, 195, 121), Paint::Rgb(229, 192, 123)],
        rebase_pick: green,
        rebase_reword: blue,
        rebase_edit: yellow,
        rebase_squash: Paint::Rgb(209, 154, 102),
        rebase_fixup: magenta,
        rebase_drop: red,
        rebase_paused_bg: Paint::Rgb(50, 45, 25),
        change_added: green,
        change_deleted: red,
        change_renamed: yellow,
        change_copied: cyan,
        change_unmerged: red,
        ref_head: blue,
        ref_remote: red,
        ref_local: green,
        ref_tag: cyan,
        tag_name: green,
        tag_hash: yellow,
        tag_message: Paint::Rgb(140, 148, 160),
        stash_index: yellow,
        stash_message: Paint::Rgb(140, 148, 160),
        reflog_hash: blue,
        reflog_message: Paint::Rgb(140, 148, 160),
        remote_name: cyan,
        remote_url: Paint::Rgb(140, 148, 160),
        remote_branch_name: cyan,
        remote_branch_detail: comment,
    }
}

/// The One Dark theme.
pub fn onedark() -> (t: Theme)
    ensures
        t == onedark_spec(),
{
    let fg = Paint::Rgb(171, 178, 191);
    let bg = Paint::Rgb(40, 44, 52);
    let red = Paint::Rgb(224, 108, 117);
    let green = Paint::Rgb(152, 195, 121);
    let yellow = Paint::Rgb(229, 192, 123);
    let blue = Paint::Rgb(97, 175, 239);
    let magenta = Paint::Rgb(198, 120, 221);
    let cyan = Paint::Rgb(86, 182, 194);
    let gutter = Paint::Rgb(76, 82, 99);
    let comment = Paint::Rgb(92, 99, 112);
    let selection = Paint::Rgb(62, 68, 81);
    Theme {
        active_border: Brush { fg: Some(blue), bg: None, bold: true },
        inactive_border: Brush { fg: Some(gutter), bg: None, bold: false },
        selected_line: Brush { fg: None, bg: Some(selection), bold: false },
        options_text: Brush { fg: Some(cyan), bg: None, bold: false },
        title: Brush { fg: Some(fg), bg: None, bold: true },
        diff_add: Brush { fg: Some(green), bg: None, bold: false },
        diff_remove: Brush { fg: Some(red), bg: None, bold: false },
        diff_context: Brush { fg: Some(comment), bg: None, bold: false },
        diff_add_bg: Paint::Rgb(25, 50, 25),
        diff_remove_bg: Paint::Rgb(55, 25, 28),
        diff_add_word: Paint::Rgb(45, 100, 45),
        diff_remove_word: Paint::Rgb(110, 40, 45),
        commit_hash: Brush { fg: Some(yellow), bg: None, bold: false },
        commit_author: Brush { fg: Some(blue), bg: None, bold: false },
        commit_date: Brush { fg: Some(cyan), bg: None, bold: false },
        commit_hash_pushed: comment,
        commit_hash_merged: gutter,
        branch_local: Brush { fg: Some(green), bg: None, bold: false },
        branch_remote: Brush { fg: Some(red), bg: None, bold: false },
        branch_head: Brush { fg: Some(blue), bg: None, bold: true },
        file_staged: Brush { fg: Some(green), bg: None, bold: false },
        file_unstaged: Brush { fg: Some(yellow), bg: None, bold: false },
        file_untracked: Brush { fg: Some(cyan), bg: None, bold: false },
        file_conflicted: Brush { fg: Some(red), bg: None, bold: true },
        search_match: Brush { fg: Some(bg), bg: Some(yellow), bold: false },
        status_bar: Brush { fg: Some(comment), bg: None, bold: false },
        spinner: Brush { fg: Some(blue), bg: None, bold: false },
        accent: blue,
        accent_secondary: yellow,
        text_dimmed: comment,
        text: Paint::Rgb(140, 148, 160),
        text_strong: fg,
        separator: gutter,
        selected_bg: selection,
        popup_border: blue,
        cmd_log_border: gutter,
        cmd_log_title: Paint::Rgb(140, 148, 160),
        cmd_log_hint: comment,
        cmd_log_text: comment,
        cmd_log_timestamp: Paint::Rgb(140, 148, 160),
        cmd_log_success: green,
        diff_gutter: comment,
        diff_line_number: gutter,
        diff_selection_fg: cyan,
        diff_selection_bg: Paint::Rgb(30, 40, 50),
        diff_search_highlight_bg: Paint::Rgb(110, 90, 25),
        diff_search_highlight_fg: fg,
        diff_search_cursor_bg: yellow,
        diff_search_cursor_fg: bg,
        diff_grid_bg: Paint::Rgb(48, 52, 62),
        diff_grid_fg: yellow,
        syntax_comment: comment,
        syntax_keyword: magenta,
        syntax_string: green,
        syntax_number: yellow,
        syntax_function: blue,
        syntax_function_macro: cyan,
        syntax_type: yellow,
        syntax_variable_builtin: red,
        syntax_variable_member: red,
        syntax_module: yellow,
        syntax_operator: magenta,
        syntax_tag: red,
        syntax_attribute: yellow,
        syntax_label: cyan,
        syntax_punctuation: fg,
        syntax_default: fg,
        graph_colors: [blue, green, yellow, magenta, cyan, red, Paint::Rgb(152, 195, 121), Paint::Rgb(229, 192, 123)],
        rebase_pick: green,
        rebase_reword: blue,
        rebase_edit: yellow,
        rebase_squash: Paint::Rgb(209, 154, 102),
        rebase_fixup: magenta,
        rebase_drop: red,
        rebase_paused_bg: Paint::Rgb(50, 45, 25),
        change_added: green,
        change_deleted: red,
        change_renamed: yellow,
        change_copied: cyan,
        change_unmerged: red,
        ref_head: blue,
        ref_remote: red,
        ref_local: green,
        ref_tag: cyan,
        tag_name: green,
        tag_hash: yellow,
        tag_message: Paint::Rgb(140, 148, 160),
        stash_index: yellow,
        stash_message: Paint::Rgb(140, 148, 160),
        reflog_hash: blue,
        reflog_message: Paint::Rgb(140, 148, 160),
        remote_name: cyan,
        remote_url: Paint::Rgb(140, 148, 160),
        remote_branch_name: cyan,
        remote_branch_detail: comment,
    }
}

/// The Rosé Pine theme.
pub open spec fn rosepine_spec() -> Theme {
    let base = Paint::Rgb(25, 23, 36);
    let surface = Paint::Rgb(31, 29, 46);
    let overlay = Paint::Rgb(38, 35, 58);
    let muted = Paint::Rgb(110, 106, 134);
    let subtle = Paint::Rgb(144, 140, 170);
    let text = Paint::Rgb(224, 222, 244);
    let love = Paint::Rgb(235, 111, 146);
    let gold = Paint::Rgb(246, 193, 119);
    let rose = Paint::Rgb(234, 154, 151);
    let pine = Paint::Rgb(49, 116, 143);
    let foam = Paint::Rgb(156, 207, 216);
    let iris = Paint::Rgb(196, 167, 231);
    Theme {
        active_border: Brush { fg: Some(iris), bg: None, bold: true },
        inactive_border: Brush { fg: Some(muted), bg: None, bold: false },
        selected_line: Brush { fg: None, bg: Some(overlay), bold: false },
        options_text: Brush { fg: Some(foam), bg: None, bold: false },
        title: Brush { fg: Some(text), bg: None, bold: true },
        diff_add: Brush { fg: Some(foam), bg: None, bold: false },
        diff_remove: Brush { fg: Some(love), bg: None, bold: false },
        diff_context: Brush { fg: Some(muted), bg: None, bold: false },
        diff_add_bg: Paint::Rgb(20, 45, 40),
        diff_remove_bg: Paint::Rgb(50, 25, 30),
        diff_add_word: Paint::Rgb(40, 90, 80),
        diff_remove_word: Paint::Rgb(110, 40, 50),
        commit_hash: Brush { fg: Some(gold), bg: None, bold: false },
        commit_author: Brush { fg: Some(iris), bg: None, bold: false },
        commit_date: Brush { fg: Some(foam), bg: None, bold: false },
        commit_hash_pushed: muted,
        commit_hash_merged: overlay,
        branch_local: Brush { fg: Some(foam), bg: None, bold: false },
        branch_remote: Brush { fg: Some(love), bg: None, bold: false },
        branch_head: Brush { fg: Some(iris), bg: None, bold: true },
        file_staged: Brush { fg: Some(foam), bg: None, bold: false },
        file_unstaged: Brush { fg: Some(gold), bg: None, bold: false },
        file_untracked: Brush { fg: Some(rose), bg: None, bold: false },
        file_conflicted: Brush { fg: Some(love), bg: None, bold: true },
        search_match: Brush { fg: Some(base), bg: Some(gold), bold: false },
        status_bar: Brush { fg: Some(muted), bg: None, bold: false },
        spinner: Brush { fg: Some(iris), bg: None, bold: false },
        accent: iris,
        accent_secondary: gold,
        text_dimmed: muted,
        text: subtle,
        text_strong: text,
        separator: overlay,
        selected_bg: overlay,
        popup_border: iris,
        cmd_log_border: overlay,
        cmd_log_title: subtle,
        cmd_log_hint: muted,
        cmd_log_text: muted,
        cmd_log_timestamp: subtle,
        cmd_log_success: foam,
        diff_gutter: muted,
        diff_line_number: overlay,
        diff_selection_fg: foam,
        diff_selection_bg: Paint::Rgb(25, 35, 45),
        diff_search_highlight_bg: Paint::Rgb(110, 85, 25),
        diff_search_highlight_fg: text,
        diff_search_cursor_bg: gold,
        diff_search_cursor_fg: base,
        diff_grid_bg: surface,
        diff_grid_fg: gold,
        syntax_comment: muted,
        syntax_keyword: pine,
        syntax_string: gold,
        syntax_number: iris,
        syntax_function: rose,
        syntax_function_macro: foam,
        syntax_type: foam,
        syntax_variable_builtin: love,
        syntax_variable_member: text,
        syntax_module: iris,
        syntax_operator: subtle,
        syntax_tag: foam,
        syntax_attribute: iris,
        syntax_label: gold,
        syntax_punctuation: subtle,
        syntax_default: text,
        graph_colors: [iris, foam, gold, love, pine, rose, Paint::Rgb(156, 207, 216), Paint::Rgb(196, 167, 231)],
        rebase_pick: foam,
        rebase_reword: iris,
        rebase_edit: gold,
        rebase_squash: rose,
        rebase_fixup: pine,
        rebase_drop: love,
        rebase_paused_bg: Paint::Rgb(45, 40, 20),
        change_added: foam,
        change_deleted: love,
        change_renamed: gold,
        change_copied: iris,
        change_unmerged: love,
        ref_head: iris,
        ref_remote: love,
        ref_local: foam,
        ref_tag: pine,
        tag_name: foam,
        tag_hash: gold,
        tag_message: subtle,
        stash_index: gold,
        stash_message: subtle,
        reflog_hash: iris,
        reflog_message: subtle,
        remote_name: foam,
        remote_url: subtle,
        remote_branch_name: foam,
        remote_branch_detail: muted,
    }
}

/// The Rosé Pine theme.
pub fn rosepine() -> (t: Theme)
    ensures
        t == rosepine_spec(),
{
    let base = Paint::Rgb(25, 23, 36);
    let surface = Paint::Rgb(31, 29, 46);
    let overlay = Paint::Rgb(38, 35, 58);
    let muted = Paint::Rgb(110, 106, 134);
    let subtle = Paint::Rgb(144, 140, 170);
    let text = Paint::Rgb(224, 222, 244);
    let love = Paint::Rgb(235, 111, 146);
    let gold = Paint::Rgb(246, 193, 119);
    let rose = Paint::Rgb(234, 154, 151);
    let pine = Paint::Rgb(49, 116, 143);
    let foam = Paint::Rgb(156, 207, 216);
    let iris = Paint::Rgb(196, 167, 231);
    Theme {
        active_border: Brush { fg: Some(iris), bg: None, bold: true },
        inactive_border: Brush { fg: Some(muted), bg: None, bold: false },
        selected_line: Brush { fg: None, bg: Some(overlay), bold: false },
        options_text: Brush { fg: Some(foam), bg: None, bold: false },
        title: Brush { fg: Some(text), bg: None, bold: true },
        diff_add: Brush { fg: Some(foam), bg: None, bold: false },
        diff_remove: Brush { fg: Some(love), bg: None, bold: false },
        diff_context: Brush { fg: Some(muted), bg: None, bold: false },
        diff_add_bg: Paint::Rgb(20, 45, 40),
        diff_remove_bg: Paint::Rgb(50, 25, 30),
        diff_add_word: Paint::Rgb(40, 90, 80),
        diff_remove_word: Paint::Rgb(110, 40, 50),
        commit_hash: Brush { fg: Some(gold), bg: None, bold: false },
        commit_author: Brush { fg: Some(iris), bg: None, bold: false },
        commit_date: Brush { fg: Some(foam), bg: None, bold: false },
        commit_hash_pushed: muted,
        commit_hash_merged: overlay,
        branch_local: Brush { fg: Some(foam), bg: None, bold: false },
        branch_remote: Brush { fg: Some(love), bg: None, bold: false },
        branch_head: Brush { fg: Some(iris), bg: None, bold: true },
        file_staged: Brush { fg: Some(foam), bg: None, bold: false },
        file_unstaged: Brush { fg: Some(gold), bg: None, bold: false },
        file_untracked: Brush { fg: Some(rose), bg: None, bold: false },
        file_conflicted: Brush { fg: Some(love), bg: None, bold: true },
        search_match: Brush { fg: Some(base), bg: Some(gold), bold: false },
        status_bar: Brush { fg: Some(muted), bg: None, bold: false },
        spinner: Brush { fg: Some(iris), bg: None, bold: false },
        accent: iris,
        accent_secondary: gold,
        text_dimmed: muted,
        text: subtle,
        text_strong: text,
        separator: overlay,
        selected_bg: overlay,
        popup_border: iris,
        cmd_log_border: overlay,
        cmd_log_title: subtle,
        cmd_log_hint: muted,
        cmd_log_text: muted,
        cmd_log_timestamp: subtle,
        cmd_log_success: foam,
        diff_gutter: muted,
        diff_line_number: overlay,
        diff_selection_fg: foam,
        diff_selection_bg: Paint::Rgb(25, 35, 45),
        diff_search_highlight_bg: Paint::Rgb(110, 85, 25),
        diff_search_highlight_fg: text,
        diff_search_cursor_bg: gold,
        diff_search_cursor_fg: base,
        diff_grid_bg: surface,
        diff_grid_fg: gold,
        syntax_comment: muted,
        syntax_keyword: pine,
        syntax_string: gold,
        syntax_number: iris,
        syntax_function: rose,
        syntax_function_macro: foam,
        syntax_type: foam,
        syntax_variable_builtin: love,
        syntax_variable_member: text,
        syntax_module: iris,
        syntax_operator: subtle,
        syntax_tag: foam,
        syntax_attribute: iris,
        syntax_label: gold,
        syntax_punctuation: subtle,
        syntax_default: text,
        graph_colors: [iris, foam, gold, love, pine, rose, Paint::Rgb(156, 207, 216), Paint::Rgb(196, 167, 231)],
        rebase_pick: foam,
        rebase_reword: iris,
        rebase_edit: gold,
        rebase_squash: rose,
        rebase_fixup: pine,
        rebase_drop: love,
        rebase_paused_bg: Paint::Rgb(45, 40, 20),
        change_added: foam,
        change_deleted: love,
        change_renamed: gold,
        change_copied: iris,
        change_unmerged: love,
        ref_head: iris,
        ref_remote: love,
        ref_local: foam,
        ref_tag: pine,
        tag_name: foam,
        tag_hash: gold,
        tag_message: subtle,
        stash_index: gold,
        stash_message: subtle,
        reflog_hash: iris,
        reflog_message: subtle,
        remote_name: foam,
        remote_url: subtle,
        remote_branch_name: foam,
        remote_branch_detail: muted,
    }
}

/// The Kanagawa theme.
pub open spec fn kanagawa_spec() -> Theme {
    let fg = Paint::Rgb(220, 215, 186);
    let bg = Paint::Rgb(31, 31, 40);
    let red = Paint::Rgb(195, 64, 67);
    let green = Paint::Rgb(118, 148, 106);
    let yellow = Paint::Rgb(192, 163, 110);
    let blue = Paint::Rgb(126, 156, 216);
    let magenta = Paint::Rgb(149, 127, 184);
    let cyan = Paint::Rgb(106, 149, 137);
    let orange = Paint::Rgb(255, 160, 102);
    let comment = Paint::Rgb(114, 113, 105);
    let selection = Paint::Rgb(54, 54, 70);
    let line_nr = Paint::Rgb(84, 84, 109);
    let spring_green = Paint::Rgb(152, 187, 108);
    Theme {
        active_border: Brush { fg: Some(blue), bg: None, bold: true },
        inactive_border: Brush { fg: Some(line_nr), bg: None, bold: false },
        selected_line: Brush { fg: None, bg: Some(selection), bold: false },
        options_text: Brush { fg: Some(cyan), bg: None, bold: false },
        title: Brush { fg: Some(fg), bg: None, bold: true },
        diff_add: Brush { fg: Some(spring_green), bg: None, bold: false },
        diff_remove: Brush { fg: Some(red), bg: None, bold: false },
        diff_context: Brush { fg: Some(comment), bg: None, bold: false },
        diff_add_bg: Paint::Rgb(25, 45, 25),
        diff_remove_bg: Paint::Rgb(50, 22, 22),
        diff_add_word: Paint::Rgb(50, 90, 45),
        diff_remove_word: Paint::Rgb(100, 30, 30),
        commit_hash: Brush { fg: Some(yellow), bg: None, bold: false },
        commit_author: Brush { fg: Some(blue), bg: None, bold: false },
        commit_date: Brush { fg: Some(cyan), bg: None, bold: false },
        commit_hash_pushed: comment,
        commit_hash_merged: line_nr,
        branch_local: Brush { fg: Some(green), bg: None, bold: false },
        branch_remote: Brush { fg: Some(red), bg: None, bold: false },
        branch_head: Brush { fg: Some(blue), bg: None, bold: true },
        file_staged: Brush { fg: Some(spring_green), bg: None, bold: false },
        file_unstaged: Brush { fg: Some(orange), bg: None, bold: false },
        file_untracked: Brush { fg: Some(cyan), bg: None, bold: false },
        file_conflicted: Brush { fg: Some(red), bg: None, bold: true },
        search_match: Brush { fg: Some(bg), bg: Some(yellow), bold: false },
        status_bar: Brush { fg: Some(comment), bg: None, bold: false },
        spinner: Brush { fg: Some(blue), bg: None, bold: false },
        accent: blue,
        accent_secondary: yellow,
        text_dimmed: comment,
        text: Paint::Rgb(168, 165, 150),
        text_strong: fg,
        separator: line_nr,
        selected_bg: selection,
        popup_border: blue,
        cmd_log_border: line_nr,
        cmd_log_title: Paint::Rgb(168, 165, 150),
        cmd_log_hint: comment,
        cmd_log_text: comment,
        cmd_log_timestamp: Paint::Rgb(168, 165, 150),
        cmd_log_success: spring_green,
        diff_gutter: comment,
        diff_line_number: line_nr,
        diff_selection_fg: cyan,
        diff_selection_bg: Paint::Rgb(30, 38, 48),
        diff_search_highlight_bg: Paint::Rgb(100, 85, 25),
        diff_search_highlight_fg: fg,
        diff_search_cursor_bg: yellow,
        diff_search_cursor_fg: bg,
        diff_grid_bg: Paint::Rgb(40, 40, 52),
        diff_grid_fg: yellow,
        syntax_comment: comment,
        syntax_keyword: magenta,
        syntax_string: green,
        syntax_number: orange,
        syntax_function: blue,
        syntax_function_macro: cyan,
        syntax_type: yellow,
        syntax_variable_builtin: red,
        syntax_variable_member: fg,
        syntax_module: cyan,
        syntax_operator: red,
        syntax_tag: magenta,
        syntax_attribute: yellow,
        syntax_label: orange,
        syntax_punctuation: Paint::Rgb(168, 165, 150),
        syntax_default: fg,
        graph_colors: [blue, spring_green, yellow, magenta, cyan, red, orange, green],
        rebase_pick: spring_green,
        rebase_reword: blue,
        rebase_edit: yellow,
        rebase_squash: orange,
        rebase_fixup: magenta,
        rebase_drop: red,
        rebase_paused_bg: Paint::Rgb(50, 42, 18),
        change_added: spring_green,
        change_deleted: red,
        change_renamed: yellow,
        change_copied: cyan,
        change_unmerged: red,
        ref_head: blue,
        ref_remote: red,
        ref_local: green,
        ref_tag: cyan,
        tag_name: green,
        tag_hash: yellow,
        tag_message: Paint::Rgb(168, 165, 150),
        stash_index: yellow,
        stash_message: Paint::Rgb(168, 165, 150),
        reflog_hash: blue,
        reflog_message: Paint::Rgb(168, 165, 150),
        remote_name: cyan,
        remote_url: Paint::Rgb(168, 165, 150),
        remote_branch_name: cyan,
        remote_branch_detail: comment,
    }
}

/// The Kanagawa theme.
pub fn kanagawa() -> (t: Theme)
    ensures
        t == kanagawa_spec(),
{
    let fg = Paint::Rgb(220, 215, 186);
    let bg = Paint::Rgb(31, 31, 40);
    let red = Paint::Rgb(195, 64, 67);
    let green = Paint::Rgb(118, 148, 106);
    let yellow = Paint::Rgb(192, 163, 110);
    let blue = Paint::Rgb(126, 156, 216);
    let magenta = Paint::Rgb(149, 127, 184);
    let cyan = Paint::Rgb(106, 149, 137);
    let orange = Paint::Rgb(255, 160, 102);
    let comment = Paint::Rgb(114, 113, 105);
    let selection = Paint::Rgb(54, 54, 70);
    let line_nr = Paint::Rgb(84, 84, 109);
    let spring_green = Paint::Rgb(152, 187, 108);
    Theme {
        active_border: Brush { fg: Some(blue), bg: None, bold: true },
        inactive_border: Brush { fg: Some(line_nr), bg: None, bold: false },
        selected_line: Brush { fg: None, bg: Some(selection), bold: false },
        options_text: Brush { fg: Some(cyan), bg: None, bold: false },
        title: Brush { fg: Some(fg), bg: None, bold: true },
        diff_add: Brush { fg: Some(spring_green), bg: None, bold: false },
        diff_remove: Brush { fg: Some(red), bg: None, bold: false },
        diff_context: Brush { fg: Some(comment), bg: None, bold: false },
        diff_add_bg: Paint::Rgb(25, 45, 25),
        diff_remove_bg: Paint::Rgb(50, 22, 22),
        diff_add_word: Paint::Rgb(50, 90, 45),
        diff_remove_word: Paint::Rgb(100, 30, 30),
        commit_hash: Brush { fg: Some(yellow), bg: None, bold: false },
        commit_author: Brush { fg: Some(blue), bg: None, bold: false },
        commit_date: Brush { fg: Some(cyan), bg: None, bold: false },
        commit_hash_pushed: comment,
        commit_hash_merged: line_nr,
        branch_local: Brush { fg: Some(green), bg: None, bold: false },
        branch_remote: Brush { fg: Some(red), bg: None, bold: false },
        branch_head: Brush { fg: Some(blue), bg: None, bold: true },
        file_staged: Brush { fg: Some(spring_green), bg: None, bold: false },
        file_unstaged: Brush { fg: Some(orange), bg: None, bold: false },
        file_untracked: Brush { fg: Some(cyan), bg: None, bold: false },
        file_conflicted: Brush { fg: Some(red), bg: None, bold: true },
        search_match: Brush { fg: Some(bg), bg: Some(yellow), bold: false },
        status_bar: Brush { fg: Some(comment), bg: None, bold: false },
        spinner: Brush { fg: Some(blue), bg: None, bold: false },
        accent: blue,
        accent_secondary: yellow,
        text_dimmed: comment,
        text: Paint::Rgb(168, 165, 150),
        text_strong: fg,
        separator: line_nr,
        selected_bg: selection,
        popup_border: blue,
        cmd_log_border: line_nr,
        cmd_log_title: Paint::Rgb(168, 165, 150),
        cmd_log_hint: comment,
        cmd_log_text: comment,
        cmd_log_timestamp: Paint::Rgb(168, 165, 150),
        cmd_log_success: spring_green,
        diff_gutter: comment,
        diff_line_number: line_nr,
        diff_selection_fg: cyan,
        diff_selection_bg: Paint::Rgb(30, 38, 48),
        diff_search_highlight_bg: Paint::Rgb(100, 85, 25),
        diff_search_highlight_fg: fg,
        diff_search_cursor_bg: yellow,
        diff_search_cursor_fg: bg,
        diff_grid_bg: Paint::Rgb(40, 40, 52),
        diff_grid_fg: yellow,
        syntax_comment: comment,
        syntax_keyword: magenta,
        syntax_string: green,
        syntax_number: orange,
        syntax_function: blue,
        syntax_function_macro: cyan,
        syntax_type: yellow,
        syntax_variable_builtin: red,
        syntax_variable_member: fg,
        syntax_module: cyan,
        syntax_operator: red,
        syntax_tag: magenta,
        syntax_attribute: yellow,
        syntax_label: orange,
        syntax_punctuation: Paint::Rgb(168, 165, 150),
        syntax_default: fg,
        graph_colors: [blue, spring_green, yellow, magenta, cyan, red, orange, green],
        rebase_pick: spring_green,
        rebase_reword: blue,
        rebase_edit: yellow,
        rebase_squash: orange,
        rebase_fixup: magenta,
        rebase_drop: red,
        rebase_paused_bg: Paint::Rgb(50, 42, 18),
        change_added: spring_green,
        change_deleted: red,
        change_renamed: yellow,
        change_copied: cyan,
        change_unmerged: red,
        ref_head: blue,
        ref_remote: red,
        ref_local: green,
        ref_tag: cyan,
        tag_name: green,
        tag_hash: yellow,
        tag_message: Paint::Rgb(168, 165, 150),
        stash_index: yellow,
        stash_message: Paint::Rgb(168, 165, 150),
        reflog_hash: blue,
        reflog_message: Paint::Rgb(168, 165, 150),
        remote_name: cyan,
        remote_url: Paint::Rgb(168, 165, 150),
        remote_branch_name: cyan,
        remote_branch_detail: comment,
    }
}

/// The Everforest theme.
pub open spec fn everforest_spec() -> Theme {
    let fg = Paint::Rgb(211, 198, 170);
    let bg = Paint::Rgb(47, 53, 57);
    let red = Paint::Rgb(230, 126, 128);
    let green = Paint::Rgb(167, 192, 128);
    let yellow = Paint::Rgb(219, 188, 127);
    let blue = Paint::Rgb(127, 187, 179);
    let purple = Paint::Rgb(214, 153, 182);
    let aqua = Paint::Rgb(131, 192, 146);
    let orange = Paint::Rgb(230, 152, 117);
    let grey0 = Paint::Rgb(122, 130, 120);
    let grey1 = Paint::Rgb(134, 142, 132);
    let bg1 = Paint::Rgb(55, 62, 67);
    let bg3 = Paint::Rgb(68, 75, 80);
    Theme {
        active_border: Brush { fg: Some(green), bg: None, bold: true },
        inactive_border: Brush { fg: Some(bg3), bg: None, bold: false },
        selected_line: Brush { fg: None, bg: Some(bg1), bold: false },
        options_text: Brush { fg: Some(blue), bg: None, bold: false },
        title: Brush { fg: Some(fg), bg: None, bold: true },
        diff_add: Brush { fg: Some(green), bg: None, bold: false },
        diff_remove: Brush { fg: Some(red), bg: None, bold: false },
        diff_context: Brush { fg: Some(grey0), bg: None, bold: false },
        diff_add_bg: Paint::Rgb(30, 48, 28),
        diff_remove_bg: Paint::Rgb(55, 28, 28),
        diff_add_word: Paint::Rgb(50, 95, 45),
        diff_remove_word: Paint::Rgb(110, 45, 45),
        commit_hash: Brush { fg: Some(yellow), bg: None, bold: false },
        commit_author: Brush { fg: Some(blue), bg: None, bold: false },
        commit_date: Brush { fg: Some(aqua), bg: None, bold: false },
        commit_hash_pushed: grey0,
        commit_hash_merged: bg3,
        branch_local: Brush { fg: Some(green), bg: None, bold: false },
        branch_remote: Brush { fg: Some(red), bg: None, bold: false },
        branch_head: Brush { fg: Some(green), bg: None, bold: true },
        file_staged: Brush { fg: Some(green), bg: None, bold: false },
        file_unstaged: Brush { fg: Some(orange), bg: None, bold: false },
        file_untracked: Brush { fg: Some(blue), bg: None, bold: false },
        file_conflicted: Brush { fg: Some(red), bg: None, bold: true },
        search_match: Brush { fg: Some(bg), bg: Some(yellow), bold: false },
        status_bar: Brush { fg: Some(grey0), bg: None, bold: false },
        spinner: Brush { fg: Some(green), bg: None, bold: false },
        accent: green,
        accent_secondary: yellow,
        text_dimmed: grey0,
        text: grey1,
        text_strong: fg,
        separator: bg3,
        selected_bg: bg1,
        popup_border: green,
        cmd_log_border: bg3,
        cmd_log_title: grey1,
        cmd_log_hint: grey0,
        cmd_log_text: grey0,
        cmd_log_timestamp: grey1,
        cmd_log_success: green,
        diff_gutter: grey0,
        diff_line_number: bg3,
        diff_selection_fg: blue,
        diff_selection_bg: Paint::Rgb(30, 40, 45),
        diff_search_highlight_bg: Paint::Rgb(105, 88, 25),
        diff_search_highlight_fg: fg,
        diff_search_cursor_bg: yellow,
        diff_search_cursor_fg: bg,
        diff_grid_bg: Paint::Rgb(52, 58, 62),
        diff_grid_fg: yellow,
        syntax_comment: grey0,
        syntax_keyword: red,
        syntax_string: green,
        syntax_number: purple,
        syntax_function: aqua,
        syntax_function_macro: orange,
        syntax_type: yellow,
        syntax_variable_builtin: orange,
        syntax_variable_member: blue,
        syntax_module: aqua,
        syntax_operator: orange,
        syntax_tag: aqua,
        syntax_attribute: yellow,
        syntax_label: orange,
        syntax_punctuation: grey1,
        syntax_default: fg,
        graph_colors: [green, aqua, yellow, purple, blue, red, orange, Paint::Rgb(131, 192, 146)],
        rebase_pick: green,
        rebase_reword: blue,
        rebase_edit: yellow,
        rebase_squash: orange,
        rebase_fixup: purple,
        rebase_drop: red,
        rebase_paused_bg: Paint::Rgb(50, 48, 22),
        change_added: green,
        change_deleted: red,
        change_renamed: yellow,
        change_copied: aqua,
        change_unmerged: red,
        ref_head: green,
        ref_remote: red,
        ref_local: green,
        ref_tag: blue,
        tag_name: green,
        tag_hash: yellow,
        tag_message: grey1,
        stash_index: yellow,
        stash_message: grey1,
        reflog_hash: blue,
        reflog_message: grey1,
        remote_name: aqua,
        remote_url: grey1,
        remote_branch_name: aqua,
        remote_branch_detail: grey0,
    }
}

/// The Everforest theme.
pub fn everforest() -> (t: Theme)
    ensures
        t == everforest_spec(),
{
    let fg = Paint::Rgb(211, 198, 170);
    let bg = Paint::Rgb(47, 53, 57);
    let red = Paint::Rgb(230, 126, 128);
    let green = Paint::Rgb(167, 192, 128);
    let yellow = Paint::Rgb(219, 188, 127);
    let blue = Paint::Rgb(127, 187, 179);
    let purple = Paint::Rgb(214, 153, 182);
    let aqua = Paint::Rgb(131, 192, 146);
    let orange = Paint::Rgb(230, 152, 117);
    let grey0 = Paint::Rgb(122, 130, 120);
    let grey1 = Paint::Rgb(134, 142, 132);
    let bg1 = Paint::Rgb(55, 62, 67);
    let bg3 = Paint::Rgb(68, 75, 80);
    Theme {
        active_border: Brush { fg: Some(green), bg: None, bold: true },
        inactive_border: Brush { fg: Some(bg3), bg: None, bold: false },
        selected_line: Brush { fg: None, bg: Some(bg1), bold: false },
        options_text: Brush { fg: Some(blue), bg: None, bold: false },
        title: Brush { fg: Some(fg), bg: None, bold: true },
        diff_add: Brush { fg: Some(green), bg: None, bold: false },
        diff_remove: Brush { fg: Some(red), bg: None, bold: false },
        diff_context: Brush { fg: Some(grey0), bg: None, bold: false },
        diff_add_bg: Paint::Rgb(30, 48, 28),
        diff_remove_bg: Paint::Rgb(55, 28, 28),
        diff_add_word: Paint::Rgb(50, 95, 45),
        diff_remove_word: Paint::Rgb(110, 45, 45),
        commit_hash: Brush { fg: Some(yellow), bg: None, bold: false },
        commit_author: Brush { fg: Some(blue), bg: None, bold: false },
        commit_date: Brush { fg: Some(aqua), bg: None, bold: false },
        commit_hash_pushed: grey0,
        commit_hash_merged: bg3,
        branch_local: Brush { fg: Some(green), bg: None, bold: false },
        branch_remote: Brush { fg: Some(red), bg: None, bold: false },
        branch_head: Brush { fg: Some(green), bg: None, bold: true },
        file_staged: Brush { fg: Some(green), bg: None, bold: false },
        file_unstaged: Brush { fg: Some(orange), bg: None, bold: false },
        file_untracked: Brush { fg: Some(blue), bg: None, bold: false },
        file_conflicted: Brush { fg: Some(red), bg: None, bold: true },
        search_match: Brush { fg: Some(bg), bg: Some(yellow), bold: false },
        status_bar: Brush { fg: Some(grey0), bg: None, bold: false },
        spinner: Brush { fg: Some(green), bg: None, bold: false },
        accent: green,
        accent_secondary: yellow,
        text_dimmed: grey0,
        text: grey1,
        text_strong: fg,
        separator: bg3,
        selected_bg: bg1,
        popup_border: green,
        cmd_log_border: bg3,
        cmd_log_title: grey1,
        cmd_log_hint: grey0,
        cmd_log_text: grey0,
        cmd_log_timestamp: grey1,
        cmd_log_success: green,
        diff_gutter: grey0,
        diff_line_number: bg3,
        diff_selection_fg: blue,
        diff_selection_bg: Paint::Rgb(30, 40, 45),
        diff_search_highlight_bg: Paint::Rgb(105, 88, 25),
        diff_search_highlight_fg: fg,
        diff_search_cursor_bg: yellow,
        diff_search_cursor_fg: bg,
        diff_grid_bg: Paint::Rgb(52, 58, 62),
        diff_grid_fg: yellow,
        syntax_comment: grey0,
        syntax_keyword: red,
        syntax_string: green,
        syntax_number: purple,
        syntax_function: aqua,
        syntax_function_macro: orange,
        syntax_type: yellow,
        syntax_variable_builtin: orange,
        syntax_variable_member: blue,
        syntax_module: aqua,
        syntax_operator: orange,
        syntax_tag: aqua,
        syntax_attribute: yellow,
        syntax_label: orange,
        syntax_punctuation: grey1,
        syntax_default: fg,
        graph_colors: [green, aqua, yellow, purple, blue, red, orange, Paint::Rgb(131, 192, 146)],
        rebase_pick: green,
        rebase_reword: blue,
        rebase_edit: yellow,
        rebase_squash: orange,
        rebase_fixup: purple,
        rebase_drop: red,
        rebase_paused_bg: Paint::Rgb(50, 48, 22),
        change_added: green,
        change_deleted: red,
        change_renamed: yellow,
        change_copied: aqua,
        change_unmerged: red,
        ref_head: green,
        ref_remote: red,
        ref_local: green,
        ref_tag: blue,
        tag_name: green,
        tag_hash: yellow,
        tag_message: grey1,
        stash_index: yellow,
        stash_message: grey1,
        reflog_hash: blue,
        reflog_message: grey1,
        remote_name: aqua,
        remote_url: grey1,
        remote_branch_name: aqua,
        remote_branch_detail: grey0,
    }
}

/// The Monokai Pro theme.
pub open spec fn monokai_spec() -> Theme {
    let fg = Paint::Rgb(248, 248, 242);
    let bg = Paint::Rgb(39, 40, 34);
    let red = Paint::Rgb(249, 38, 114);
    let green = Paint::Rgb(166, 226, 46);
    let yellow = Paint::Rgb(230, 219, 116);
    let blue = Paint::Rgb(102, 217, 239);
    let purple = Paint::Rgb(174, 129, 255);
    let orange = Paint::Rgb(253, 151, 31);
    let comment = Paint::Rgb(117, 113, 94);
    let selection = Paint::Rgb(73, 72, 62);
    let line_nr = Paint::Rgb(90, 90, 80);
    Theme {
        active_border: Brush { fg: Some(green), bg: None, bold: true },
        inactive_border: Brush { fg: Some(comment), bg: None, bold: false },
        selected_line: Brush { fg: None, bg: Some(selection), bold: false },
        options_text: Brush { fg: Some(blue), bg: None, bold: false },
        title: Brush { fg: Some(fg), bg: None, bold: true },
        diff_add: Brush { fg: Some(green), bg: None, bold: false },
        diff_remove: Brush { fg: Some(red), bg: None, bold: false },
        diff_context: Brush { fg: Some(comment), bg: None, bold: false },
        diff_add_bg: Paint::Rgb(30, 55, 15),
        diff_remove_bg: Paint::Rgb(55, 15, 30),
        diff_add_word: Paint::Rgb(55, 110, 20),
        diff_remove_word: Paint::Rgb(120, 15, 50),
        commit_hash: Brush { fg: Some(yellow), bg: None, bold: false },
        commit_author: Brush { fg: Some(blue), bg: None, bold: false },
        commit_date: Brush { fg: Some(purple), bg: None, bold: false },
        commit_hash_pushed: comment,
        commit_hash_merged: line_nr,
        branch_local: Brush { fg: Some(green), bg: None, bold: false },
        branch_remote: Brush { fg: Some(red), bg: None, bold: false },
        branch_head: Brush { fg: Some(green), bg: None, bold: true },
        file_staged: Brush { fg: Some(green), bg: None, bold: false },
        file_unstaged: Brush { fg: Some(orange), bg: None, bold: false },
        file_untracked: Brush { fg: Some(blue), bg: None, bold: false },
        file_conflicted: Brush { fg: Some(red), bg: None, bold: true },
        search_match: Brush { fg: Some(bg), bg: Some(yellow), bold: false },
        status_bar: Brush { fg: Some(comment), bg: None, bold: false },
        spinner: Brush { fg: Some(green), bg: None, bold: false },
        accent: green,
        accent_secondary: yellow,
        text_dimmed: comment,
        text: Paint::Rgb(180, 180, 170),
        text_strong: fg,
        separator: Paint::Rgb(73, 72, 62),
        selected_bg: selection,
        popup_border: green,
        cmd_log_border: Paint::Rgb(73, 72, 62),
        cmd_log_title: Paint::Rgb(180, 180, 170),
        cmd_log_hint: comment,
        cmd_log_text: comment,
        cmd_log_timestamp: Paint::Rgb(180, 180, 170),
        cmd_log_success: green,
        diff_gutter: comment,
        diff_line_number: line_nr,
        diff_selection_fg: blue,
        diff_selection_bg: Paint::Rgb(30, 40, 50),
        diff_search_highlight_bg: Paint::Rgb(110, 100, 25),
        diff_search_highlight_fg: fg,
        diff_search_cursor_bg: yellow,
        diff_search_cursor_fg: bg,
        diff_grid_bg: Paint::Rgb(48, 48, 40),
        diff_grid_fg: yellow,
        syntax_comment: comment,
        syntax_keyword: red,
        syntax_string: yellow,
        syntax_number: purple,
        syntax_function: green,
        syntax_function_macro: blue,
        syntax_type: blue,
        syntax_variable_builtin: orange,
        syntax_variable_member: fg,
        syntax_module: orange,
        syntax_operator: red,
        syntax_tag: red,
        syntax_attribute: green,
        syntax_label: orange,
        syntax_punctuation: fg,
        syntax_default: fg,
        graph_colors: [green, blue, yellow, purple, red, orange, Paint::Rgb(102, 217, 239), Paint::Rgb(166, 226, 46)],
        rebase_pick: green,
        rebase_reword: blue,
        rebase_edit: yellow,
        rebase_squash: orange,
        rebase_fixup: purple,
        rebase_drop: red,
        rebase_paused_bg: Paint::Rgb(55, 52, 18),
        change_added: green,
        change_deleted: red,
        change_renamed: yellow,
        change_copied: blue,
        change_unmerged: red,
        ref_head: green,
        ref_remote: red,
        ref_local: green,
        ref_tag: blue,
        tag_name: green,
        tag_hash: yellow,
        tag_message: Paint::Rgb(180, 180, 170),
        stash_index: yellow,
        stash_message: Paint::Rgb(180, 180, 170),
        reflog_hash: purple,
        reflog_message: Paint::Rgb(180, 180, 170),
        remote_name: blue,
        remote_url: Paint::Rgb(180, 180, 170),
        remote_branch_name: blue,
        remote_branch_detail: comment,
    }
}

/// The Monokai Pro theme.
pub fn monokai() -> (t: Theme)
    ensures
        t == monokai_spec(),
{
    let fg = Paint::Rgb(248, 248, 242);
    let bg = Paint::Rgb(39, 40, 34);
    let red = Paint::Rgb(249, 38, 114);
    let green = Paint::Rgb(166, 226, 46);
    let yellow = Paint::Rgb(230, 219, 116);
    let blue = Paint::Rgb(102, 217, 239);
    let purple = Paint::Rgb(174, 129, 255);
    let orange = Paint::Rgb(253, 151, 31);
    let comment = Paint::Rgb(117, 113, 94);
    let selection = Paint::Rgb(73, 72, 62);
    let line_nr = Paint::Rgb(90, 90, 80);
    Theme {
        active_border: Brush { fg: Some(green), bg: None, bold: true },
        inactive_border: Brush { fg: Some(comment), bg: None, bold: false },
        selected_line: Brush { fg: None, bg: Some(selection), bold: false },
        options_text: Brush { fg: Some(blue), bg: None, bold: false },
        title: Brush { fg: Some(fg), bg: None, bold: true },
        diff_add: Brush { fg: Some(green), bg: None, bold: false },
        diff_remove: Brush { fg: Some(red), bg: None, bold: false },
        diff_context: Brush { fg: Some(comment), bg: None, bold: false },
        diff_add_bg: Paint::Rgb(30, 55, 15),
        diff_remove_bg: Paint::Rgb(55, 15, 30),
        diff_add_word: Paint::Rgb(55, 110, 20),
        diff_remove_word: Paint::Rgb(120, 15, 50),
        commit_hash: Brush { fg: Some(yellow), bg: None, bold: false },
        commit_author: Brush { fg: Some(blue), bg: None, bold: false },
        commit_date: Brush { fg: Some(purple), bg: None, bold: false },
        commit_hash_pushed: comment,
        commit_hash_merged: line_nr,
        branch_local: Brush { fg: Some(green), bg: None, bold: false },
        branch_remote: Brush { fg: Some(red), bg: None, bold: false },
        branch_head: Brush { fg: Some(green), bg: None, bold: true },
        file_staged: Brush { fg: Some(green), bg: None, bold: false },
        file_unstaged: Brush { fg: Some(orange), bg: None, bold: false },
        file_untracked: Brush { fg: Some(blue), bg: None, bold: false },
        file_conflicted: Brush { fg: Some(red), bg: None, bold: true },
        search_match: Brush { fg: Some(bg), bg: Some(yellow), bold: false },
        status_bar: Brush { fg: Some(comment), bg: None, bold: false },
        spinner: Brush { fg: Some(green), bg: None, bold: false },
        accent: green,
        accent_secondary: yellow,
        text_dimmed: comment,
        text: Paint::Rgb(180, 180, 170),
        text_strong: fg,
        separator: Paint::Rgb(73, 72, 62),
        selected_bg: selection,
        popup_border: green,
        cmd_log_border: Paint::Rgb(73, 72, 62),
        cmd_log_title: Paint::Rgb(180, 180, 170),
        cmd_log_hint: comment,
        cmd_log_text: comment,
        cmd_log_timestamp: Paint::Rgb(180, 180, 170),
        cmd_log_success: green,
        diff_gutter: comment,
        diff_line_number: line_nr,
        diff_selection_fg: blue,
        diff_selection_bg: Paint::Rgb(30, 40, 50),
        diff_search_highlight_bg: Paint::Rgb(110, 100, 25),
        diff_search_highlight_fg: fg,
        diff_search_cursor_bg: yellow,
        diff_search_cursor_fg: bg,
        diff_grid_bg: Paint::Rgb(48, 48, 40),
        diff_grid_fg: yellow,
        syntax_comment: comment,
        syntax_keyword: red,
        syntax_string: yellow,
        syntax_number: purple,
        syntax_function: green,
        syntax_function_macro: blue,
        syntax_type: blue,
        syntax_variable_builtin: orange,
        syntax_variable_member: fg,
        syntax_module: orange,
        syntax_operator: red,
        syntax_tag: red,
        syntax_attribute: green,
        syntax_label: orange,
        syntax_punctuation: fg,
        syntax_default: fg,
        graph_colors: [green, blue, yellow, purple, red, orange, Paint::Rgb(102, 217, 239), Paint::Rgb(166, 226, 46)],
        rebase_pick: green,
        rebase_reword: blue,
        rebase_edit: yellow,
        rebase_squash: orange,
        rebase_fixup: purple,
        rebase_drop: red,
        rebase_paused_bg: Paint::Rgb(55, 52, 18),
        change_added: green,
        change_deleted: red,
        change_renamed: yellow,
        change_copied: blue,
        change_unmerged: red,
        ref_head: green,
        ref_remote: red,
        ref_local: green,
        ref_tag: blue,
        tag_name: green,
        tag_hash: yellow,
        tag_message: Paint::Rgb(180, 180, 170),
        stash_index: yellow,
        stash_message: Paint::Rgb(180, 180, 170),
        reflog_hash: purple,
        reflog_message: Paint::Rgb(180, 180, 170),
        remote_name: blue,
        remote_url: Paint::Rgb(180, 180, 170),
        remote_branch_name: blue,
        remote_branch_detail: comment,
    }
}

/// The theme of each built-in preset.
pub open spec fn theme_spec(kind: ThemeKind) -> Theme {
    match kind {
        ThemeKind::Dark => dark_spec(),
        ThemeKind::CatppuccinMocha => catppuccin_mocha_spec(),
        ThemeKind::CatppuccinMacchiato => catppuccin_macchiato_spec(),
        ThemeKind::Dracula => dracula_spec(),
        ThemeKind::TokyoNight => tokyonight_spec(),
        ThemeKind::Gruvbox => gruvbox_spec(),
        ThemeKind::Nord => nord_spec(),
        ThemeKind::SolarizedDark => solarized_dark_spec(),
        ThemeKind::OneDark => onedark_spec(),
        ThemeKind::RosePine => rosepine_spec(),
        ThemeKind::Kanagawa => kanagawa_spec(),
        ThemeKind::Everforest => everforest_spec(),
        ThemeKind::Monokai => monokai_spec(),
    }
}

/// The theme of a built-in preset.
pub fn theme_for(kind: ThemeKind) -> (t: Theme)
    ensures
        t == theme_spec(kind),
{
    match kind {
        ThemeKind::Dark => Theme::dark(),
        ThemeKind::CatppuccinMocha => catppuccin_mocha(),
        ThemeKind::CatppuccinMacchiato => catppuccin_macchiato(),
        ThemeKind::Dracula => dracula(),
        ThemeKind::TokyoNight => tokyonight(),
        ThemeKind::Gruvbox => gruvbox(),
        ThemeKind::Nord => nord(),
        ThemeKind::SolarizedDark => solarized_dark(),
        ThemeKind::OneDark => onedark(),
        ThemeKind::RosePine => rosepine(),
        ThemeKind::Kanagawa => kanagawa(),
        ThemeKind::Everforest => everforest(),
        ThemeKind::Monokai => monokai(),
    }
}

} // verus!
