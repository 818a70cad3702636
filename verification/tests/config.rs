use lazygitrs::config::palette::{Brush, Paint};
use lazygitrs::config::presets::{catppuccin_mocha, nord, theme_for};
use lazygitrs::pager::highlight::SyntaxColor;
use lazygitrs::config::theme::{
    color_themes, parse_color, parse_color_checked, parse_color_list, parse_lowered_color,
    theme_overrides, Color, ColorTheme, ThemeConfig, ThemeKind, ThemeOverrides,
};
use lazygitrs::config::{config_dir_for, join_path, syntax_dir, AppConfig};

#[test]
fn named_and_hex_colors() {
    assert_eq!(parse_color("Red"), Some(Color::Red));
    assert_eq!(parse_color("WHITE"), Some(Color::White));
    assert_eq!(parse_color("default"), None);
    assert_eq!(parse_color("#FF8000"), Some(Color::Rgb(255, 128, 0)));
    assert_eq!(parse_color("#0a0b0c"), Some(Color::Rgb(10, 11, 12)));
    assert_eq!(parse_color("#+f0000"), Some(Color::Rgb(15, 0, 0)));
    assert_eq!(parse_color("#12345"), None);
    assert_eq!(parse_color("#12345g"), None);
    assert_eq!(parse_color("orange"), None);
    assert_eq!(parse_lowered_color("blue"), Some(Color::Blue));
}

#[test]
fn unsliceable_hex_is_refused() {
    // `#`, `a`, then two two-byte characters and one more byte: the green
    // channel would start inside a character.
    assert_eq!(parse_color_checked("#aéé?"), None);
    assert_eq!(parse_color_checked("#ééé"), Some(None));
    assert_eq!(parse_color_checked("cyan"), Some(Some(Color::Cyan)));
}

#[test]
fn first_entry_of_a_list() {
    assert_eq!(parse_color_list(&vec![]), Some(None));
    assert_eq!(
        parse_color_list(&vec!["green".to_string(), "red".to_string()]),
        Some(Some(Color::Green))
    );
}

#[test]
fn overrides_from_config() {
    let config = ThemeConfig {
        active_border_color: vec!["green".to_string(), "bold".to_string()],
        inactive_border_color: vec![],
        selected_line_bg_color: vec!["#102030".to_string()],
        options_text_color: vec!["default".to_string()],
    };
    assert_eq!(
        theme_overrides(&config),
        Some(ThemeOverrides {
            active_border: Some(Color::Green),
            inactive_border: None,
            selected_line_bg: Some(Color::Rgb(16, 32, 48)),
            options_text: None,
        })
    );
}

#[test]
fn presets() {
    let themes = color_themes();
    assert_eq!(themes.len(), 13);
    assert_eq!(themes[0].name, "Default (Dark)");
    assert_eq!(themes[9].name, "Rosé Pine");
    assert_eq!(themes[3].to_theme(), ThemeKind::Dracula);
    assert_eq!(themes[0].to_theme(), ThemeKind::Dark);
    let unknown = ColorTheme { name: "x".to_string(), id: "nope".to_string() };
    assert_eq!(unknown.to_theme(), ThemeKind::Dark);
}

#[test]
fn config_dir_follows_xdg_then_home() {
    let some = |s: &str| Some(s.to_string());
    assert_eq!(config_dir_for(&some("/x/cfg"), &some("/home/u"), "lazygit"), "/x/cfg/lazygit");
    assert_eq!(config_dir_for(&some(""), &some("/home/u"), "lazygit"), "/home/u/.config/lazygit");
    assert_eq!(config_dir_for(&None, &some("/home/u/"), "lazygit"), "/home/u/.config/lazygit");
    assert_eq!(config_dir_for(&None, &None, "lazygit"), "./lazygit");
    let app = AppConfig::new(false, "0.1.0".to_string(), &None, &some("/home/u"));
    assert_eq!(app.state_path, "/home/u/.config/lazygit/state.yml");
    assert_eq!(syntax_dir(&some("/x/"), &None), "/x/lazygitrs/syntax");
    assert_eq!(join_path("", "a"), "a");
}

#[test]
fn dark_theme_colours() {
    let t = lazygitrs::config::palette::Theme::dark();
    assert_eq!(t.active_border, Brush { fg: Some(Paint::Green), bg: None, bold: true });
    assert_eq!(t.accent, Paint::Cyan);
    assert_eq!(t.diff_add_bg, Paint::Rgb(0, 60, 0));
    assert_eq!(t.graph_colors[7], Paint::LightGreen);
    assert_eq!(t.search_match, Brush { fg: Some(Paint::Black), bg: Some(Paint::Yellow), bold: false });
}

#[test]
fn presets_and_overrides() {
    let m = catppuccin_mocha();
    assert_eq!(m.accent, Paint::Rgb(203, 166, 247));
    assert_eq!(
        m.search_match,
        Brush { fg: Some(Paint::Rgb(30, 30, 46)), bg: Some(Paint::Rgb(249, 226, 175)), bold: false }
    );
    assert_eq!(theme_for(ThemeKind::Nord).accent, nord().accent);
    assert_eq!(theme_for(ThemeKind::Dark).accent, Paint::Cyan);
    assert_eq!(theme_for(ThemeKind::CatppuccinMocha).graph_colors, m.graph_colors);
    let o = ThemeOverrides {
        active_border: Some(Color::Red),
        inactive_border: None,
        selected_line_bg: Some(Color::Rgb(1, 2, 3)),
        options_text: None,
    };
    let t = lazygitrs::config::palette::Theme::from_overrides(&o);
    let d = lazygitrs::config::palette::Theme::dark();
    assert_eq!(t.active_border, Brush { fg: Some(Paint::Red), bg: None, bold: true });
    assert_eq!(t.selected_line, Brush { fg: None, bg: Some(Paint::Rgb(1, 2, 3)), bold: false });
    assert_eq!(t.inactive_border, d.inactive_border);
    assert_eq!(t.options_text, d.options_text);
    assert_eq!(t.syntax(SyntaxColor::Keyword), Paint::Rgb(255, 123, 114));
}
