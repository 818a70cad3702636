//! Colours named in the user's configuration, and the built-in colour
//! theme presets.

use vstd::prelude::*;
use crate::text::{byte_len, byte_len_is, char_boundary_of, is_char_boundary, str_is, to_chars};

verus! {

/// A colour a configuration entry can name.
#[derive(Debug, Clone, Copy, PartialEq, Eq, Structural)]
pub enum Color {
    Black,
    Red,
    Green,
    Yellow,
    Blue,
    Magenta,
    Cyan,
    White,
    Rgb(u8, u8, u8),
}

/// What `str::to_lowercase` gives for a string: the lowercase equivalent
/// under Unicode's `Lowercase` property.
pub uninterp spec fn lowercase(s: Seq<char>) -> Seq<char>;

/// Lowercases a string.
/// Trusted: `str::to_lowercase`, a function of its argument alone; its
/// result is named, not described.
#[verifier::external_body]
fn to_lowercase(s: &str) -> (r: String)
    ensures
        r@ == lowercase(s@),
{
    s.to_lowercase()
}

/// The value of a hexadecimal digit.
pub open spec fn hex_value(c: char) -> Option<int> {
    if '0' <= c && c <= '9' {
        Some((c as int) - 48)
    } else if 'a' <= c && c <= 'f' {
        Some((c as int) - 87)
    } else if 'A' <= c && c <= 'F' {
        Some((c as int) - 55)
    } else {
        None
    }
}

/// What `u8::from_str_radix(_, 16)` gives for two characters: an optional
/// `+` then digits.
pub open spec fn hex_pair(a: char, b: char) -> Option<u8> {
    if a == '+' {
        match hex_value(b) {
            Some(y) => Some(y as u8),
            None => None,
        }
    } else {
        match (hex_value(a), hex_value(b)) {
            (Some(x), Some(y)) => Some((16 * x + y) as u8),
            _ => None,
        }
    }
}

/// A `#` followed by what takes six bytes.
pub open spec fn hex_shaped(l: Seq<char>) -> bool {
    l.len() > 0 && l[0] == '#' && byte_len(l) == 7
}

/// The byte ranges of the three colour channels start and end between
/// characters (otherwise slicing them panics).
pub open spec fn channels_sliceable(l: Seq<char>) -> bool {
    hex_shaped(l) ==> is_char_boundary(l, 3) && is_char_boundary(l, 5)
}

/// The colour an already lowercased name gives: `default` gives none; the
/// eight names give their colour; `#rrggbb` gives that colour when each
/// channel parses; anything else gives none.
pub open spec fn lowered_color(l: Seq<char>) -> Option<Color> {
    if l == "default"@ {
        None
    } else if l == "black"@ {
        Some(Color::Black)
    } else if l == "red"@ {
        Some(Color::Red)
    } else if l == "green"@ {
        Some(Color::Green)
    } else if l == "yellow"@ {
        Some(Color::Yellow)
    } else if l == "blue"@ {
        Some(Color::Blue)
    } else if l == "magenta"@ {
        Some(Color::Magenta)
    } else if l == "cyan"@ {
        Some(Color::Cyan)
    } else if l == "white"@ {
        Some(Color::White)
    } else if hex_shaped(l) && l.len() == 7 {
        match (hex_pair(l[1], l[2]), hex_pair(l[3], l[4]), hex_pair(l[5], l[6])) {
            (Some(r), Some(g), Some(b)) => Some(Color::Rgb(r, g, b)),
            _ => None,
        }
    } else {
        None
    }
}

fn hex_value_of(c: char) -> (r: Option<u8>)
    ensures
        match hex_value(c) {
            Some(v) => r == Some(v as u8) && 0 <= v < 16,
            None => r is None,
        },
{
    if '0' <= c && c <= '9' {
        Some(((c as u32) - 48) as u8)
    } else if 'a' <= c && c <= 'f' {
        Some(((c as u32) - 87) as u8)
    } else if 'A' <= c && c <= 'F' {
        Some(((c as u32) - 55) as u8)
    } else {
        None
    }
}

fn hex_pair_of(a: char, b: char) -> (r: Option<u8>)
    ensures
        r == hex_pair(a, b),
{
    if a == '+' {
        return hex_value_of(b);
    }
    match (hex_value_of(a), hex_value_of(b)) {
        (Some(x), Some(y)) => Some(16 * x + y),
        _ => None,
    }
}

/// The colour an already lowercased name gives.
pub fn parse_lowered_color(l: &str) -> (r: Option<Color>)
    requires
        channels_sliceable(l@),
    ensures
        r == lowered_color(l@),
{
    if str_is(l, "default") {
        None
    } else if str_is(l, "black") {
        Some(Color::Black)
    } else if str_is(l, "red") {
        Some(Color::Red)
    } else if str_is(l, "green") {
        Some(Color::Green)
    } else if str_is(l, "yellow") {
        Some(Color::Yellow)
    } else if str_is(l, "blue") {
        Some(Color::Blue)
    } else if str_is(l, "magenta") {
        Some(Color::Magenta)
    } else if str_is(l, "cyan") {
        Some(Color::Cyan)
    } else if str_is(l, "white") {
        Some(Color::White)
    } else {
        let v = to_chars(l);
        if v.len() == 7 && v[0] == '#' && byte_len_is(&v, 7) {
            match (hex_pair_of(v[1], v[2]), hex_pair_of(v[3], v[4]), hex_pair_of(v[5], v[6])) {
                (Some(r), Some(g), Some(b)) => Some(Color::Rgb(r, g, b)),
                _ => None,
            }
        } else {
            None
        }
    }
}

/// Whether the channels of `l` can be sliced out.
fn channels_sliceable_of(l: &str) -> (r: bool)
    ensures
        r == channels_sliceable(l@),
{
    let v = to_chars(l);
    if v.len() > 0 && v[0] == '#' && byte_len_is(&v, 7) {
        char_boundary_of(&v, 3) && char_boundary_of(&v, 5)
    } else {
        true
    }
}

/// The colour a configuration entry names, in any letter case.
pub fn parse_color(s: &str) -> (r: Option<Color>)
    requires
        channels_sliceable(lowercase(s@)),
    ensures
        r == lowered_color(lowercase(s@)),
{
    let l = to_lowercase(s);
    parse_lowered_color(l.as_str())
}

/// The colour a configuration entry names, or `None` when the entry is
/// `#` and six bytes whose channels cannot be sliced out (where
/// [`parse_color`] is not defined).
pub fn parse_color_checked(s: &str) -> (r: Option<Option<Color>>)
    ensures
        match r {
            Some(c) => channels_sliceable(lowercase(s@)) && c == lowered_color(lowercase(s@)),
            None => !channels_sliceable(lowercase(s@)),
        },
{
    let l = to_lowercase(s);
    if channels_sliceable_of(l.as_str()) {
        Some(parse_color(s))
    } else {
        None
    }
}

/// The colour the first entry of a colour list names (none for an empty
/// list); `None` when that entry cannot be read.
pub open spec fn first_color(colors: Seq<String>) -> Option<Option<Color>> {
    if colors.len() == 0 {
        Some(None)
    } else if channels_sliceable(lowercase(colors[0]@)) {
        Some(lowered_color(lowercase(colors[0]@)))
    } else {
        None
    }
}

/// The colour the first entry of `colors` names.
pub fn parse_color_list(colors: &Vec<String>) -> (r: Option<Option<Color>>)
    ensures
        r == first_color(colors@),
{
    if colors.len() == 0 {
        Some(None)
    } else {
        parse_color_checked(colors[0].as_str())
    }
}

/// The colour entries of the theme section of the configuration.
pub struct ThemeConfig {
    pub active_border_color: Vec<String>,
    pub inactive_border_color: Vec<String>,
    pub selected_line_bg_color: Vec<String>,
    pub options_text_color: Vec<String>,
}

/// What the configuration changes in the default theme: the active border
/// (drawn bold), the inactive border, the selected line's background and
/// the options text. `None` keeps the default.
#[derive(Debug, Clone, Copy, PartialEq, Eq, Structural)]
pub struct ThemeOverrides {
    pub active_border: Option<Color>,
    pub inactive_border: Option<Color>,
    pub selected_line_bg: Option<Color>,
    pub options_text: Option<Color>,
}

/// The overrides a configuration gives, each from the first entry of its
/// list; `None` when one of those entries cannot be read.
pub fn theme_overrides(config: &ThemeConfig) -> (r: Option<ThemeOverrides>)
    ensures
        match (
            first_color(config.active_border_color@),
            first_color(config.inactive_border_color@),
            first_color(config.selected_line_bg_color@),
            first_color(config.options_text_color@),
        ) {
            (Some(a), Some(i), Some(s), Some(o)) => r == Some(
                ThemeOverrides {
                    active_border: a,
                    inactive_border: i,
                    selected_line_bg: s,
                    options_text: o,
                },
            ),
            _ => r is None,
        },
{
    let a = parse_color_list(&config.active_border_color);
    let i = parse_color_list(&config.inactive_border_color);
    let s = parse_color_list(&config.selected_line_bg_color);
    let o = parse_color_list(&config.options_text_color);
    match (a, i, s, o) {
        (Some(a), Some(i), Some(s), Some(o)) => Some(
            ThemeOverrides { active_border: a, inactive_border: i, selected_line_bg: s, options_text: o },
        ),
        _ => None,
    }
}

/// A built-in palette.
#[derive(Debug, Clone, Copy, PartialEq, Eq, Structural)]
pub enum ThemeKind {
    Dark,
    CatppuccinMocha,
    CatppuccinMacchiato,
    Dracula,
    TokyoNight,
    Gruvbox,
    Nord,
    SolarizedDark,
    OneDark,
    RosePine,
    Kanagawa,
    Everforest,
    Monokai,
}

/// A named colour theme preset.
#[derive(Debug, Clone)]
pub struct ColorTheme {
    pub name: String,
    pub id: String,
}

/// The palette a preset id selects; the default dark palette for any other
/// id.
pub open spec fn theme_kind_of(id: Seq<char>) -> ThemeKind {
    if id == "catppuccin-mocha"@ {
        ThemeKind::CatppuccinMocha
    } else if id == "catppuccin-macchiato"@ {
        ThemeKind::CatppuccinMacchiato
    } else if id == "dracula"@ {
        ThemeKind::Dracula
    } else if id == "tokyonight"@ {
        ThemeKind::TokyoNight
    } else if id == "gruvbox"@ {
        ThemeKind::Gruvbox
    } else if id == "nord"@ {
        ThemeKind::Nord
    } else if id == "solarized-dark"@ {
        ThemeKind::SolarizedDark
    } else if id == "onedark"@ {
        ThemeKind::OneDark
    } else if id == "rosepine"@ {
        ThemeKind::RosePine
    } else if id == "kanagawa"@ {
        ThemeKind::Kanagawa
    } else if id == "everforest"@ {
        ThemeKind::Everforest
    } else if id == "monokai"@ {
        ThemeKind::Monokai
    } else {
        ThemeKind::Dark
    }
}

impl ColorTheme {
    /// The palette this preset applies.
    pub fn to_theme(&self) -> (r: ThemeKind)
        ensures
            r == theme_kind_of(self.id@),
    {
        let id = self.id.as_str();
        if str_is(id, "catppuccin-mocha") {
            ThemeKind::CatppuccinMocha
        } else if str_is(id, "catppuccin-macchiato") {
            ThemeKind::CatppuccinMacchiato
        } else if str_is(id, "dracula") {
            ThemeKind::Dracula
        } else if str_is(id, "tokyonight") {
            ThemeKind::TokyoNight
        } else if str_is(id, "gruvbox") {
            ThemeKind::Gruvbox
        } else if str_is(id, "nord") {
            ThemeKind::Nord
        } else if str_is(id, "solarized-dark") {
            ThemeKind::SolarizedDark
        } else if str_is(id, "onedark") {
            ThemeKind::OneDark
        } else if str_is(id, "rosepine") {
            ThemeKind::RosePine
        } else if str_is(id, "kanagawa") {
            ThemeKind::Kanagawa
        } else if str_is(id, "everforest") {
            ThemeKind::Everforest
        } else if str_is(id, "monokai") {
            ThemeKind::Monokai
        } else {
            ThemeKind::Dark
        }
    }
}

/// The built-in presets: display name and id, in menu order.
pub open spec fn color_themes_spec() -> Seq<(Seq<char>, Seq<char>)> {
    seq![
        ("Default (Dark)"@, "default"@),
        ("Catppuccin Mocha"@, "catppuccin-mocha"@),
        ("Catppuccin Macchiato"@, "catppuccin-macchiato"@),
        ("Dracula"@, "dracula"@),
        ("Tokyo Night"@, "tokyonight"@),
        ("Gruvbox Dark"@, "gruvbox"@),
        ("Nord"@, "nord"@),
        ("Solarized Dark"@, "solarized-dark"@),
        ("One Dark"@, "onedark"@),
        ("Rosé Pine"@, "rosepine"@),
        ("Kanagawa"@, "kanagawa"@),
        ("Everforest"@, "everforest"@),
        ("Monokai Pro"@, "monokai"@),
    ]
}

pub open spec fn theme_views(v: Seq<ColorTheme>) -> Seq<(Seq<char>, Seq<char>)> {
    v.map_values(|t: ColorTheme| (t.name@, t.id@))
}

fn preset(name: &str, id: &str) -> (t: ColorTheme)
    ensures
        t.name@ == name@,
        t.id@ == id@,
{
    ColorTheme { name: String::from_str(name), id: String::from_str(id) }
}

/// All built-in colour themes.
pub fn color_themes() -> (r: Vec<ColorTheme>)
    ensures
        theme_views(r@) == color_themes_spec(),
{
    let mut r: Vec<ColorTheme> = Vec::new();
    r.push(preset("Default (Dark)", "default"));
    r.push(preset("Catppuccin Mocha", "catppuccin-mocha"));
    r.push(preset("Catppuccin Macchiato", "catppuccin-macchiato"));
    r.push(preset("Dracula", "dracula"));
    r.push(preset("Tokyo Night", "tokyonight"));
    r.push(preset("Gruvbox Dark", "gruvbox"));
    r.push(preset("Nord", "nord"));
    r.push(preset("Solarized Dark", "solarized-dark"));
    r.push(preset("One Dark", "onedark"));
    r.push(preset("Rosé Pine", "rosepine"));
    r.push(preset("Kanagawa", "kanagawa"));
    r.push(preset("Everforest", "everforest"));
    r.push(preset("Monokai Pro", "monokai"));
    assert(theme_views(r@) =~= color_themes_spec());
    r
}

} // verus!
