use lazygitrs::pager::dynamic::{entry_for, known_langs, LangOverride, ScanState};
use lazygitrs::pager::highlight::{
    first_line, highlight_color, highlight_names, segments_from_events, syntax_confirm_for,
    syntax_menu_rows, FileHighlighter, HlEvent, LineSegment, SyntaxColor, SyntaxConfirm, SyntaxRow,
    SYNTAX_RELOAD_VALUE,
};
use lazygitrs::pager::languages::{config_for_file, pretty_name, static_langs};
use tree_sitter_highlight::HighlightConfiguration;

fn compile(
    language: tree_sitter::Language,
    name: &str,
    highlights: &str,
    injections: &str,
    locals: &str,
) -> Option<HighlightConfiguration> {
    let names: Vec<String> = highlight_names();
    HighlightConfiguration::new(language, name, highlights, injections, locals)
        .map(|mut c| {
            c.configure(&names);
            c
        })
        .ok()
}

/// The built-in grammar of a static language id, compiled.
fn static_config(id: &str) -> Option<HighlightConfiguration> {
    match id {
        "typescript" | "tsx" => compile(
            if id == "tsx" {
                tree_sitter_typescript::LANGUAGE_TSX.into()
            } else {
                tree_sitter_typescript::LANGUAGE_TYPESCRIPT.into()
            },
            id,
            tree_sitter_typescript::HIGHLIGHTS_QUERY,
            "",
            tree_sitter_typescript::LOCALS_QUERY,
        ),
        "javascript" | "jsx" => compile(
            tree_sitter_javascript::LANGUAGE.into(),
            "javascript",
            tree_sitter_javascript::HIGHLIGHT_QUERY,
            tree_sitter_javascript::INJECTIONS_QUERY,
            tree_sitter_javascript::LOCALS_QUERY,
        ),
        "rust" => compile(
            tree_sitter_rust::LANGUAGE.into(),
            "rust",
            tree_sitter_rust::HIGHLIGHTS_QUERY,
            tree_sitter_rust::INJECTIONS_QUERY,
            "",
        ),
        "python" => compile(
            tree_sitter_python::LANGUAGE.into(),
            "python",
            tree_sitter_python::HIGHLIGHTS_QUERY,
            "",
            "",
        ),
        "go" => compile(
            tree_sitter_go::LANGUAGE.into(),
            "go",
            tree_sitter_go::HIGHLIGHTS_QUERY,
            "",
            "",
        ),
        "json" => compile(
            tree_sitter_json::LANGUAGE.into(),
            "json",
            tree_sitter_json::HIGHLIGHTS_QUERY,
            "",
            "",
        ),
        "bash" => compile(
            tree_sitter_bash::LANGUAGE.into(),
            "bash",
            tree_sitter_bash::HIGHLIGHT_QUERY,
            "",
            "",
        ),
        "css" => compile(
            tree_sitter_css::LANGUAGE.into(),
            "css",
            tree_sitter_css::HIGHLIGHTS_QUERY,
            "",
            "",
        ),
        "html" => compile(
            tree_sitter_html::LANGUAGE.into(),
            "html",
            tree_sitter_html::HIGHLIGHTS_QUERY,
            tree_sitter_html::INJECTIONS_QUERY,
            "",
        ),
        "toml" => compile(
            tree_sitter_toml_ng::LANGUAGE.into(),
            "toml",
            tree_sitter_toml_ng::HIGHLIGHTS_QUERY,
            "",
            "",
        ),
        "markdown" => compile(
            tree_sitter_md::LANGUAGE.into(),
            "markdown",
            tree_sitter_md::HIGHLIGHT_QUERY_BLOCK,
            tree_sitter_md::INJECTION_QUERY_BLOCK,
            "",
        ),
        "c" => compile(
            tree_sitter_c::LANGUAGE.into(),
            "c",
            tree_sitter_c::HIGHLIGHT_QUERY,
            "",
            "",
        ),
        "java" => compile(
            tree_sitter_java::LANGUAGE.into(),
            "java",
            tree_sitter_java::HIGHLIGHTS_QUERY,
            "",
            "",
        ),
        "dockerfile" => compile(
            arborium_dockerfile::language().into(),
            "dockerfile",
            arborium_dockerfile::HIGHLIGHTS_QUERY,
            arborium_dockerfile::INJECTIONS_QUERY,
            arborium_dockerfile::LOCALS_QUERY,
        ),
        "lua" => compile(
            tree_sitter_lua::LANGUAGE.into(),
            "lua",
            tree_sitter_lua::HIGHLIGHTS_QUERY,
            tree_sitter_lua::INJECTIONS_QUERY,
            tree_sitter_lua::LOCALS_QUERY,
        ),
        "yaml" => compile(
            tree_sitter_yaml::LANGUAGE.into(),
            "yaml",
            tree_sitter_yaml::HIGHLIGHTS_QUERY,
            "",
            "",
        ),
        _ => None,
    }
}

fn static_configs() -> Vec<Option<HighlightConfiguration>> {
    static_langs().iter().map(|e| static_config(&e.name)).collect()
}

/// Built-in grammar first, then (none loaded here) plain text.
fn highlighter(content: &str, filename: &str) -> FileHighlighter {
    let configs = static_configs();
    let ready: Vec<bool> = configs.iter().map(|c| c.is_some()).collect();
    let first = first_line(content);
    match config_for_file(filename, first.as_deref(), &ready) {
        Some(i) => FileHighlighter::with_config(content, configs[i].as_ref().unwrap()),
        None => FileHighlighter::plain(),
    }
}

fn all_ready() -> Vec<bool> {
    vec![true; static_langs().len()]
}

#[test]
fn all_static_configs_compile() {
    for e in static_langs() {
        assert!(static_config(&e.name).is_some(), "static grammar failed: {}", e.name);
    }
}

#[test]
fn rust_snippet_highlights() {
    let hl = highlighter("fn main() {\n    // hi\n    let x = \"s\";\n}\n", "main.rs");
    assert!(!hl.get_line_segments(1).is_empty());
    assert!(!hl.get_line_segments(2).is_empty());
}

#[test]
fn unknown_extension_is_plain() {
    let hl = highlighter("hello", "file.zzzunknown");
    assert!(hl.get_line_segments(1).is_empty());
}

#[test]
fn new_languages_highlight_end_to_end() {
    let cases = [
        ("main.c", "int main() {\n    return 0;\n}\n"),
        (
            "A.java",
            "class A {\n    public static void main(String[] a) {}\n}\n",
        ),
        ("Dockerfile", "FROM ubuntu:22.04\nRUN apt-get update\n"),
        ("Dockerfile.dev", "FROM ubuntu:22.04\n"),
        ("a.lua", "local x = 1 -- comment\n"),
        ("a.yml", "key: value\nlist:\n  - one\n"),
    ];
    for (file, content) in cases {
        let line1 = content.lines().next().unwrap_or("");
        let hl = highlighter(content, file);
        assert!(
            !hl.get_line_segments(1).is_empty(),
            "{file} ({line1:?}) produced no highlights"
        );
    }
}

#[test]
fn heavy_languages_fall_through_without_grammars() {
    for file in ["a.swift", "A.cs", "main.cpp", "a.php", "a.rb"] {
        let hl = highlighter("hello world", file);
        assert!(
            hl.get_line_segments(1).is_empty(),
            "{file} should be plain without its grammar installed"
        );
    }
}

fn joined(rows: &[SyntaxRow], field: impl Fn(&SyntaxRow) -> &str) -> String {
    rows.iter().map(field).collect::<Vec<_>>().join("\n")
}

#[test]
fn rows_cover_every_language_exactly_once() {
    let st = ScanState::new();
    let rows = syntax_menu_rows(&all_ready(), &st);
    let mut values: Vec<&str> = rows.iter().map(|r| r.value.as_str()).collect();
    values.sort();
    values.dedup();
    assert_eq!(values.len(), rows.len(), "duplicate row values");

    let mut ids: Vec<String> = static_langs()
        .iter()
        .map(|e| format!("static:{}", e.name))
        .collect();
    ids.extend(known_langs().iter().map(|(id, _)| id.to_string()));
    ids.push(SYNTAX_RELOAD_VALUE.to_string());
    for id in &ids {
        assert!(
            rows.iter().any(|r| &r.value == id),
            "missing row for {id}\n{}",
            joined(&rows, |r| r.value.as_str())
        );
    }
    // Installed extras confirm by id (AlreadyReady), not as static.
    let mut st = ScanState::new();
    st.record("swift".to_string(), Some(entry_for("swift", &LangOverride::empty())), None);
    let rows = syntax_menu_rows(&all_ready(), &st);
    assert!(rows.iter().any(|r| r.value == "swift" && r.category == "Ready"));
}

#[test]
fn rows_use_plain_language() {
    let rows = syntax_menu_rows(&all_ready(), &ScanState::new());
    let text =
        joined(&rows, |r| r.label.as_str()) + "\n" + &joined(&rows, |r| r.description.as_str());
    for banned in [
        "c-sharp",
        "cpp",
        "tsx",
        ".so",
        ".scm",
        "grammars/",
        "queries/",
        "scripts/",
        "nvim",
        "helix",
        "QueryError",
        "language-server",
        "LSP",
    ] {
        assert!(!text.contains(banned), "row leaks jargon: {banned}\n{text}");
    }
    assert!(text.contains("Swift"), "missing Swift row:\n{text}");
    assert!(text.contains("C#"), "missing C# row:\n{text}");
    assert!(text.contains("C++"), "missing C++ row:\n{text}");
}

#[test]
fn confirm_mapping() {
    let st = ScanState::new();
    assert_eq!(syntax_confirm_for(SYNTAX_RELOAD_VALUE, &st), SyntaxConfirm::Reload);
    assert_eq!(
        syntax_confirm_for("static:rust", &st),
        SyntaxConfirm::AlreadyReady("Rust".to_string())
    );
    assert_eq!(
        syntax_confirm_for("klingon", &st),
        SyntaxConfirm::Install {
            id: "klingon".to_string(),
            pretty: "Unknown".to_string(),
        }
    );
    assert_eq!(
        syntax_confirm_for("swift", &st),
        SyntaxConfirm::Install {
            id: "swift".to_string(),
            pretty: "Swift".to_string(),
        }
    );
    let mut st = ScanState::new();
    st.record("swift".to_string(), Some(entry_for("swift", &LangOverride::empty())), None);
    assert_eq!(
        syntax_confirm_for("swift", &st),
        SyntaxConfirm::AlreadyReady("Swift".to_string())
    );
}

#[test]
fn menu_rows_exact_layout() {
    let mut ready = all_ready();
    // Only Rust and Go work.
    for (i, e) in static_langs().iter().enumerate() {
        ready[i] = e.name == "rust" || e.name == "go";
    }
    let mut st = ScanState::new();
    st.record("swift".to_string(), Some(entry_for("swift", &LangOverride::empty())), None);
    st.record("php".to_string(), None, Some("php: no grammars/php.so".to_string()));
    st.record("zig".to_string(), Some(entry_for("zig", &LangOverride::empty())), None);
    let rows = syntax_menu_rows(&ready, &st);
    let got: Vec<(&str, &str, &str, &str)> = rows
        .iter()
        .map(|r| (r.value.as_str(), r.label.as_str(), r.category.as_str(), r.description.as_str()))
        .collect();
    assert_eq!(
        got,
        vec![
            ("static:go", "✓ Go", "Ready", "Ready"),
            ("static:rust", "✓ Rust", "Ready", "Ready"),
            ("swift", "✓ Swift", "Ready", "Ready"),
            ("custom:zig", "✓ zig", "Ready", "Added by you"),
            ("c-sharp", "○ C#", "Available", "Enter to install"),
            ("cpp", "○ C++", "Available", "Enter to install"),
            ("php", "! PHP", "Available", "Enter to retry"),
            ("ruby", "○ Ruby", "Available", "Enter to install"),
            ("__reload__", "Check again", "", "Rescan folder"),
        ]
    );
    assert_eq!(
        syntax_confirm_for("custom:zig", &st),
        SyntaxConfirm::AlreadyReady("zig".to_string())
    );
    assert_eq!(
        syntax_confirm_for("custom:ruby", &st),
        SyntaxConfirm::AlreadyReady("Ruby".to_string())
    );
}

#[test]
fn capture_colors_by_prefix() {
    let index = |name: &str| highlight_names().iter().position(|n| n == name).unwrap();
    assert_eq!(highlight_color(index("keyword.function")), SyntaxColor::Keyword);
    assert_eq!(highlight_color(index("function.macro")), SyntaxColor::FunctionMacro);
    assert_eq!(highlight_color(index("function.method.call")), SyntaxColor::Function);
    assert_eq!(highlight_color(index("string.special.symbol")), SyntaxColor::StringLiteral);
    assert_eq!(highlight_color(index("markup.heading")), SyntaxColor::Keyword);
    assert_eq!(highlight_color(index("markup.link.url")), SyntaxColor::StringLiteral);
    assert_eq!(highlight_color(index("markup.quote")), SyntaxColor::Comment);
    assert_eq!(highlight_color(index("markup.bold")), SyntaxColor::Default);
    assert_eq!(highlight_color(index("diff.plus")), SyntaxColor::StringLiteral);
    assert_eq!(highlight_color(index("diff.minus")), SyntaxColor::Keyword);
    assert_eq!(highlight_color(index("diff.delta")), SyntaxColor::Type);
    assert_eq!(highlight_color(index("property")), SyntaxColor::VariableMember);
    assert_eq!(highlight_color(index("tag.attribute")), SyntaxColor::Attribute);
    assert_eq!(highlight_color(index("boolean")), SyntaxColor::Number);
    assert_eq!(highlight_color(index("variable")), SyntaxColor::Default);
    assert_eq!(highlight_color(10_000), SyntaxColor::Default);
    assert_eq!(highlight_names().len(), 94);
}

#[test]
fn first_line_of_content() {
    assert_eq!(first_line("#!/bin/sh\r\necho\n"), Some("#!/bin/sh".to_string()));
    assert_eq!(first_line("\nsecond"), None);
    assert_eq!(first_line(""), None);
    assert_eq!(first_line("only"), Some("only".to_string()));
}

#[test]
fn segments_split_at_line_feeds() {
    let content = "ab\ncd\n\nef";
    let events = vec![
        HlEvent::Start(4),
        HlEvent::Source { start: 0, end: 4 },
        HlEvent::End,
        HlEvent::Source { start: 4, end: 9 },
    ];
    let segs = segments_from_events(content, &events);
    let seg = |line, start, end, highlight| LineSegment { line, start, end, highlight };
    assert_eq!(
        segs,
        vec![
            seg(1, 0, 2, Some(4)),
            seg(2, 3, 4, Some(4)),
            seg(2, 4, 5, None),
            seg(4, 7, 9, None),
        ]
    );
    let hl = FileHighlighter::from_events(
        content,
        &events.iter().map(|e| Some(*e)).collect::<Vec<_>>(),
    );
    assert_eq!(hl.get_line_segments(2), vec![seg(2, 3, 4, Some(4)), seg(2, 4, 5, None)]);
    assert!(hl.get_line_segments(3).is_empty());
    // A run outside the content leaves the file plain.
    let bad = vec![Some(HlEvent::Source { start: 0, end: 99 })];
    assert!(FileHighlighter::from_events(content, &bad).segments.is_empty());
    // Items reported as errors are skipped.
    let with_err = vec![None, Some(HlEvent::Source { start: 0, end: 2 })];
    assert_eq!(FileHighlighter::from_events(content, &with_err).segments, vec![seg(1, 0, 2, None)]);
}

#[test]
fn pretty_names() {
    assert_eq!(pretty_name("bash"), "Shell");
    assert_eq!(pretty_name("c-sharp"), "C#");
    assert_eq!(pretty_name("klingon"), "Unknown");
}

#[test]
fn ready_group_is_one_alphabetical_list() {
    let ready = all_ready();
    let mut st = ScanState::new();
    // A user folder named after a known built-in id sorts by its friendly name.
    st.record("lua".to_string(), Some(entry_for("lua", &LangOverride::empty())), None);
    st.record("cpp".to_string(), Some(entry_for("cpp", &LangOverride::empty())), None);
    let rows = syntax_menu_rows(&ready, &st);
    let ready_names: Vec<&str> = rows
        .iter()
        .filter(|r| r.category == "Ready")
        .map(|r| &r.label[r.label.char_indices().nth(2).unwrap().0..])
        .collect();
    let mut sorted = ready_names.clone();
    sorted.sort();
    assert_eq!(ready_names, sorted);
    // The installed extra sits among the built-ins, not after them.
    let cpp = rows.iter().position(|r| r.value == "cpp").unwrap();
    let css = rows.iter().position(|r| r.value == "static:css").unwrap();
    assert!(cpp < css, "C++ sorts before CSS");
    // Every Ready row precedes every Available row.
    let last_ready = rows.iter().rposition(|r| r.category == "Ready").unwrap();
    let first_available = rows.iter().position(|r| r.category == "Available").unwrap();
    assert!(last_ready < first_available);
    // Lua loaded from the folder is not listed twice as a user language.
    assert_eq!(rows.iter().filter(|r| r.value == "custom:lua").count(), 1);
}
