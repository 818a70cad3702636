use lazygitrs::pager::dynamic::{
    entry_for, find_in, install_state, known, known_dynamic, known_langs, library_candidates,
    repo_for, sanitize, symbol_name, symbol_suffix, DynamicEntry, InstallState, LangOverride,
    ScanState,
};

fn strings(v: &[&str]) -> Vec<String> {
    v.iter().map(|s| s.to_string()).collect()
}

#[test]
fn known_defaults_cover_heavy_languages() {
    // Extension mapping works out-of-box once the .so + queries exist —
    // no languages.yml needed for these five.
    let cases = [
        ("c-sharp", "cs"),
        ("cpp", "cpp"),
        ("php", "php"),
        ("ruby", "rb"),
        ("swift", "swift"),
    ];
    for (lang, ext) in cases {
        let k = known(lang).unwrap_or_else(|| panic!("no defaults for {lang}"));
        assert!(
            k.extensions.iter().any(|e| e == ext),
            "{lang} defaults missing .{ext}"
        );
    }
    // Ruby filenames + shebangs, PHP shebang.
    let ruby = known("ruby").expect("ruby defaults");
    assert!(ruby.filenames.iter().any(|f| f == "Gemfile"));
    assert!(ruby.shebang.iter().any(|s| s == "ruby"));
    let php = known("php").expect("php defaults");
    assert!(php.shebang.iter().any(|s| s == "php"));
}

fn default_entries() -> Vec<DynamicEntry> {
    known_dynamic()
        .into_iter()
        .map(|k| DynamicEntry {
            name: k.name,
            extensions: k.extensions,
            filenames: k.filenames,
            filename_prefixes: k.filename_prefixes,
            shebang: k.shebang,
        })
        .collect()
}

#[test]
fn find_in_matches_known_shapes() {
    // Entries built the way a successful load builds them with defaults.
    let entries = default_entries();
    let name = |i: Option<usize>| i.map(|i| entries[i].name.as_str());
    assert_eq!(name(find_in(&entries, "main.cpp", None)), Some("cpp"));
    assert_eq!(name(find_in(&entries, "A.cs", None)), Some("c-sharp"));
    assert_eq!(name(find_in(&entries, "Gemfile", None)), Some("ruby"));
    assert_eq!(name(find_in(&entries, "run.php", None)), Some("php"));
    assert_eq!(
        name(find_in(&entries, "x", Some("#!/usr/bin/env ruby"))),
        Some("ruby")
    );
}

#[test]
fn symbol_suffix_maps_cpp() {
    assert_eq!(symbol_suffix("cpp"), "cpp");
    assert_eq!(symbol_suffix("c++"), "cpp");
    assert_eq!(symbol_suffix("c-sharp"), "c_sharp");
    assert_eq!(symbol_suffix("swift"), "swift");
}

#[test]
fn repo_for_covers_known_langs() {
    for (id, _) in known_langs() {
        assert!(
            repo_for(&id).is_some_and(|u| u.starts_with("https://")),
            "{id} has no install repo"
        );
    }
    assert!(repo_for("zig").is_none());
}

#[test]
fn missing_lang_reports_missing_state() {
    let st = ScanState::new();
    assert_eq!(
        install_state(&st, "definitely-not-a-language"),
        InstallState::Missing
    );
}

#[test]
fn install_state_reports_each_case() {
    let mut st = ScanState::new();
    st.record("swift".to_string(), Some(entry_for("swift", &LangOverride::empty())), None);
    st.record(
        "php".to_string(),
        None,
        Some("php: no grammars/php.so".to_string()),
    );
    assert_eq!(install_state(&st, "swift"), InstallState::Installed);
    assert_eq!(
        install_state(&st, "php"),
        InstallState::Failed("php: no grammars/php.so".to_string())
    );
    assert_eq!(install_state(&st, "ruby"), InstallState::Missing);
}

#[test]
fn known_langs_lists_five_in_order() {
    let ids: Vec<String> = known_langs().into_iter().map(|(id, _)| id).collect();
    assert_eq!(ids, strings(&["cpp", "c-sharp", "php", "ruby", "swift"]));
    let (_, exts) = &known_langs()[0];
    assert_eq!(exts, &strings(&["cpp", "hpp", "cc", "hh", "cxx", "hxx"]));
    assert!(known("zig").is_none());
}

#[test]
fn repo_for_exact_urls() {
    assert_eq!(
        repo_for("c++"),
        Some("https://github.com/tree-sitter/tree-sitter-cpp")
    );
    assert_eq!(
        repo_for("swift"),
        Some("https://github.com/alex-pinkus/tree-sitter-swift")
    );
}

#[test]
fn sanitize_and_symbol_name() {
    assert_eq!(sanitize("a-b-c"), "a_b_c");
    assert_eq!(symbol_name("c-sharp"), "tree_sitter_c_sharp");
    assert_eq!(symbol_name("c++"), "tree_sitter_cpp");
    assert_eq!(
        library_candidates("c-sharp"),
        strings(&["c-sharp.so", "c_sharp.so", "libtree-sitter-c-sharp.so"])
    );
}

#[test]
fn entry_for_applies_overrides_and_defaults() {
    // No defaults, no overrides: the id is the extension.
    let zig = entry_for("zig", &LangOverride::empty());
    assert_eq!(zig.extensions, strings(&["zig"]));
    assert!(zig.filenames.is_empty());
    // Overrides win; shebang words are lowercased.
    let mut ov = LangOverride::empty();
    ov.extensions = Some(strings(&["zig", "zon"]));
    ov.shebang = Some(strings(&["ZIG"]));
    let zig = entry_for("zig", &ov);
    assert_eq!(zig.extensions, strings(&["zig", "zon"]));
    assert_eq!(zig.shebang, strings(&["zig"]));
    // Known defaults fill what is not overridden.
    let ruby = entry_for("ruby", &LangOverride::empty());
    assert_eq!(ruby.extensions, strings(&["rb", "rake", "gemspec"]));
    assert_eq!(ruby.shebang, strings(&["ruby"]));
}

#[test]
fn find_in_extension_is_case_insensitive_and_shebang_needs_marker() {
    let entries = default_entries();
    let name = |i: Option<usize>| i.map(|i| entries[i].name.as_str());
    assert_eq!(name(find_in(&entries, "dir/Main.CPP", None)), Some("cpp"));
    assert_eq!(name(find_in(&entries, "script", Some("/usr/bin/env ruby"))), None);
    assert_eq!(name(find_in(&entries, "script", Some("#!/usr/bin/env PHP"))), Some("php"));
    assert_eq!(name(find_in(&entries, "notes.txt", None)), None);
}

#[test]
fn plan_tries_each_folder_once_in_order() {
    let mut st = ScanState::new();
    let found = strings(&["zig", "cpp", "zig", "ada"]);
    let plan = st.plan(&found);
    assert_eq!(plan, strings(&["ada", "cpp", "zig"]));
    for lang in plan {
        st.record(lang, None, None);
    }
    // Scanning again tries nothing new.
    assert!(st.plan(&found).is_empty());
    let more = strings(&["cpp", "bash"]);
    assert_eq!(st.plan(&more), strings(&["bash"]));
    st.reset();
    assert_eq!(st.plan(&more), strings(&["bash", "cpp"]));
}

#[test]
fn installed_lists_names_and_errors() {
    let mut st = ScanState::new();
    st.record("swift".to_string(), Some(entry_for("swift", &LangOverride::empty())), None);
    st.record("php".to_string(), None, Some("php: bad".to_string()));
    let (names, errors) = st.installed();
    assert_eq!(names, strings(&["swift"]));
    assert_eq!(errors, strings(&["php: bad"]));
}

#[test]
fn failure_needs_the_language_id_and_a_colon() {
    let mut st = ScanState::new();
    st.record("cpp".to_string(), None, Some("cpp: no grammars/cpp.so".to_string()));
    // "c" is a prefix of "cpp", but the message is not about "c".
    assert_eq!(install_state(&st, "c"), InstallState::Missing);
    assert_eq!(
        install_state(&st, "cpp"),
        InstallState::Failed("cpp: no grammars/cpp.so".to_string())
    );
    let (names, errors) = st.installed();
    assert!(names.is_empty());
    assert_eq!(errors, vec!["cpp: no grammars/cpp.so".to_string()]);
}
