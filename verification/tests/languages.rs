use lazygitrs::pager::languages::{config_for_file, shebang_lang_of, static_langs};

fn all_ready() -> Vec<bool> {
    vec![true; static_langs().len()]
}

fn lang(filename: &str, first_line: Option<&str>, ready: &[bool]) -> Option<String> {
    let table = static_langs();
    config_for_file(filename, first_line, &ready.to_vec()).map(|i| table[i].name.clone())
}

#[test]
fn static_lookup_by_name_extension_and_shebang() {
    let ready = all_ready();
    assert_eq!(lang("src/main.rs", None, &ready).as_deref(), Some("rust"));
    assert_eq!(lang("a/b/Dockerfile", None, &ready).as_deref(), Some("dockerfile"));
    assert_eq!(lang("Dockerfile.dev", None, &ready).as_deref(), Some("dockerfile"));
    assert_eq!(lang("README.MD", None, &ready).as_deref(), Some("markdown"));
    assert_eq!(lang(".bashrc", None, &ready).as_deref(), Some("bash"));
    assert_eq!(lang("x.h", None, &ready).as_deref(), Some("c"));
    assert_eq!(lang("script", Some("#!/usr/bin/env python3"), &ready).as_deref(), Some("python"));
    assert_eq!(lang("script", Some("#!/bin/sh"), &ready).as_deref(), Some("bash"));
    assert_eq!(lang("script", Some("#!/usr/bin/env node"), &ready).as_deref(), Some("javascript"));
    assert_eq!(lang("notes.txt", None, &ready), None);
    assert_eq!(lang("..", None, &ready), None);
}

#[test]
fn static_lookup_skips_languages_not_ready() {
    let table = static_langs();
    let mut ready = all_ready();
    let rust = table.iter().position(|e| e.name == "rust").unwrap();
    ready[rust] = false;
    assert_eq!(lang("main.rs", None, &ready), None);
    // A name match that is not ready falls through to the extension.
    let docker = table.iter().position(|e| e.name == "dockerfile").unwrap();
    ready[docker] = false;
    assert_eq!(lang("Dockerfile", None, &ready), None);
    assert_eq!(
        lang("Dockerfile", Some("#!/bin/bash"), &ready).as_deref(),
        Some("bash")
    );
}

#[test]
fn shebang_words() {
    assert_eq!(shebang_lang_of("#!/usr/bin/lua5.4"), Some("lua"));
    assert_eq!(shebang_lang_of("#!/usr/bin/evaluate-lua"), None);
    assert_eq!(shebang_lang_of("#!/usr/bin/env BUN"), Some("javascript"));
    assert_eq!(shebang_lang_of("/usr/bin/python"), None);
}

#[test]
fn table_has_eighteen_languages() {
    let t = static_langs();
    assert_eq!(t.len(), 18);
    assert_eq!(t[0].name, "typescript");
    assert_eq!(t[0].extensions, vec!["ts", "mts", "cts"]);
}
