//! The built-in languages and how a file is matched to one of them:
//! exact file name (or name prefix), then extension, then `#!` line.

use vstd::prelude::*;
use crate::order::{first_where, lemma_first_where};
use crate::pager::patterns::{
    any_prefix, by_file_name, listed, model_of, LangModel,
};
use crate::paths::{basename, basename_of, extension_of, file_extension};
use crate::text::{
    ascii_lower_of, ascii_lower_seq, contains, contains_of, lits, str_is, strings_from, strip_prefix,
    strip_prefix_of, strs, to_chars,
};

verus! {

/// One built-in language and the files it is used for.
#[derive(Debug, Clone)]
pub struct StaticEntry {
    pub name: String,
    pub extensions: Vec<String>,
    pub filenames: Vec<String>,
    /// Prefixes of the file name, e.g. `Dockerfile.` for `Dockerfile.dev`.
    pub filename_prefixes: Vec<String>,
}

impl StaticEntry {
    pub open spec fn model(&self) -> LangModel {
        LangModel {
            name: self.name@,
            extensions: strs(self.extensions@),
            filenames: strs(self.filenames@),
            filename_prefixes: strs(self.filename_prefixes@),
            shebang: Seq::empty(),
        }
    }
}

pub open spec fn static_models(v: Seq<StaticEntry>) -> Seq<LangModel> {
    v.map_values(|e: StaticEntry| e.model())
}

pub open spec fn static_model(
    name: &str,
    extensions: Seq<&str>,
    filenames: Seq<&str>,
    filename_prefixes: Seq<&str>,
) -> LangModel {
    model_of(name, extensions, filenames, filename_prefixes, Seq::empty())
}

/// The built-in languages, in lookup order.
pub open spec fn static_table() -> Seq<LangModel> {
    seq![
        static_model("typescript", seq!["ts", "mts", "cts"], seq![], seq![]),
        static_model("tsx", seq!["tsx"], seq![], seq![]),
        static_model("javascript", seq!["js", "mjs", "cjs"], seq![], seq![]),
        static_model("jsx", seq!["jsx"], seq![], seq![]),
        static_model("rust", seq!["rs"], seq![], seq![]),
        static_model("json", seq!["json", "jsonc"], seq![], seq![]),
        static_model("python", seq!["py", "pyi"], seq![], seq![]),
        static_model("go", seq!["go"], seq![], seq![]),
        static_model("css", seq!["css"], seq![], seq![]),
        static_model("html", seq!["html", "htm"], seq![], seq![]),
        static_model("toml", seq!["toml"], seq![], seq![]),
        static_model(
            "bash",
            seq!["sh", "bash", "zsh"],
            seq![".bashrc", ".bash_profile", ".zshrc", ".profile", "PKGBUILD"],
            seq![],
        ),
        static_model("markdown", seq!["md", "mdx", "markdown"], seq![], seq![]),
        static_model("c", seq!["c", "h"], seq![], seq![]),
        static_model("java", seq!["java"], seq![], seq![]),
        static_model(
            "dockerfile",
            seq!["dockerfile"],
            seq!["Dockerfile", "Containerfile"],
            seq!["Dockerfile.", "Containerfile."],
        ),
        static_model("lua", seq!["lua"], seq![], seq![]),
        static_model("yaml", seq!["yml", "yaml"], seq![], seq![]),
    ]
}

fn entry(name: &str, extensions: &[&str], filenames: &[&str], filename_prefixes: &[&str]) -> (e:
    StaticEntry)
    ensures
        e.model() == static_model(name, extensions@, filenames@, filename_prefixes@),
{
    let e = StaticEntry {
        name: String::from_str(name),
        extensions: strings_from(extensions),
        filenames: strings_from(filenames),
        filename_prefixes: strings_from(filename_prefixes),
    };
    assert(crate::text::lits(Seq::<&str>::empty()) =~= Seq::<Seq<char>>::empty());
    e
}

fn entry1(name: &str, extension: &str) -> (e: StaticEntry)
    ensures
        e.model() == static_model(name, seq![extension], seq![], seq![]),
{
    let mut extensions: Vec<String> = Vec::new();
    extensions.push(String::from_str(extension));
    let e = StaticEntry {
        name: String::from_str(name),
        extensions,
        filenames: Vec::new(),
        filename_prefixes: Vec::new(),
    };
    assert(strs(e.extensions@) =~= lits(seq![extension]));
    assert(lits(Seq::<&str>::empty()) =~= Seq::<Seq<char>>::empty());
    assert(strs(e.filenames@) =~= Seq::<Seq<char>>::empty());
    assert(strs(e.filename_prefixes@) =~= Seq::<Seq<char>>::empty());
    e
}

fn entry_with_files(name: &str, extension: &str, filenames: &[&str], filename_prefixes: &[&str]) -> (e:
    StaticEntry)
    ensures
        e.model() == static_model(name, seq![extension], filenames@, filename_prefixes@),
{
    let mut e = entry1(name, extension);
    e.filenames = strings_from(filenames);
    e.filename_prefixes = strings_from(filename_prefixes);
    e
}

/// The built-in languages, in lookup order.
pub fn static_langs() -> (r: Vec<StaticEntry>)
    ensures
        static_models(r@) == static_table(),
{
    let none: &[&str] = &[];
    assert(none@ =~= Seq::<&str>::empty());
    let mut r: Vec<StaticEntry> = Vec::new();
    r.push(entry("typescript", &["ts", "mts", "cts"], none, none));
    r.push(entry1("tsx", "tsx"));
    r.push(entry("javascript", &["js", "mjs", "cjs"], none, none));
    r.push(entry1("jsx", "jsx"));
    r.push(entry1("rust", "rs"));
    r.push(entry("json", &["json", "jsonc"], none, none));
    r.push(entry("python", &["py", "pyi"], none, none));
    r.push(entry1("go", "go"));
    r.push(entry1("css", "css"));
    r.push(entry("html", &["html", "htm"], none, none));
    r.push(entry1("toml", "toml"));
    r.push(
        entry(
            "bash",
            &["sh", "bash", "zsh"],
            &[".bashrc", ".bash_profile", ".zshrc", ".profile", "PKGBUILD"],
            none,
        ),
    );
    r.push(entry("markdown", &["md", "mdx", "markdown"], none, none));
    r.push(entry("c", &["c", "h"], none, none));
    r.push(entry1("java", "java"));
    r.push(
        entry_with_files(
            "dockerfile",
            "dockerfile",
            &["Dockerfile", "Containerfile"],
            &["Dockerfile.", "Containerfile."],
        ),
    );
    r.push(entry1("lua", "lua"));
    r.push(entry("yaml", &["yml", "yaml"], none, none));
    assert(r@.len() == 18);
    assert(r@.len() == 18);
    assert(static_models(r@)[0] == static_table()[0]);
    assert(static_models(r@)[1] == static_table()[1]);
    assert(static_models(r@)[2] == static_table()[2]);
    assert(static_models(r@)[3] == static_table()[3]);
    assert(static_models(r@)[4] == static_table()[4]);
    assert(static_models(r@)[5] == static_table()[5]);
    assert(static_models(r@)[6] == static_table()[6]);
    assert(static_models(r@)[7] == static_table()[7]);
    assert(static_models(r@)[8] == static_table()[8]);
    assert(static_models(r@)[9] == static_table()[9]);
    assert(static_models(r@)[10] == static_table()[10]);
    assert(static_models(r@)[11] == static_table()[11]);
    assert(static_models(r@)[12] == static_table()[12]);
    assert(static_models(r@)[13] == static_table()[13]);
    assert(static_models(r@)[14] == static_table()[14]);
    assert(static_models(r@)[15] == static_table()[15]);
    assert(static_models(r@)[16] == static_table()[16]);
    assert(static_models(r@)[17] == static_table()[17]);
    assert(static_models(r@) =~= static_table());
    r
}

/// Display name of a language id; `Unknown` for ids it does not know.
pub open spec fn pretty_name_spec(name: Seq<char>) -> Seq<char> {
    if name == "typescript"@ {
        "TypeScript"@
    } else if name == "tsx"@ {
        "TSX"@
    } else if name == "javascript"@ {
        "JavaScript"@
    } else if name == "jsx"@ {
        "JSX"@
    } else if name == "rust"@ {
        "Rust"@
    } else if name == "json"@ {
        "JSON"@
    } else if name == "python"@ {
        "Python"@
    } else if name == "go"@ {
        "Go"@
    } else if name == "css"@ {
        "CSS"@
    } else if name == "html"@ {
        "HTML"@
    } else if name == "toml"@ {
        "TOML"@
    } else if name == "bash"@ {
        "Shell"@
    } else if name == "markdown"@ {
        "Markdown"@
    } else if name == "c"@ {
        "C"@
    } else if name == "java"@ {
        "Java"@
    } else if name == "lua"@ {
        "Lua"@
    } else if name == "yaml"@ {
        "YAML"@
    } else if name == "dockerfile"@ {
        "Dockerfile"@
    } else if name == "cpp"@ {
        "C++"@
    } else if name == "c-sharp"@ {
        "C#"@
    } else if name == "php"@ {
        "PHP"@
    } else if name == "ruby"@ {
        "Ruby"@
    } else if name == "swift"@ {
        "Swift"@
    } else {
        "Unknown"@
    }
}

/// Friendly display name of a language id, as shown in menus.
pub fn pretty_name(name: &str) -> (r: &'static str)
    ensures
        r@ == pretty_name_spec(name@),
{
    if str_is(name, "typescript") {
        "TypeScript"
    } else if str_is(name, "tsx") {
        "TSX"
    } else if str_is(name, "javascript") {
        "JavaScript"
    } else if str_is(name, "jsx") {
        "JSX"
    } else if str_is(name, "rust") {
        "Rust"
    } else if str_is(name, "json") {
        "JSON"
    } else if str_is(name, "python") {
        "Python"
    } else if str_is(name, "go") {
        "Go"
    } else if str_is(name, "css") {
        "CSS"
    } else if str_is(name, "html") {
        "HTML"
    } else if str_is(name, "toml") {
        "TOML"
    } else if str_is(name, "bash") {
        "Shell"
    } else if str_is(name, "markdown") {
        "Markdown"
    } else if str_is(name, "c") {
        "C"
    } else if str_is(name, "java") {
        "Java"
    } else if str_is(name, "lua") {
        "Lua"
    } else if str_is(name, "yaml") {
        "YAML"
    } else if str_is(name, "dockerfile") {
        "Dockerfile"
    } else if str_is(name, "cpp") {
        "C++"
    } else if str_is(name, "c-sharp") {
        "C#"
    } else if str_is(name, "php") {
        "PHP"
    } else if str_is(name, "ruby") {
        "Ruby"
    } else if str_is(name, "swift") {
        "Swift"
    } else {
        "Unknown"
    }
}

/// The built-in language a `#!` line names, by the words it contains.
pub open spec fn shebang_lang(line: Seq<char>) -> Option<Seq<char>> {
    match strip_prefix(line, "#!"@) {
        None => None,
        Some(rest) => {
            let l = ascii_lower_seq(rest);
            if contains(l, "python"@) {
                Some("python"@)
            } else if contains(l, "bash"@) || contains(l, "zsh"@) || contains(l, "/sh"@) {
                Some("bash"@)
            } else if contains(l, "lua"@) && !contains(l, "evaluate"@) {
                Some("lua"@)
            } else if contains(l, "node"@) || contains(l, "deno"@) || contains(l, "bun"@) {
                Some("javascript"@)
            } else {
                None
            }
        },
    }
}

fn mentions(l: &Vec<char>, word: &str) -> (r: bool)
    ensures
        r == contains(l@, word@),
{
    let w = to_chars(word);
    contains_of(l, &w)
}

/// The id of the built-in language the `#!` line `first_line` names.
pub fn shebang_lang_of(first_line: &str) -> (r: Option<&'static str>)
    ensures
        match r {
            Some(n) => shebang_lang(first_line@) == Some(n@),
            None => shebang_lang(first_line@) is None,
        },
{
    let line = to_chars(first_line);
    let mark = to_chars("#!");
    let rest = match strip_prefix_of(&line, &mark) {
        Some(rest) => rest,
        None => return None,
    };
    let l = ascii_lower_of(&rest);
    if mentions(&l, "python") {
        Some("python")
    } else if mentions(&l, "bash") || mentions(&l, "zsh") || mentions(&l, "/sh") {
        Some("bash")
    } else if mentions(&l, "lua") && !mentions(&l, "evaluate") {
        Some("lua")
    } else if mentions(&l, "node") || mentions(&l, "deno") || mentions(&l, "bun") {
        Some("javascript")
    } else {
        None
    }
}

/// A language listing extension `ext` (extensions are kept lowercase).
pub open spec fn by_extension(ext: Seq<char>) -> spec_fn(LangModel) -> bool {
    |m: LangModel| m.extensions.contains(ext)
}

/// The language with id `name`.
pub open spec fn by_name(name: Seq<char>) -> spec_fn(LangModel) -> bool {
    |m: LangModel| m.name == name
}

/// Which built-in language highlights `filename` (whose first line is
/// `first_line`), given which languages are `ready` to use: the first one
/// whose file names take the base name, else the first whose extensions
/// take its lowercased extension, else the one its `#!` line names. At each
/// step only the first match counts; if it is not ready the next step is
/// tried (after the last step: none).
pub open spec fn static_lookup(
    t: Seq<LangModel>,
    ready: Seq<bool>,
    filename: Seq<char>,
    first_line: Option<Seq<char>>,
) -> Option<int> {
    let base = basename(filename);
    let a = first_where(t, by_file_name(base));
    if a < t.len() && ready[a] {
        Some(a)
    } else {
        let b = match file_extension(base) {
            Some(e) => first_where(t, by_extension(ascii_lower_seq(e))),
            None => t.len() as int,
        };
        if b < t.len() && ready[b] {
            Some(b)
        } else {
            match first_line {
                Some(l) => match shebang_lang(l) {
                    Some(n) => {
                        let c = first_where(t, by_name(n));
                        if c < t.len() && ready[c] {
                            Some(c)
                        } else {
                            None
                        }
                    },
                    None => None,
                },
                None => None,
            }
        }
    }
}

fn first_by_file_name(t: &Vec<StaticEntry>, base: &Vec<char>) -> (r: usize)
    ensures
        r == first_where(static_models(t@), by_file_name(base@)),
{
    let ghost ms = static_models(t@);
    let mut i: usize = 0;
    while i < t.len()
        invariant
            i <= t.len(),
            ms == static_models(t@),
            forall|j: int| 0 <= j < i ==> !by_file_name(base@)(#[trigger] ms[j]),
        decreases t.len() - i,
    {
        if listed(&t[i].filenames, base) || any_prefix(&t[i].filename_prefixes, base) {
            assert(by_file_name(base@)(ms[i as int]));
            proof {
                lemma_first_where(ms, by_file_name(base@), i as int);
            }
            return i;
        }
        assert(!by_file_name(base@)(ms[i as int]));
        i += 1;
    }
    proof {
        lemma_first_where(ms, by_file_name(base@), i as int);
    }
    i
}

fn first_by_extension(t: &Vec<StaticEntry>, ext: &Vec<char>) -> (r: usize)
    ensures
        r == first_where(static_models(t@), by_extension(ext@)),
{
    let ghost ms = static_models(t@);
    let mut i: usize = 0;
    while i < t.len()
        invariant
            i <= t.len(),
            ms == static_models(t@),
            forall|j: int| 0 <= j < i ==> !by_extension(ext@)(#[trigger] ms[j]),
        decreases t.len() - i,
    {
        if listed(&t[i].extensions, ext) {
            assert(by_extension(ext@)(ms[i as int]));
            proof {
                lemma_first_where(ms, by_extension(ext@), i as int);
            }
            return i;
        }
        assert(!by_extension(ext@)(ms[i as int]));
        i += 1;
    }
    proof {
        lemma_first_where(ms, by_extension(ext@), i as int);
    }
    i
}

fn first_by_name(t: &Vec<StaticEntry>, name: &str) -> (r: usize)
    ensures
        r == first_where(static_models(t@), by_name(name@)),
{
    let ghost ms = static_models(t@);
    let mut i: usize = 0;
    while i < t.len()
        invariant
            i <= t.len(),
            ms == static_models(t@),
            forall|j: int| 0 <= j < i ==> !by_name(name@)(#[trigger] ms[j]),
        decreases t.len() - i,
    {
        if str_is(t[i].name.as_str(), name) {
            assert(by_name(name@)(ms[i as int]));
            proof {
                lemma_first_where(ms, by_name(name@), i as int);
            }
            return i;
        }
        assert(!by_name(name@)(ms[i as int]));
        i += 1;
    }
    proof {
        lemma_first_where(ms, by_name(name@), i as int);
    }
    i
}

/// The characters of an optional string slice.
pub open spec fn opt_view(s: Option<&str>) -> Option<Seq<char>> {
    match s {
        Some(l) => Some(l@),
        None => None,
    }
}

/// Index in [`static_langs`] of the built-in language that highlights
/// `filename`; `ready[i]` says whether language `i` can be used.
pub fn config_for_file(filename: &str, first_line: Option<&str>, ready: &Vec<bool>) -> (r: Option<
    usize,
>)
    requires
        ready@.len() == static_table().len(),
    ensures
        match static_lookup(static_table(), ready@, filename@, opt_view(first_line)) {
            Some(i) => r == Some(i as usize),
            None => r is None,
        },
        r matches Some(i) ==> i < static_table().len(),
{
    let t = static_langs();
    let ghost ms = static_models(t@);
    assert(ms.len() == t@.len());
    let path = to_chars(filename);
    let base = basename_of(&path);
    let a = first_by_file_name(&t, &base);
    if a < t.len() && ready[a] {
        return Some(a);
    }
    let b = match extension_of(&base) {
        Some(e) => {
            let lower = ascii_lower_of(&e);
            first_by_extension(&t, &lower)
        },
        None => t.len(),
    };
    if b < t.len() && ready[b] {
        return Some(b);
    }
    match first_line {
        Some(l) => match shebang_lang_of(l) {
            Some(n) => {
                let c = first_by_name(&t, n);
                if c < t.len() && ready[c] {
                    Some(c)
                } else {
                    None
                }
            },
            None => None,
        },
        None => None,
    }
}


/// A Python file is highlighted as Python: whenever the built-in Python
/// language is ready and no ready language claims the file by its name, a
/// file whose extension is `py` (in any case) gets Python, whatever its
/// first line.
pub proof fn law_python_by_extension(
    ready: Seq<bool>,
    filename: Seq<char>,
    first_line: Option<Seq<char>>,
)
    requires
        ready.len() == static_table().len(),
        forall|k: int| 0 <= k < static_table().len() && static_table()[k].name == "python"@ ==> ready[k],
        file_extension(basename(filename)) matches Some(e) && ascii_lower_seq(e) == "py"@,
        !({
            let a = first_where(static_table(), by_file_name(basename(filename)));
            a < static_table().len() && ready[a]
        }),
    ensures
        static_lookup(static_table(), ready, filename, first_line) matches Some(k) && 0 <= k
            < static_table().len() && static_table()[k].name == "python"@,
{
    reveal_strlit("ts");
    reveal_strlit("mts");
    reveal_strlit("cts");
    reveal_strlit("tsx");
    reveal_strlit("js");
    reveal_strlit("mjs");
    reveal_strlit("cjs");
    reveal_strlit("jsx");
    reveal_strlit("rs");
    reveal_strlit("json");
    reveal_strlit("jsonc");
    reveal_strlit("py");
    reveal_strlit("pyi");
    reveal_strlit("python");
    let t = static_table();
    let p = by_extension("py"@);
    assert(t[6].extensions[0] == "py"@);
    assert(p(t[6]));
    assert forall|j: int| 0 <= j < 6 implies !p(#[trigger] t[j]) by {
        let x = t[j].extensions;
        assert forall|i: int| 0 <= i < x.len() implies x[i] != "py"@ by {
            if x[i].len() == 2 {
                assert(x[i][0] != 'p' || x[i][1] != 'y');
            }
        }
    }
    lemma_first_where(t, p, 6);
    assert(ready[6]);
}


/// The extensions of the built-in languages, each with the language it
/// selects.
pub open spec fn extension_languages() -> Seq<(Seq<char>, Seq<char>)> {
    seq![
        ("ts"@, "typescript"@),
        ("mts"@, "typescript"@),
        ("cts"@, "typescript"@),
        ("tsx"@, "tsx"@),
        ("js"@, "javascript"@),
        ("mjs"@, "javascript"@),
        ("cjs"@, "javascript"@),
        ("jsx"@, "jsx"@),
        ("rs"@, "rust"@),
        ("json"@, "json"@),
        ("jsonc"@, "json"@),
        ("py"@, "python"@),
        ("pyi"@, "python"@),
        ("go"@, "go"@),
        ("css"@, "css"@),
        ("html"@, "html"@),
        ("htm"@, "html"@),
        ("toml"@, "toml"@),
        ("sh"@, "bash"@),
        ("bash"@, "bash"@),
        ("zsh"@, "bash"@),
        ("md"@, "markdown"@),
        ("mdx"@, "markdown"@),
        ("markdown"@, "markdown"@),
        ("c"@, "c"@),
        ("h"@, "c"@),
        ("java"@, "java"@),
        ("dockerfile"@, "dockerfile"@),
        ("lua"@, "lua"@),
        ("yml"@, "yaml"@),
        ("yaml"@, "yaml"@),
    ]
}

/// The first built-in language listing extension `p` of
/// [`extension_languages`] is the language paired with it.
proof fn lemma_extension_owner(p: int) -> (k: int)
    requires
        0 <= p < extension_languages().len(),
    ensures
        0 <= k < static_table().len(),
        static_table()[k].name == extension_languages()[p].1,
        first_where(static_table(), by_extension(extension_languages()[p].0)) == k,
{
    reveal_strlit("bash");
    reveal_strlit("c");
    reveal_strlit("cjs");
    reveal_strlit("css");
    reveal_strlit("cts");
    reveal_strlit("dockerfile");
    reveal_strlit("go");
    reveal_strlit("h");
    reveal_strlit("htm");
    reveal_strlit("html");
    reveal_strlit("java");
    reveal_strlit("javascript");
    reveal_strlit("js");
    reveal_strlit("json");
    reveal_strlit("jsonc");
    reveal_strlit("jsx");
    reveal_strlit("lua");
    reveal_strlit("markdown");
    reveal_strlit("md");
    reveal_strlit("mdx");
    reveal_strlit("mjs");
    reveal_strlit("mts");
    reveal_strlit("py");
    reveal_strlit("pyi");
    reveal_strlit("python");
    reveal_strlit("rs");
    reveal_strlit("rust");
    reveal_strlit("sh");
    reveal_strlit("toml");
    reveal_strlit("ts");
    reveal_strlit("tsx");
    reveal_strlit("typescript");
    reveal_strlit("yaml");
    reveal_strlit("yml");
    reveal_strlit("zsh");
    let t = static_table();
    let e = extension_languages()[p].0;
    let k: int = seq![0, 0, 0, 1, 2, 2, 2, 3, 4, 5, 5, 6, 6, 7, 8, 9, 9, 10, 11, 11, 11, 12, 12, 12, 13, 13, 14, 15, 16, 17, 17][p];
    let at: int = seq![0, 1, 2, 0, 0, 1, 2, 0, 0, 0, 1, 0, 1, 0, 0, 0, 1, 0, 0, 1, 2, 0, 1, 2, 0, 1, 0, 0, 0, 0, 1][p];
    assert(t[k].extensions[at] == e);
    let q = by_extension(e);
    assert(q(t[k]));
    assert forall|j: int| 0 <= j < k implies !q(#[trigger] t[j]) by {
        let x = t[j].extensions;
        assert forall|i: int| 0 <= i < x.len() implies x[i] != e by {
            if x[i].len() == e.len() {
                assert(x[i][0] != e[0] || x[i][1] != e[1] || x[i][2] != e[2] || x[i][3] != e[3]);
            }
        }
    }
    lemma_first_where(t, q, k);
    k
}

/// A file is highlighted by the language its extension belongs to: for
/// every extension of a built-in language, when that language is ready and
/// no ready language claims the file by its name, a file with that
/// extension (in any case) gets that language, whatever its first line.
pub proof fn law_extension_selects_language(
    ready: Seq<bool>,
    filename: Seq<char>,
    first_line: Option<Seq<char>>,
    p: int,
)
    requires
        0 <= p < extension_languages().len(),
        ready.len() == static_table().len(),
        forall|k: int|
            0 <= k < static_table().len() && static_table()[k].name == extension_languages()[p].1
                ==> ready[k],
        file_extension(basename(filename)) matches Some(e) && ascii_lower_seq(e)
            == extension_languages()[p].0,
        !({
            let a = first_where(static_table(), by_file_name(basename(filename)));
            a < static_table().len() && ready[a]
        }),
    ensures
        static_lookup(static_table(), ready, filename, first_line) matches Some(k) && 0 <= k
            < static_table().len() && static_table()[k].name == extension_languages()[p].1,
{
    let k = lemma_extension_owner(p);
    assert(ready[k]);
}


/// The file names of the built-in languages, each with the language it
/// selects.
pub open spec fn file_name_languages() -> Seq<(Seq<char>, Seq<char>)> {
    seq![
        (".bashrc"@, "bash"@),
        (".bash_profile"@, "bash"@),
        (".zshrc"@, "bash"@),
        (".profile"@, "bash"@),
        ("PKGBUILD"@, "bash"@),
        ("Dockerfile"@, "dockerfile"@),
        ("Containerfile"@, "dockerfile"@),
    ]
}

/// A file named like one of a built-in language's files gets that
/// language when it is ready, whatever its extension or first line.
pub proof fn law_file_name_selects_language(
    ready: Seq<bool>,
    filename: Seq<char>,
    first_line: Option<Seq<char>>,
    p: int,
)
    requires
        0 <= p < file_name_languages().len(),
        ready.len() == static_table().len(),
        forall|k: int|
            0 <= k < static_table().len() && static_table()[k].name == file_name_languages()[p].1
                ==> ready[k],
        basename(filename) == file_name_languages()[p].0,
    ensures
        static_lookup(static_table(), ready, filename, first_line) matches Some(k) && 0 <= k
            < static_table().len() && static_table()[k].name == file_name_languages()[p].1,
{
    reveal_strlit(".bash_profile");
    reveal_strlit(".bashrc");
    reveal_strlit(".profile");
    reveal_strlit(".zshrc");
    reveal_strlit("Containerfile");
    reveal_strlit("Containerfile.");
    reveal_strlit("Dockerfile");
    reveal_strlit("Dockerfile.");
    reveal_strlit("PKGBUILD");
    reveal_strlit("bash");
    reveal_strlit("dockerfile");
    let t = static_table();
    let f = file_name_languages()[p].0;
    let k: int = seq![11, 11, 11, 11, 11, 15, 15][p];
    let at: int = seq![0, 1, 2, 3, 4, 0, 1][p];
    assert(t[k].filenames[at] == f);
    let q = by_file_name(f);
    assert(q(t[k]));
    assert forall|j: int| 0 <= j < k implies !q(#[trigger] t[j]) by {
        let x = t[j].filenames;
        assert forall|i: int| 0 <= i < x.len() implies x[i] != f by {
            if x[i].len() == f.len() {
                assert(x[i][0] != f[0] || x[i][1] != f[1] || x[i][2] != f[2]);
            }
        }
        assert(t[j].filename_prefixes.len() == 0);
    }
    lemma_first_where(t, q, k);
    assert(ready[k]);
}

/// A `#!` line naming python selects Python when no ready language claims
/// the file by its name or extension and Python is ready.
pub proof fn law_python_by_shebang(
    ready: Seq<bool>,
    filename: Seq<char>,
    line: Seq<char>,
    rest: Seq<char>,
)
    requires
        ready.len() == static_table().len(),
        forall|k: int| 0 <= k < static_table().len() && static_table()[k].name == "python"@ ==> ready[k],
        line == "#!"@ + rest,
        contains(ascii_lower_seq(rest), "python"@),
        !({
            let a = first_where(static_table(), by_file_name(basename(filename)));
            a < static_table().len() && ready[a]
        }),
        !({
            let b = match file_extension(basename(filename)) {
                Some(e) => first_where(static_table(), by_extension(ascii_lower_seq(e))),
                None => static_table().len() as int,
            };
            b < static_table().len() && ready[b]
        }),
    ensures
        static_lookup(static_table(), ready, filename, Some(line)) matches Some(k) && 0 <= k
            < static_table().len() && static_table()[k].name == "python"@,
{
    reveal_strlit("typescript");
    reveal_strlit("tsx");
    reveal_strlit("javascript");
    reveal_strlit("jsx");
    reveal_strlit("rust");
    reveal_strlit("json");
    reveal_strlit("python");
    reveal_strlit("#!");
    assert(line.subrange(0, 2) =~= "#!"@);
    assert(line.skip(2) =~= rest);
    let t = static_table();
    let q = by_name("python"@);
    assert(q(t[6]));
    assert forall|j: int| 0 <= j < 6 implies !q(#[trigger] t[j]) by {
        assert(t[j].name.len() != "python"@.len() || t[j].name[0] != 'p');
    }
    lemma_first_where(t, q, 6);
    assert(ready[6]);
}

} // verus!
