//! Languages added at run time: grammars the user installs under the
//! `syntax/` folder, how their files are recognised, and the bookkeeping of
//! which folders were already loaded.
//!
//! The folder holds `grammars/<lang>.so` and `queries/<lang>/highlights.scm`
//! (plus optional `injections.scm` and `locals.scm`), and an optional
//! `languages.yml` with extension, file-name and `#!` overrides.

use vstd::prelude::*;
use crate::order::{first_where, lemma_first_where};
use crate::pager::patterns::{
    any_lower_equal, any_prefix, any_word_within, by_file_name, has_lower_ext,
    has_word_within, listed, model_of, LangModel,
};
use crate::paths::{basename, basename_of, extension_of, file_extension};
use crate::text::{
    ascii_lower_of, ascii_lower_seq, lits, push_char, starts_with, starts_with_of, str_is,
    strings_from, strip_prefix, strip_prefix_of, strs, to_chars,
};

verus! {

/// Built-in recognition defaults for a language that can be installed.
pub struct KnownDynamic {
    pub name: String,
    pub extensions: Vec<String>,
    pub filenames: Vec<String>,
    pub filename_prefixes: Vec<String>,
    pub shebang: Vec<String>,
}

impl KnownDynamic {
    pub open spec fn model(&self) -> LangModel {
        LangModel {
            name: self.name@,
            extensions: strs(self.extensions@),
            filenames: strs(self.filenames@),
            filename_prefixes: strs(self.filename_prefixes@),
            shebang: strs(self.shebang@),
        }
    }
}

pub open spec fn known_models(v: Seq<KnownDynamic>) -> Seq<LangModel> {
    v.map_values(|k: KnownDynamic| k.model())
}

/// The installable languages and their defaults. (Built-in languages are
/// matched first, so `.h` stays with C.)
pub open spec fn known_table() -> Seq<LangModel> {
    seq![
        model_of("cpp", seq!["cpp", "hpp", "cc", "hh", "cxx", "hxx"], seq![], seq![], seq![]),
        model_of("c-sharp", seq!["cs", "csx"], seq![], seq![], seq![]),
        model_of("php", seq!["php", "phtml"], seq![], seq![], seq!["php"]),
        model_of(
            "ruby",
            seq!["rb", "rake", "gemspec"],
            seq!["Gemfile", "Rakefile", "Vagrantfile", "Brewfile", "Podfile"],
            seq![],
            seq!["ruby"],
        ),
        model_of("swift", seq!["swift"], seq![], seq![], seq![]),
    ]
}

fn one(s: &str) -> (r: Vec<String>)
    ensures
        strs(r@) == lits(seq![s]),
{
    let mut r: Vec<String> = Vec::new();
    r.push(String::from_str(s));
    assert(strs(r@) =~= lits(seq![s]));
    r
}

fn known_entry(
    name: &str,
    extensions: Vec<String>,
    filenames: Vec<String>,
    shebang: Vec<String>,
) -> (k: KnownDynamic)
    ensures
        k.model() == (LangModel {
            name: name@,
            extensions: strs(extensions@),
            filenames: strs(filenames@),
            filename_prefixes: Seq::empty(),
            shebang: strs(shebang@),
        }),
{
    let k = KnownDynamic {
        name: String::from_str(name),
        extensions,
        filenames,
        filename_prefixes: Vec::new(),
        shebang,
    };
    assert(strs(k.filename_prefixes@) =~= Seq::<Seq<char>>::empty());
    k
}

/// The installable languages, in lookup order.
pub fn known_dynamic() -> (r: Vec<KnownDynamic>)
    ensures
        known_models(r@) == known_table(),
{
    let none: &[&str] = &[];
    assert(none@ =~= Seq::<&str>::empty());
    assert(lits(Seq::<&str>::empty()) =~= Seq::<Seq<char>>::empty());
    let mut r: Vec<KnownDynamic> = Vec::new();
    r.push(
        known_entry(
            "cpp",
            strings_from(&["cpp", "hpp", "cc", "hh", "cxx", "hxx"]),
            strings_from(none),
            strings_from(none),
        ),
    );
    r.push(
        known_entry("c-sharp", strings_from(&["cs", "csx"]), strings_from(none), strings_from(none)),
    );
    r.push(
        known_entry("php", strings_from(&["php", "phtml"]), strings_from(none), one("php")),
    );
    r.push(
        known_entry(
            "ruby",
            strings_from(&["rb", "rake", "gemspec"]),
            strings_from(&["Gemfile", "Rakefile", "Vagrantfile", "Brewfile", "Podfile"]),
            one("ruby"),
        ),
    );
    r.push(known_entry("swift", one("swift"), strings_from(none), strings_from(none)));
    assert(r@.len() == 5);
    assert(known_models(r@)[0] == known_table()[0]);
    assert(known_models(r@)[1] == known_table()[1]);
    assert(known_models(r@)[2] == known_table()[2]);
    assert(known_models(r@)[3] == known_table()[3]);
    assert(known_models(r@)[4] == known_table()[4]);
    assert(known_models(r@) =~= known_table());
    r
}

/// The language with id `name`.
pub open spec fn named(name: Seq<char>) -> spec_fn(LangModel) -> bool {
    |m: LangModel| m.name == name
}

/// The defaults of installable language `name`, if it is one.
pub open spec fn known_spec(name: Seq<char>) -> Option<LangModel> {
    let i = first_where(known_table(), named(name));
    if i < known_table().len() {
        Some(known_table()[i])
    } else {
        None
    }
}

/// The defaults of installable language `name`, if it is one.
pub fn known(name: &str) -> (r: Option<KnownDynamic>)
    ensures
        match r {
            Some(k) => known_spec(name@) == Some(k.model()),
            None => known_spec(name@) is None,
        },
{
    let mut t = known_dynamic();
    let ghost ms = known_models(t@);
    let mut i: usize = 0;
    while i < t.len()
        invariant
            i <= t.len(),
            ms == known_models(t@),
            ms == known_table(),
            forall|j: int| 0 <= j < i ==> !named(name@)(#[trigger] ms[j]),
        decreases t.len() - i,
    {
        if str_is(t[i].name.as_str(), name) {
            assert(named(name@)(ms[i as int]));
            proof {
                lemma_first_where(ms, named(name@), i as int);
            }
            let k = t.remove(i);
            return Some(k);
        }
        assert(!named(name@)(ms[i as int]));
        i += 1;
    }
    proof {
        lemma_first_where(ms, named(name@), i as int);
    }
    None
}

/// Ids and extensions of the languages that can be installed from the menu.
pub fn known_langs() -> (r: Vec<(String, Vec<String>)>)
    ensures
        r@.len() == known_table().len(),
        forall|i: int|
            0 <= i < r@.len() ==> (#[trigger] r@[i]).0@ == known_table()[i].name && strs(r@[i].1@)
                == known_table()[i].extensions,
{
    let t = known_dynamic();
    let mut r: Vec<(String, Vec<String>)> = Vec::new();
    let mut i: usize = 0;
    while i < t.len()
        invariant
            i <= t.len(),
            known_models(t@) == known_table(),
            r@.len() == i,
            forall|j: int|
                0 <= j < i ==> (#[trigger] r@[j]).0@ == known_table()[j].name && strs(r@[j].1@)
                    == known_table()[j].extensions,
        decreases t.len() - i,
    {
        assert(known_models(t@)[i as int] == t@[i as int].model());
        let exts = clone_strings(&t[i].extensions);
        r.push((t[i].name.clone(), exts));
        i += 1;
    }
    r
}

/// A copy of a vector of strings.
pub fn clone_strings(v: &Vec<String>) -> (r: Vec<String>)
    ensures
        strs(r@) == strs(v@),
{
    let mut r: Vec<String> = Vec::new();
    let mut i: usize = 0;
    while i < v.len()
        invariant
            i <= v.len(),
            strs(r@) == strs(v@.take(i as int)),
        decreases v.len() - i,
    {
        let ghost before = strs(r@);
        r.push(v[i].clone());
        assert(strs(r@) =~= before.push(v@[i as int]@));
        i += 1;
        assert(strs(v@.take(i as int)) =~= strs(v@.take(i - 1)).push(v@[i - 1]@));
    }
    assert(v@.take(i as int) =~= v@);
    r
}

/// Where an installable language's grammar is fetched from; `None` for a
/// language that can only be added by hand.
pub open spec fn repo_spec(lang: Seq<char>) -> Option<Seq<char>> {
    if lang == "swift"@ {
        Some("https://github.com/alex-pinkus/tree-sitter-swift"@)
    } else if lang == "c-sharp"@ {
        Some("https://github.com/tree-sitter/tree-sitter-c-sharp"@)
    } else if lang == "cpp"@ || lang == "c++"@ {
        Some("https://github.com/tree-sitter/tree-sitter-cpp"@)
    } else if lang == "php"@ {
        Some("https://github.com/tree-sitter/tree-sitter-php"@)
    } else if lang == "ruby"@ {
        Some("https://github.com/tree-sitter/tree-sitter-ruby"@)
    } else {
        None
    }
}

/// The grammar repository of an installable language.
pub fn repo_for(lang: &str) -> (r: Option<&'static str>)
    ensures
        match r {
            Some(u) => repo_spec(lang@) == Some(u@),
            None => repo_spec(lang@) is None,
        },
{
    if str_is(lang, "swift") {
        Some("https://github.com/alex-pinkus/tree-sitter-swift")
    } else if str_is(lang, "c-sharp") {
        Some("https://github.com/tree-sitter/tree-sitter-c-sharp")
    } else if str_is(lang, "cpp") || str_is(lang, "c++") {
        Some("https://github.com/tree-sitter/tree-sitter-cpp")
    } else if str_is(lang, "php") {
        Some("https://github.com/tree-sitter/tree-sitter-php")
    } else if str_is(lang, "ruby") {
        Some("https://github.com/tree-sitter/tree-sitter-ruby")
    } else {
        None
    }
}

/// `-` replaced by `_`.
pub open spec fn sanitize_spec(name: Seq<char>) -> Seq<char> {
    name.map_values(|c: char| if c == '-' { '_' } else { c })
}

/// The language id with every `-` replaced by `_`.
pub fn sanitize(name: &str) -> (r: String)
    ensures
        r@ == sanitize_spec(name@),
{
    let v = to_chars(name);
    let mut r = String::new();
    let mut i: usize = 0;
    while i < v.len()
        invariant
            i <= v.len(),
            v@ == name@,
            r@ == sanitize_spec(v@.take(i as int)),
        decreases v.len() - i,
    {
        let c = if v[i] == '-' {
            '_'
        } else {
            v[i]
        };
        push_char(&mut r, c);
        i += 1;
        assert(sanitize_spec(v@.take(i as int)) =~= sanitize_spec(v@.take(i - 1)).push(c));
    }
    assert(v@.take(i as int) =~= v@);
    r
}

/// The suffix of the grammar's exported symbol `tree_sitter_<suffix>`.
pub open spec fn symbol_suffix_spec(lang: Seq<char>) -> Seq<char> {
    if lang == "c++"@ || lang == "cpp"@ {
        "cpp"@
    } else {
        sanitize_spec(lang)
    }
}

/// C symbol suffix for a language id (`tree_sitter_<suffix>`); `c++` is
/// never a C identifier, and its grammar exports `tree_sitter_cpp`.
pub fn symbol_suffix(lang: &str) -> (r: String)
    ensures
        r@ == symbol_suffix_spec(lang@),
{
    if str_is(lang, "c++") || str_is(lang, "cpp") {
        String::from_str("cpp")
    } else {
        sanitize(lang)
    }
}

} // verus!

verus! {

/// Where an installable language stands.
#[derive(Debug, Clone, PartialEq, Eq)]
pub enum InstallState {
    /// Loaded and working.
    Installed,
    /// Its files are there but did not load; holds the loader's message.
    Failed(String),
    /// Nothing installed yet.
    Missing,
}

/// Detection overrides for one language from `languages.yml`; a missing
/// list keeps the default.
#[derive(Debug, Clone)]
pub struct LangOverride {
    pub extensions: Option<Vec<String>>,
    pub filenames: Option<Vec<String>>,
    pub filename_prefixes: Option<Vec<String>>,
    pub shebang: Option<Vec<String>>,
}

pub open spec fn opt_strs(o: Option<Vec<String>>) -> Option<Seq<Seq<char>>> {
    match o {
        Some(v) => Some(strs(v@)),
        None => None,
    }
}

impl LangOverride {
    /// No overrides.
    pub fn empty() -> (r: LangOverride)
        ensures
            r.extensions is None && r.filenames is None && r.filename_prefixes is None
                && r.shebang is None,
    {
        LangOverride { extensions: None, filenames: None, filename_prefixes: None, shebang: None }
    }
}

/// A loaded user language and the files it highlights.
#[derive(Debug, Clone)]
pub struct DynamicEntry {
    pub name: String,
    pub extensions: Vec<String>,
    pub filenames: Vec<String>,
    pub filename_prefixes: Vec<String>,
    /// Lowercase words looked for in a `#!` line.
    pub shebang: Vec<String>,
}

impl DynamicEntry {
    pub open spec fn model(&self) -> LangModel {
        LangModel {
            name: self.name@,
            extensions: strs(self.extensions@),
            filenames: strs(self.filenames@),
            filename_prefixes: strs(self.filename_prefixes@),
            shebang: strs(self.shebang@),
        }
    }
}

pub open spec fn entry_models(v: Seq<DynamicEntry>) -> Seq<LangModel> {
    v.map_values(|e: DynamicEntry| e.model())
}

/// The override when there is one; else the built-in default when it is not
/// empty; else `fallback`.
pub open spec fn pick_patterns(
    ov: Option<Seq<Seq<char>>>,
    known: Seq<Seq<char>>,
    fallback: Seq<Seq<char>>,
) -> Seq<Seq<char>> {
    match ov {
        Some(v) => v,
        None => if known.len() == 0 {
            fallback
        } else {
            known
        },
    }
}

/// The built-in defaults of `lang` for one kind of pattern (empty when it
/// has none).
pub open spec fn known_field(lang: Seq<char>, f: spec_fn(LangModel) -> Seq<Seq<char>>) -> Seq<
    Seq<char>,
> {
    match known_spec(lang) {
        Some(m) => f(m),
        None => Seq::empty(),
    }
}

/// What a language that loaded recognises: each kind of pattern from the
/// override, else the built-in default, else (for extensions) the id itself;
/// `#!` words lowercased.
pub open spec fn entry_model(lang: Seq<char>, ov: LangOverride) -> LangModel {
    LangModel {
        name: lang,
        extensions: pick_patterns(
            opt_strs(ov.extensions),
            known_field(lang, |m: LangModel| m.extensions),
            seq![lang],
        ),
        filenames: pick_patterns(
            opt_strs(ov.filenames),
            known_field(lang, |m: LangModel| m.filenames),
            Seq::empty(),
        ),
        filename_prefixes: pick_patterns(
            opt_strs(ov.filename_prefixes),
            known_field(lang, |m: LangModel| m.filename_prefixes),
            Seq::empty(),
        ),
        shebang: pick_patterns(
            opt_strs(ov.shebang),
            known_field(lang, |m: LangModel| m.shebang),
            Seq::empty(),
        ).map_values(|w: Seq<char>| ascii_lower_seq(w)),
    }
}

fn pick(ov: &Option<Vec<String>>, known: &Vec<String>, fallback: Vec<String>) -> (r: Vec<String>)
    ensures
        strs(r@) == pick_patterns(opt_strs(*ov), strs(known@), strs(fallback@)),
{
    match ov {
        Some(v) => clone_strings(v),
        None => if known.len() == 0 {
            fallback
        } else {
            clone_strings(known)
        },
    }
}

fn lower_all(v: &Vec<String>) -> (r: Vec<String>)
    ensures
        strs(r@) == strs(v@).map_values(|w: Seq<char>| ascii_lower_seq(w)),
{
    let mut r: Vec<String> = Vec::new();
    let mut i: usize = 0;
    while i < v.len()
        invariant
            i <= v.len(),
            strs(r@) == strs(v@.take(i as int)).map_values(|w: Seq<char>| ascii_lower_seq(w)),
        decreases v.len() - i,
    {
        let c = to_chars(v[i].as_str());
        let l = ascii_lower_of(&c);
        let ghost before = strs(r@);
        r.push(crate::text::from_chars(l.as_slice()));
        assert(strs(r@) =~= before.push(ascii_lower_seq(v@[i as int]@)));
        i += 1;
        assert(strs(v@.take(i as int)).map_values(|w: Seq<char>| ascii_lower_seq(w))
            =~= strs(v@.take(i - 1)).map_values(|w: Seq<char>| ascii_lower_seq(w)).push(
            ascii_lower_seq(v@[i - 1]@),
        ));
    }
    assert(v@.take(i as int) =~= v@);
    r
}

/// The entry of a language whose grammar and queries loaded, with the
/// overrides `ov` applied over the built-in defaults.
pub fn entry_for(lang: &str, ov: &LangOverride) -> (e: DynamicEntry)
    ensures
        e.model() == entry_model(lang@, *ov),
{
    let k = known(lang);
    let empty: Vec<String> = Vec::new();
    assert(strs(empty@) =~= Seq::<Seq<char>>::empty());
    let (kx, kf, kp, ks) = match k {
        Some(k) => (k.extensions, k.filenames, k.filename_prefixes, k.shebang),
        None => (Vec::new(), Vec::new(), Vec::new(), Vec::new()),
    };
    assert(strs(kx@) == known_field(lang@, |m: LangModel| m.extensions));
    assert(strs(kf@) == known_field(lang@, |m: LangModel| m.filenames));
    assert(strs(kp@) == known_field(lang@, |m: LangModel| m.filename_prefixes));
    assert(strs(ks@) == known_field(lang@, |m: LangModel| m.shebang));
    let mut own: Vec<String> = Vec::new();
    own.push(String::from_str(lang));
    assert(strs(own@) =~= seq![lang@]);
    let extensions = pick(&ov.extensions, &kx, own);
    let filenames = pick(&ov.filenames, &kf, Vec::new());
    let filename_prefixes = pick(&ov.filename_prefixes, &kp, Vec::new());
    let words = pick(&ov.shebang, &ks, Vec::new());
    let shebang = lower_all(&words);
    DynamicEntry { name: String::from_str(lang), extensions, filenames, filename_prefixes, shebang }
}

} // verus!

verus! {

/// Which user languages are loaded, which failed (with their messages), and
/// which language folders were already tried.
pub struct ScanState {
    pub entries: Vec<DynamicEntry>,
    pub errors: Vec<String>,
    pub attempted: Vec<String>,
}

/// The names of a sequence of entries.
pub open spec fn entry_names(v: Seq<DynamicEntry>) -> Seq<Seq<char>> {
    v.map_values(|e: DynamicEntry| e.name@)
}

/// A message about language `lang`: it starts with the id and a colon.
pub open spec fn about(lang: Seq<char>) -> spec_fn(Seq<char>) -> bool {
    |e: Seq<char>| starts_with(e, lang + ":"@)
}

/// `s` without the names already in `seen`, and without repeats, in order.
pub open spec fn fresh_names(s: Seq<Seq<char>>, seen: Seq<Seq<char>>) -> Seq<Seq<char>>
    decreases s.len(),
{
    if s.len() == 0 {
        Seq::empty()
    } else if seen.contains(s[0]) {
        fresh_names(s.drop_first(), seen)
    } else {
        seq![s[0]] + fresh_names(s.drop_first(), seen.push(s[0]))
    }
}

/// Names paired with their positions.
pub open spec fn indexed(s: Seq<Seq<char>>) -> Seq<(Seq<char>, usize)> {
    Seq::new(s.len(), |i: int| (s[i], i as usize))
}

/// The names in ascending order.
pub open spec fn sorted_names(s: Seq<Seq<char>>) -> Seq<Seq<char>> {
    crate::order::sort_keyed(indexed(s)).map_values(|p: (Seq<char>, usize)| p.0)
}

/// Message `e` is about a language of `tried` that is not among `names`.
pub open spec fn explained(e: Seq<char>, tried: Seq<Seq<char>>, names: Seq<Seq<char>>) -> bool {
    exists|j: int| 0 <= j < tried.len() && about(#[trigger] tried[j])(e) && !names.contains(tried[j])
}

impl ScanState {
    /// What every scan keeps: each folder is tried once, each loaded
    /// language was tried and is loaded once, and each message reads
    /// `<lang>: <detail>` for a tried language that did not load.
    pub open spec fn wf(&self) -> bool {
        let tried = strs(self.attempted@);
        let names = entry_names(self.entries@);
        &&& tried.no_duplicates()
        &&& names.no_duplicates()
        &&& forall|i: int| 0 <= i < names.len() ==> tried.contains(#[trigger] names[i])
        &&& forall|k: int|
            0 <= k < self.errors@.len() ==> explained(#[trigger] self.errors@[k]@, tried, names)
    }

    /// Nothing loaded or tried yet.
    pub fn new() -> (r: ScanState)
        ensures
            r.entries@.len() == 0,
            r.errors@.len() == 0,
            r.attempted@.len() == 0,
            r.wf(),
    {
        ScanState { entries: Vec::new(), errors: Vec::new(), attempted: Vec::new() }
    }

    /// Forgets everything, so that the next scan tries every folder again.
    pub fn reset(&mut self)
        ensures
            final(self).entries@.len() == 0,
            final(self).errors@.len() == 0,
            final(self).attempted@.len() == 0,
            final(self).wf(),
    {
        self.entries = Vec::new();
        self.errors = Vec::new();
        self.attempted = Vec::new();
    }

    /// The language folders of `found` to try now: those never tried before,
    /// each once, in ascending order.
    pub fn plan(&self, found: &Vec<String>) -> (r: Vec<String>)
        ensures
            strs(r@) == fresh_names(sorted_names(strs(found@)), strs(self.attempted@)),
    {
        let mut pairs: Vec<(String, usize)> = Vec::new();
        let mut i: usize = 0;
        while i < found.len()
            invariant
                i <= found.len(),
                crate::order::keyed_views(pairs@) == indexed(strs(found@)).take(i as int),
            decreases found.len() - i,
        {
            let ghost before = crate::order::keyed_views(pairs@);
            pairs.push((found[i].clone(), i));
            assert(crate::order::keyed_views(pairs@) =~= before.push((found@[i as int]@, i)));
            i += 1;
            assert(indexed(strs(found@)).take(i as int) =~= indexed(strs(found@)).take(i - 1).push(
                (found@[i - 1]@, (i - 1) as usize),
            ));
        }
        assert(indexed(strs(found@)).take(i as int) =~= indexed(strs(found@)));
        let sorted = crate::order::sort_by_key(&pairs);
        let ghost names = sorted_names(strs(found@));
        assert(names =~= crate::order::keyed_views(sorted@).map_values(
            |p: (Seq<char>, usize)| p.0,
        ));
        let mut seen = clone_strings(&self.attempted);
        let mut r: Vec<String> = Vec::new();
        let mut k: usize = 0;
        assert(names.skip(0) =~= names);
        assert(strs(r@) + fresh_names(names, strs(seen@)) =~= fresh_names(names, strs(self.attempted@)));
        while k < sorted.len()
            invariant
                k <= sorted.len(),
                names.len() == sorted@.len(),
                forall|j: int| 0 <= j < names.len() ==> #[trigger] names[j] == sorted@[j].0@,
                strs(r@) + fresh_names(names.skip(k as int), strs(seen@)) == fresh_names(
                    names,
                    strs(self.attempted@),
                ),
            decreases sorted.len() - k,
        {
            let name = sorted[k].0.clone();
            let ghost rest = names.skip(k as int);
            assert(rest[0] == name@);
            assert(rest.drop_first() =~= names.skip(k + 1));
            if !crate::text::contains_string(&seen, &name) {
                let ghost before_r = strs(r@);
                let ghost before_seen = strs(seen@);
                r.push(name.clone());
                seen.push(name);
                assert(strs(r@) =~= before_r.push(rest[0]));
                assert(strs(seen@) =~= before_seen.push(rest[0]));
                assert(strs(r@) + fresh_names(names.skip(k + 1), strs(seen@)) =~= before_r + (seq![
                    rest[0],
                ] + fresh_names(rest.drop_first(), before_seen.push(rest[0]))));
            }
            k += 1;
        }
        assert(names.skip(k as int) =~= Seq::<Seq<char>>::empty());
        assert(strs(r@) + Seq::<Seq<char>>::empty() =~= strs(r@));
        r
    }

    /// Records one tried folder: the entry when it loaded, the message when
    /// it failed.
    pub fn record(&mut self, lang: String, entry: Option<DynamicEntry>, error: Option<String>)
        ensures
            strs(final(self).attempted@) == strs(old(self).attempted@).push(lang@),
            final(self).entries@ == (match entry {
                Some(e) => old(self).entries@.push(e),
                None => old(self).entries@,
            }),
            final(self).errors@ == (match error {
                Some(e) => old(self).errors@.push(e),
                None => old(self).errors@,
            }),
            ({
                &&& old(self).wf()
                &&& !strs(old(self).attempted@).contains(lang@)
                &&& entry matches Some(e) ==> e.name@ == lang@
                &&& error matches Some(m) ==> about(lang@)(m@)
                &&& !(entry is Some && error is Some)
            }) ==> final(self).wf(),
    {
        let ghost old_tried = strs(self.attempted@);
        let ghost old_names = entry_names(self.entries@);
        let ghost old_errors = self.errors@;
        let ghost lang_v = lang@;
        let ghost entry_is_some = entry is Some;
        let ghost entry_ok = entry is Some ==> entry.unwrap().name@ == lang@;
        let ghost error_ok = error is Some ==> about(lang@)(error.unwrap()@);
        let ghost both = entry is Some && error is Some;
        let ghost before = strs(self.attempted@);
        self.attempted.push(lang);
        assert(strs(self.attempted@) =~= before.push(lang@));
        match entry {
            Some(e) => self.entries.push(e),
            None => {},
        }
        match error {
            Some(e) => self.errors.push(e),
            None => {},
        }
        proof {
            let tried = strs(self.attempted@);
            let names = entry_names(self.entries@);
            if old_tried.no_duplicates() && !old_tried.contains(lang_v) && (forall|i: int|
                0 <= i < old_names.len() ==> old_tried.contains(#[trigger] old_names[i]))
                && entry_ok && error_ok && !both {
                assert(tried =~= old_tried.push(lang_v));
                assert(!old_names.contains(lang_v));
                if entry_is_some {
                    assert(names =~= old_names.push(lang_v));
                } else {
                    assert(names =~= old_names);
                }
                assert forall|i: int| 0 <= i < names.len() implies tried.contains(
                    #[trigger] names[i],
                ) by {
                    if i < old_names.len() {
                        assert(names[i] == old_names[i]);
                        let w = choose|w: int| 0 <= w < old_tried.len() && old_tried[w] == old_names[i];
                        assert(tried[w] == names[i]);
                    } else {
                        assert(tried[old_tried.len() as int] == lang_v);
                    }
                }
                assert forall|k: int| 0 <= k < old_errors.len() && explained(
                    old_errors[k]@,
                    old_tried,
                    old_names,
                ) implies explained(old_errors[k]@, tried, names) by {
                    let j = choose|j: int|
                        0 <= j < old_tried.len() && about(#[trigger] old_tried[j])(old_errors[k]@)
                            && !old_names.contains(old_tried[j]);
                    assert(tried[j] == old_tried[j]);
                    assert(old_tried.contains(old_tried[j]));
                    assert(!names.contains(tried[j]));
                }
                if !entry_is_some {
                    let j = old_tried.len() as int;
                    assert(tried[j] == lang_v);
                }
            }
        }
    }

    /// Names of the loaded languages and the loader's messages.
    pub fn installed(&self) -> (r: (Vec<String>, Vec<String>))
        ensures
            strs(r.0@) == entry_names(self.entries@),
            strs(r.1@) == strs(self.errors@),
            self.wf() ==> strs(r.0@).no_duplicates(),
            self.wf() ==> forall|k: int|
                0 <= k < r.1@.len() ==> explained(
                    #[trigger] r.1@[k]@,
                    strs(self.attempted@),
                    strs(r.0@),
                ),
    {
        let mut names: Vec<String> = Vec::new();
        let mut i: usize = 0;
        while i < self.entries.len()
            invariant
                i <= self.entries.len(),
                strs(names@) == entry_names(self.entries@.take(i as int)),
            decreases self.entries.len() - i,
        {
            let ghost before = strs(names@);
            names.push(self.entries[i].name.clone());
            assert(strs(names@) =~= before.push(self.entries@[i as int].name@));
            i += 1;
            assert(entry_names(self.entries@.take(i as int)) =~= entry_names(
                self.entries@.take(i - 1),
            ).push(self.entries@[i - 1].name@));
        }
        assert(self.entries@.take(i as int) =~= self.entries@);
        let errors = clone_strings(&self.errors);
        assert(strs(errors@).len() == errors@.len());
        assert(strs(self.errors@).len() == self.errors@.len());
        assert(strs(names@) == entry_names(self.entries@));
        assert forall|k: int| 0 <= k < errors@.len() implies #[trigger] errors@[k]@
            == self.errors@[k]@ by {
            assert(strs(errors@)[k] == strs(self.errors@)[k]);
        }
        (names, errors)
    }
}

/// Where language `lang` stands: installed when an entry has its name;
/// else failed with the first message that starts with its id and a colon;
/// else missing.
pub fn install_state(st: &ScanState, lang: &str) -> (r: InstallState)
    ensures
        match r {
            InstallState::Installed => entry_names(st.entries@).contains(lang@),
            InstallState::Failed(e) => {
                &&& !entry_names(st.entries@).contains(lang@)
                &&& first_where(strs(st.errors@), about(lang@)) < st.errors@.len()
                &&& e@ == st.errors@[first_where(strs(st.errors@), about(lang@))]@
            },
            InstallState::Missing => {
                &&& !entry_names(st.entries@).contains(lang@)
                &&& first_where(strs(st.errors@), about(lang@)) == st.errors@.len()
            },
        },
{
    let l = to_chars(lang);
    let mut i: usize = 0;
    while i < st.entries.len()
        invariant
            i <= st.entries.len(),
            l@ == lang@,
            forall|j: int| 0 <= j < i ==> #[trigger] entry_names(st.entries@)[j] != lang@,
        decreases st.entries.len() - i,
    {
        if str_is(st.entries[i].name.as_str(), lang) {
            assert(entry_names(st.entries@)[i as int] == lang@);
            return InstallState::Installed;
        }
        i += 1;
    }
    assert(!entry_names(st.entries@).contains(lang@));
    let l = to_chars(concat(lang, ":").as_str());
    let ghost es = strs(st.errors@);
    let mut k: usize = 0;
    while k < st.errors.len()
        invariant
            k <= st.errors.len(),
            l@ == lang@ + ":"@,
            es == strs(st.errors@),
            !entry_names(st.entries@).contains(lang@),
            forall|j: int| 0 <= j < k ==> !about(lang@)(#[trigger] es[j]),
        decreases st.errors.len() - k,
    {
        let e = to_chars(st.errors[k].as_str());
        if starts_with_of(&e, &l) {
            assert(about(lang@)(es[k as int]));
            proof {
                lemma_first_where(es, about(lang@), k as int);
            }
            let msg = st.errors[k].clone();
            assert(first_where(strs(st.errors@), about(lang@)) == k);
            assert(msg@ == st.errors@[k as int]@);
            return InstallState::Failed(msg);
        }
        assert(!about(lang@)(es[k as int]));
        k += 1;
    }
    proof {
        lemma_first_where(es, about(lang@), k as int);
    }
    InstallState::Missing
}

} // verus!

verus! {

/// A language listing extension `ext` in some letter case.
pub open spec fn by_lower_ext(ext: Seq<char>) -> spec_fn(LangModel) -> bool {
    |m: LangModel| has_lower_ext(m.extensions, ext)
}

/// A language one of whose `#!` words occurs in `rest`.
pub open spec fn by_shebang(rest: Seq<char>) -> spec_fn(LangModel) -> bool {
    |m: LangModel| has_word_within(m.shebang, rest)
}

/// Which loaded language highlights `filename` (first line `first_line`):
/// the first whose file names take the base name, else the first with its
/// lowercased extension, else the first one of whose `#!` words the
/// lowercased interpreter line contains.
pub open spec fn dynamic_lookup(
    ms: Seq<LangModel>,
    filename: Seq<char>,
    first_line: Option<Seq<char>>,
) -> Option<int> {
    let base = basename(filename);
    let a = first_where(ms, by_file_name(base));
    if a < ms.len() {
        Some(a)
    } else {
        let b = match file_extension(base) {
            Some(e) => first_where(ms, by_lower_ext(ascii_lower_seq(e))),
            None => ms.len() as int,
        };
        if b < ms.len() {
            Some(b)
        } else {
            match first_line {
                Some(l) => match strip_prefix(l, "#!"@) {
                    Some(rest) => {
                        let c = first_where(ms, by_shebang(ascii_lower_seq(rest)));
                        if c < ms.len() {
                            Some(c)
                        } else {
                            None
                        }
                    },
                    None => None,
                },
                None => None,
            }
        }
    }
}

fn first_dyn_file_name(t: &Vec<DynamicEntry>, base: &Vec<char>) -> (r: usize)
    ensures
        r == first_where(entry_models(t@), by_file_name(base@)),
{
    let ghost ms = entry_models(t@);
    let mut i: usize = 0;
    while i < t.len()
        invariant
            i <= t.len(),
            ms == entry_models(t@),
            forall|j: int| 0 <= j < i ==> !by_file_name(base@)(#[trigger] ms[j]),
        decreases t.len() - i,
    {
        if listed(&t[i].filenames, base) || any_prefix(&t[i].filename_prefixes, base) {
            assert(by_file_name(base@)(ms[i as int]));
            proof {
                lemma_first_where(ms, by_file_name(base@), i as int);
            }
            return i;
        }
        assert(!by_file_name(base@)(ms[i as int]));
        i += 1;
    }
    proof {
        lemma_first_where(ms, by_file_name(base@), i as int);
    }
    i
}

fn first_dyn_extension(t: &Vec<DynamicEntry>, ext: &Vec<char>) -> (r: usize)
    ensures
        r == first_where(entry_models(t@), by_lower_ext(ext@)),
{
    let ghost ms = entry_models(t@);
    let mut i: usize = 0;
    while i < t.len()
        invariant
            i <= t.len(),
            ms == entry_models(t@),
            forall|j: int| 0 <= j < i ==> !by_lower_ext(ext@)(#[trigger] ms[j]),
        decreases t.len() - i,
    {
        if any_lower_equal(&t[i].extensions, ext) {
            assert(by_lower_ext(ext@)(ms[i as int]));
            proof {
                lemma_first_where(ms, by_lower_ext(ext@), i as int);
            }
            return i;
        }
        assert(!by_lower_ext(ext@)(ms[i as int]));
        i += 1;
    }
    proof {
        lemma_first_where(ms, by_lower_ext(ext@), i as int);
    }
    i
}

fn first_dyn_shebang(t: &Vec<DynamicEntry>, rest: &Vec<char>) -> (r: usize)
    ensures
        r == first_where(entry_models(t@), by_shebang(rest@)),
{
    let ghost ms = entry_models(t@);
    let mut i: usize = 0;
    while i < t.len()
        invariant
            i <= t.len(),
            ms == entry_models(t@),
            forall|j: int| 0 <= j < i ==> !by_shebang(rest@)(#[trigger] ms[j]),
        decreases t.len() - i,
    {
        if any_word_within(&t[i].shebang, rest) {
            assert(by_shebang(rest@)(ms[i as int]));
            proof {
                lemma_first_where(ms, by_shebang(rest@), i as int);
            }
            return i;
        }
        assert(!by_shebang(rest@)(ms[i as int]));
        i += 1;
    }
    proof {
        lemma_first_where(ms, by_shebang(rest@), i as int);
    }
    i
}

/// Index of the loaded language that highlights `filename`, if any.
pub fn find_in(entries: &Vec<DynamicEntry>, filename: &str, first_line: Option<&str>) -> (r:
    Option<usize>)
    ensures
        match dynamic_lookup(
            entry_models(entries@),
            filename@,
            crate::pager::languages::opt_view(first_line),
        ) {
            Some(i) => r == Some(i as usize),
            None => r is None,
        },
        r matches Some(i) ==> i < entries@.len(),
{
    let path = to_chars(filename);
    let base = basename_of(&path);
    let a = first_dyn_file_name(entries, &base);
    if a < entries.len() {
        return Some(a);
    }
    let b = match extension_of(&base) {
        Some(e) => {
            let lower = ascii_lower_of(&e);
            first_dyn_extension(entries, &lower)
        },
        None => entries.len(),
    };
    if b < entries.len() {
        return Some(b);
    }
    match first_line {
        Some(l) => {
            let line = to_chars(l);
            let mark = to_chars("#!");
            match strip_prefix_of(&line, &mark) {
                Some(rest) => {
                    let lower = ascii_lower_of(&rest);
                    let c = first_dyn_shebang(entries, &lower);
                    if c < entries.len() {
                        Some(c)
                    } else {
                        None
                    }
                },
                None => None,
            }
        },
        None => None,
    }
}

/// `a` followed by `b`.
pub fn concat(a: &str, b: &str) -> (r: String)
    ensures
        r@ == a@ + b@,
{
    let mut r = String::from_str(a);
    let v = to_chars(b);
    crate::text::append_chars(&mut r, &v);
    r
}

/// The grammar library file names tried for `lang`, in order:
/// `<lang>.so`, `<lang with _ for ->.so`, `libtree-sitter-<lang>.so`.
pub fn library_candidates(lang: &str) -> (r: Vec<String>)
    ensures
        strs(r@) == seq![lang@ + ".so"@, sanitize_spec(lang@) + ".so"@, "libtree-sitter-"@ + lang@ + ".so"@],
{
    let mut r: Vec<String> = Vec::new();
    r.push(concat(lang, ".so"));
    let flat = sanitize(lang);
    r.push(concat(flat.as_str(), ".so"));
    let lib = concat("libtree-sitter-", lang);
    r.push(concat(lib.as_str(), ".so"));
    assert(strs(r@) =~= seq![lang@ + ".so"@, sanitize_spec(lang@) + ".so"@, "libtree-sitter-"@ + lang@ + ".so"@]);
    r
}

/// The symbol a grammar library exports for `lang`.
pub fn symbol_name(lang: &str) -> (r: String)
    ensures
        r@ == "tree_sitter_"@ + symbol_suffix_spec(lang@),
{
    let suffix = symbol_suffix(lang);
    concat("tree_sitter_", suffix.as_str())
}

/// A loader message about `lang`: its id, `: `, then `detail`.
pub fn lang_message(lang: &str, detail: &str) -> (r: String)
    ensures
        r@ == lang@ + ": "@ + detail@,
{
    let head = concat(lang, ": ");
    concat(head.as_str(), detail)
}

} // verus!

verus! {

proof fn lemma_fresh_covers(s: Seq<Seq<char>>, seen: Seq<Seq<char>>, x: Seq<char>)
    requires
        s.contains(x),
    ensures
        seen.contains(x) || fresh_names(s, seen).contains(x),
    decreases s.len(),
{
    if s[0] == x {
        if !seen.contains(x) {
            assert(fresh_names(s, seen)[0] == x);
        }
    } else {
        let j = choose|j: int| 0 <= j < s.len() && s[j] == x;
        assert(s.drop_first()[j - 1] == x);
        if seen.contains(s[0]) {
            lemma_fresh_covers(s.drop_first(), seen, x);
        } else {
            lemma_fresh_covers(s.drop_first(), seen.push(s[0]), x);
            let rest = fresh_names(s.drop_first(), seen.push(s[0]));
            if rest.contains(x) {
                let k = choose|k: int| 0 <= k < rest.len() && rest[k] == x;
                assert((seq![s[0]] + rest)[k + 1] == x);
            } else {
                let k = choose|k: int| 0 <= k < seen.push(s[0]).len() && seen.push(s[0])[k] == x;
                assert(k < seen.len());
                assert(seen[k] == x);
            }
        }
    }
}

proof fn lemma_fresh_empty(s: Seq<Seq<char>>, seen: Seq<Seq<char>>)
    requires
        forall|j: int| 0 <= j < s.len() ==> seen.contains(#[trigger] s[j]),
    ensures
        fresh_names(s, seen) == Seq::<Seq<char>>::empty(),
    decreases s.len(),
{
    if s.len() > 0 {
        assert(seen.contains(s[0]));
        assert forall|j: int| 0 <= j < s.drop_first().len() implies seen.contains(
            #[trigger] s.drop_first()[j],
        ) by {
            assert(s.drop_first()[j] == s[j + 1]);
        }
        lemma_fresh_empty(s.drop_first(), seen);
    }
}

/// Scanning twice tries nothing new: once every folder a plan returned has
/// been recorded as tried, planning again over the same folders returns
/// nothing.
pub proof fn law_plan_idempotent(found: Seq<Seq<char>>, attempted: Seq<Seq<char>>)
    ensures
        fresh_names(
            sorted_names(found),
            attempted + fresh_names(sorted_names(found), attempted),
        ) == Seq::<Seq<char>>::empty(),
{
    let s = sorted_names(found);
    let p = fresh_names(s, attempted);
    assert forall|j: int| 0 <= j < s.len() implies (attempted + p).contains(#[trigger] s[j]) by {
        lemma_fresh_covers(s, attempted, s[j]);
        if attempted.contains(s[j]) {
            let k = choose|k: int| 0 <= k < attempted.len() && attempted[k] == s[j];
            assert((attempted + p)[k] == s[j]);
        } else {
            let k = choose|k: int| 0 <= k < p.len() && p[k] == s[j];
            assert((attempted + p)[attempted.len() + k] == s[j]);
        }
    }
    lemma_fresh_empty(s, attempted + p);
}

proof fn lemma_fresh_new(s: Seq<Seq<char>>, seen: Seq<Seq<char>>)
    ensures
        forall|j: int| 0 <= j < fresh_names(s, seen).len() ==> !seen.contains(#[trigger] fresh_names(s, seen)[j]),
        forall|i: int, j: int|
            0 <= i < j < fresh_names(s, seen).len() ==> fresh_names(s, seen)[i] != fresh_names(s, seen)[j],
    decreases s.len(),
{
    if s.len() == 0 {
        assert(fresh_names(s, seen).len() == 0);
    } else {
        if seen.contains(s[0]) {
            lemma_fresh_new(s.drop_first(), seen);
            assert(fresh_names(s, seen) == fresh_names(s.drop_first(), seen));
        } else {
            let t = seen.push(s[0]);
            lemma_fresh_new(s.drop_first(), t);
            let rest = fresh_names(s.drop_first(), t);
            let f = fresh_names(s, seen);
            assert(f == seq![s[0]] + rest);
            assert forall|j: int| 0 <= j < f.len() implies !seen.contains(#[trigger] f[j]) by {
                if j > 0 {
                    assert(f[j] == rest[j - 1]);
                    assert(!t.contains(rest[j - 1]));
                    if seen.contains(f[j]) {
                        let k = choose|k: int| 0 <= k < seen.len() && seen[k] == f[j];
                        assert(t[k] == f[j]);
                    }
                }
            }
            assert forall|i: int, j: int| 0 <= i < j < f.len() implies f[i] != f[j] by {
                assert(f[j] == rest[j - 1]);
                if i == 0 {
                    assert(t[seen.len() as int] == s[0]);
                    assert(!t.contains(rest[j - 1]));
                } else {
                    assert(f[i] == rest[i - 1]);
                }
            }
        }
    }
}

/// A plan never returns a folder already tried, nor any folder twice.
pub proof fn law_plan_fresh(found: Seq<Seq<char>>, attempted: Seq<Seq<char>>)
    ensures
        forall|j: int|
            0 <= j < fresh_names(sorted_names(found), attempted).len() ==> !attempted.contains(
                #[trigger] fresh_names(sorted_names(found), attempted)[j],
            ),
        forall|i: int, j: int|
            0 <= i < j < fresh_names(sorted_names(found), attempted).len() ==> fresh_names(
                sorted_names(found),
                attempted,
            )[i] != fresh_names(sorted_names(found), attempted)[j],
{
    lemma_fresh_new(sorted_names(found), attempted);
}

} // verus!
