//! How a language recognises its files: exact names, name prefixes,
//! extensions and `#!` interpreter lines.

use vstd::prelude::*;
use crate::text::{
    ascii_lower_of, ascii_lower_seq, contains, contains_of, lits, starts_with, starts_with_of, strs,
    to_chars,
};

verus! {

/// A language's recognition patterns as character sequences.
pub struct LangModel {
    pub name: Seq<char>,
    pub extensions: Seq<Seq<char>>,
    pub filenames: Seq<Seq<char>>,
    pub filename_prefixes: Seq<Seq<char>>,
    pub shebang: Seq<Seq<char>>,
}

/// The model of a language given by literals.
pub open spec fn model_of(
    name: &str,
    extensions: Seq<&str>,
    filenames: Seq<&str>,
    filename_prefixes: Seq<&str>,
    shebang: Seq<&str>,
) -> LangModel {
    LangModel {
        name: name@,
        extensions: lits(extensions),
        filenames: lits(filenames),
        filename_prefixes: lits(filename_prefixes),
        shebang: lits(shebang),
    }
}

/// `base` starts with one of `prefixes`.
pub open spec fn has_listed_prefix(prefixes: Seq<Seq<char>>, base: Seq<char>) -> bool {
    exists|j: int| 0 <= j < prefixes.len() && starts_with(base, #[trigger] prefixes[j])
}

/// `base` is one of the language's file names or starts with one of its
/// name prefixes.
pub open spec fn matches_file_name(m: LangModel, base: Seq<char>) -> bool {
    m.filenames.contains(base) || has_listed_prefix(m.filename_prefixes, base)
}

/// A language whose file names or name prefixes take `base`.
pub open spec fn by_file_name(base: Seq<char>) -> spec_fn(LangModel) -> bool {
    |m: LangModel| matches_file_name(m, base)
}

/// One of `exts`, lowercased, equals `ext`.
pub open spec fn has_lower_ext(exts: Seq<Seq<char>>, ext: Seq<char>) -> bool {
    exists|j: int| 0 <= j < exts.len() && ascii_lower_seq(#[trigger] exts[j]) == ext
}

/// One of `words` is non-empty and occurs in `rest`.
pub open spec fn has_word_within(words: Seq<Seq<char>>, rest: Seq<char>) -> bool {
    exists|j: int| 0 <= j < words.len() && (#[trigger] words[j]).len() > 0 && contains(rest, words[j])
}

/// Whether one of `names` equals `x`.
pub fn listed(names: &Vec<String>, x: &Vec<char>) -> (r: bool)
    ensures
        r == strs(names@).contains(x@),
{
    let mut i: usize = 0;
    while i < names.len()
        invariant
            i <= names.len(),
            forall|j: int| 0 <= j < i ==> strs(names@)[j] != x@,
        decreases names.len() - i,
    {
        let n = to_chars(names[i].as_str());
        if crate::text::vec_eq(&n, x) {
            assert(strs(names@)[i as int] == x@);
            return true;
        }
        i += 1;
    }
    false
}

/// Whether `x` starts with one of `prefixes`.
pub fn any_prefix(prefixes: &Vec<String>, x: &Vec<char>) -> (r: bool)
    ensures
        r == has_listed_prefix(strs(prefixes@), x@),
{
    let mut i: usize = 0;
    while i < prefixes.len()
        invariant
            i <= prefixes.len(),
            forall|j: int| 0 <= j < i ==> !starts_with(x@, #[trigger] strs(prefixes@)[j]),
        decreases prefixes.len() - i,
    {
        let p = to_chars(prefixes[i].as_str());
        if starts_with_of(x, &p) {
            assert(starts_with(x@, strs(prefixes@)[i as int]));
            return true;
        }
        i += 1;
    }
    false
}

/// Whether one of `exts`, lowercased, equals `x`.
pub fn any_lower_equal(exts: &Vec<String>, x: &Vec<char>) -> (r: bool)
    ensures
        r == has_lower_ext(strs(exts@), x@),
{
    let mut i: usize = 0;
    while i < exts.len()
        invariant
            i <= exts.len(),
            forall|j: int| 0 <= j < i ==> ascii_lower_seq(#[trigger] strs(exts@)[j]) != x@,
        decreases exts.len() - i,
    {
        let e = to_chars(exts[i].as_str());
        let l = ascii_lower_of(&e);
        if crate::text::vec_eq(&l, x) {
            assert(ascii_lower_seq(strs(exts@)[i as int]) == x@);
            return true;
        }
        i += 1;
    }
    false
}

/// Whether one of `words` is non-empty and occurs in `x`.
pub fn any_word_within(words: &Vec<String>, x: &Vec<char>) -> (r: bool)
    ensures
        r == has_word_within(strs(words@), x@),
{
    let mut i: usize = 0;
    while i < words.len()
        invariant
            i <= words.len(),
            forall|j: int|
                0 <= j < i ==> !((#[trigger] strs(words@)[j]).len() > 0 && contains(
                    x@,
                    strs(words@)[j],
                )),
        decreases words.len() - i,
    {
        let w = to_chars(words[i].as_str());
        if w.len() > 0 && contains_of(x, &w) {
            assert(strs(words@)[i as int] == w@);
            return true;
        }
        i += 1;
    }
    false
}

} // verus!
