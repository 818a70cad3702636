//! What the highlighter's output means: capture names and their colours,
//! the syntax menu, and the highlighted pieces of each line.

use vstd::prelude::*;
use vstd::string::StringSliceAdditionalSpecFns;
use crate::order::{
    first_where, keyed_filter, keyed_views, lemma_keyed_filter_has, lemma_sort_keyed,
    lemma_sort_keyed_keeps, lemma_sorted_filter_bounds, lemma_sorted_filter_distinct, sort_by_key,
    sort_keyed, str_le,
};
use crate::pager::dynamic::{about, concat, entry_names, install_state, known_dynamic, known_models, known_table, InstallState, ScanState};
use crate::pager::languages::{pretty_name, pretty_name_spec, static_langs, static_models, static_table};
use crate::pager::patterns::LangModel;
use crate::text::{contains, contains_of, index_of, lines, lits, strip_prefix, strs, to_chars};

verus! {

/// Every capture name the highlighter is configured with, in index order:
/// the names the bundled queries use, plus the usual set of other grammars.
pub open spec fn highlight_names_spec() -> Seq<Seq<char>> {
    lits(seq![
        "attribute",
        "boolean",
        "character",
        "character.special",
        "comment",
        "comment.documentation",
        "constant",
        "constant.builtin",
        "constructor",
        "definition.class",
        "definition.constant",
        "definition.function",
        "definition.interface",
        "definition.macro",
        "definition.method",
        "definition.module",
        "definition.type",
        "diff.delta",
        "diff.minus",
        "diff.plus",
        "doc",
        "embedded",
        "error",
        "escape",
        "function",
        "function.builtin",
        "function.call",
        "function.macro",
        "function.method",
        "function.method.call",
        "import",
        "injection.content",
        "injection.language",
        "keyword",
        "keyword.conditional",
        "keyword.control",
        "keyword.debug",
        "keyword.directive",
        "keyword.exception",
        "keyword.function",
        "keyword.import",
        "keyword.operator",
        "keyword.repeat",
        "keyword.return",
        "keyword.storage",
        "label",
        "literal",
        "local.definition",
        "local.reference",
        "local.scope",
        "markup",
        "markup.bold",
        "markup.heading",
        "markup.italic",
        "markup.link",
        "markup.link.label",
        "markup.link.url",
        "markup.list",
        "markup.quote",
        "markup.raw",
        "markup.strikethrough",
        "module",
        "name",
        "namespace",
        "number",
        "number.float",
        "operator",
        "property",
        "punctuation",
        "punctuation.bracket",
        "punctuation.delimiter",
        "punctuation.special",
        "reference.call",
        "reference.class",
        "reference.implementation",
        "reference.type",
        "string",
        "string.documentation",
        "string.escape",
        "string.regexp",
        "string.special",
        "string.special.key",
        "string.special.symbol",
        "tag",
        "tag.attribute",
        "tag.delimiter",
        "tag.error",
        "type",
        "type.builtin",
        "type.definition",
        "variable",
        "variable.builtin",
        "variable.member",
        "variable.parameter"
    ])
}

/// The capture names, in index order.
pub fn highlight_names() -> (r: Vec<String>)
    ensures
        strs(r@) == highlight_names_spec(),
{
    crate::text::strings_from(&[
        "attribute",
        "boolean",
        "character",
        "character.special",
        "comment",
        "comment.documentation",
        "constant",
        "constant.builtin",
        "constructor",
        "definition.class",
        "definition.constant",
        "definition.function",
        "definition.interface",
        "definition.macro",
        "definition.method",
        "definition.module",
        "definition.type",
        "diff.delta",
        "diff.minus",
        "diff.plus",
        "doc",
        "embedded",
        "error",
        "escape",
        "function",
        "function.builtin",
        "function.call",
        "function.macro",
        "function.method",
        "function.method.call",
        "import",
        "injection.content",
        "injection.language",
        "keyword",
        "keyword.conditional",
        "keyword.control",
        "keyword.debug",
        "keyword.directive",
        "keyword.exception",
        "keyword.function",
        "keyword.import",
        "keyword.operator",
        "keyword.repeat",
        "keyword.return",
        "keyword.storage",
        "label",
        "literal",
        "local.definition",
        "local.reference",
        "local.scope",
        "markup",
        "markup.bold",
        "markup.heading",
        "markup.italic",
        "markup.link",
        "markup.link.label",
        "markup.link.url",
        "markup.list",
        "markup.quote",
        "markup.raw",
        "markup.strikethrough",
        "module",
        "name",
        "namespace",
        "number",
        "number.float",
        "operator",
        "property",
        "punctuation",
        "punctuation.bracket",
        "punctuation.delimiter",
        "punctuation.special",
        "reference.call",
        "reference.class",
        "reference.implementation",
        "reference.type",
        "string",
        "string.documentation",
        "string.escape",
        "string.regexp",
        "string.special",
        "string.special.key",
        "string.special.symbol",
        "tag",
        "tag.attribute",
        "tag.delimiter",
        "tag.error",
        "type",
        "type.builtin",
        "type.definition",
        "variable",
        "variable.builtin",
        "variable.member",
        "variable.parameter"
    ])
}

/// The theme colour a capture is drawn in.
#[derive(Debug, Clone, Copy, PartialEq, Eq, Structural)]
pub enum SyntaxColor {
    Comment,
    Keyword,
    StringLiteral,
    Number,
    Function,
    FunctionMacro,
    Type,
    VariableBuiltin,
    VariableMember,
    Module,
    Operator,
    Tag,
    Attribute,
    Label,
    Punctuation,
    Default,
}

/// The part of a capture name before its first `.`.
pub open spec fn capture_base(name: Seq<char>) -> Seq<char> {
    name.take(index_of(name, '.'))
}

/// The colour of capture `name`: a few exact names first, then by the part
/// before the first `.`, so that `keyword.function` or `string.special.symbol`
/// need no entry of their own.
pub open spec fn color_for_name(name: Seq<char>) -> SyntaxColor {
    if name == "function.macro"@ {
        SyntaxColor::FunctionMacro
    } else if name == "variable.builtin"@ {
        SyntaxColor::VariableBuiltin
    } else if name == "variable.member"@ || name == "property"@ {
        SyntaxColor::VariableMember
    } else if name == "tag.attribute"@ {
        SyntaxColor::Attribute
    } else {
        let base = capture_base(name);
        if base == "comment"@ {
            SyntaxColor::Comment
        } else if base == "keyword"@ {
            SyntaxColor::Keyword
        } else if base == "string"@ {
            SyntaxColor::StringLiteral
        } else if base == "number"@ || base == "constant"@ || base == "boolean"@ {
            SyntaxColor::Number
        } else if base == "function"@ {
            SyntaxColor::Function
        } else if base == "type"@ || base == "constructor"@ {
            SyntaxColor::Type
        } else if base == "module"@ || base == "namespace"@ {
            SyntaxColor::Module
        } else if base == "operator"@ {
            SyntaxColor::Operator
        } else if base == "tag"@ {
            SyntaxColor::Tag
        } else if base == "attribute"@ {
            SyntaxColor::Attribute
        } else if base == "label"@ {
            SyntaxColor::Label
        } else if base == "punctuation"@ {
            SyntaxColor::Punctuation
        } else if base == "markup"@ && contains(name, "heading"@) {
            SyntaxColor::Keyword
        } else if base == "markup"@ && (contains(name, "link"@) || contains(name, "url"@)
            || contains(name, "raw"@)) {
            SyntaxColor::StringLiteral
        } else if base == "markup"@ && contains(name, "quote"@) {
            SyntaxColor::Comment
        } else if base == "diff"@ && contains(name, "plus"@) {
            SyntaxColor::StringLiteral
        } else if base == "diff"@ && contains(name, "minus"@) {
            SyntaxColor::Keyword
        } else if base == "diff"@ {
            SyntaxColor::Type
        } else if base == "error"@ {
            SyntaxColor::Keyword
        } else {
            SyntaxColor::Default
        }
    }
}

/// The capture name with index `index` (empty past the end).
pub open spec fn capture_name(index: int) -> Seq<char> {
    if 0 <= index < highlight_names_spec().len() {
        highlight_names_spec()[index]
    } else {
        Seq::empty()
    }
}

fn mentions(name: &Vec<char>, word: &str) -> (r: bool)
    ensures
        r == contains(name@, word@),
{
    let w = to_chars(word);
    contains_of(name, &w)
}

fn is(s: &Vec<char>, word: &str) -> (r: bool)
    ensures
        r == (s@ == word@),
{
    let w = to_chars(word);
    crate::text::vec_eq(s, &w)
}

/// The colour of capture `name`.
pub fn color_of_name(name: &Vec<char>) -> (r: SyntaxColor)
    ensures
        r == color_for_name(name@),
{
    if is(name, "function.macro") {
        return SyntaxColor::FunctionMacro;
    } else if is(name, "variable.builtin") {
        return SyntaxColor::VariableBuiltin;
    } else if is(name, "variable.member") || is(name, "property") {
        return SyntaxColor::VariableMember;
    } else if is(name, "tag.attribute") {
        return SyntaxColor::Attribute;
    }
    let mut k: usize = 0;
    while k < name.len() && name[k] != '.'
        invariant
            k <= name.len(),
            forall|j: int| 0 <= j < k ==> name@[j] != '.',
        decreases name.len() - k,
    {
        k += 1;
    }
    proof {
        crate::text::lemma_index_of(name@, '.', k as int);
    }
    let base = crate::text::slice_vec(name, 0, k);
    assert(base@ =~= capture_base(name@));
    if is(&base, "comment") {
        SyntaxColor::Comment
    } else if is(&base, "keyword") {
        SyntaxColor::Keyword
    } else if is(&base, "string") {
        SyntaxColor::StringLiteral
    } else if is(&base, "number") || is(&base, "constant") || is(&base, "boolean") {
        SyntaxColor::Number
    } else if is(&base, "function") {
        SyntaxColor::Function
    } else if is(&base, "type") || is(&base, "constructor") {
        SyntaxColor::Type
    } else if is(&base, "module") || is(&base, "namespace") {
        SyntaxColor::Module
    } else if is(&base, "operator") {
        SyntaxColor::Operator
    } else if is(&base, "tag") {
        SyntaxColor::Tag
    } else if is(&base, "attribute") {
        SyntaxColor::Attribute
    } else if is(&base, "label") {
        SyntaxColor::Label
    } else if is(&base, "punctuation") {
        SyntaxColor::Punctuation
    } else if is(&base, "markup") && mentions(name, "heading") {
        SyntaxColor::Keyword
    } else if is(&base, "markup") && (mentions(name, "link") || mentions(name, "url")
        || mentions(name, "raw")) {
        SyntaxColor::StringLiteral
    } else if is(&base, "markup") && mentions(name, "quote") {
        SyntaxColor::Comment
    } else if is(&base, "diff") && mentions(name, "plus") {
        SyntaxColor::StringLiteral
    } else if is(&base, "diff") && mentions(name, "minus") {
        SyntaxColor::Keyword
    } else if is(&base, "diff") {
        SyntaxColor::Type
    } else if is(&base, "error") {
        SyntaxColor::Keyword
    } else {
        SyntaxColor::Default
    }
}

/// The colour of the capture with index `index`.
pub fn highlight_color(index: usize) -> (r: SyntaxColor)
    ensures
        r == color_for_name(capture_name(index as int)),
{
    let names = highlight_names();
    if index < names.len() {
        let name = to_chars(names[index].as_str());
        assert(name@ == strs(names@)[index as int]);
        color_of_name(&name)
    } else {
        let empty: Vec<char> = Vec::new();
        assert(empty@ =~= capture_name(index as int));
        color_of_name(&empty)
    }
}

proof fn lemma_index_of_bounds(s: Seq<char>, c: char)
    ensures
        0 <= index_of(s, c) <= s.len(),
    decreases s.len(),
{
    if s.len() > 0 && s[0] != c {
        lemma_index_of_bounds(s.drop_first(), c);
    }
}

/// The capture base is the start of the name.
proof fn lemma_base_chars(name: Seq<char>)
    ensures
        capture_base(name).len() <= name.len(),
        forall|i: int|
            0 <= i < capture_base(name).len() ==> name[i] == #[trigger] capture_base(name)[i],
{
    lemma_index_of_bounds(name, '.');
}

/// Captures are coloured by the part of their name before the first `.`:
/// every `comment…` capture is drawn as a comment, every `keyword…` capture
/// as a keyword, and so on for strings, numbers and constants, functions,
/// types, modules, operators, tags, attributes, labels and punctuation.
/// Only `function.macro`, `variable.builtin`, `variable.member`, `property`
/// and `tag.attribute` have colours of their own.
pub proof fn law_capture_colors(name: Seq<char>)
    ensures
        name == "function.macro"@ ==> color_for_name(name) == SyntaxColor::FunctionMacro,
        name == "variable.builtin"@ ==> color_for_name(name) == SyntaxColor::VariableBuiltin,
        name == "variable.member"@ || name == "property"@ ==> color_for_name(name)
            == SyntaxColor::VariableMember,
        name == "tag.attribute"@ ==> color_for_name(name) == SyntaxColor::Attribute,
        capture_base(name) == "comment"@ ==> color_for_name(name) == SyntaxColor::Comment,
        capture_base(name) == "keyword"@ ==> color_for_name(name) == SyntaxColor::Keyword,
        capture_base(name) == "string"@ ==> color_for_name(name) == SyntaxColor::StringLiteral,
        capture_base(name) == "number"@ || capture_base(name) == "constant"@ || capture_base(name)
            == "boolean"@ ==> color_for_name(name) == SyntaxColor::Number,
        capture_base(name) == "function"@ && name != "function.macro"@ ==> color_for_name(name)
            == SyntaxColor::Function,
        capture_base(name) == "type"@ || capture_base(name) == "constructor"@ ==> color_for_name(
            name,
        ) == SyntaxColor::Type,
        capture_base(name) == "module"@ || capture_base(name) == "namespace"@ ==> color_for_name(
            name,
        ) == SyntaxColor::Module,
        capture_base(name) == "operator"@ ==> color_for_name(name) == SyntaxColor::Operator,
        capture_base(name) == "tag"@ && name != "tag.attribute"@ ==> color_for_name(name)
            == SyntaxColor::Tag,
        capture_base(name) == "attribute"@ ==> color_for_name(name) == SyntaxColor::Attribute,
        capture_base(name) == "label"@ ==> color_for_name(name) == SyntaxColor::Label,
        capture_base(name) == "punctuation"@ ==> color_for_name(name) == SyntaxColor::Punctuation,
        capture_base(name) == "markup"@ && contains(name, "heading"@) ==> color_for_name(name)
            == SyntaxColor::Keyword,
        capture_base(name) == "markup"@ && !contains(name, "heading"@) && (contains(name, "link"@)
            || contains(name, "url"@) || contains(name, "raw"@)) ==> color_for_name(name)
            == SyntaxColor::StringLiteral,
        capture_base(name) == "diff"@ && contains(name, "plus"@) ==> color_for_name(name)
            == SyntaxColor::StringLiteral,
        capture_base(name) == "diff"@ && !contains(name, "plus"@) && contains(name, "minus"@)
            ==> color_for_name(name) == SyntaxColor::Keyword,
        capture_base(name) == "error"@ ==> color_for_name(name) == SyntaxColor::Keyword,
{
    reveal_strlit("markup");
    reveal_strlit("diff");
    reveal_strlit("error");
    reveal_strlit("comment");
    reveal_strlit("keyword");
    reveal_strlit("string");
    reveal_strlit("number");
    reveal_strlit("constant");
    reveal_strlit("boolean");
    reveal_strlit("function");
    reveal_strlit("type");
    reveal_strlit("constructor");
    reveal_strlit("module");
    reveal_strlit("namespace");
    reveal_strlit("operator");
    reveal_strlit("tag");
    reveal_strlit("attribute");
    reveal_strlit("label");
    reveal_strlit("punctuation");
    reveal_strlit("function.macro");
    reveal_strlit("variable.builtin");
    reveal_strlit("variable.member");
    reveal_strlit("property");
    reveal_strlit("tag.attribute");
    lemma_base_chars(name);
    let b = capture_base(name);
    if b.len() >= 2 {
        assert(name[0] == b[0]);
        assert(name[1] == b[1]);
    }
}

/// The first line of `content`, unless it is empty.
pub open spec fn first_line_spec(content: Seq<char>) -> Option<Seq<char>> {
    if lines(content).len() > 0 && lines(content)[0].len() > 0 {
        Some(lines(content)[0])
    } else {
        None
    }
}

/// The first line of `content` (as `str::lines` splits it), unless it is
/// empty.
pub fn first_line(content: &str) -> (r: Option<String>)
    ensures
        match r {
            Some(l) => first_line_spec(content@) == Some(l@),
            None => first_line_spec(content@) is None,
        },
{
    let all = crate::text::to_chars(content);
    let ls = crate::text::lines_of(&all);
    if ls.len() > 0 && ls[0].len() > 0 {
        assert(ls@[0]@ == lines(content@)[0]);
        Some(crate::text::from_chars(ls[0].as_slice()))
    } else {
        proof {
            if lines(content@).len() > 0 {
                assert(ls@[0]@ == lines(content@)[0]);
            }
        }
        None
    }
}

} // verus!

verus! {

/// One row of the syntax-highlighting menu, as plain text.
#[derive(Debug, Clone, PartialEq, Eq)]
pub struct SyntaxRow {
    /// What confirming the row means: an installable language id,
    /// `static:<id>` for a built-in, `custom:<name>` for a language the user
    /// added, or the rescan value.
    pub value: String,
    /// What the row shows, e.g. `✓ Rust`, `○ Swift`.
    pub label: String,
    /// Group header: `Ready` or `Available` (empty for the rescan row).
    pub category: String,
    /// Right-side note, e.g. `Ready`, `Enter to install`.
    pub description: String,
}

/// A menu row as character sequences.
pub struct RowModel {
    pub value: Seq<char>,
    pub label: Seq<char>,
    pub category: Seq<char>,
    pub description: Seq<char>,
}

impl SyntaxRow {
    pub open spec fn model(&self) -> RowModel {
        RowModel {
            value: self.value@,
            label: self.label@,
            category: self.category@,
            description: self.description@,
        }
    }
}

pub open spec fn row_models(v: Seq<SyntaxRow>) -> Seq<RowModel> {
    v.map_values(|r: SyntaxRow| r.model())
}

/// The value of the rescan row.
pub const SYNTAX_RELOAD_VALUE: &'static str = "__reload__";

/// Language `lang` is loaded.
pub open spec fn is_installed(st: ScanState, lang: Seq<char>) -> bool {
    entry_names(st.entries@).contains(lang)
}

/// Language `lang` is not loaded and a loader message is about it.
pub open spec fn has_failed(st: ScanState, lang: Seq<char>) -> bool {
    !is_installed(st, lang) && first_where(strs(st.errors@), about(lang)) < st.errors@.len()
}

/// Number of built-in languages.
pub open spec fn n_static() -> int {
    static_table().len() as int
}

/// Number of built-in plus installable languages.
pub open spec fn n_known() -> int {
    n_static() + known_table().len()
}

/// Candidates for a `Ready` row, by position: the built-in languages, then
/// the installable ones, then the loaded user languages.
pub open spec fn ready_count(st: ScanState) -> nat {
    (n_known() + entry_names(st.entries@).len()) as nat
}

/// Which candidates are ready: a built-in language that works, an
/// installable language that is loaded, a loaded user language that is not
/// one of the installable ones.
pub open spec fn keep_ready_row(ready: Seq<bool>, st: ScanState) -> spec_fn(int) -> bool {
    |i: int|
        if i < n_static() {
            ready[i]
        } else if i < n_known() {
            is_installed(st, known_table()[i - n_static()].name)
        } else {
            !known_ids().contains(entry_names(st.entries@)[i - n_known()])
        }
}

/// The display name of a language the user added: its friendly name when
/// it has one, else its own name.
pub open spec fn added_name(name: Seq<char>) -> Seq<char> {
    if pretty_name_spec(name) == "Unknown"@ {
        name
    } else {
        pretty_name_spec(name)
    }
}

/// The display name of a candidate.
pub open spec fn ready_key(st: ScanState) -> spec_fn(int) -> Seq<char> {
    |i: int|
        if i < n_static() {
            pretty_name_spec(static_table()[i].name)
        } else if i < n_known() {
            pretty_name_spec(known_table()[i - n_static()].name)
        } else {
            added_name(entry_names(st.entries@)[i - n_known()])
        }
}

/// The value a confirmation of candidate `i` uses.
pub open spec fn ready_value(st: ScanState, i: int) -> Seq<char> {
    if i < n_static() {
        "static:"@ + static_table()[i].name
    } else if i < n_known() {
        known_table()[i - n_static()].name
    } else {
        "custom:"@ + entry_names(st.entries@)[i - n_known()]
    }
}

/// The `Ready` row of candidate `i` with display name `pretty`.
pub open spec fn ready_row_at(st: ScanState, i: int, pretty: Seq<char>) -> RowModel {
    ready_row(
        ready_value(st, i),
        pretty,
        if i < n_known() {
            "Ready"@
        } else {
            "Added by you"@
        },
    )
}

pub open spec fn keep_not_installed(st: ScanState) -> spec_fn(int) -> bool {
    |i: int| !is_installed(st, known_table()[i].name)
}

pub open spec fn known_key() -> spec_fn(int) -> Seq<char> {
    |i: int| pretty_name_spec(known_table()[i].name)
}

/// The mark of an installable language that is not loaded: `!` when it
/// failed, `○` when it is missing.
pub open spec fn available_mark(st: ScanState, i: int) -> Seq<char> {
    if has_failed(st, known_table()[i].name) {
        "! "@
    } else {
        "○ "@
    }
}

/// The ids of the installable languages.
pub open spec fn known_ids() -> Seq<Seq<char>> {
    known_table().map_values(|m: LangModel| m.name)
}

pub open spec fn ready_row(value: Seq<char>, pretty: Seq<char>, description: Seq<char>) -> RowModel {
    RowModel { value, label: "✓ "@ + pretty, category: "Ready"@, description }
}

/// The ready candidates with their display names, ordered by display name.
pub open spec fn ready_order(ready: Seq<bool>, st: ScanState) -> Seq<(Seq<char>, usize)> {
    sort_keyed(keyed_filter(ready_count(st), keep_ready_row(ready, st), ready_key(st)))
}

/// Every language that works, by display name: built-in ones (`Ready`),
/// loaded installable ones (`Ready`) and the ones the user added
/// (`Added by you`).
pub open spec fn ready_rows(ready: Seq<bool>, st: ScanState) -> Seq<RowModel> {
    ready_order(ready, st).map_values(|p: (Seq<char>, usize)| ready_row_at(st, p.1 as int, p.0))
}

/// The installable languages that are not loaded, with their display
/// names, ordered by display name.
pub open spec fn available_order(st: ScanState) -> Seq<(Seq<char>, usize)> {
    sort_keyed(keyed_filter(known_table().len(), keep_not_installed(st), known_key()))
}

/// The `Available` row of installable language `k` with display name
/// `pretty`.
pub open spec fn available_row_at(st: ScanState, k: int, pretty: Seq<char>) -> RowModel {
    RowModel {
        value: known_table()[k].name,
        label: available_mark(st, k) + pretty,
        category: "Available"@,
        description: if has_failed(st, known_table()[k].name) {
            "Enter to retry"@
        } else {
            "Enter to install"@
        },
    }
}

/// Installable languages that are not loaded, by display name.
pub open spec fn available_rows(st: ScanState) -> Seq<RowModel> {
    available_order(st).map_values(|p: (Seq<char>, usize)| available_row_at(st, p.1 as int, p.0))
}

/// What a row shows after its two-character mark: the display name.
pub open spec fn shown_name(r: RowModel) -> Seq<char> {
    r.label.skip(2)
}

/// The rescan row.
pub open spec fn reload_row() -> RowModel {
    RowModel {
        value: SYNTAX_RELOAD_VALUE@,
        label: "Check again"@,
        category: ""@,
        description: "Rescan folder"@,
    }
}

/// The whole menu: the `Ready` group, the `Available` group, then the
/// rescan row.
pub open spec fn menu_rows_spec(ready: Seq<bool>, st: ScanState) -> Seq<RowModel> {
    ready_rows(ready, st) + available_rows(st) + seq![reload_row()]
}

fn row(value: String, label: String, category: &str, description: &str) -> (r: SyntaxRow)
    ensures
        r.model() == (RowModel {
            value: value@,
            label: label@,
            category: category@,
            description: description@,
        }),
{
    SyntaxRow {
        value,
        label,
        category: String::from_str(category),
        description: String::from_str(description),
    }
}

} // verus!

verus! {

fn known_installed(st: &ScanState, name: &str) -> (r: (bool, bool))
    ensures
        r.0 == is_installed(*st, name@),
        r.1 == has_failed(*st, name@),
{
    match install_state(st, name) {
        InstallState::Installed => (true, false),
        InstallState::Failed(_) => (false, true),
        InstallState::Missing => (false, false),
    }
}

fn known_id_list() -> (r: Vec<String>)
    ensures
        strs(r@) == known_ids(),
{
    let t = known_dynamic();
    let mut r: Vec<String> = Vec::new();
    let mut i: usize = 0;
    while i < t.len()
        invariant
            i <= t.len(),
            known_models(t@) == known_table(),
            strs(r@) == known_ids().take(i as int),
        decreases t.len() - i,
    {
        assert(known_models(t@)[i as int] == t@[i as int].model());
        let ghost before = strs(r@);
        r.push(t[i].name.clone());
        assert(strs(r@) =~= before.push(known_table()[i as int].name));
        i += 1;
        assert(known_ids().take(i as int) =~= known_ids().take(i - 1).push(known_ids()[i - 1]));
    }
    assert(known_ids().take(i as int) =~= known_ids());
    r
}

fn ready_group(ready: &Vec<bool>, st: &ScanState) -> (r: Vec<SyntaxRow>)
    requires
        ready@.len() == static_table().len(),
        st.entries@.len() + n_known() <= usize::MAX,
    ensures
        row_models(r@) == ready_rows(ready@, *st),
{
    let t = static_langs();
    let kt = known_dynamic();
    let (names, _) = st.installed();
    let ids = known_id_list();
    let ghost ns = entry_names(st.entries@);
    let n_s = t.len();
    let n_k = n_s + kt.len();
    assert(strs(names@).len() == names@.len());
    assert(ns.len() == st.entries@.len());
    let total = n_k + names.len();
    let mut keyed: Vec<(String, usize)> = Vec::new();
    let mut i: usize = 0;
    while i < total
        invariant
            i <= total,
            total == ready_count(*st),
            n_s == n_static(),
            n_k == n_known(),
            static_models(t@) == static_table(),
            known_models(kt@) == known_table(),
            strs(names@) == ns,
            ns == entry_names(st.entries@),
            strs(ids@) == known_ids(),
            ready@.len() == n_static(),
            keyed_views(keyed@) == keyed_filter(i as nat, keep_ready_row(ready@, *st), ready_key(*st)),
        decreases total - i,
    {
        let keep: bool;
        let key: String;
        if i < n_s {
            assert(static_models(t@)[i as int] == t@[i as int].model());
            keep = ready[i];
            key = String::from_str(pretty_name(t[i].name.as_str()));
        } else if i < n_k {
            assert(known_models(kt@)[i - n_s] == kt@[i - n_s].model());
            let (inst, _) = known_installed(st, kt[i - n_s].name.as_str());
            keep = inst;
            key = String::from_str(pretty_name(kt[i - n_s].name.as_str()));
        } else {
            let n = to_chars(names[i - n_k].as_str());
            assert(n@ == ns[i - n_k]);
            keep = !crate::pager::patterns::listed(&ids, &n);
            let pretty = pretty_name(names[i - n_k].as_str());
            if crate::text::str_is(pretty, "Unknown") {
                key = names[i - n_k].clone();
            } else {
                key = String::from_str(pretty);
            }
        }
        assert(keep == keep_ready_row(ready@, *st)(i as int));
        assert(key@ == ready_key(*st)(i as int));
        if keep {
            let ghost before = keyed_views(keyed@);
            keyed.push((key, i));
            assert(keyed_views(keyed@) =~= before.push((ready_key(*st)(i as int), i)));
        }
        i += 1;
    }
    let sorted = sort_by_key(&keyed);
    let ghost ks = keyed_views(sorted@);
    proof {
        lemma_sorted_filter_bounds(ready_count(*st), keep_ready_row(ready@, *st), ready_key(*st));
    }
    let mut r: Vec<SyntaxRow> = Vec::new();
    let mut k: usize = 0;
    while k < sorted.len()
        invariant
            k <= sorted.len(),
            ks == keyed_views(sorted@),
            ks == sort_keyed(keyed_filter(ready_count(*st), keep_ready_row(ready@, *st), ready_key(*st))),
            n_s == n_static(),
            n_k == n_known(),
            total == ready_count(*st),
            static_models(t@) == static_table(),
            known_models(kt@) == known_table(),
            strs(names@) == ns,
            ns == entry_names(st.entries@),
            forall|j: int| 0 <= j < ks.len() ==> (#[trigger] ks[j]).1 < total,
            r@.len() == k,
            row_models(r@) == ks.take(k as int).map_values(
                |p: (Seq<char>, usize)| ready_row_at(*st, p.1 as int, p.0),
            ),
        decreases sorted.len() - k,
    {
        let idx = sorted[k].1;
        assert(ks[k as int].1 == idx);
        let value: String;
        let description: &str;
        if idx < n_s {
            assert(static_models(t@)[idx as int] == t@[idx as int].model());
            value = concat("static:", t[idx].name.as_str());
            description = "Ready";
        } else if idx < n_k {
            assert(known_models(kt@)[idx - n_s] == kt@[idx - n_s].model());
            value = kt[idx - n_s].name.clone();
            description = "Ready";
        } else {
            assert(strs(names@)[idx - n_k] == names@[idx - n_k]@);
            value = concat("custom:", names[idx - n_k].as_str());
            description = "Added by you";
        }
        let label = concat("✓ ", sorted[k].0.as_str());
        let ghost before = row_models(r@);
        r.push(row(value, label, "Ready", description));
        assert(r@[k as int].model() == ready_row_at(*st, idx as int, ks[k as int].0));
        assert(row_models(r@) =~= before.push(r@[k as int].model()));
        k += 1;
        assert(ks.take(k as int) =~= ks.take(k - 1).push(ks[k - 1]));
    }
    assert(ks.take(k as int) =~= ks);
    r
}

fn available_group(st: &ScanState) -> (r: Vec<SyntaxRow>)
    ensures
        row_models(r@) == available_rows(*st),
{
    let t = known_dynamic();
    let mut keyed: Vec<(String, usize)> = Vec::new();
    let mut i: usize = 0;
    while i < t.len()
        invariant
            i <= t.len(),
            known_models(t@) == known_table(),
            keyed_views(keyed@) == keyed_filter(i as nat, keep_not_installed(*st), known_key()),
        decreases t.len() - i,
    {
        assert(known_models(t@)[i as int] == t@[i as int].model());
        let (installed, _) = known_installed(st, t[i].name.as_str());
        if !installed {
            let ghost before = keyed_views(keyed@);
            let pretty = pretty_name(t[i].name.as_str());
            keyed.push((String::from_str(pretty), i));
            assert(keyed_views(keyed@) =~= before.push((pretty@, i)));
        }
        i += 1;
    }
    let sorted = sort_by_key(&keyed);
    let ghost ks = keyed_views(sorted@);
    proof {
        lemma_sorted_filter_bounds(known_table().len(), keep_not_installed(*st), known_key());
    }
    let mut r: Vec<SyntaxRow> = Vec::new();
    let mut k: usize = 0;
    while k < sorted.len()
        invariant
            k <= sorted.len(),
            ks == keyed_views(sorted@),
            ks == sort_keyed(keyed_filter(known_table().len(), keep_not_installed(*st), known_key())),
            known_models(t@) == known_table(),
            forall|j: int| 0 <= j < ks.len() ==> (#[trigger] ks[j]).1 < known_table().len(),
            row_models(r@) == ks.take(k as int).map_values(
                |p: (Seq<char>, usize)| available_row_at(*st, p.1 as int, p.0),
            ),
        decreases sorted.len() - k,
    {
        let idx = sorted[k].1;
        assert(ks[k as int].1 == idx);
        assert(known_models(t@)[idx as int] == t@[idx as int].model());
        let (_, failed) = known_installed(st, t[idx].name.as_str());
        let (mark, description) = if failed {
            ("! ", "Enter to retry")
        } else {
            ("○ ", "Enter to install")
        };
        let value = t[idx].name.clone();
        let label = concat(mark, sorted[k].0.as_str());
        let ghost before = row_models(r@);
        r.push(row(value, label, "Available", description));
        assert(row_models(r@) =~= before.push(r@[k as int].model()));
        k += 1;
        assert(ks.take(k as int) =~= ks.take(k - 1).push(ks[k - 1]));
    }
    assert(ks.take(k as int) =~= ks);
    r
}

/// The rows of the syntax-highlighting menu, given which built-in
/// languages work (`static_ready[i]` for the `i`-th of [`static_langs`]) and
/// the loaded user languages: first every language that works (`✓`,
/// `Ready`; one the user added shows under its own name when it has no
/// friendly one), then the installable languages that are not loaded (`○`
/// missing or `!` failed, `Available`), each group in order of display
/// name; then the rescan row.
pub fn syntax_menu_rows(static_ready: &Vec<bool>, st: &ScanState) -> (rows: Vec<SyntaxRow>)
    requires
        static_ready@.len() == static_table().len(),
        st.entries@.len() + n_known() <= usize::MAX,
    ensures
        row_models(rows@) == menu_rows_spec(static_ready@, *st),
{
    let mut rows = ready_group(static_ready, st);
    let mut available = available_group(st);
    let ghost a = rows@;
    let ghost b = available@;
    rows.append(&mut available);
    let last = row(
        String::from_str(SYNTAX_RELOAD_VALUE),
        String::from_str("Check again"),
        "",
        "Rescan folder",
    );
    assert(last.model() == reload_row());
    rows.push(last);
    assert(rows@ =~= a + b + seq![last]);
    assert(row_models(rows@) =~= row_models(a) + row_models(b) + seq![last.model()]);
    rows
}

} // verus!

verus! {

/// What confirming a menu row means.
#[derive(Debug, Clone, PartialEq, Eq)]
pub enum SyntaxConfirm {
    /// Already working: nothing to do (holds the display name).
    AlreadyReady(String),
    /// Needs downloading and building.
    Install { id: String, pretty: String },
    /// Rescan the folder, then reopen the menu.
    Reload,
}

/// [`SyntaxConfirm`] over character sequences.
pub enum ConfirmModel {
    AlreadyReady(Seq<char>),
    Install { id: Seq<char>, pretty: Seq<char> },
    Reload,
}

impl SyntaxConfirm {
    pub open spec fn model(&self) -> ConfirmModel {
        match self {
            SyntaxConfirm::AlreadyReady(p) => ConfirmModel::AlreadyReady(p@),
            SyntaxConfirm::Install { id, pretty } => ConfirmModel::Install {
                id: id@,
                pretty: pretty@,
            },
            SyntaxConfirm::Reload => ConfirmModel::Reload,
        }
    }
}

/// What confirming the row with `value` means: the rescan row reloads;
/// built-in and user-added languages already work (a user-added language
/// shows its display name when it has one, else its own name); an
/// installable language works when loaded and is installed otherwise.
pub open spec fn confirm_spec(value: Seq<char>, st: ScanState) -> ConfirmModel {
    if value == SYNTAX_RELOAD_VALUE@ {
        ConfirmModel::Reload
    } else {
        match strip_prefix(value, "static:"@) {
            Some(id) => ConfirmModel::AlreadyReady(pretty_name_spec(id)),
            None => match strip_prefix(value, "custom:"@) {
                Some(name) => ConfirmModel::AlreadyReady(added_name(name)),
                None => if is_installed(st, value) {
                    ConfirmModel::AlreadyReady(pretty_name_spec(value))
                } else {
                    ConfirmModel::Install { id: value, pretty: pretty_name_spec(value) }
                },
            },
        }
    }
}

/// What confirming the menu row with `value` means.
pub fn syntax_confirm_for(value: &str, st: &ScanState) -> (r: SyntaxConfirm)
    ensures
        r.model() == confirm_spec(value@, *st),
{
    if crate::text::str_is(value, SYNTAX_RELOAD_VALUE) {
        return SyntaxConfirm::Reload;
    }
    let v = to_chars(value);
    let static_mark = to_chars("static:");
    match crate::text::strip_prefix_of(&v, &static_mark) {
        Some(id) => {
            let id_s = crate::text::from_chars(id.as_slice());
            let pretty = pretty_name(id_s.as_str());
            return SyntaxConfirm::AlreadyReady(String::from_str(pretty));
        },
        None => {},
    }
    let custom_mark = to_chars("custom:");
    match crate::text::strip_prefix_of(&v, &custom_mark) {
        Some(name) => {
            let name_s = crate::text::from_chars(name.as_slice());
            let label = pretty_name(name_s.as_str());
            if crate::text::str_is(label, "Unknown") {
                return SyntaxConfirm::AlreadyReady(name_s);
            } else {
                return SyntaxConfirm::AlreadyReady(String::from_str(label));
            }
        },
        None => {},
    }
    let pretty = String::from_str(pretty_name(value));
    match install_state(st, value) {
        InstallState::Installed => SyntaxConfirm::AlreadyReady(pretty),
        _ => SyntaxConfirm::Install { id: String::from_str(value), pretty },
    }
}

} // verus!

verus! {

/// One step of the highlighter's output: a run of source bytes, or the
/// start or end of a capture (by its index in [`highlight_names`]).
#[derive(Debug, Clone, Copy, PartialEq, Eq, Structural)]
pub enum HlEvent {
    Source { start: usize, end: usize },
    Start(usize),
    End,
}

/// A highlighted piece of one line: bytes `start..end` of the content, on
/// line `line` (counted from 1), drawn with capture `highlight` if any.
#[derive(Debug, Clone, Copy, PartialEq, Eq, Structural)]
pub struct LineSegment {
    pub line: usize,
    pub start: usize,
    pub end: usize,
    pub highlight: Option<usize>,
}

/// Number of line feeds among the first `n` bytes.
pub open spec fn count_nl(b: Seq<u8>, n: int) -> int
    decreases n,
{
    if n <= 0 {
        0
    } else {
        count_nl(b, n - 1) + (if b[n - 1] == 10u8 {
            1int
        } else {
            0int
        })
    }
}

pub proof fn lemma_count_nl_bound(b: Seq<u8>, n: int)
    requires
        0 <= n,
    ensures
        0 <= count_nl(b, n) <= n,
    decreases n,
{
    if n > 0 {
        lemma_count_nl_bound(b, n - 1);
    }
}

/// The line (from 1) that byte offset `off` lies on.
pub open spec fn line_at(b: Seq<u8>, off: int) -> int {
    1 + count_nl(b, off)
}

/// The pieces of bytes `piece..end` (scanning from `i`) between line feeds:
/// each non-empty piece on its own line, the line counter advancing at each
/// line feed.
pub open spec fn seg_from(
    b: Seq<u8>,
    piece: int,
    i: int,
    end: int,
    line: int,
    hl: Option<usize>,
) -> Seq<LineSegment>
    decreases end - i,
{
    if i >= end {
        if piece < end {
            seq![LineSegment { line: line as usize, start: piece as usize, end: end as usize, highlight: hl }]
        } else {
            Seq::empty()
        }
    } else if b[i] == 10u8 {
        (if piece < i {
            seq![LineSegment { line: line as usize, start: piece as usize, end: i as usize, highlight: hl }]
        } else {
            Seq::empty()
        }) + seg_from(b, i + 1, i + 1, end, line + 1, hl)
    } else {
        seg_from(b, piece, i + 1, end, line, hl)
    }
}

/// The pieces the events give, in order: each run of source bytes cut at
/// line feeds, each piece drawn with the capture most recently started
/// (none after an end).
pub open spec fn event_segments(b: Seq<u8>, ev: Seq<HlEvent>, hl: Option<usize>) -> Seq<
    LineSegment,
>
    decreases ev.len(),
{
    if ev.len() == 0 {
        Seq::empty()
    } else {
        match ev[0] {
            HlEvent::Source { start, end } => seg_from(
                b,
                start as int,
                start as int,
                end as int,
                line_at(b, start as int),
                hl,
            ) + event_segments(b, ev.drop_first(), hl),
            HlEvent::Start(h) => event_segments(b, ev.drop_first(), Some(h)),
            HlEvent::End => event_segments(b, ev.drop_first(), None),
        }
    }
}

/// Every run of source bytes lies within the content.
pub open spec fn events_in_range(ev: Seq<HlEvent>, len: int) -> bool {
    forall|i: int|
        0 <= i < ev.len() ==> match #[trigger] ev[i] {
            HlEvent::Source { start, end } => start <= end <= len,
            _ => true,
        }
}

fn newline_counts(b: &[u8]) -> (nl: Vec<usize>)
    ensures
        nl@.len() == b@.len() + 1,
        forall|i: int| 0 <= i <= b@.len() ==> #[trigger] nl@[i] == count_nl(b@, i),
{
    let mut nl: Vec<usize> = Vec::new();
    let mut count: usize = 0;
    nl.push(0);
    let mut i: usize = 0;
    while i < b.len()
        invariant
            i <= b@.len(),
            nl@.len() == i + 1,
            count == count_nl(b@, i as int),
            forall|j: int| 0 <= j <= i ==> #[trigger] nl@[j] == count_nl(b@, j),
        decreases b.len() - i,
    {
        proof {
            lemma_count_nl_bound(b@, i as int);
        }
        if b[i] == 10u8 {
            count += 1;
        }
        nl.push(count);
        i += 1;
    }
    nl
}

/// The highlighted pieces of each line of `content`, given the
/// highlighter's events.
pub fn segments_from_events(content: &str, events: &Vec<HlEvent>) -> (r: Vec<LineSegment>)
    requires
        content.spec_bytes().len() < usize::MAX,
        events_in_range(events@, content.spec_bytes().len() as int),
    ensures
        r@ == event_segments(content.spec_bytes(), events@, None),
{
    let b = content.as_bytes();
    let ghost bs = b@;
    let nl = newline_counts(b);
    let mut r: Vec<LineSegment> = Vec::new();
    let mut hl: Option<usize> = None;
    let mut e: usize = 0;
    assert(events@.skip(0) =~= events@);
    while e < events.len()
        invariant
            bs == b@,
            bs == content.spec_bytes(),
            bs.len() < usize::MAX,
            nl@.len() == bs.len() + 1,
            forall|i: int| 0 <= i <= bs.len() ==> #[trigger] nl@[i] == count_nl(bs, i),
            events_in_range(events@, bs.len() as int),
            e <= events.len(),
            r@ + event_segments(bs, events@.skip(e as int), hl) == event_segments(
                bs,
                events@,
                None,
            ),
        decreases events.len() - e,
    {
        let ghost rest = events@.skip(e as int);
        assert(rest[0] == events@[e as int]);
        assert(rest.drop_first() =~= events@.skip(e + 1));
        match events[e] {
            HlEvent::Source { start, end } => {
                assert(start <= end <= bs.len());
                proof {
                    lemma_count_nl_bound(bs, start as int);
                }
                let mut line: usize = nl[start] + 1;
                let mut piece: usize = start;
                let mut i: usize = start;
                let ghost after = event_segments(bs, events@.skip(e + 1), hl);
                while i < end
                    invariant
                        bs == b@,
                        bs.len() < usize::MAX,
                        start <= piece <= i <= end <= bs.len(),
                        line == 1 + count_nl(bs, i as int),
                        r@ + seg_from(bs, piece as int, i as int, end as int, line as int, hl)
                            + after == event_segments(bs, events@, None),
                    decreases end - i,
                {
                    proof {
                        lemma_count_nl_bound(bs, i + 1);
                    }
                    if b[i] == 10u8 {
                        let ghost old_r = r@;
                        if piece < i {
                            r.push(LineSegment { line, start: piece, end: i, highlight: hl });
                        }
                        let ghost s = seg_from(bs, piece as int, i as int, end as int, line as int, hl);
                        assert(old_r + s + after =~= r@ + seg_from(
                            bs,
                            i + 1,
                            i + 1,
                            end as int,
                            line + 1,
                            hl,
                        ) + after);
                        line += 1;
                        piece = i + 1;
                    }
                    i += 1;
                }
                if piece < end {
                    r.push(LineSegment { line, start: piece, end, highlight: hl });
                }
                assert(r@ + after =~= event_segments(bs, events@, None));
            },
            HlEvent::Start(h) => {
                hl = Some(h);
            },
            HlEvent::End => {
                hl = None;
            },
        }
        e += 1;
    }
    assert(events@.skip(e as int) =~= Seq::<HlEvent>::empty());
    assert(r@ + Seq::<LineSegment>::empty() =~= r@);
    r
}

} // verus!

verus! {

#[verifier::external_type_specification]
#[verifier::external_body]
pub struct ExHighlightConfiguration(tree_sitter_highlight::HighlightConfiguration);

/// The events that are present, in order (`None` marks an item the
/// highlighter reported as an error).
pub open spec fn present(ev: Seq<Option<HlEvent>>) -> Seq<HlEvent>
    decreases ev.len(),
{
    if ev.len() == 0 {
        Seq::empty()
    } else {
        match ev.last() {
            Some(e) => present(ev.drop_last()).push(e),
            None => present(ev.drop_last()),
        }
    }
}

/// What `Highlighter::highlight` yields for a configuration and source
/// bytes: its items in order (`None` for an error item), or `None` when the
/// call fails.
pub uninterp spec fn highlight_result(
    config: tree_sitter_highlight::HighlightConfiguration,
    content: Seq<u8>,
) -> Option<Seq<Option<HlEvent>>>;

/// The pieces a highlighter result gives for `content`: those of its present
/// events when every run lies within the content, else none (plain text).
pub open spec fn result_segments(content: Seq<u8>, result: Option<Seq<Option<HlEvent>>>) -> Seq<
    LineSegment,
> {
    match result {
        Some(ev) => if content.len() < usize::MAX && events_in_range(present(ev), content.len() as int) {
            event_segments(content, present(ev), None)
        } else {
            Seq::empty()
        },
        None => Seq::empty(),
    }
}

/// No language is injected into another.
fn no_injection<'a>(_name: &str) -> (r: Option<&'a tree_sitter_highlight::HighlightConfiguration>)
    ensures
        r is None,
{
    None
}

/// Runs `tree_sitter_highlight::Highlighter::highlight` with `config` over
/// the bytes of `content` (no cancellation flag, no injected languages) and
/// collects every item of the returned iterator: `Some` of the event for an
/// `Ok` item, `None` for an `Err` item. `None` overall when the call itself
/// returns an error. The result is named: it depends on `config` and the
/// content's bytes alone, and which events come depends on the grammar.
#[verifier::external_body]
fn highlight_events(config: &tree_sitter_highlight::HighlightConfiguration, content: &str) -> (r:
    Option<Vec<Option<HlEvent>>>)
    ensures
        match r {
            Some(v) => highlight_result(*config, content.spec_bytes()) == Some(v@),
            None => highlight_result(*config, content.spec_bytes()) is None,
        },
{
    let mut highlighter = tree_sitter_highlight::Highlighter::new();
    let events = match highlighter.highlight(config, content.as_bytes(), None, None, no_injection) {
        Ok(items) => Some(items.map(|item| match item {
            Ok(tree_sitter_highlight::HighlightEvent::Source { start, end }) => Some(HlEvent::Source { start, end }),
            Ok(tree_sitter_highlight::HighlightEvent::HighlightStart(h)) => Some(HlEvent::Start(h.0)),
            Ok(tree_sitter_highlight::HighlightEvent::HighlightEnd) => Some(HlEvent::End),
            Err(_) => None,
        }).collect()),
        Err(_) => None,
    };
    events
}

/// Highlighted pieces of a whole file, by line, so that constructs that
/// span lines (such as doc comments) come out right.
pub struct FileHighlighter {
    pub segments: Vec<LineSegment>,
}

impl FileHighlighter {
    /// No highlighting: every line is plain text.
    pub fn plain() -> (r: FileHighlighter)
        ensures
            r.segments@.len() == 0,
    {
        FileHighlighter { segments: Vec::new() }
    }

    /// The pieces the highlighter's items give (error items skipped); plain
    /// when a run of source bytes falls outside the content.
    pub fn from_events(content: &str, events: &Vec<Option<HlEvent>>) -> (r: FileHighlighter)
        ensures
            (content.spec_bytes().len() < usize::MAX && events_in_range(
                present(events@),
                content.spec_bytes().len() as int,
            )) ==> r.segments@ == event_segments(content.spec_bytes(), present(events@), None),
            !(content.spec_bytes().len() < usize::MAX && events_in_range(
                present(events@),
                content.spec_bytes().len() as int,
            )) ==> r.segments@.len() == 0,
    {
        let len = content.as_bytes().len();
        let mut ev: Vec<HlEvent> = Vec::new();
        let mut ok = len < usize::MAX;
        let mut i: usize = 0;
        while i < events.len()
            invariant
                i <= events.len(),
                len == content.spec_bytes().len(),
                ev@ == present(events@.take(i as int)),
                ok == (len < usize::MAX && events_in_range(ev@, len as int)),
            decreases events.len() - i,
        {
            assert(events@.take(i + 1).drop_last() =~= events@.take(i as int));
            match events[i] {
                Some(e) => {
                    let fits = match e {
                        HlEvent::Source { start, end } => start <= end && end <= len,
                        _ => true,
                    };
                    let ghost before = ev@;
                    ev.push(e);
                    assert(ok && fits ==> events_in_range(ev@, len as int)) by {
                        if ok && fits {
                            assert forall|j: int| 0 <= j < ev@.len() implies match #[trigger] ev@[j] {
                                HlEvent::Source { start, end } => start <= end <= len,
                                _ => true,
                            } by {
                                if j < before.len() {
                                    assert(ev@[j] == before[j]);
                                }
                            }
                        }
                    }
                    assert(!fits ==> !events_in_range(ev@, len as int)) by {
                        if !fits {
                            assert(ev@[ev@.len() - 1] == e);
                        }
                    }
                    assert(!events_in_range(before, len as int) ==> !events_in_range(
                        ev@,
                        len as int,
                    )) by {
                        if !events_in_range(before, len as int) {
                            let j = choose|j: int|
                                0 <= j < before.len() && !(match #[trigger] before[j] {
                                    HlEvent::Source { start, end } => start <= end <= len,
                                    _ => true,
                                });
                            assert(ev@[j] == before[j]);
                        }
                    }
                    ok = ok && fits;
                },
                None => {},
            }
            i += 1;
        }
        assert(events@.take(i as int) =~= events@);
        if ok {
            FileHighlighter { segments: segments_from_events(content, &ev) }
        } else {
            FileHighlighter::plain()
        }
    }

    /// Highlights `content` with the grammar and queries of `config`: the
    /// pieces of the events the highlighter yields (plain text when it fails).
    pub fn with_config(
        content: &str,
        config: &tree_sitter_highlight::HighlightConfiguration,
    ) -> (r: FileHighlighter)
        ensures
            r.segments@ == result_segments(
                content.spec_bytes(),
                highlight_result(*config, content.spec_bytes()),
            ),
    {
        match highlight_events(config, content) {
            Some(events) => FileHighlighter::from_events(content, &events),
            None => FileHighlighter::plain(),
        }
    }

    /// The pieces of line `line` (counted from 1), left to right.
    pub fn get_line_segments(&self, line: usize) -> (r: Vec<LineSegment>)
        ensures
            r@ == self.segments@.filter(|s: LineSegment| s.line == line),
    {
        let mut r: Vec<LineSegment> = Vec::new();
        let mut i: usize = 0;
        while i < self.segments.len()
            invariant
                i <= self.segments.len(),
                r@ == self.segments@.take(i as int).filter(|s: LineSegment| s.line == line),
            decreases self.segments.len() - i,
        {
            let s = self.segments[i];
            assert(self.segments@.take(i + 1).drop_last() =~= self.segments@.take(i as int));
            if s.line == line {
                r.push(s);
            }
            i += 1;
            proof {
                reveal(Seq::filter);
                assert(self.segments@.take(i as int).drop_last() =~= self.segments@.take(i - 1));
                assert(self.segments@.take(i as int).last() == s);
            }
        }
        assert(self.segments@.take(i as int) =~= self.segments@);
        r
    }
}

} // verus!

verus! {

proof fn lemma_static_value(name: Seq<char>)
    ensures
        "static:"@ + name != SYNTAX_RELOAD_VALUE@,
        strip_prefix("static:"@ + name, "static:"@) == Some(name),
{
    reveal_strlit("static:");
    reveal_strlit("__reload__");
    let v = "static:"@ + name;
    assert(v[0] == 's');
    assert(SYNTAX_RELOAD_VALUE@[0] == '_');
    assert(v.subrange(0, 7) =~= "static:"@);
    assert(v.skip(7) =~= name);
}

proof fn lemma_custom_value(name: Seq<char>)
    ensures
        "custom:"@ + name != SYNTAX_RELOAD_VALUE@,
        strip_prefix("custom:"@ + name, "static:"@) is None,
        strip_prefix("custom:"@ + name, "custom:"@) == Some(name),
{
    reveal_strlit("static:");
    reveal_strlit("custom:");
    reveal_strlit("__reload__");
    let v = "custom:"@ + name;
    assert(v[0] == 'c');
    assert(SYNTAX_RELOAD_VALUE@[0] == '_');
    assert(v.subrange(0, 7) =~= "custom:"@);
    if v.len() >= 7 {
        assert(v.subrange(0, 7)[0] != "static:"@[0]);
    }
    assert(v.skip(7) =~= name);
}

proof fn lemma_known_value(i: int)
    requires
        0 <= i < known_table().len(),
    ensures
        known_table()[i].name != SYNTAX_RELOAD_VALUE@,
        strip_prefix(known_table()[i].name, "static:"@) is None,
        strip_prefix(known_table()[i].name, "custom:"@) is None,
{
    reveal_strlit("static:");
    reveal_strlit("custom:");
    reveal_strlit("__reload__");
    reveal_strlit("cpp");
    reveal_strlit("c-sharp");
    reveal_strlit("php");
    reveal_strlit("ruby");
    reveal_strlit("swift");
    let n = known_table()[i].name;
    assert(n.len() < 8);
    if n.len() >= 7 {
        assert(n == "c-sharp"@);
        assert(n.subrange(0, 7)[1] != "static:"@[1]);
        assert(n.subrange(0, 7)[1] != "custom:"@[1]);
    }
    assert(n.len() != SYNTAX_RELOAD_VALUE@.len());
}

proof fn lemma_prefix_cancel(p: Seq<char>, x: Seq<char>, y: Seq<char>)
    requires
        p + x == p + y,
    ensures
        x == y,
{
    assert(x =~= (p + x).skip(p.len() as int));
    assert(y =~= (p + y).skip(p.len() as int));
}

proof fn lemma_static_names_distinct()
    ensures
        forall|i: int, j: int|
            0 <= i < static_table().len() && 0 <= j < static_table().len() && i != j ==> (
            #[trigger] static_table()[i]).name != (#[trigger] static_table()[j]).name,
{
    reveal_strlit("typescript");
    reveal_strlit("tsx");
    reveal_strlit("javascript");
    reveal_strlit("jsx");
    reveal_strlit("rust");
    reveal_strlit("json");
    reveal_strlit("python");
    reveal_strlit("go");
    reveal_strlit("css");
    reveal_strlit("html");
    reveal_strlit("toml");
    reveal_strlit("bash");
    reveal_strlit("markdown");
    reveal_strlit("c");
    reveal_strlit("java");
    reveal_strlit("dockerfile");
    reveal_strlit("lua");
    reveal_strlit("yaml");
    let t = static_table();
    assert forall|i: int, j: int| 0 <= i < t.len() && 0 <= j < t.len() && i != j implies (
    #[trigger] t[i]).name != (#[trigger] t[j]).name by {
        let a = t[i].name;
        let b = t[j].name;
        if a.len() == b.len() && a.len() > 0 {
            assert(a[0] != b[0] || a[a.len() - 1] != b[b.len() - 1] || (a.len() > 1 && a[1]
                != b[1]));
        }
    }
}

proof fn lemma_known_names_distinct()
    ensures
        forall|i: int, j: int|
            0 <= i < known_table().len() && 0 <= j < known_table().len() && i != j ==> (
            #[trigger] known_table()[i]).name != (#[trigger] known_table()[j]).name,
{
    reveal_strlit("cpp");
    reveal_strlit("c-sharp");
    reveal_strlit("php");
    reveal_strlit("ruby");
    reveal_strlit("swift");
    let t = known_table();
    assert forall|i: int, j: int| 0 <= i < t.len() && 0 <= j < t.len() && i != j implies (
    #[trigger] t[i]).name != (#[trigger] t[j]).name by {
        let a = t[i].name;
        let b = t[j].name;
        if a.len() == b.len() && a.len() > 0 {
            assert(a[0] != b[0]);
        }
    }
}

proof fn lemma_static_not_custom(x: Seq<char>, y: Seq<char>)
    ensures
        "static:"@ + x != "custom:"@ + y,
{
    reveal_strlit("static:");
    reveal_strlit("custom:");
    assert(("static:"@ + x)[0] != ("custom:"@ + y)[0]);
}

/// Where row `i` of the menu comes from: the `Ready` candidates in order,
/// then the `Available` languages in order, then the rescan row.
proof fn lemma_menu_row(ready: Seq<bool>, st: ScanState, i: int)
    requires
        ready.len() == static_table().len(),
        st.entries@.len() + n_known() <= usize::MAX,
        0 <= i < menu_rows_spec(ready, st).len(),
    ensures
        menu_rows_spec(ready, st).len() == ready_order(ready, st).len() + available_order(st).len()
            + 1,
        i < ready_order(ready, st).len() ==> {
            let p = ready_order(ready, st)[i];
            &&& menu_rows_spec(ready, st)[i] == ready_row_at(st, p.1 as int, p.0)
            &&& p.1 < ready_count(st)
            &&& keep_ready_row(ready, st)(p.1 as int)
            &&& p.0 == ready_key(st)(p.1 as int)
        },
        ready_order(ready, st).len() <= i < ready_order(ready, st).len() + available_order(
            st,
        ).len() ==> {
            let p = available_order(st)[i - ready_order(ready, st).len()];
            &&& menu_rows_spec(ready, st)[i] == available_row_at(st, p.1 as int, p.0)
            &&& p.1 < known_table().len()
            &&& !is_installed(st, known_table()[p.1 as int].name)
            &&& p.0 == known_key()(p.1 as int)
        },
        i == ready_order(ready, st).len() + available_order(st).len() ==> menu_rows_spec(
            ready,
            st,
        )[i] == reload_row(),
{
    assert(st.entries.len() == st.entries@.len());
    lemma_sorted_filter_bounds(ready_count(st), keep_ready_row(ready, st), ready_key(st));
    lemma_sorted_filter_bounds(known_table().len(), keep_not_installed(st), known_key());
    let r = ready_rows(ready, st);
    let a = available_rows(st);
    if i < r.len() {
        assert(menu_rows_spec(ready, st)[i] == r[i]);
    } else if i < r.len() + a.len() {
        assert(menu_rows_spec(ready, st)[i] == a[i - r.len()]);
    }
}

proof fn lemma_categories()
    ensures
        "Ready"@ != "Available"@,
        "Ready"@ != ""@,
        "Available"@ != ""@,
        ("✓ "@).len() == 2,
        ("! "@).len() == 2,
        ("○ "@).len() == 2,
{
    reveal_strlit("Ready");
    reveal_strlit("Available");
    reveal_strlit("");
    reveal_strlit("✓ ");
    reveal_strlit("! ");
    reveal_strlit("○ ");
    assert("Ready"@.len() != "Available"@.len());
}

/// The menu and its confirmation agree: confirming a row under `Ready`
/// finds the language already working, confirming a row under `Available`
/// installs exactly that language, and confirming the rescan row reloads.
pub proof fn law_menu_rows_confirm(ready: Seq<bool>, st: ScanState)
    requires
        ready.len() == static_table().len(),
        st.entries@.len() + n_known() <= usize::MAX,
    ensures
        forall|i: int|
            0 <= i < menu_rows_spec(ready, st).len() ==> {
                let r = #[trigger] menu_rows_spec(ready, st)[i];
                &&& r.category == "Ready"@ ==> confirm_spec(r.value, st) is AlreadyReady
                &&& r.category == "Available"@ ==> confirm_spec(r.value, st) == (ConfirmModel::Install {
                    id: r.value,
                    pretty: pretty_name_spec(r.value),
                })
                &&& r.value == SYNTAX_RELOAD_VALUE@ ==> confirm_spec(r.value, st) is Reload
            },
{
    lemma_categories();
    let rows = menu_rows_spec(ready, st);
    let nr = ready_order(ready, st).len();
    assert forall|i: int| 0 <= i < rows.len() implies {
        let r = #[trigger] rows[i];
        &&& r.category == "Ready"@ ==> confirm_spec(r.value, st) is AlreadyReady
        &&& r.category == "Available"@ ==> confirm_spec(r.value, st) == (ConfirmModel::Install {
            id: r.value,
            pretty: pretty_name_spec(r.value),
        })
        &&& r.value == SYNTAX_RELOAD_VALUE@ ==> confirm_spec(r.value, st) is Reload
    } by {
        lemma_menu_row(ready, st, i);
        if i < nr {
            let x = ready_order(ready, st)[i].1 as int;
            if x < n_static() {
                lemma_static_value(static_table()[x].name);
            } else if x < n_known() {
                lemma_known_value(x - n_static());
            } else {
                lemma_custom_value(entry_names(st.entries@)[x - n_known()]);
            }
        } else if i < nr + available_order(st).len() {
            lemma_known_value(available_order(st)[i - nr].1 as int);
        }
    }
}

/// Every built-in language that works, every installable language, and
/// every language the user added has a row, and the rescan row comes last.
pub proof fn law_menu_covers_languages(ready: Seq<bool>, st: ScanState)
    requires
        ready.len() == static_table().len(),
        st.entries@.len() + n_known() <= usize::MAX,
    ensures
        forall|i: int|
            #![trigger static_table()[i]]
            0 <= i < static_table().len() && ready[i] ==> exists|j: int|
                0 <= j < menu_rows_spec(ready, st).len() && (#[trigger] menu_rows_spec(
                    ready,
                    st,
                )[j]).value == "static:"@ + static_table()[i].name,
        forall|k: int|
            #![trigger known_table()[k]]
            0 <= k < known_table().len() ==> exists|j: int|
                0 <= j < menu_rows_spec(ready, st).len() && (#[trigger] menu_rows_spec(
                    ready,
                    st,
                )[j]).value == known_table()[k].name,
        forall|m: int|
            #![trigger entry_names(st.entries@)[m]]
            0 <= m < entry_names(st.entries@).len() && !known_ids().contains(
                entry_names(st.entries@)[m],
            ) ==> exists|j: int|
                0 <= j < menu_rows_spec(ready, st).len() && (#[trigger] menu_rows_spec(
                    ready,
                    st,
                )[j]).value == "custom:"@ + entry_names(st.entries@)[m],
        menu_rows_spec(ready, st).last() == reload_row(),
{
    assert(st.entries.len() == st.entries@.len());
    let rows = menu_rows_spec(ready, st);
    let n = ready_count(st);
    let keep = keep_ready_row(ready, st);
    let key = ready_key(st);
    let f = keyed_filter(n, keep, key);
    let nr = ready_order(ready, st).len();
    // A ready candidate `x` has a row whose value is `ready_value(st, x)`.
    assert forall|x: int| 0 <= x < n && #[trigger] keep(x) implies exists|j: int|
        0 <= j < rows.len() && (#[trigger] rows[j]).value == ready_value(st, x) by {
        lemma_keyed_filter_has(n, keep, key, x);
        lemma_sort_keyed_keeps(f, (key(x), x as usize));
        let j = choose|j: int| 0 <= j < nr && ready_order(ready, st)[j] == (key(x), x as usize);
        lemma_menu_row(ready, st, j);
    }
    assert forall|i: int| #![trigger static_table()[i]] 0 <= i < static_table().len() && ready[i] implies exists|j: int|
        0 <= j < rows.len() && (#[trigger] rows[j]).value == "static:"@ + static_table()[i].name by {
        assert(keep(i));
        assert(ready_value(st, i) == "static:"@ + static_table()[i].name);
    }
    assert forall|k: int| #![trigger known_table()[k]] 0 <= k < known_table().len() implies exists|j: int|
        0 <= j < rows.len() && (#[trigger] rows[j]).value == known_table()[k].name by {
        if is_installed(st, known_table()[k].name) {
            assert(keep(n_static() + k));
            assert(ready_value(st, n_static() + k) == known_table()[k].name);
        } else {
            let fa = keyed_filter(known_table().len(), keep_not_installed(st), known_key());
            lemma_keyed_filter_has(known_table().len(), keep_not_installed(st), known_key(), k);
            lemma_sort_keyed_keeps(fa, (known_key()(k), k as usize));
            let j = choose|j: int|
                0 <= j < available_order(st).len() && available_order(st)[j] == (
                    known_key()(k),
                    k as usize,
                );
            lemma_menu_row(ready, st, nr + j);
        }
    }
    let names = entry_names(st.entries@);
    assert forall|m: int| #![trigger names[m]] 0 <= m < names.len() && !known_ids().contains(names[m]) implies exists|j: int|
        0 <= j < rows.len() && (#[trigger] rows[j]).value == "custom:"@ + names[m] by {
        assert(keep(n_known() + m));
        assert(ready_value(st, n_known() + m) == "custom:"@ + names[m]);
    }
    lemma_menu_row(ready, st, rows.len() - 1);
}

/// The groups come in order and each is alphabetical: every `Ready` row
/// comes before every `Available` row, and within each group the display
/// names ascend.
pub proof fn law_menu_groups_alphabetical(ready: Seq<bool>, st: ScanState)
    requires
        ready.len() == static_table().len(),
        st.entries@.len() + n_known() <= usize::MAX,
    ensures
        forall|i: int, j: int|
            0 <= i < menu_rows_spec(ready, st).len() && 0 <= j < menu_rows_spec(ready, st).len()
                && (#[trigger] menu_rows_spec(ready, st)[i]).category == "Ready"@ && (
            #[trigger] menu_rows_spec(ready, st)[j]).category == "Available"@ ==> i < j,
        forall|i: int, j: int|
            0 <= i < j < menu_rows_spec(ready, st).len() && (#[trigger] menu_rows_spec(
                ready,
                st,
            )[i]).category == (#[trigger] menu_rows_spec(ready, st)[j]).category && (
            menu_rows_spec(ready, st)[i].category == "Ready"@ || menu_rows_spec(
                ready,
                st,
            )[i].category == "Available"@) ==> str_le(
                shown_name(menu_rows_spec(ready, st)[i]),
                shown_name(menu_rows_spec(ready, st)[j]),
            ),
{
    lemma_categories();
    let rows = menu_rows_spec(ready, st);
    let ro = ready_order(ready, st);
    let ao = available_order(st);
    let nr = ro.len();
    lemma_sort_keyed(keyed_filter(ready_count(st), keep_ready_row(ready, st), ready_key(st)));
    lemma_sort_keyed(keyed_filter(known_table().len(), keep_not_installed(st), known_key()));
    // Each row's category tells its group, and its shown name is its key.
    assert forall|i: int| 0 <= i < rows.len() implies {
        &&& (#[trigger] rows[i]).category == "Ready"@ <==> i < nr
        &&& rows[i].category == "Available"@ <==> nr <= i < nr + ao.len()
        &&& i < nr ==> shown_name(rows[i]) == ro[i].0
        &&& nr <= i < nr + ao.len() ==> shown_name(rows[i]) == ao[i - nr].0
    } by {
        lemma_menu_row(ready, st, i);
        if i < nr {
            assert(shown_name(rows[i]) =~= ro[i].0);
        } else if i < nr + ao.len() {
            let k = ao[i - nr].1 as int;
            assert(available_mark(st, k).len() == 2);
            assert(shown_name(rows[i]) =~= ao[i - nr].0);
        }
    }
    assert forall|i: int, j: int|
        0 <= i < j < rows.len() && (#[trigger] rows[i]).category == (#[trigger] rows[j]).category
            && (rows[i].category == "Ready"@ || rows[i].category == "Available"@) implies str_le(
        shown_name(rows[i]),
        shown_name(rows[j]),
    ) by {
        if i < nr {
            assert(str_le(ro[i].0, ro[j].0));
        } else {
            assert(str_le(ao[i - nr].0, ao[j - nr].0));
        }
    }
}

/// Every listed language has a display name of its own: no built-in and no
/// installable language shows as `Unknown`.
pub proof fn law_listed_languages_named()
    ensures
        forall|i: int|
            0 <= i < static_table().len() ==> pretty_name_spec(#[trigger] static_table()[i].name)
                != "Unknown"@,
        forall|k: int|
            0 <= k < known_table().len() ==> pretty_name_spec(#[trigger] known_table()[k].name)
                != "Unknown"@,
{
    reveal_strlit("TypeScript");
    reveal_strlit("TSX");
    reveal_strlit("JavaScript");
    reveal_strlit("JSX");
    reveal_strlit("Rust");
    reveal_strlit("JSON");
    reveal_strlit("Python");
    reveal_strlit("Go");
    reveal_strlit("CSS");
    reveal_strlit("HTML");
    reveal_strlit("TOML");
    reveal_strlit("Shell");
    reveal_strlit("Markdown");
    reveal_strlit("C");
    reveal_strlit("Java");
    reveal_strlit("Lua");
    reveal_strlit("YAML");
    reveal_strlit("Dockerfile");
    reveal_strlit("C++");
    reveal_strlit("C#");
    reveal_strlit("PHP");
    reveal_strlit("Ruby");
    reveal_strlit("Swift");
    reveal_strlit("Unknown");
    let t = static_table();
    let kt = known_table();
    assert forall|i: int| 0 <= i < t.len() implies pretty_name_spec(#[trigger] t[i].name)
        != "Unknown"@ by {
        if i == 0 {
            assert(t[0].name == "typescript"@);
            assert("TypeScript"@.len() != "Unknown"@.len());
        } else if i == 1 {
            assert(t[1].name == "tsx"@);
            assert("TSX"@.len() != "Unknown"@.len());
        } else if i == 2 {
            assert(t[2].name == "javascript"@);
            assert("JavaScript"@.len() != "Unknown"@.len());
        } else if i == 3 {
            assert(t[3].name == "jsx"@);
            assert("JSX"@.len() != "Unknown"@.len());
        } else if i == 4 {
            assert(t[4].name == "rust"@);
            assert("Rust"@.len() != "Unknown"@.len());
        } else if i == 5 {
            assert(t[5].name == "json"@);
            assert("JSON"@.len() != "Unknown"@.len());
        } else if i == 6 {
            assert(t[6].name == "python"@);
            assert("Python"@.len() != "Unknown"@.len());
        } else if i == 7 {
            assert(t[7].name == "go"@);
            assert("Go"@.len() != "Unknown"@.len());
        } else if i == 8 {
            assert(t[8].name == "css"@);
            assert("CSS"@.len() != "Unknown"@.len());
        } else if i == 9 {
            assert(t[9].name == "html"@);
            assert("HTML"@.len() != "Unknown"@.len());
        } else if i == 10 {
            assert(t[10].name == "toml"@);
            assert("TOML"@.len() != "Unknown"@.len());
        } else if i == 11 {
            assert(t[11].name == "bash"@);
            assert("Shell"@.len() != "Unknown"@.len());
        } else if i == 12 {
            assert(t[12].name == "markdown"@);
            assert("Markdown"@.len() != "Unknown"@.len());
        } else if i == 13 {
            assert(t[13].name == "c"@);
            assert("C"@.len() != "Unknown"@.len());
        } else if i == 14 {
            assert(t[14].name == "java"@);
            assert("Java"@.len() != "Unknown"@.len());
        } else if i == 15 {
            assert(t[15].name == "dockerfile"@);
            assert("Dockerfile"@.len() != "Unknown"@.len());
        } else if i == 16 {
            assert(t[16].name == "lua"@);
            assert("Lua"@.len() != "Unknown"@.len());
        } else if i == 17 {
            assert(t[17].name == "yaml"@);
            assert("YAML"@.len() != "Unknown"@.len());
        }
    }
    assert forall|k: int| 0 <= k < kt.len() implies pretty_name_spec(#[trigger] kt[k].name)
        != "Unknown"@ by {
        if k == 0 {
            assert(kt[0].name == "cpp"@);
            assert("C++"@.len() != "Unknown"@.len());
        } else if k == 1 {
            assert(kt[1].name == "c-sharp"@);
            assert("C#"@.len() != "Unknown"@.len());
        } else if k == 2 {
            assert(kt[2].name == "php"@);
            assert("PHP"@.len() != "Unknown"@.len());
        } else if k == 3 {
            assert(kt[3].name == "ruby"@);
            assert("Ruby"@.len() != "Unknown"@.len());
        } else if k == 4 {
            assert(kt[4].name == "swift"@);
            assert("Swift"@.len() != "Unknown"@.len());
        }
    }
}

/// Two different candidates of the `Ready` group have different values.
proof fn lemma_ready_values_distinct(st: ScanState, x: int, y: int)
    requires
        0 <= x < ready_count(st),
        0 <= y < ready_count(st),
        x != y,
        entry_names(st.entries@).no_duplicates(),
    ensures
        ready_value(st, x) != ready_value(st, y),
{
    lemma_static_names_distinct();
    lemma_known_names_distinct();
    let names = entry_names(st.entries@);
    let vx = ready_value(st, x);
    let vy = ready_value(st, y);
    if vx == vy {
        if x < n_static() && y < n_static() {
            lemma_prefix_cancel("static:"@, static_table()[x].name, static_table()[y].name);
        } else if n_known() <= x && n_known() <= y {
            lemma_prefix_cancel("custom:"@, names[x - n_known()], names[y - n_known()]);
        } else if x < n_static() && n_known() <= y {
            lemma_static_not_custom(static_table()[x].name, names[y - n_known()]);
        } else if y < n_static() && n_known() <= x {
            lemma_static_not_custom(static_table()[y].name, names[x - n_known()]);
        } else if x < n_static() {
            lemma_static_value(static_table()[x].name);
            lemma_known_value(y - n_static());
        } else if y < n_static() {
            lemma_static_value(static_table()[y].name);
            lemma_known_value(x - n_static());
        } else if n_known() <= y {
            lemma_custom_value(names[y - n_known()]);
            lemma_known_value(x - n_static());
        } else if n_known() <= x {
            lemma_custom_value(names[x - n_known()]);
            lemma_known_value(y - n_static());
        }
    }
}

/// Every row has a value of its own: no language is listed twice.
pub proof fn law_menu_values_distinct(ready: Seq<bool>, st: ScanState)
    requires
        ready.len() == static_table().len(),
        st.entries@.len() + n_known() <= usize::MAX,
        st.wf(),
    ensures
        forall|i: int, j: int|
            0 <= i < menu_rows_spec(ready, st).len() && 0 <= j < menu_rows_spec(ready, st).len()
                && i != j ==> (#[trigger] menu_rows_spec(ready, st)[i]).value != (
            #[trigger] menu_rows_spec(ready, st)[j]).value,
{
    assert(st.entries.len() == st.entries@.len());
    let rows = menu_rows_spec(ready, st);
    let ro = ready_order(ready, st);
    let ao = available_order(st);
    let nr = ro.len();
    let na = ao.len();
    lemma_sorted_filter_distinct(ready_count(st), keep_ready_row(ready, st), ready_key(st));
    lemma_sorted_filter_distinct(known_table().len(), keep_not_installed(st), known_key());
    lemma_known_names_distinct();
    assert forall|i: int, j: int|
        0 <= i < rows.len() && 0 <= j < rows.len() && i != j implies (#[trigger] rows[i]).value
        != (#[trigger] rows[j]).value by {
        lemma_menu_row(ready, st, i);
        lemma_menu_row(ready, st, j);
        let vi = rows[i].value;
        let vj = rows[j].value;
        if i < nr && j < nr {
            lemma_ready_values_distinct(st, ro[i].1 as int, ro[j].1 as int);
        } else if nr <= i < nr + na && nr <= j < nr + na {
        } else {
            // Facts about each kind of value.
            if i < nr {
                let x = ro[i].1 as int;
                if x < n_static() {
                    lemma_static_value(static_table()[x].name);
                } else if x < n_known() {
                    lemma_known_value(x - n_static());
                } else {
                    lemma_custom_value(entry_names(st.entries@)[x - n_known()]);
                }
            } else if i < nr + na {
                lemma_known_value(ao[i - nr].1 as int);
            }
            if j < nr {
                let y = ro[j].1 as int;
                if y < n_static() {
                    lemma_static_value(static_table()[y].name);
                } else if y < n_known() {
                    lemma_known_value(y - n_static());
                } else {
                    lemma_custom_value(entry_names(st.entries@)[y - n_known()]);
                }
            } else if j < nr + na {
                lemma_known_value(ao[j - nr].1 as int);
            }
        }
    }
}

} // verus!

verus! {

/// Which language highlights a file.
#[derive(Debug, Clone, Copy, PartialEq, Eq, Structural)]
pub enum LangChoice {
    /// The built-in language with this index in `static_langs()`.
    Static(usize),
    /// The loaded user language with this index among the entries.
    Dynamic(usize),
}

/// The language for `filename` with content `content`: a built-in one
/// first, then a loaded user language, else none (plain text). The first
/// line counts only when it is not empty.
pub open spec fn language_spec(
    filename: Seq<char>,
    content: Seq<char>,
    ready: Seq<bool>,
    entries: Seq<crate::pager::dynamic::DynamicEntry>,
) -> Option<LangChoice> {
    let first = first_line_spec(content);
    match crate::pager::languages::static_lookup(static_table(), ready, filename, first) {
        Some(i) => Some(LangChoice::Static(i as usize)),
        None => match crate::pager::dynamic::dynamic_lookup(
            crate::pager::dynamic::entry_models(entries),
            filename,
            first,
        ) {
            Some(j) => Some(LangChoice::Dynamic(j as usize)),
            None => None,
        },
    }
}

/// The language that highlights `filename`, whose content is `content`.
pub fn language_for_file(
    filename: &str,
    content: &str,
    static_ready: &Vec<bool>,
    entries: &Vec<crate::pager::dynamic::DynamicEntry>,
) -> (r: Option<LangChoice>)
    requires
        static_ready@.len() == static_table().len(),
    ensures
        r == language_spec(filename@, content@, static_ready@, entries@),
{
    let first = first_line(content);
    let first_ref: Option<&str> = match &first {
        Some(l) => Some(l.as_str()),
        None => None,
    };
    assert(crate::pager::languages::opt_view(first_ref) == first_line_spec(content@));
    match crate::pager::languages::config_for_file(filename, first_ref, static_ready) {
        Some(i) => Some(LangChoice::Static(i)),
        None => match crate::pager::dynamic::find_in(entries, filename, first_ref) {
            Some(j) => Some(LangChoice::Dynamic(j)),
            None => None,
        },
    }
}

} // verus!
