//! The code tool: the symbols of a source file, found line by line.

use vstd::prelude::*;
use vstd::string::StringExecFns;
use crate::events::{AppEvent, EventSender};
use crate::json::Json;
use crate::text::{
    chars_to_string, concat2, concat3, contains, contains_sub, find_from, first_match_from,
    is_alphanumeric, lemma_first_match, lines, lines_spec, matches_at, opt_text, prefix_until,
    prefix_until_spec, second_piece, second_piece_spec, starts_with, str_chars, str_eq, sub_vec,
    trim, trim_spec, trim_start_spec, unicode_alphanumeric, views, is_whitespace,
};
use crate::tools::executor::{reported, told, truncate_result, truncated, ToolRun};
use crate::tools::executors::fs::matching::{after_last, extension_of, path_extension};
use crate::tools::executors::fs::FileProbe;
use crate::tools::types::{CodeSymbol, CodeSymbolsArgs, CodeSymbolsResult};

verus! {

/// The language that a file extension stands for; `"unknown"` for any
/// other extension.
pub open spec fn language_of_extension(ext: Seq<char>) -> Seq<char> {
    if ext == "rs"@ {
        "rust"@
    } else if ext == "js"@ || ext == "jsx"@ {
        "javascript"@
    } else if ext == "ts"@ || ext == "tsx"@ {
        "typescript"@
    } else if ext == "py"@ {
        "python"@
    } else if ext == "java"@ {
        "java"@
    } else if ext == "cpp"@ || ext == "cc"@ || ext == "cxx"@ {
        "cpp"@
    } else if ext == "c"@ {
        "c"@
    } else if ext == "go"@ {
        "go"@
    } else if ext == "rb"@ {
        "ruby"@
    } else if ext == "php"@ {
        "php"@
    } else if ext == "cs"@ {
        "csharp"@
    } else if ext == "swift"@ {
        "swift"@
    } else if ext == "kt"@ {
        "kotlin"@
    } else if ext == "scala"@ {
        "scala"@
    } else if ext == "clj"@ || ext == "cljs"@ {
        "clojure"@
    } else {
        "unknown"@
    }
}

/// The language of the file at a path, by its extension; nothing for a
/// path without one.
pub fn detect_language_from_path(path: &str) -> (r: Option<String>)
    ensures
        opt_text(r) == (match extension_of(path@) {
            Some(ext) => Some(language_of_extension(ext)),
            None => None,
        }),
{
    let ext = match path_extension(path) {
        Some(e) => e,
        None => {
            return None;
        },
    };
    let e = ext.as_str();
    let name = if str_eq(e, "rs") {
        "rust"
    } else if str_eq(e, "js") || str_eq(e, "jsx") {
        "javascript"
    } else if str_eq(e, "ts") || str_eq(e, "tsx") {
        "typescript"
    } else if str_eq(e, "py") {
        "python"
    } else if str_eq(e, "java") {
        "java"
    } else if str_eq(e, "cpp") || str_eq(e, "cc") || str_eq(e, "cxx") {
        "cpp"
    } else if str_eq(e, "c") {
        "c"
    } else if str_eq(e, "go") {
        "go"
    } else if str_eq(e, "rb") {
        "ruby"
    } else if str_eq(e, "php") {
        "php"
    } else if str_eq(e, "cs") {
        "csharp"
    } else if str_eq(e, "swift") {
        "swift"
    } else if str_eq(e, "kt") {
        "kotlin"
    } else if str_eq(e, "scala") {
        "scala"
    } else if str_eq(e, "clj") || str_eq(e, "cljs") {
        "clojure"
    } else {
        "unknown"
    };
    Some(String::from_str(name))
}

// ---------------------------------------------------------------------------
// Names behind keywords
// ---------------------------------------------------------------------------

/// The name that follows the first occurrence of `keyword` in a line: what
/// stands between the keyword and the first stop, without the whitespace
/// around it. Nothing where the keyword does not occur or the name is
/// empty.
pub open spec fn name_after(line: Seq<char>, keyword: Seq<char>, stops: Seq<char>, whitespace: bool)
    -> Option<Seq<char>> {
    match second_piece_spec(line, keyword) {
        None => None,
        Some(after) => {
            let name = trim_spec(prefix_until_spec(after, stops, whitespace));
            if name.len() > 0 {
                Some(name)
            } else {
                None
            }
        },
    }
}

fn find_name_after(line: &[char], keyword: &str, stops: &str, whitespace: bool) -> (r: Option<
    String,
>)
    requires
        keyword@.len() > 0,
    ensures
        opt_text(r) == name_after(line@, keyword@, stops@, whitespace),
{
    let key = str_chars(keyword);
    let stop_chars = str_chars(stops);
    match second_piece(line, key.as_slice()) {
        None => None,
        Some(after) => {
            let head = prefix_until(after.as_slice(), stop_chars.as_slice(), whitespace);
            let name = trim(head.as_slice());
            if name.len() > 0 {
                Some(chars_to_string(name.as_slice()))
            } else {
                None
            }
        },
    }
}

fn holds(line: &[char], part: &str) -> (b: bool)
    ensures
        b == contains_sub(line@, part@),
{
    let p = str_chars(part);
    contains(line, p.as_slice())
}

fn begins(line: &[char], part: &str) -> (b: bool)
    ensures
        b == matches_at(line@, part@, 0),
{
    let p = str_chars(part);
    starts_with(line, p.as_slice())
}

/// The name of the function that a line of Rust declares.
pub open spec fn rust_function(line: Seq<char>) -> Option<Seq<char>> {
    name_after(line, "fn "@, "("@, false)
}

/// The name of the struct that a line of Rust declares.
pub open spec fn rust_struct(line: Seq<char>) -> Option<Seq<char>> {
    name_after(line, "struct "@, "{<"@, true)
}

/// The name of the enum that a line of Rust declares.
pub open spec fn rust_enum(line: Seq<char>) -> Option<Seq<char>> {
    name_after(line, "enum "@, "{<"@, true)
}

/// The name of the trait that a line of Rust declares.
pub open spec fn rust_trait(line: Seq<char>) -> Option<Seq<char>> {
    name_after(line, "trait "@, "{<"@, true)
}

/// The name of the module that a line of Rust declares; a line with a
/// comment declares none.
pub open spec fn rust_module(line: Seq<char>) -> Option<Seq<char>> {
    if contains_sub(line, "//"@) {
        None
    } else {
        name_after(line, "mod "@, ";{"@, true)
    }
}

/// The visibility that a line of Rust declares.
pub open spec fn rust_visibility(line: Seq<char>) -> Seq<char> {
    if matches_at(line, "pub "@, 0) {
        "public"@
    } else if matches_at(line, "pub("@, 0) {
        "restricted"@
    } else {
        "private"@
    }
}

/// What stands before the first occurrence of `sep` in `s`, or all of `s`.
pub open spec fn before_first(s: Seq<char>, sep: Seq<char>) -> Seq<char> {
    match first_match_from(s, sep, 0) {
        Some(i) => s.take(i),
        None => s,
    }
}

/// The name of the function that a line of JavaScript declares: behind
/// `function`, or, for an arrow function, the constant it is bound to.
pub open spec fn js_function(line: Seq<char>) -> Option<Seq<char>> {
    match name_after(line, "function "@, "("@, false) {
        Some(name) => Some(name),
        None => if contains_sub(line, " => "@) {
            match second_piece_spec(line, "const "@) {
                None => None,
                Some(after) => {
                    let name = trim_spec(before_first(after, " ="@));
                    if name.len() > 0 {
                        Some(name)
                    } else {
                        None
                    }
                },
            }
        } else {
            None
        },
    }
}

/// The name of the class that a line of JavaScript or Java declares.
pub open spec fn class_name(line: Seq<char>) -> Option<Seq<char>> {
    name_after(line, "class "@, "{e"@, true)
}

/// The name of the function that a line of Python declares.
pub open spec fn python_function(line: Seq<char>) -> Option<Seq<char>> {
    if matches_at(line, "def "@, 0) {
        name_after(line, "def "@, "("@, false)
    } else {
        None
    }
}

/// The name of the class that a line of Python declares.
pub open spec fn python_class(line: Seq<char>) -> Option<Seq<char>> {
    if matches_at(line, "class "@, 0) {
        name_after(line, "class "@, "(:"@, true)
    } else {
        None
    }
}

/// Whether a line is a line comment.
pub open spec fn is_line_comment(line: Seq<char>) -> bool {
    matches_at(trim_start_spec(line), "//"@, 0)
}

/// The name of the class that a line of Java declares; a comment declares
/// none.
pub open spec fn java_class(line: Seq<char>) -> Option<Seq<char>> {
    if is_line_comment(line) {
        None
    } else {
        class_name(line)
    }
}

/// Whether a text is made of letters, digits and underscores.
pub open spec fn is_identifier(s: Seq<char>) -> bool {
    forall|i: int| 0 <= i < s.len() ==> unicode_alphanumeric(#[trigger] s[i]) || s[i] == '_'
}

/// The name of the method that a line of Java declares: a line with
/// parentheses and an access modifier that is no comment, where an
/// identifier stands between the last space before the first parenthesis
/// and that parenthesis.
pub open spec fn java_method(line: Seq<char>) -> Option<Seq<char>> {
    if contains_sub(line, "("@) && contains_sub(line, ")"@) && (contains_sub(line, "public"@)
        || contains_sub(line, "private"@) || contains_sub(line, "protected"@)) && !is_line_comment(
        line,
    ) {
        let before = prefix_until_spec(line, "("@, false);
        match after_last(before, ' ') {
            None => None,
            Some(at) => {
                let name = trim_spec(before.skip(at));
                if name.len() > 0 && is_identifier(name) {
                    Some(name)
                } else {
                    None
                }
            },
        }
    } else {
        None
    }
}

/// The visibility that a line of Java declares.
pub open spec fn java_visibility(line: Seq<char>) -> Seq<char> {
    if contains_sub(line, "public "@) {
        "public"@
    } else if contains_sub(line, "private "@) {
        "private"@
    } else if contains_sub(line, "protected "@) {
        "protected"@
    } else {
        "package"@
    }
}

/// The name of the function that a line of Rust declares.
pub fn extract_rust_function(line: &str) -> (r: Option<String>)
    ensures
        opt_text(r) == rust_function(line@),
{
    proof {
        reveal_strlit("fn ");
    }
    let chars = str_chars(line);
    find_name_after(chars.as_slice(), "fn ", "(", false)
}

/// The name of the struct that a line of Rust declares.
pub fn extract_rust_struct(line: &str) -> (r: Option<String>)
    ensures
        opt_text(r) == rust_struct(line@),
{
    proof {
        reveal_strlit("struct ");
    }
    let chars = str_chars(line);
    find_name_after(chars.as_slice(), "struct ", "{<", true)
}

/// The name of the enum that a line of Rust declares.
pub fn extract_rust_enum(line: &str) -> (r: Option<String>)
    ensures
        opt_text(r) == rust_enum(line@),
{
    proof {
        reveal_strlit("enum ");
    }
    let chars = str_chars(line);
    find_name_after(chars.as_slice(), "enum ", "{<", true)
}

/// The name of the trait that a line of Rust declares.
pub fn extract_rust_trait(line: &str) -> (r: Option<String>)
    ensures
        opt_text(r) == rust_trait(line@),
{
    proof {
        reveal_strlit("trait ");
    }
    let chars = str_chars(line);
    find_name_after(chars.as_slice(), "trait ", "{<", true)
}

/// The name of the module that a line of Rust declares.
pub fn extract_rust_module(line: &str) -> (r: Option<String>)
    ensures
        opt_text(r) == rust_module(line@),
{
    proof {
        reveal_strlit("mod ");
    }
    let chars = str_chars(line);
    if holds(chars.as_slice(), "//") {
        return None;
    }
    find_name_after(chars.as_slice(), "mod ", ";{", true)
}

/// The visibility that a line of Rust declares.
pub fn get_rust_visibility(line: &str) -> (r: Option<String>)
    ensures
        opt_text(r) == Some(rust_visibility(line@)),
{
    let chars = str_chars(line);
    if begins(chars.as_slice(), "pub ") {
        Some(String::from_str("public"))
    } else if begins(chars.as_slice(), "pub(") {
        Some(String::from_str("restricted"))
    } else {
        Some(String::from_str("private"))
    }
}

/// The name of the function that a line of JavaScript declares.
pub fn extract_js_function(line: &str) -> (r: Option<String>)
    ensures
        opt_text(r) == js_function(line@),
{
    proof {
        reveal_strlit("function ");
        reveal_strlit("const ");
    }
    let chars = str_chars(line);
    match find_name_after(chars.as_slice(), "function ", "(", false) {
        Some(name) => {
            return Some(name);
        },
        None => {},
    }
    if !holds(chars.as_slice(), " => ") {
        return None;
    }
    let key = str_chars("const ");
    match second_piece(chars.as_slice(), key.as_slice()) {
        None => None,
        Some(after) => {
            let sep = str_chars(" =");
            let head = match find_from(after.as_slice(), sep.as_slice(), 0) {
                Some(i) => {
                    proof {
                        lemma_first_match(after@, sep@, 0);
                    }
                    let h = sub_vec(after.as_slice(), 0, i);
                    assert(h@ == after@.take(i as int));
                    h
                },
                None => after,
            };
            let name = trim(head.as_slice());
            if name.len() > 0 {
                Some(chars_to_string(name.as_slice()))
            } else {
                None
            }
        },
    }
}

/// The name of the class that a line of JavaScript declares.
pub fn extract_js_class(line: &str) -> (r: Option<String>)
    ensures
        opt_text(r) == class_name(line@),
{
    proof {
        reveal_strlit("class ");
    }
    let chars = str_chars(line);
    find_name_after(chars.as_slice(), "class ", "{e", true)
}

/// The name of the function that a line of Python declares.
pub fn extract_python_function(line: &str) -> (r: Option<String>)
    ensures
        opt_text(r) == python_function(line@),
{
    proof {
        reveal_strlit("def ");
    }
    let chars = str_chars(line);
    if !begins(chars.as_slice(), "def ") {
        return None;
    }
    find_name_after(chars.as_slice(), "def ", "(", false)
}

/// The name of the class that a line of Python declares.
pub fn extract_python_class(line: &str) -> (r: Option<String>)
    ensures
        opt_text(r) == python_class(line@),
{
    proof {
        reveal_strlit("class ");
    }
    let chars = str_chars(line);
    if !begins(chars.as_slice(), "class ") {
        return None;
    }
    find_name_after(chars.as_slice(), "class ", "(:", true)
}

fn line_comment(line: &[char]) -> (b: bool)
    ensures
        b == is_line_comment(line@),
{
    let mut a: usize = 0;
    assert(line@.skip(0) == line@);
    while a < line.len() && is_whitespace(line[a])
        invariant
            a <= line.len(),
            trim_start_spec(line@) == trim_start_spec(line@.skip(a as int)),
        decreases line.len() - a,
    {
        proof {
            assert(line@.skip(a as int).skip(1) == line@.skip(a + 1));
        }
        a += 1;
    }
    let rest = sub_vec(line, a, line.len());
    assert(rest@ == line@.skip(a as int));
    begins(rest.as_slice(), "//")
}

/// The name of the class that a line of Java declares.
pub fn extract_java_class(line: &str) -> (r: Option<String>)
    ensures
        opt_text(r) == java_class(line@),
{
    proof {
        reveal_strlit("class ");
    }
    let chars = str_chars(line);
    if line_comment(chars.as_slice()) {
        return None;
    }
    find_name_after(chars.as_slice(), "class ", "{e", true)
}

fn find_after_last_space(s: &[char]) -> (r: Option<usize>)
    ensures
        match r {
            Some(i) => after_last(s@, ' ') == Some(i as int) && i <= s.len(),
            None => after_last(s@, ' ') is None,
        },
{
    let mut n: usize = s.len();
    assert(s@.take(n as int) == s@);
    while n > 0
        invariant
            n <= s.len(),
            after_last(s@, ' ') == after_last(s@.take(n as int), ' '),
        decreases n,
    {
        assert(s@.take(n as int).last() == s@[n - 1]);
        assert(s@.take(n as int).drop_last() == s@.take(n - 1));
        if s[n - 1] == ' ' {
            return Some(n);
        }
        n -= 1;
    }
    None
}

fn identifier(s: &[char]) -> (b: bool)
    ensures
        b == is_identifier(s@),
{
    let mut i: usize = 0;
    while i < s.len()
        invariant
            i <= s.len(),
            forall|k: int| 0 <= k < i ==> unicode_alphanumeric(#[trigger] s@[k]) || s@[k] == '_',
        decreases s.len() - i,
    {
        if !(is_alphanumeric(s[i]) || s[i] == '_') {
            return false;
        }
        i += 1;
    }
    true
}

/// The name of the method that a line of Java declares.
pub fn extract_java_method(line: &str) -> (r: Option<String>)
    ensures
        opt_text(r) == java_method(line@),
{
    let chars = str_chars(line);
    let c = chars.as_slice();
    if !(holds(c, "(") && holds(c, ")") && (holds(c, "public") || holds(c, "private") || holds(
        c,
        "protected",
    )) && !line_comment(c)) {
        return None;
    }
    let paren = str_chars("(");
    let before = prefix_until(c, paren.as_slice(), false);
    match find_after_last_space(before.as_slice()) {
        None => None,
        Some(at) => {
            let tail = sub_vec(before.as_slice(), at, before.len());
            assert(tail@ == before@.skip(at as int));
            let name = trim(tail.as_slice());
            if name.len() > 0 && identifier(name.as_slice()) {
                Some(chars_to_string(name.as_slice()))
            } else {
                None
            }
        },
    }
}

/// The visibility that a line of Java declares.
pub fn get_java_visibility(line: &str) -> (r: Option<String>)
    ensures
        opt_text(r) == Some(java_visibility(line@)),
{
    let chars = str_chars(line);
    let c = chars.as_slice();
    if holds(c, "public ") {
        Some(String::from_str("public"))
    } else if holds(c, "private ") {
        Some(String::from_str("private"))
    } else if holds(c, "protected ") {
        Some(String::from_str("protected"))
    } else {
        Some(String::from_str("package"))
    }
}

// ---------------------------------------------------------------------------
// The symbols of a file
// ---------------------------------------------------------------------------

/// The languages whose symbols are extracted.
#[derive(Debug, Clone, Copy, PartialEq, Eq, Structural)]
pub enum Language {
    Rust,
    JavaScript,
    Python,
    Java,
}

/// What is said when an analysis is reported.
pub open spec fn symbols_messages(path: Seq<char>) -> Seq<Seq<char>> {
    Seq::empty().push("Analyzing symbols in: "@ + path)
}

/// The value of a symbol: its name, its kind, its first and its last line,
/// its scope, and its visibility where the language has one.
pub type SymbolView = (Seq<char>, Seq<char>, u32, u32, Option<Seq<char>>, Option<Seq<char>>);

/// The value of a symbol.
pub open spec fn symbol_view(s: CodeSymbol) -> SymbolView {
    (s.name@, s.symbol_type@, s.line_start, s.line_end, opt_text(s.scope), opt_text(s.visibility))
}

/// The values of symbols.
pub open spec fn symbols_view(symbols: Seq<CodeSymbol>) -> Seq<SymbolView> {
    Seq::new(symbols.len(), |i: int| symbol_view(symbols[i]))
}

/// `symbols` with one more of the kind where the line declares one. A
/// symbol is found on one line, which is its first and its last, and has
/// no scope.
pub open spec fn with_symbol(
    symbols: Seq<SymbolView>,
    name: Option<Seq<char>>,
    kind: Seq<char>,
    line: u32,
    visibility: Option<Seq<char>>,
) -> Seq<SymbolView> {
    match name {
        Some(n) => symbols.push((n, kind, line, line, None, visibility)),
        None => symbols,
    }
}

/// `symbols` with the symbols that a trimmed line declares in the
/// language, in the order in which they are looked for.
pub open spec fn with_line_symbols(
    symbols: Seq<SymbolView>,
    language: Language,
    line: Seq<char>,
    number: u32,
) -> Seq<SymbolView> {
    match language {
        Language::Rust => {
            let v = Some(rust_visibility(line));
            let s1 = with_symbol(symbols, rust_function(line), "function"@, number, v);
            let s2 = with_symbol(s1, rust_struct(line), "struct"@, number, v);
            let s3 = with_symbol(s2, rust_enum(line), "enum"@, number, v);
            let s4 = with_symbol(s3, rust_trait(line), "trait"@, number, v);
            with_symbol(s4, rust_module(line), "module"@, number, v)
        },
        Language::JavaScript => {
            let s1 = with_symbol(symbols, js_function(line), "function"@, number, None);
            with_symbol(s1, class_name(line), "class"@, number, None)
        },
        Language::Python => {
            let s1 = with_symbol(symbols, python_function(line), "function"@, number, None);
            with_symbol(s1, python_class(line), "class"@, number, None)
        },
        Language::Java => {
            let v = Some(java_visibility(line));
            let s1 = with_symbol(symbols, java_class(line), "class"@, number, v);
            with_symbol(s1, java_method(line), "function"@, number, v)
        },
    }
}

/// The number of a line, held at the largest number of 32 bits.
pub open spec fn line_number(index: int) -> u32 {
    if index + 1 > u32::MAX {
        u32::MAX
    } else {
        (index + 1) as u32
    }
}

/// `symbols` with the symbols of the first `n` lines of a text.
pub open spec fn with_symbols_upto(
    symbols: Seq<SymbolView>,
    language: Language,
    lines: Seq<Seq<char>>,
    n: nat,
) -> Seq<SymbolView>
    decreases n,
{
    if n == 0 || n > lines.len() {
        symbols
    } else {
        with_line_symbols(
            with_symbols_upto(symbols, language, lines, (n - 1) as nat),
            language,
            trim_spec(lines[n - 1]),
            line_number(n - 1),
        )
    }
}

/// `symbols` with the symbols of a text in the language.
pub open spec fn with_symbols_of(symbols: Seq<SymbolView>, language: Language, content: Seq<char>)
    -> Seq<SymbolView> {
    with_symbols_upto(symbols, language, lines_spec(content), lines_spec(content).len())
}

fn push_symbol(
    symbols: &mut Vec<CodeSymbol>,
    name: Option<String>,
    kind: &str,
    line: u32,
    visibility: Option<String>,
)
    ensures
        symbols_view(final(symbols)@) == with_symbol(
            symbols_view(old(symbols)@),
            opt_text(name),
            kind@,
            line,
            opt_text(visibility),
        ),
{
    match name {
        Some(n) => {
            let ghost before = symbols_view(symbols@);
            let s = CodeSymbol {
                name: n,
                symbol_type: String::from_str(kind),
                line_start: line,
                line_end: line,
                scope: None,
                visibility,
            };
            symbols.push(s);
            assert(symbols_view(symbols@) =~= before.push(symbol_view(s)));
        },
        None => {},
    }
}

fn copy_text(t: &Option<String>) -> (r: Option<String>)
    ensures
        opt_text(r) == opt_text(*t),
{
    match t {
        Some(s) => Some(s.clone()),
        None => None,
    }
}

fn extract_language_symbols(content: &str, symbols: &mut Vec<CodeSymbol>, language: Language)
    ensures
        symbols_view(final(symbols)@) == with_symbols_of(
            symbols_view(old(symbols)@),
            language,
            content@,
        ),
{
    let chars = str_chars(content);
    let all = lines(chars.as_slice());
    let ghost lv = lines_spec(content@);
    let ghost start = symbols_view(symbols@);
    let mut i: usize = 0;
    assert(views(all@).len() == all@.len());
    while i < all.len()
        invariant
            i <= all.len(),
            lv == views(all@),
            symbols_view(symbols@) == with_symbols_upto(start, language, lv, i as nat),
        decreases all.len() - i,
    {
        assert(lv[i as int] == all@[i as int]@);
        let number: u32 = if i >= 4294967295 {
            4294967295u32
        } else {
            (i + 1) as u32
        };
        let trimmed_chars = trim(all[i].as_slice());
        let trimmed = chars_to_string(trimmed_chars.as_slice());
        let line = trimmed.as_str();
        match language {
            Language::Rust => {
                let v = get_rust_visibility(line);
                push_symbol(symbols, extract_rust_function(line), "function", number, copy_text(&v));
                push_symbol(symbols, extract_rust_struct(line), "struct", number, copy_text(&v));
                push_symbol(symbols, extract_rust_enum(line), "enum", number, copy_text(&v));
                push_symbol(symbols, extract_rust_trait(line), "trait", number, copy_text(&v));
                push_symbol(symbols, extract_rust_module(line), "module", number, v);
            },
            Language::JavaScript => {
                push_symbol(symbols, extract_js_function(line), "function", number, None);
                push_symbol(symbols, extract_js_class(line), "class", number, None);
            },
            Language::Python => {
                push_symbol(symbols, extract_python_function(line), "function", number, None);
                push_symbol(symbols, extract_python_class(line), "class", number, None);
            },
            Language::Java => {
                let v = get_java_visibility(line);
                push_symbol(symbols, extract_java_class(line), "class", number, copy_text(&v));
                push_symbol(symbols, extract_java_method(line), "function", number, v);
            },
        }
        i += 1;
    }
}

/// Appends the symbols of a Rust source text. The filter on kinds of
/// symbols is not applied.
pub fn extract_rust_symbols(
    content: &str,
    symbols: &mut Vec<CodeSymbol>,
    _symbol_types: Option<&[String]>,
)
    ensures
        symbols_view(final(symbols)@) == with_symbols_of(
            symbols_view(old(symbols)@),
            Language::Rust,
            content@,
        ),
{
    extract_language_symbols(content, symbols, Language::Rust)
}

/// Appends the symbols of a JavaScript or TypeScript source text. The
/// filter on kinds of symbols is not applied.
pub fn extract_js_symbols(
    content: &str,
    symbols: &mut Vec<CodeSymbol>,
    _symbol_types: Option<&[String]>,
)
    ensures
        symbols_view(final(symbols)@) == with_symbols_of(
            symbols_view(old(symbols)@),
            Language::JavaScript,
            content@,
        ),
{
    extract_language_symbols(content, symbols, Language::JavaScript)
}

/// Appends the symbols of a Python source text. The filter on kinds of
/// symbols is not applied.
pub fn extract_python_symbols(
    content: &str,
    symbols: &mut Vec<CodeSymbol>,
    _symbol_types: Option<&[String]>,
)
    ensures
        symbols_view(final(symbols)@) == with_symbols_of(
            symbols_view(old(symbols)@),
            Language::Python,
            content@,
        ),
{
    extract_language_symbols(content, symbols, Language::Python)
}

/// Appends the symbols of a Java source text. The filter on kinds of
/// symbols is not applied.
pub fn extract_java_symbols(
    content: &str,
    symbols: &mut Vec<CodeSymbol>,
    _symbol_types: Option<&[String]>,
)
    ensures
        symbols_view(final(symbols)@) == with_symbols_of(
            symbols_view(old(symbols)@),
            Language::Java,
            content@,
        ),
{
    extract_language_symbols(content, symbols, Language::Java)
}

/// Appends nothing: a text in a language that is not known has no
/// symbols.
pub fn extract_generic_symbols(_content: &str, symbols: &mut Vec<CodeSymbol>)
    ensures
        final(symbols)@ == old(symbols)@,
{
}

/// The language whose symbols are extracted for a language name.
pub open spec fn language_named(name: Seq<char>) -> Option<Language> {
    if name == "rust"@ {
        Some(Language::Rust)
    } else if name == "javascript"@ || name == "typescript"@ {
        Some(Language::JavaScript)
    } else if name == "python"@ {
        Some(Language::Python)
    } else if name == "java"@ {
        Some(Language::Java)
    } else {
        None
    }
}

/// The symbols of a source text in the named language, in the order of the
/// lines; none for a language that is not known.
pub fn extract_symbols(content: &str, language: &str, symbol_types: Option<&[String]>) -> (r: Vec<
    CodeSymbol,
>)
    ensures
        symbols_view(r@) == (match language_named(language@) {
            Some(l) => with_symbols_of(Seq::empty(), l, content@),
            None => Seq::empty(),
        }),
{
    let mut symbols: Vec<CodeSymbol> = Vec::new();
    assert(symbols_view(symbols@) =~= Seq::empty());
    if str_eq(language, "rust") {
        extract_rust_symbols(content, &mut symbols, symbol_types);
    } else if str_eq(language, "javascript") || str_eq(language, "typescript") {
        extract_js_symbols(content, &mut symbols, symbol_types);
    } else if str_eq(language, "python") {
        extract_python_symbols(content, &mut symbols, symbol_types);
    } else if str_eq(language, "java") {
        extract_java_symbols(content, &mut symbols, symbol_types);
    } else {
        extract_generic_symbols(content, &mut symbols);
    }
    symbols
}

/// The language in which a file is read: the one that the arguments name,
/// else the one of its extension, else `"unknown"`.
pub open spec fn chosen_language(named: Option<Seq<char>>, path: Seq<char>) -> Seq<char> {
    match named {
        Some(l) => l,
        None => match extension_of(path) {
            Some(ext) => language_of_extension(ext),
            None => "unknown"@,
        },
    }
}

/// Code analysis executor.
pub struct CodeExecutor {
    event_sender: EventSender,
    max_output_size: usize,
}

impl CodeExecutor {
    /// An executor that emits on the given bus and bounds its results.
    pub fn new(event_sender: EventSender, max_output_size: usize) -> (r: Self)
        ensures
            r.max_output_size_spec() == max_output_size,
    {
        Self { event_sender, max_output_size }
    }

    /// The bound on the size of results, in bytes.
    pub closed spec fn max_output_size_spec(&self) -> usize {
        self.max_output_size
    }

    fn emit(&self, event: Option<AppEvent>) {
        match event {
            Some(ev) => {
                let _ = self.event_sender.send(ev);
            },
            None => {},
        }
    }

    /// The symbols of a file, given what looking at its path gave.
    pub fn analyze(args: &CodeSymbolsArgs, probe: &FileProbe) -> (r: Result<
        CodeSymbolsResult,
        String,
    >)
        ensures
            match *probe {
                FileProbe::Missing => r matches Err(e) && e@ == "File not found: "@ + args.path@,
                FileProbe::NotAFile => r matches Err(e) && e@ == "Path is not a file: "@
                    + args.path@,
                FileProbe::Unreadable(why) => r matches Err(e) && e@ == "Failed to read file "@
                    + args.path@ + ": "@ + why@,
                FileProbe::Contents(text) => r matches Ok(res) && res.language@ == chosen_language(
                    opt_text(args.language),
                    args.path@,
                ) && symbols_view(res.symbols@) == (match language_named(res.language@) {
                    Some(l) => with_symbols_of(Seq::empty(), l, text@),
                    None => Seq::empty(),
                }),
            },
    {
        let path = args.path.as_str();
        let text = match probe {
            FileProbe::Missing => {
                return Err(concat2("File not found: ", path));
            },
            FileProbe::NotAFile => {
                return Err(concat2("Path is not a file: ", path));
            },
            FileProbe::Unreadable(e) => {
                let head = concat3("Failed to read file ", path, ": ");
                return Err(concat2(head.as_str(), e.as_str()));
            },
            FileProbe::Contents(text) => text.as_str(),
        };
        let language = match &args.language {
            Some(l) => l.clone(),
            None => match detect_language_from_path(path) {
                Some(l) => l,
                None => String::from_str("unknown"),
            },
        };
        let types: Option<&[String]> = match &args.symbol_types {
            Some(t) => Some(t.as_slice()),
            None => None,
        };
        let symbols = extract_symbols(text, language.as_str(), types);
        Ok(CodeSymbolsResult { symbols, language })
    }

    /// Analyzes a file for a call: announces the analysis, and, where the
    /// file could be read, emits the symbols and hands them back bounded
    /// in size.
    pub fn execute_symbols_with_result(
        &self,
        run: &mut ToolRun,
        args: &CodeSymbolsArgs,
        probe: &FileProbe,
    ) -> (r: Result<Json, String>)
        requires
            old(run).well_formed(),
        ensures
            crate::tools::executor::executor_added(old(run).trace(), final(run).trace()),
            r is Ok && !old(run).ended_spec() ==> final(run).has_result_spec(),
            r is Err ==> final(run).has_result_spec() == old(run).has_result_spec(),
            final(run).well_formed(),
            final(run).id_spec() == old(run).id_spec(),
            final(run).ended_spec() == old(run).ended_spec(),
            r is Ok <==> *probe is Contents,
            r matches Ok(j) ==> exists|res: CodeSymbolsResult|
                res.language@ == chosen_language(opt_text(args.language), args.path@)
                    && symbols_view(res.symbols@) == (match language_named(res.language@) {
                    Some(l) => with_symbols_of(Seq::empty(), l, probe->Contents_0@),
                    None => Seq::empty(),
                }) && j@ == truncated(res.json_spec(), self.max_output_size_spec() as nat)
                    && reported(
                    *old(run),
                    *final(run),
                    symbols_messages(args.path@),
                    res.json_spec(),
                ),
            r is Err ==> told(*old(run), *final(run), symbols_messages(args.path@)),
    {
        let event = run.progress(concat2("Analyzing symbols in: ", args.path.as_str()));
        proof {
            if event is Some {
                assert(run.trace().drop_last() == old(run).trace());
            }
            crate::tools::executor::lemma_executor_added_one(old(run).trace(), run.trace());
            crate::tools::executor::lemma_told_one(
                *old(run),
                *run,
                "Analyzing symbols in: "@ + args.path@,
            );
        }
        let ghost announced = run.trace();
        self.emit(event);
        match Self::analyze(args, probe) {
            Ok(res) => {
                let payload = res.to_json();
                let shown = payload.deep_clone();
                let event = run.result(shown);
                proof {
                    if event is Some {
                        assert(run.trace().drop_last() == announced);
                    }
                    crate::tools::executor::lemma_executor_added_one(announced, run.trace());
                    crate::tools::executor::lemma_executor_added(
                        old(run).trace(),
                        announced,
                        run.trace(),
                    );
                    crate::tools::executor::lemma_reported_one(
                        *old(run),
                        announced,
                        *run,
                        "Analyzing symbols in: "@ + args.path@,
                        res.json_spec(),
                    );
                }
                self.emit(event);
                Ok(truncate_result(payload, self.max_output_size))
            },
            Err(e) => Err(e),
        }
    }

    /// The same as `execute_symbols_with_result`, without the result.
    pub fn execute_symbols(&self, run: &mut ToolRun, args: &CodeSymbolsArgs, probe: &FileProbe) -> (r:
        Result<(), String>)
        requires
            old(run).well_formed(),
        ensures
            final(run).well_formed(),
            r is Ok <==> *probe is Contents,
            r is Ok ==> exists|res: CodeSymbolsResult|
                res.language@ == chosen_language(opt_text(args.language), args.path@)
                    && symbols_view(res.symbols@) == (match language_named(res.language@) {
                    Some(l) => with_symbols_of(Seq::empty(), l, probe->Contents_0@),
                    None => Seq::empty(),
                }) && reported(
                    *old(run),
                    *final(run),
                    symbols_messages(args.path@),
                    res.json_spec(),
                ),
            r is Err ==> told(*old(run), *final(run), symbols_messages(args.path@)),
    {
        match self.execute_symbols_with_result(run, args, probe) {
            Ok(_) => Ok(()),
            Err(e) => Err(e),
        }
    }
}

} // verus!
