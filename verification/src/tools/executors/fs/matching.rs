//! Patterns that outside libraries match, regular expressions and globs,
//! and the parts of a path.

use vstd::prelude::*;
use vstd::string::StringExecFns;
use crate::text::{concat2, str_chars, sub_vec};

verus! {

/// `regex::Regex`, a compiled regular expression.
#[verifier::external_type_specification]
#[verifier::external_body]
pub struct ExRegex(regex::Regex);

/// `regex::Error`, the error of the compiler of regular expressions; only
/// its message is used.
#[verifier::external_type_specification]
#[verifier::external_body]
pub struct ExRegexError(regex::Error);

/// `globset::Glob`, a compiled glob.
#[verifier::external_type_specification]
#[verifier::external_body]
pub struct ExGlob(globset::Glob);

/// `globset::GlobSet`, a set of compiled globs.
#[verifier::external_type_specification]
#[verifier::external_body]
pub struct ExGlobSet(globset::GlobSet);

/// `globset::Error`, the error of the compiler of globs; only its message
/// is used.
#[verifier::external_type_specification]
#[verifier::external_body]
pub struct ExGlobError(globset::Error);

/// The pattern that a regular expression was compiled from.
pub uninterp spec fn regex_pattern(re: regex::Regex) -> Seq<char>;

/// The options that a regular expression was compiled with: whether case
/// is ignored, and whether `^` and `$` match at lines.
pub uninterp spec fn regex_options(re: regex::Regex) -> Seq<bool>;

/// Whether the `regex` crate compiles the pattern with the options.
pub uninterp spec fn regex_compiles(pattern: Seq<char>, options: Seq<bool>) -> bool;

/// Whether the regular expression of the pattern and the options matches
/// somewhere in the text.
pub uninterp spec fn regex_matches(pattern: Seq<char>, options: Seq<bool>, text: Seq<char>) -> bool;

/// The pattern that a glob was compiled from.
pub uninterp spec fn glob_pattern(glob: globset::Glob) -> Seq<char>;

/// Whether the `globset` crate compiles the pattern.
pub uninterp spec fn glob_compiles(pattern: Seq<char>) -> bool;

/// The patterns of the globs of a set, in order.
pub uninterp spec fn glob_set_patterns(set: globset::GlobSet) -> Seq<Seq<char>>;

/// Whether the `globset` crate builds a set of the patterns.
pub uninterp spec fn glob_set_builds(patterns: Seq<Seq<char>>) -> bool;

/// Whether one of the globs of the patterns matches the path.
pub uninterp spec fn glob_set_matches(patterns: Seq<Seq<char>>, path: Seq<char>) -> bool;

/// The patterns of a list of globs.
pub open spec fn glob_patterns(globs: Seq<globset::Glob>) -> Seq<Seq<char>> {
    Seq::new(globs.len(), |i: int| glob_pattern(globs[i]))
}

/// `RegexBuilder::new`, `case_insensitive`, `multi_line` and `build`: the
/// regular expression of the pattern with the two options, or the error
/// of the compiler.
#[verifier::external_body]
pub(crate) fn build_regex(pattern: &str, case_insensitive: bool, multi_line: bool) -> (r: Result<
    regex::Regex,
    regex::Error,
>)
    ensures
        r is Ok <==> regex_compiles(pattern@, Seq::empty().push(case_insensitive).push(multi_line)),
        r matches Ok(re) ==> regex_pattern(re) == pattern@ && regex_options(re) == Seq::empty().push(
            case_insensitive,
        ).push(multi_line),
{
    regex::RegexBuilder::new(pattern).case_insensitive(case_insensitive).multi_line(
        multi_line,
    ).build()
}

/// `Regex::is_match`: whether the regular expression matches somewhere in
/// the text.
#[verifier::external_body]
pub(crate) fn regex_is_match(re: &regex::Regex, text: &str) -> (b: bool)
    ensures
        b == regex_matches(regex_pattern(*re), regex_options(*re), text@),
{
    re.is_match(text)
}

/// The message of a `regex::Error`, as its `Display` writes it.
#[verifier::external_body]
pub(crate) fn regex_error_text(e: &regex::Error) -> String {
    e.to_string()
}

/// `Glob::new`: the glob of the pattern, or the error of the compiler.
#[verifier::external_body]
pub(crate) fn new_glob(pattern: &str) -> (r: Result<globset::Glob, globset::Error>)
    ensures
        r is Ok <==> glob_compiles(pattern@),
        r matches Ok(g) ==> glob_pattern(g) == pattern@,
{
    globset::Glob::new(pattern)
}

/// `GlobSetBuilder::new`, `add` for each glob in order, and `build`: the
/// set of the globs, or the error of the builder.
#[verifier::external_body]
pub(crate) fn build_glob_set(globs: Vec<globset::Glob>) -> (r: Result<
    globset::GlobSet,
    globset::Error,
>)
    ensures
        r is Ok <==> glob_set_builds(glob_patterns(globs@)),
        r matches Ok(set) ==> glob_set_patterns(set) == glob_patterns(globs@),
{
    let mut builder = globset::GlobSetBuilder::new();
    for g in globs {
        builder.add(g);
    }
    builder.build()
}

/// `GlobSet::is_match`: whether one of the globs of the set matches the
/// path.
#[verifier::external_body]
pub(crate) fn glob_set_is_match(set: &globset::GlobSet, path: &str) -> (b: bool)
    ensures
        b == glob_set_matches(glob_set_patterns(*set), path@),
{
    set.is_match(path)
}

/// The message of a `globset::Error`, as its `Display` writes it.
#[verifier::external_body]
pub(crate) fn glob_error_text(e: &globset::Error) -> String {
    e.to_string()
}

// ---------------------------------------------------------------------------
// The parts of a path
// ---------------------------------------------------------------------------

/// The position behind the last occurrence of `c` in `s`, or nothing where
/// `c` does not occur.
pub open spec fn after_last(s: Seq<char>, c: char) -> Option<int>
    decreases s.len(),
{
    if s.len() == 0 {
        None
    } else if s.last() == c {
        Some(s.len() as int)
    } else {
        after_last(s.drop_last(), c)
    }
}

/// The last component of a path whose components are separated by `/`:
/// empty components and `.` are passed over from the end; a path that ends
/// in `..`, or has no component, has no file name.
pub open spec fn file_name_of(path: Seq<char>) -> Option<Seq<char>>
    decreases path.len(),
{
    if path.len() == 0 {
        None
    } else {
        let start = match after_last(path, '/') {
            Some(i) => i,
            None => 0,
        };
        let part = path.skip(start);
        if part.len() == 0 || part == seq!['.'] {
            if start <= 0 || start > path.len() {
                None
            } else {
                file_name_of(path.take(start - 1))
            }
        } else if part == seq!['.', '.'] {
            None
        } else {
            Some(part)
        }
    }
}

/// The extension of the file name of a path: what follows the last dot of
/// the file name, unless that dot is its first character.
pub open spec fn extension_of(path: Seq<char>) -> Option<Seq<char>> {
    match file_name_of(path) {
        None => None,
        Some(name) => match after_last(name, '.') {
            None => None,
            Some(i) => if i == 1 {
                None
            } else {
                Some(name.skip(i))
            },
        },
    }
}

/// The stem of the file name of a path: the file name without its
/// extension and the dot before it.
pub open spec fn stem_of(path: Seq<char>) -> Option<Seq<char>> {
    match file_name_of(path) {
        None => None,
        Some(name) => match after_last(name, '.') {
            None => Some(name),
            Some(i) => if i == 1 {
                Some(name)
            } else {
                Some(name.take(i - 1))
            },
        },
    }
}

/// Finds the position behind the last occurrence of a character.
pub fn find_after_last(s: &[char], c: char) -> (r: Option<usize>)
    ensures
        match r {
            Some(i) => after_last(s@, c) == Some(i as int) && 1 <= i <= s.len(),
            None => after_last(s@, c) is None,
        },
{
    let mut n: usize = s.len();
    assert(s@.take(n as int) == s@);
    while n > 0
        invariant
            n <= s.len(),
            after_last(s@, c) == after_last(s@.take(n as int), c),
        decreases n,
    {
        assert(s@.take(n as int).last() == s@[n - 1]);
        assert(s@.take(n as int).drop_last() == s@.take(n - 1));
        if s[n - 1] == c {
            return Some(n);
        }
        n -= 1;
    }
    None
}

fn file_name_chars(path: &[char]) -> (r: Option<Vec<char>>)
    ensures
        crate::tools::executors::fs::find::opt_chars(r) == file_name_of(path@),
{
    let mut end: usize = path.len();
    assert(path@.take(end as int) == path@);
    while end > 0
        invariant
            end <= path.len(),
            file_name_of(path@) == file_name_of(path@.take(end as int)),
        decreases end,
    {
        let head = sub_vec(path, 0, end);
        assert(head@ == path@.take(end as int));
        let start: usize = match find_after_last(head.as_slice(), '/') {
            Some(i) => i,
            None => 0,
        };
        let part = sub_vec(head.as_slice(), start, end);
        assert(part@ == head@.skip(start as int));
        let is_dot = part.len() == 1 && part[0] == '.';
        let is_dots = part.len() == 2 && part[0] == '.' && part[1] == '.';
        proof {
            if is_dot {
                assert(part@ =~= seq!['.']);
            }
            if is_dots {
                assert(part@ =~= seq!['.', '.']);
            }
            if part@ == seq!['.'] {
                assert(part@.len() == 1 && part@[0] == '.');
            }
            if part@ == seq!['.', '.'] {
                assert(part@.len() == 2 && part@[0] == '.' && part@[1] == '.');
            }
        }
        if part.len() == 0 || is_dot {
            if start == 0 {
                return None;
            }
            proof {
                assert(head@.take(start - 1) == path@.take(start - 1));
            }
            end = start - 1;
        } else if is_dots {
            return None;
        } else {
            return Some(part);
        }
    }
    None
}

/// The last component of a path.
pub fn path_file_name(path: &str) -> (r: Option<String>)
    ensures
        crate::text::opt_text(r) == file_name_of(path@),
{
    let chars = str_chars(path);
    match file_name_chars(chars.as_slice()) {
        Some(name) => Some(crate::text::chars_to_string(name.as_slice())),
        None => None,
    }
}

/// The extension of the file name of a path.
pub fn path_extension(path: &str) -> (r: Option<String>)
    ensures
        crate::text::opt_text(r) == extension_of(path@),
{
    let chars = str_chars(path);
    let name = match file_name_chars(chars.as_slice()) {
        Some(name) => name,
        None => {
            return None;
        },
    };
    match find_after_last(name.as_slice(), '.') {
        None => None,
        Some(i) => {
            if i == 1 {
                None
            } else {
                let ext = sub_vec(name.as_slice(), i, name.len());
                assert(ext@ == name@.skip(i as int));
                Some(crate::text::chars_to_string(ext.as_slice()))
            }
        },
    }
}

/// The stem of the file name of a path.
pub fn path_file_stem(path: &str) -> (r: Option<String>)
    ensures
        crate::text::opt_text(r) == stem_of(path@),
{
    let chars = str_chars(path);
    let name = match file_name_chars(chars.as_slice()) {
        Some(name) => name,
        None => {
            return None;
        },
    };
    match find_after_last(name.as_slice(), '.') {
        None => Some(crate::text::chars_to_string(name.as_slice())),
        Some(i) => {
            if i == 1 {
                Some(crate::text::chars_to_string(name.as_slice()))
            } else {
                let stem = sub_vec(name.as_slice(), 0, i - 1);
                assert(stem@ == name@.take(i - 1));
                Some(crate::text::chars_to_string(stem.as_slice()))
            }
        },
    }
}

/// The pattern that a name pattern stands for as a glob on paths: a
/// pattern without a slash matches the file name in any directory.
pub open spec fn path_glob(pattern: Seq<char>) -> Seq<char> {
    if pattern.contains('/') {
        pattern
    } else {
        "**/"@ + pattern
    }
}

/// The glob on paths for a name pattern.
pub fn to_path_glob(pattern: &str) -> (r: String)
    ensures
        r@ == path_glob(pattern@),
{
    let chars = str_chars(pattern);
    let mut slash: Vec<char> = Vec::new();
    slash.push('/');
    assert(slash@ == seq!['/']);
    let mut i: usize = 0;
    while i < chars.len()
        invariant
            i <= chars.len(),
            chars@ == pattern@,
            forall|k: int| 0 <= k < i ==> chars@[k] != '/',
        decreases chars.len() - i,
    {
        if chars[i] == '/' {
            assert(pattern@[i as int] == '/');
            return String::from_str(pattern);
        }
        i += 1;
    }
    concat2("**/", pattern)
}

} // verus!
