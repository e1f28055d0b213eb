//! Character-sequence primitives shared by the tool executors.
//!
//! Every function here is stated over `Seq<char>`, the view of `str` and
//! `String`. Positions are character positions.

use vstd::prelude::*;
use vstd::string::{StringExecFns, StringSliceAdditionalSpecFns};
use vstd::utf8::{decode_utf8, encode_utf8, is_char_boundary};

verus! {

// ---------------------------------------------------------------------------
// Conversions
// ---------------------------------------------------------------------------

/// Collects the characters of a string slice into a vector.
pub fn str_chars(s: &str) -> (v: Vec<char>)
    ensures
        v@ == s@,
{
    let mut v: Vec<char> = Vec::new();
    for c in it: s.chars()
        invariant
            v@ == it.seq().take(it.index() as int),
            it.seq() == s@,
    {
        v.push(c);
    }
    v
}

/// `String::push`: the string grows by exactly the given character.
#[verifier::external_body]
fn push_char(s: &mut String, c: char)
    ensures
        final(s)@ == old(s)@.push(c),
{
    s.push(c);
}

/// Builds a string holding exactly the given characters.
pub fn chars_to_string(v: &[char]) -> (s: String)
    ensures
        s@ == v@,
{
    let mut s = String::new();
    let mut i: usize = 0;
    while i < v.len()
        invariant
            i <= v.len(),
            s@ == v@.take(i as int),
        decreases v.len() - i,
    {
        push_char(&mut s, v[i]);
        i += 1;
    }
    s
}

/// The text of an optional string.
pub open spec fn opt_text(s: Option<String>) -> Option<Seq<char>> {
    match s {
        Some(t) => Some(t@),
        None => None,
    }
}

/// Concatenation of two string slices.
pub fn concat2(a: &str, b: &str) -> (s: String)
    ensures
        s@ == a@ + b@,
{
    let mut s = String::from_str(a);
    s.append(b);
    s
}

/// Concatenation of three string slices.
pub fn concat3(a: &str, b: &str, c: &str) -> (s: String)
    ensures
        s@ == a@ + b@ + c@,
{
    let mut s = String::from_str(a);
    s.append(b);
    s.append(c);
    s
}

/// Copies `v[from..to]` into a fresh vector.
pub fn sub_vec(v: &[char], from: usize, to: usize) -> (r: Vec<char>)
    requires
        from <= to <= v.len(),
    ensures
        r@ == v@.subrange(from as int, to as int),
{
    let mut r: Vec<char> = Vec::new();
    let mut i: usize = from;
    while i < to
        invariant
            from <= i <= to <= v.len(),
            r@ == v@.subrange(from as int, i as int),
        decreases to - i,
    {
        r.push(v[i]);
        i += 1;
    }
    r
}

/// Appends every character of `src` to `dst`.
pub fn extend_chars(dst: &mut Vec<char>, src: &[char])
    ensures
        final(dst)@ == old(dst)@ + src@,
{
    let mut i: usize = 0;
    while i < src.len()
        invariant
            i <= src.len(),
            dst@ == old(dst)@ + src@.take(i as int),
        decreases src.len() - i,
    {
        dst.push(src[i]);
        i += 1;
    }
    assert(src@.take(src.len() as int) == src@);
}

// ---------------------------------------------------------------------------
// Substring search
// ---------------------------------------------------------------------------

/// `needle` occurs in `hay` starting at position `i`.
pub open spec fn matches_at(hay: Seq<char>, needle: Seq<char>, i: int) -> bool {
    &&& 0 <= i
    &&& i + needle.len() <= hay.len()
    &&& hay.subrange(i, i + needle.len()) == needle
}

/// The least position at or after `from` where `needle` occurs, if any.
pub open spec fn first_match_from(hay: Seq<char>, needle: Seq<char>, from: int) -> Option<int>
    decreases hay.len() + 1 - from,
{
    if from < 0 || from + needle.len() > hay.len() {
        None
    } else if matches_at(hay, needle, from) {
        Some(from)
    } else {
        first_match_from(hay, needle, from + 1)
    }
}

/// The number of positions at or after `from` where `needle` occurs.
pub open spec fn count_from(hay: Seq<char>, needle: Seq<char>, from: int) -> nat
    decreases hay.len() + 1 - from,
{
    if from < 0 || from + needle.len() > hay.len() {
        0
    } else if matches_at(hay, needle, from) {
        1 + count_from(hay, needle, from + 1)
    } else {
        count_from(hay, needle, from + 1)
    }
}

/// The number of positions of `hay` where `needle` occurs.
pub open spec fn occurrences(hay: Seq<char>, needle: Seq<char>) -> nat {
    count_from(hay, needle, 0)
}

/// `needle` occurs somewhere in `hay`.
pub open spec fn contains_sub(hay: Seq<char>, needle: Seq<char>) -> bool {
    exists|i: int| matches_at(hay, needle, i)
}

/// What `first_match_from` returns is the least match, and the count splits
/// around it.
pub proof fn lemma_first_match(hay: Seq<char>, needle: Seq<char>, from: int)
    requires
        0 <= from,
    ensures
        match first_match_from(hay, needle, from) {
            Some(i) => {
                &&& from <= i
                &&& matches_at(hay, needle, i)
                &&& forall|j: int| from <= j < i ==> !matches_at(hay, needle, j)
                &&& count_from(hay, needle, from) == 1 + count_from(hay, needle, i + 1)
            },
            None => {
                &&& forall|j: int| from <= j ==> !matches_at(hay, needle, j)
                &&& count_from(hay, needle, from) == 0
            },
        },
    decreases hay.len() + 1 - from,
{
    if from + needle.len() > hay.len() {
    } else if matches_at(hay, needle, from) {
    } else {
        lemma_first_match(hay, needle, from + 1);
    }
}

/// Searching from the start decides containment.
pub proof fn lemma_contains_first(hay: Seq<char>, needle: Seq<char>)
    ensures
        contains_sub(hay, needle) <==> first_match_from(hay, needle, 0) is Some,
        contains_sub(hay, needle) <==> occurrences(hay, needle) >= 1,
{
    lemma_first_match(hay, needle, 0);
}

/// Tests whether `needle` occurs in `hay` at position `i`.
pub fn is_match_at(hay: &[char], needle: &[char], i: usize) -> (b: bool)
    ensures
        b == matches_at(hay@, needle@, i as int),
{
    if needle.len() > hay.len() || i > hay.len() - needle.len() {
        return false;
    }
    let mut k: usize = 0;
    while k < needle.len()
        invariant
            k <= needle.len(),
            i + needle.len() <= hay.len(),
            forall|j: int| 0 <= j < k ==> hay@[i + j] == needle@[j],
        decreases needle.len() - k,
    {
        if hay[i + k] != needle[k] {
            proof {
                let sub = hay@.subrange(i as int, i + needle.len());
                assert(sub[k as int] == hay@[i + k]);
            }
            return false;
        }
        k += 1;
    }
    assert(hay@.subrange(i as int, i + needle.len()) =~= needle@);
    true
}

/// Finds the least position at or after `from` where `needle` occurs.
pub fn find_from(hay: &[char], needle: &[char], from: usize) -> (r: Option<usize>)
    ensures
        match r {
            Some(i) => first_match_from(hay@, needle@, from as int) == Some(i as int),
            None => first_match_from(hay@, needle@, from as int) is None,
        },
{
    if needle.len() > hay.len() || from > hay.len() - needle.len() {
        return None;
    }
    let last: usize = hay.len() - needle.len();
    let mut i: usize = from;
    loop
        invariant
            from <= i <= last,
            last == hay.len() - needle.len(),
            first_match_from(hay@, needle@, from as int) == first_match_from(
                hay@,
                needle@,
                i as int,
            ),
        decreases last - i,
    {
        if is_match_at(hay, needle, i) {
            return Some(i);
        }
        if i == last {
            assert(first_match_from(hay@, needle@, i + 1) is None);
            return None;
        }
        i += 1;
    }
}

/// Tests whether `needle` occurs somewhere in `hay`.
pub fn contains(hay: &[char], needle: &[char]) -> (b: bool)
    ensures
        b == contains_sub(hay@, needle@),
{
    proof {
        lemma_contains_first(hay@, needle@);
    }
    find_from(hay, needle, 0).is_some()
}

/// Tests whether `hay` begins with `prefix`.
pub fn starts_with(hay: &[char], prefix: &[char]) -> (b: bool)
    ensures
        b == matches_at(hay@, prefix@, 0),
{
    is_match_at(hay, prefix, 0)
}

/// `hay` ends with `suffix`.
pub open spec fn ends_with_spec(hay: Seq<char>, suffix: Seq<char>) -> bool {
    matches_at(hay, suffix, hay.len() - suffix.len())
}

/// Tests whether `hay` ends with `suffix`.
pub fn ends_with(hay: &[char], suffix: &[char]) -> (b: bool)
    ensures
        b == ends_with_spec(hay@, suffix@),
{
    if suffix.len() > hay.len() {
        return false;
    }
    is_match_at(hay, suffix, hay.len() - suffix.len())
}

/// Tests whether two character slices hold the same characters.
pub fn chars_eq(a: &[char], b: &[char]) -> (r: bool)
    ensures
        r == (a@ == b@),
{
    if a.len() != b.len() {
        return false;
    }
    let r = is_match_at(a, b, 0);
    proof {
        assert(a@.subrange(0, a@.len() as int) == a@);
    }
    r
}

/// Tests whether two string slices hold the same characters.
pub fn str_eq(a: &str, b: &str) -> (r: bool)
    ensures
        r == (a@ == b@),
{
    let x = str_chars(a);
    let y = str_chars(b);
    chars_eq(x.as_slice(), y.as_slice())
}

/// Tests whether `c` is one of `set`.
pub fn char_in(c: char, set: &[char]) -> (b: bool)
    ensures
        b == set@.contains(c),
{
    let mut i: usize = 0;
    while i < set.len()
        invariant
            i <= set.len(),
            forall|j: int| 0 <= j < i ==> set@[j] != c,
        decreases set.len() - i,
    {
        if set[i] == c {
            return true;
        }
        i += 1;
    }
    false
}

// ---------------------------------------------------------------------------
// Character classes of the Unicode tables
// ---------------------------------------------------------------------------

/// Whether a character is white space in Unicode: a member of the set
/// `White_Space`, which holds the tab, the line feed, the vertical tab,
/// the form feed, the carriage return, the space, the next line, the
/// no-break space, the ogham space mark, the spaces from the en quad to
/// the hair space, the line and the paragraph separator, the narrow
/// no-break space, the medium mathematical space and the ideographic
/// space.
pub open spec fn unicode_whitespace(c: char) -> bool {
    ('\u{9}' <= c && c <= '\u{d}') || c == ' ' || c == '\u{85}' || c == '\u{a0}' || c == '\u{1680}'
        || ('\u{2000}' <= c && c <= '\u{200a}') || c == '\u{2028}' || c == '\u{2029}' || c
        == '\u{202f}' || c == '\u{205f}' || c == '\u{3000}'
}

/// Whether a character is alphabetic or numeric in the Unicode tables.
pub uninterp spec fn unicode_alphanumeric(c: char) -> bool;

/// The lowercase form of a text under the Unicode case mappings.
pub uninterp spec fn unicode_lowercase(s: Seq<char>) -> Seq<char>;

/// `char::is_whitespace`: whether the character has the property
/// `White_Space` of Unicode.
#[verifier::external_body]
pub(crate) fn is_whitespace(c: char) -> (b: bool)
    ensures
        b == unicode_whitespace(c),
{
    c.is_whitespace()
}

/// `char::is_alphanumeric`: the answer is that of the Unicode tables.
#[verifier::external_body]
pub(crate) fn is_alphanumeric(c: char) -> (b: bool)
    ensures
        b == unicode_alphanumeric(c),
{
    c.is_alphanumeric()
}

/// `str::to_lowercase`: the lowercase form under the Unicode case mappings.
#[verifier::external_body]
pub(crate) fn to_lowercase(s: &str) -> (r: String)
    ensures
        r@ == unicode_lowercase(s@),
{
    s.to_lowercase()
}

// ---------------------------------------------------------------------------
// Trimming
// ---------------------------------------------------------------------------

/// `s` without its leading whitespace.
pub open spec fn trim_start_spec(s: Seq<char>) -> Seq<char>
    decreases s.len(),
{
    if s.len() > 0 && unicode_whitespace(s[0]) {
        trim_start_spec(s.skip(1))
    } else {
        s
    }
}

/// `s` without its trailing whitespace.
pub open spec fn trim_end_spec(s: Seq<char>) -> Seq<char>
    decreases s.len(),
{
    if s.len() > 0 && unicode_whitespace(s.last()) {
        trim_end_spec(s.drop_last())
    } else {
        s
    }
}

/// `s` without leading and trailing whitespace.
pub open spec fn trim_spec(s: Seq<char>) -> Seq<char> {
    trim_end_spec(trim_start_spec(s))
}

/// Removes leading and trailing whitespace.
pub fn trim(s: &[char]) -> (r: Vec<char>)
    ensures
        r@ == trim_spec(s@),
{
    let mut a: usize = 0;
    assert(s@.skip(0) == s@);
    while a < s.len() && is_whitespace(s[a])
        invariant
            a <= s.len(),
            trim_start_spec(s@) == trim_start_spec(s@.skip(a as int)),
        decreases s.len() - a,
    {
        proof {
            assert(s@.skip(a as int).skip(1) == s@.skip(a + 1));
        }
        a += 1;
    }
    let ghost mid = s@.skip(a as int);
    assert(trim_start_spec(s@) == mid);
    let mut b: usize = s.len();
    while b > a && is_whitespace(s[b - 1])
        invariant
            a <= b <= s.len(),
            mid == s@.skip(a as int),
            trim_end_spec(mid) == trim_end_spec(s@.subrange(a as int, b as int)),
        decreases b - a,
    {
        proof {
            assert(s@.subrange(a as int, b as int).drop_last() == s@.subrange(
                a as int,
                b - 1,
            ));
        }
        b -= 1;
    }
    proof {
        assert(s@.subrange(a as int, s@.len() as int) == s@.skip(a as int));
    }
    sub_vec(s, a, b)
}

// ---------------------------------------------------------------------------
// Prefix up to a stop character
// ---------------------------------------------------------------------------

/// Whether `c` ends a name: it is one of `stops`, or whitespace where that is
/// asked for.
pub open spec fn is_stop(c: char, stops: Seq<char>, whitespace: bool) -> bool {
    stops.contains(c) || (whitespace && unicode_whitespace(c))
}

/// The number of leading characters of `s` that are no stop.
pub open spec fn stop_index(s: Seq<char>, stops: Seq<char>, whitespace: bool) -> nat
    decreases s.len(),
{
    if s.len() == 0 || is_stop(s[0], stops, whitespace) {
        0
    } else {
        1 + stop_index(s.skip(1), stops, whitespace)
    }
}

/// The longest prefix of `s` that holds no stop.
pub open spec fn prefix_until_spec(s: Seq<char>, stops: Seq<char>, whitespace: bool) -> Seq<char> {
    s.take(stop_index(s, stops, whitespace) as int)
}

/// The longest prefix of `s` before the first stop character.
pub fn prefix_until(s: &[char], stops: &[char], whitespace: bool) -> (r: Vec<char>)
    ensures
        r@ == prefix_until_spec(s@, stops@, whitespace),
{
    let mut i: usize = 0;
    assert(s@.skip(0) == s@);
    loop
        invariant
            i <= s.len(),
            stop_index(s@, stops@, whitespace) == i + stop_index(
                s@.skip(i as int),
                stops@,
                whitespace,
            ),
        ensures
            i <= s.len(),
            stop_index(s@, stops@, whitespace) == i,
        decreases s.len() - i,
    {
        if i >= s.len() {
            break ;
        }
        let c = s[i];
        if char_in(c, stops) || (whitespace && is_whitespace(c)) {
            break ;
        }
        proof {
            assert(s@.skip(i as int).skip(1) == s@.skip(i + 1));
        }
        i += 1;
    }
    sub_vec(s, 0, i)
}

// ---------------------------------------------------------------------------
// Splitting
// ---------------------------------------------------------------------------

/// What follows the first occurrence of `sep` in `hay`, up to the next
/// occurrence of `sep` or the end: the second piece of a split by `sep`.
/// `None` where `sep` does not occur.
pub open spec fn second_piece_spec(hay: Seq<char>, sep: Seq<char>) -> Option<Seq<char>> {
    match first_match_from(hay, sep, 0) {
        None => None,
        Some(i) => {
            let rest = hay.skip(i + sep.len());
            match first_match_from(rest, sep, 0) {
                None => Some(rest),
                Some(k) => Some(rest.take(k)),
            }
        },
    }
}

/// The second piece of `hay` split by the non-empty separator `sep`.
pub fn second_piece(hay: &[char], sep: &[char]) -> (r: Option<Vec<char>>)
    requires
        sep@.len() > 0,
    ensures
        match r {
            Some(v) => second_piece_spec(hay@, sep@) == Some(v@),
            None => second_piece_spec(hay@, sep@) is None,
        },
{
    match find_from(hay, sep, 0) {
        None => None,
        Some(i) => {
            proof {
                lemma_first_match(hay@, sep@, 0);
            }
            let n: usize = hay.len();
            assert(i + sep@.len() <= n);
            let rest = sub_vec(hay, i + sep.len(), n);
            assert(rest@ == hay@.skip(i + sep.len()));
            match find_from(rest.as_slice(), sep, 0) {
                None => Some(rest),
                Some(k) => {
                    proof {
                        lemma_first_match(rest@, sep@, 0);
                    }
                    let piece = sub_vec(rest.as_slice(), 0, k);
                    Some(piece)
                },
            }
        },
    }
}

// ---------------------------------------------------------------------------
// Lines
// ---------------------------------------------------------------------------

/// The position of the first line feed of `s`, or its length.
pub open spec fn line_end(s: Seq<char>) -> nat
    decreases s.len(),
{
    if s.len() == 0 || s[0] == '\n' {
        0
    } else {
        1 + line_end(s.skip(1))
    }
}

/// A line without the carriage return that stood before its line feed.
pub open spec fn strip_cr(line: Seq<char>, terminated: bool) -> Seq<char> {
    if terminated && line.len() > 0 && line.last() == '\r' {
        line.drop_last()
    } else {
        line
    }
}

/// The lines of a text: split at line feeds, a carriage return before a line
/// feed dropped, no empty line after a final line feed.
pub open spec fn lines_spec(s: Seq<char>) -> Seq<Seq<char>>
    decreases s.len(),
{
    if s.len() == 0 {
        Seq::empty()
    } else {
        let e = line_end(s) as int;
        if e < s.len() {
            seq![strip_cr(s.take(e), true)] + lines_spec(s.skip(e + 1))
        } else {
            seq![s]
        }
    }
}

/// Views of a vector of character vectors.
pub open spec fn views(v: Seq<Vec<char>>) -> Seq<Seq<char>> {
    v.map_values(|l: Vec<char>| l@)
}

/// Splits a text into its lines.
pub fn lines(s: &[char]) -> (r: Vec<Vec<char>>)
    ensures
        views(r@) == lines_spec(s@),
{
    let mut out: Vec<Vec<char>> = Vec::new();
    let mut start: usize = 0;
    proof {
        assert(s@.skip(0) == s@);
        assert(views(out@) == Seq::<Seq<char>>::empty());
        assert(Seq::<Seq<char>>::empty() + lines_spec(s@) == lines_spec(s@));
    }
    while start < s.len()
        invariant
            start <= s.len(),
            views(out@) + lines_spec(s@.skip(start as int)) == lines_spec(s@),
        decreases s.len() - start,
    {
        let ghost rest = s@.skip(start as int);
        let mut e: usize = start;
        while e < s.len() && s[e] != '\n'
            invariant
                start <= e <= s.len(),
                rest == s@.skip(start as int),
                line_end(rest) == (e - start) + line_end(s@.skip(e as int)),
            decreases s.len() - e,
        {
            proof {
                assert(s@.skip(e as int).skip(1) == s@.skip(e + 1));
            }
            e += 1;
        }
        assert(line_end(rest) == e - start);
        let ghost before = views(out@);
        if e < s.len() {
            let stop: usize = if e > start && s[e - 1] == '\r' {
                e - 1
            } else {
                e
            };
            let line = sub_vec(s, start, stop);
            proof {
                let raw = rest.take(e - start);
                assert(raw == s@.subrange(start as int, e as int));
                if e > start {
                    assert(raw.last() == s@[e - 1]);
                    assert(raw.drop_last() == s@.subrange(start as int, e - 1));
                }
                assert(line@ == strip_cr(raw, true));
                assert(rest.skip(e - start + 1) == s@.skip(e + 1));
            }
            out.push(line);
            proof {
                assert(views(out@) == before.push(line@));
                assert(before.push(line@) + lines_spec(s@.skip(e + 1)) == before + (seq![line@]
                    + lines_spec(s@.skip(e + 1))));
            }
            start = e + 1;
        } else {
            let line = sub_vec(s, start, s.len());
            proof {
                assert(line@ == rest);
                assert(lines_spec(rest) == seq![rest]);
            }
            out.push(line);
            proof {
                assert(views(out@) == before.push(line@));
                assert(before.push(line@) == before + seq![line@]);
                assert(lines_spec(s@.skip(s@.len() as int)) == Seq::<Seq<char>>::empty());
                assert(views(out@) + Seq::<Seq<char>>::empty() == views(out@));
            }
            start = s.len();
        }
    }
    proof {
        assert(lines_spec(s@.skip(start as int)) == Seq::<Seq<char>>::empty());
        assert(views(out@) + Seq::<Seq<char>>::empty() == views(out@));
    }
    out
}

// ---------------------------------------------------------------------------
// Line endings
// ---------------------------------------------------------------------------

/// The text with every `\r\n` and every remaining `\r` turned into `\n`.
pub open spec fn normalize_newlines_spec(s: Seq<char>) -> Seq<char>
    decreases s.len(),
{
    if s.len() == 0 {
        Seq::empty()
    } else if s[0] == '\r' && s.len() > 1 && s[1] == '\n' {
        seq!['\n'] + normalize_newlines_spec(s.skip(2))
    } else if s[0] == '\r' {
        seq!['\n'] + normalize_newlines_spec(s.skip(1))
    } else {
        seq![s[0]] + normalize_newlines_spec(s.skip(1))
    }
}

/// Normalizes line endings to `\n`.
pub fn normalize_chars(s: &[char]) -> (r: Vec<char>)
    ensures
        r@ == normalize_newlines_spec(s@),
{
    let mut out: Vec<char> = Vec::new();
    let mut i: usize = 0;
    proof {
        assert(s@.skip(0) == s@);
        assert(Seq::<char>::empty() + normalize_newlines_spec(s@) == normalize_newlines_spec(s@));
    }
    while i < s.len()
        invariant
            i <= s.len(),
            out@ + normalize_newlines_spec(s@.skip(i as int)) == normalize_newlines_spec(s@),
        decreases s.len() - i,
    {
        let ghost rest = s@.skip(i as int);
        let ghost before = out@;
        if s[i] == '\r' && i + 1 < s.len() && s[i + 1] == '\n' {
            out.push('\n');
            proof {
                assert(rest[1] == s@[i + 1]);
                assert(rest.skip(2) == s@.skip(i + 2));
                assert(before.push('\n') + normalize_newlines_spec(rest.skip(2)) == before + (
                seq!['\n'] + normalize_newlines_spec(rest.skip(2))));
            }
            i += 2;
        } else {
            let c = if s[i] == '\r' {
                '\n'
            } else {
                s[i]
            };
            out.push(c);
            proof {
                if i + 1 < s.len() {
                    assert(rest[1] == s@[i + 1]);
                }
                assert(rest.skip(1) == s@.skip(i + 1));
                assert(before.push(c) + normalize_newlines_spec(rest.skip(1)) == before + (seq![c]
                    + normalize_newlines_spec(rest.skip(1))));
            }
            i += 1;
        }
    }
    proof {
        assert(out@ + Seq::<char>::empty() == out@);
    }
    out
}

/// Normalizes the line endings of a text to `\n`.
pub fn normalize_newlines(text: &str) -> (r: String)
    ensures
        r@ == normalize_newlines_spec(text@),
{
    let chars = str_chars(text);
    let out = normalize_chars(chars.as_slice());
    chars_to_string(out.as_slice())
}

/// The length of a text in bytes of UTF-8.
pub open spec fn byte_len(s: Seq<char>) -> nat {
    vstd::utf8::encode_utf8(s).len()
}

/// The length of a text in bytes of UTF-8.
pub fn byte_length(s: &str) -> (n: usize)
    ensures
        n == byte_len(s@),
{
    s.as_bytes().len()
}

// ---------------------------------------------------------------------------
// Joining
// ---------------------------------------------------------------------------

/// The parts in order with `sep` between neighbours.
pub open spec fn join_spec(parts: Seq<Seq<char>>, sep: Seq<char>) -> Seq<char>
    decreases parts.len(),
{
    if parts.len() == 0 {
        Seq::empty()
    } else if parts.len() == 1 {
        parts[0]
    } else {
        join_spec(parts.drop_last(), sep) + sep + parts.last()
    }
}

/// Views of a vector of strings.
pub open spec fn string_views(v: Seq<String>) -> Seq<Seq<char>> {
    v.map_values(|s: String| s@)
}

/// Joins strings with a separator between neighbours.
pub fn join(parts: &Vec<String>, sep: &str) -> (r: String)
    ensures
        r@ == join_spec(string_views(parts@), sep@),
{
    let mut r = String::new();
    let mut i: usize = 0;
    while i < parts.len()
        invariant
            i <= parts.len(),
            r@ == join_spec(string_views(parts@).take(i as int), sep@),
        decreases parts.len() - i,
    {
        let ghost sv = string_views(parts@);
        proof {
            assert(sv.take(i + 1).drop_last() == sv.take(i as int));
            assert(sv.take(i + 1).last() == parts@[i as int]@);
        }
        if i > 0 {
            r.append(sep);
        }
        r.append(parts[i].as_str());
        proof {
            if i == 0 {
                assert(sv.take(0).len() == 0);
                assert(Seq::<char>::empty() + parts@[0]@ == parts@[0]@);
            }
        }
        i += 1;
    }
    proof {
        assert(string_views(parts@).take(parts@.len() as int) == string_views(parts@));
    }
    r
}

// ---------------------------------------------------------------------------
// Decimal numbers
// ---------------------------------------------------------------------------

/// The character of a decimal digit.
pub open spec fn digit_char(d: int) -> char {
    if d == 0 {
        '0'
    } else if d == 1 {
        '1'
    } else if d == 2 {
        '2'
    } else if d == 3 {
        '3'
    } else if d == 4 {
        '4'
    } else if d == 5 {
        '5'
    } else if d == 6 {
        '6'
    } else if d == 7 {
        '7'
    } else if d == 8 {
        '8'
    } else {
        '9'
    }
}

/// The decimal digits of a natural number, without leading zeros.
pub open spec fn decimal(n: nat) -> Seq<char>
    decreases n,
{
    if n < 10 {
        seq![digit_char(n as int)]
    } else {
        decimal(n / 10).push(digit_char((n % 10) as int))
    }
}

/// The decimal form of an integer, with a minus sign where it is negative.
pub open spec fn signed_decimal(n: int) -> Seq<char> {
    if n < 0 {
        seq!['-'] + decimal((-n) as nat)
    } else {
        decimal(n as nat)
    }
}

fn digit(d: u64) -> (c: char)
    requires
        d < 10,
    ensures
        c == digit_char(d as int),
{
    if d == 0 {
        '0'
    } else if d == 1 {
        '1'
    } else if d == 2 {
        '2'
    } else if d == 3 {
        '3'
    } else if d == 4 {
        '4'
    } else if d == 5 {
        '5'
    } else if d == 6 {
        '6'
    } else if d == 7 {
        '7'
    } else if d == 8 {
        '8'
    } else {
        '9'
    }
}

/// Appends the decimal digits of `n` to `s`.
pub fn push_decimal(s: &mut String, n: u64)
    ensures
        final(s)@ == old(s)@ + decimal(n as nat),
    decreases n,
{
    if n < 10 {
        push_char(s, digit(n));
        assert(old(s)@.push(digit_char(n as int)) == old(s)@ + decimal(n as nat));
    } else {
        push_decimal(s, n / 10);
        push_char(s, digit(n % 10));
        assert((old(s)@ + decimal((n / 10) as nat)).push(digit_char((n % 10) as int)) == old(s)@
            + decimal(n as nat));
    }
}

/// The decimal form of an unsigned number.
pub fn u64_to_string(n: u64) -> (s: String)
    ensures
        s@ == decimal(n as nat),
{
    let mut s = String::new();
    push_decimal(&mut s, n);
    assert(Seq::<char>::empty() + decimal(n as nat) == decimal(n as nat));
    s
}

/// The decimal form of a signed number.
pub fn i64_to_string(n: i64) -> (s: String)
    ensures
        s@ == signed_decimal(n as int),
{
    let mut s = String::new();
    if n < 0 {
        push_char(&mut s, '-');
        let m: u64 = if n == i64::MIN {
            9223372036854775808u64
        } else {
            (-n) as u64
        };
        push_decimal(&mut s, m);
        assert(Seq::<char>::empty().push('-') == seq!['-']);
    } else {
        push_decimal(&mut s, n as u64);
        assert(Seq::<char>::empty() + decimal(n as nat) == decimal(n as nat));
    }
    s
}

// ---------------------------------------------------------------------------
// Bytes of a text
// ---------------------------------------------------------------------------

/// The greatest character boundary of `bytes` that is at most `n`.
pub open spec fn floor_boundary(bytes: Seq<u8>, n: int) -> int
    decreases n,
{
    if n <= 0 || is_char_boundary(bytes, n) {
        n
    } else {
        floor_boundary(bytes, n - 1)
    }
}

/// The part of a text between two byte positions, where both are
/// character boundaries.
pub fn byte_slice(text: &str, start: usize, end: usize) -> (r: Option<String>)
    requires
        start <= end <= byte_len(text@),
    ensures
        match r {
            Some(s) => {
                &&& is_char_boundary(encode_utf8(text@), start as int)
                &&& is_char_boundary(encode_utf8(text@), end as int)
                &&& encode_utf8(s@) == encode_utf8(text@).subrange(start as int, end as int)
            },
            None => !is_char_boundary(encode_utf8(text@), start as int) || !is_char_boundary(
                encode_utf8(text@),
                end as int,
            ),
        },
{
    if !text.is_char_boundary(start) || !text.is_char_boundary(end) {
        return None;
    }
    let ghost bytes = text.spec_bytes();
    let (head, _) = text.split_at(end);
    proof {
        let hb = head.spec_bytes();
        vstd::utf8::encode_utf8_valid_utf8(text@);
        vstd::utf8::encode_utf8_valid_utf8(head@);
        assert(hb == bytes.subrange(0, end as int));
        if start < end {
            vstd::utf8::is_char_boundary_iff_not_is_continuation_byte(bytes, start as int);
            vstd::utf8::is_char_boundary_iff_not_is_continuation_byte(hb, start as int);
            assert(hb[start as int] == bytes[start as int]);
        } else {
            vstd::utf8::is_char_boundary_start_end_of_seq(hb);
        }
    }
    let (_, part) = head.split_at(start);
    proof {
        assert(part.spec_bytes() =~= bytes.subrange(start as int, end as int));
    }
    Some(String::from_str(part))
}

/// The greatest character boundary of a text that is at most `n`.
pub fn cut_at_boundary(text: &str, n: usize) -> (r: usize)
    requires
        n <= byte_len(text@),
    ensures
        r == floor_boundary(encode_utf8(text@), n as int),
        r <= n,
        is_char_boundary(encode_utf8(text@), r as int),
{
    let mut cut: usize = n;
    proof {
        vstd::utf8::encode_utf8_valid_utf8(text@);
        vstd::utf8::is_char_boundary_start_end_of_seq(encode_utf8(text@));
    }
    while cut > 0 && !text.is_char_boundary(cut)
        invariant
            cut <= n,
            floor_boundary(encode_utf8(text@), n as int) == floor_boundary(
                encode_utf8(text@),
                cut as int,
            ),
            is_char_boundary(encode_utf8(text@), 0),
        decreases cut,
    {
        cut -= 1;
    }
    cut
}

/// The longest prefix of a text that ends on a character boundary and is
/// at most `n` bytes long.
pub open spec fn byte_prefix(s: Seq<char>, n: int) -> Seq<char> {
    decode_utf8(encode_utf8(s).subrange(0, floor_boundary(encode_utf8(s), n)))
}

/// The longest prefix of a text that ends on a character boundary and is
/// at most `n` bytes long.
pub fn take_bytes(text: &str, n: usize) -> (r: String)
    ensures
        r@ == byte_prefix(
            text@,
            if n <= byte_len(text@) {
                n as int
            } else {
                byte_len(text@) as int
            },
        ),
{
    let len = byte_length(text);
    let n: usize = if n <= len {
        n
    } else {
        len
    };
    let cut = cut_at_boundary(text, n);
    proof {
        vstd::utf8::encode_utf8_valid_utf8(text@);
        vstd::utf8::is_char_boundary_start_end_of_seq(encode_utf8(text@));
    }
    match byte_slice(text, 0, cut) {
        Some(r) => {
            proof {
                vstd::utf8::encode_utf8_decode_utf8(r@);
            }
            r
        },
        None => String::new(),
    }
}

// ---------------------------------------------------------------------------
// Removing a pattern
// ---------------------------------------------------------------------------

/// The text without the occurrences of `pat`, taken from left to right
/// without overlap.
pub open spec fn removed(s: Seq<char>, pat: Seq<char>) -> Seq<char>
    decreases s.len(),
{
    if pat.len() == 0 || s.len() < pat.len() {
        s
    } else if matches_at(s, pat, 0) {
        removed(s.skip(pat.len() as int), pat)
    } else {
        seq![s[0]] + removed(s.skip(1), pat)
    }
}

/// Removes the occurrences of a pattern from a text.
pub fn remove_all(s: &[char], pat: &[char]) -> (r: Vec<char>)
    ensures
        r@ == removed(s@, pat@),
{
    let mut out: Vec<char> = Vec::new();
    if pat.len() == 0 {
        extend_chars(&mut out, s);
        assert(Seq::<char>::empty() + s@ == s@);
        return out;
    }
    let mut i: usize = 0;
    proof {
        assert(s@.skip(0) == s@);
        assert(Seq::<char>::empty() + removed(s@, pat@) == removed(s@, pat@));
    }
    while i < s.len()
        invariant
            i <= s.len(),
            pat@.len() > 0,
            out@ + removed(s@.skip(i as int), pat@) == removed(s@, pat@),
        decreases s.len() - i,
    {
        let ghost rest = s@.skip(i as int);
        let ghost before = out@;
        if s.len() - i < pat.len() {
            let tail = sub_vec(s, i, s.len());
            assert(tail@ == rest);
            extend_chars(&mut out, tail.as_slice());
            return out;
        }
        let hit = is_match_at(s, pat, i);
        proof {
            assert(rest.subrange(0, pat@.len() as int) == s@.subrange(i as int, i + pat@.len()));
        }
        if hit {
            proof {
                assert(rest.skip(pat@.len() as int) == s@.skip(i + pat@.len()));
            }
            i += pat.len();
        } else {
            out.push(s[i]);
            proof {
                assert(rest.skip(1) == s@.skip(i + 1));
                assert(before.push(s@[i as int]) + removed(rest.skip(1), pat@) == before + (
                seq![rest[0]] + removed(rest.skip(1), pat@)));
            }
            i += 1;
        }
    }
    proof {
        assert(out@ + Seq::<char>::empty() == out@);
    }
    out
}

} // verus!
