//! Sequences of texts kept in lexicographic order, as ordered sets.

use vstd::prelude::*;
use vstd::string::StringExecFns;
use crate::text::{chars_eq, str_chars, string_views};

verus! {

/// `a` comes before `b`: at the first position where they differ `a` has the
/// smaller scalar value, or `a` is a proper prefix of `b`.
pub open spec fn lex_lt(a: Seq<char>, b: Seq<char>) -> bool
    decreases a.len(),
{
    if b.len() == 0 {
        false
    } else if a.len() == 0 {
        true
    } else if a[0] != b[0] {
        (a[0] as u32) < (b[0] as u32)
    } else {
        lex_lt(a.skip(1), b.skip(1))
    }
}

/// Tests whether `a` comes before `b`.
pub fn chars_lt(a: &[char], b: &[char]) -> (r: bool)
    ensures
        r == lex_lt(a@, b@),
{
    let mut i: usize = 0;
    assert(a@.skip(0) == a@ && b@.skip(0) == b@);
    loop
        invariant
            i <= a.len(),
            i <= b.len(),
            lex_lt(a@, b@) == lex_lt(a@.skip(i as int), b@.skip(i as int)),
        decreases a.len() - i,
    {
        if i >= b.len() {
            return false;
        }
        if i >= a.len() {
            return true;
        }
        if a[i] != b[i] {
            return (a[i] as u32) < (b[i] as u32);
        }
        proof {
            assert(a@.skip(i as int).skip(1) == a@.skip(i + 1));
            assert(b@.skip(i as int).skip(1) == b@.skip(i + 1));
        }
        i += 1;
    }
}

/// Tests whether the text `a` comes before the text `b`.
pub fn str_lt(a: &str, b: &str) -> (r: bool)
    ensures
        r == lex_lt(a@, b@),
{
    let x = str_chars(a);
    let y = str_chars(b);
    chars_lt(x.as_slice(), y.as_slice())
}

/// The position at which `x` stands or would be inserted: the first item
/// that is `x` or comes after it.
pub open spec fn slot(s: Seq<Seq<char>>, x: Seq<char>) -> nat
    decreases s.len(),
{
    if s.len() == 0 || s[0] == x || lex_lt(x, s[0]) {
        0
    } else {
        1 + slot(s.skip(1), x)
    }
}

/// `s` with `x` put in at its slot, unless it stands there already.
pub open spec fn insert_sorted(s: Seq<Seq<char>>, x: Seq<char>) -> Seq<Seq<char>> {
    let i = slot(s, x) as int;
    if i < s.len() && s[i] == x {
        s
    } else {
        s.insert(i, x)
    }
}

/// `s` without the items equal to `x`.
pub open spec fn without(s: Seq<Seq<char>>, x: Seq<char>) -> Seq<Seq<char>> {
    s.filter(|y: Seq<char>| y != x)
}

/// The slot of `x` among the texts of `v`.
pub fn find_slot(v: &Vec<String>, x: &str) -> (i: usize)
    ensures
        i == slot(string_views(v@), x@),
        i <= v.len(),
{
    let ghost s = string_views(v@);
    let xs = str_chars(x);
    let mut i: usize = 0;
    assert(s.skip(0) == s);
    while i < v.len()
        invariant
            i <= v.len(),
            s == string_views(v@),
            xs@ == x@,
            slot(s, x@) == i + slot(s.skip(i as int), x@),
        decreases v.len() - i,
    {
        let cur = str_chars(v[i].as_str());
        assert(s.skip(i as int)[0] == v@[i as int]@);
        if chars_eq(cur.as_slice(), xs.as_slice()) || chars_lt(xs.as_slice(), cur.as_slice()) {
            return i;
        }
        proof {
            assert(s.skip(i as int).skip(1) == s.skip(i + 1));
        }
        i += 1;
    }
    i
}

/// Tests whether `x` is among the texts of `v`.
pub fn has_text(v: &Vec<String>, x: &str) -> (b: bool)
    ensures
        b == string_views(v@).contains(x@),
{
    let ghost s = string_views(v@);
    let mut i: usize = 0;
    while i < v.len()
        invariant
            i <= v.len(),
            s == string_views(v@),
            forall|j: int| 0 <= j < i ==> s[j] != x@,
        decreases v.len() - i,
    {
        if crate::text::str_eq(v[i].as_str(), x) {
            assert(s[i as int] == x@);
            return true;
        }
        i += 1;
    }
    false
}

/// Puts `x` into the ordered set `v`.
pub fn set_insert(v: &mut Vec<String>, x: &str)
    ensures
        string_views(final(v)@) == insert_sorted(string_views(old(v)@), x@),
{
    let i = find_slot(v, x);
    let ghost s = string_views(v@);
    if i < v.len() && crate::text::str_eq(v[i].as_str(), x) {
        assert(s[i as int] == x@);
    } else {
        if i < v.len() {
            assert(s[i as int] == v@[i as int]@);
        }
        v.insert(i, String::from_str(x));
        assert(string_views(v@) =~= s.insert(i as int, x@));
    }
}

/// Takes `x` out of the ordered set `v`. Answers whether it was there.
pub fn set_remove(v: &mut Vec<String>, x: &str) -> (was_there: bool)
    ensures
        string_views(final(v)@) == without(string_views(old(v)@), x@),
        was_there == string_views(old(v)@).contains(x@),
{
    let ghost s = string_views(v@);
    let mut out: Vec<String> = Vec::new();
    let mut was_there = false;
    let mut i: usize = 0;
    proof {
        assert(s.take(0) =~= Seq::<Seq<char>>::empty());
        assert(string_views(out@) =~= without(s.take(0), x@));
    }
    while i < v.len()
        invariant
            i <= v.len(),
            s == string_views(v@),
            string_views(out@) == without(s.take(i as int), x@),
            was_there == s.take(i as int).contains(x@),
        decreases v.len() - i,
    {
        let ghost before = string_views(out@);
        proof {
            assert(s.take(i + 1) == s.take(i as int).push(s[i as int]));
            lemma_without_push(s.take(i as int), s[i as int], x@);
        }
        proof {
            lemma_contains_push(s.take(i as int), s[i as int], x@);
        }
        if crate::text::str_eq(v[i].as_str(), x) {
            was_there = true;
        } else {
            out.push(v[i].clone());
            assert(string_views(out@) =~= before.push(s[i as int]));
        }
        i += 1;
    }
    proof {
        assert(s.take(v@.len() as int) == s);
    }
    *v = out;
    was_there
}

/// An item is in `s.push(y)` where it is in `s` or is `y`.
pub proof fn lemma_contains_push(s: Seq<Seq<char>>, y: Seq<char>, x: Seq<char>)
    ensures
        s.push(y).contains(x) <==> (s.contains(x) || y == x),
{
    let t = s.push(y);
    if t.contains(x) {
        let k = choose|k: int| 0 <= k < t.len() && #[trigger] t[k] == x;
        if k < s.len() {
            assert(s[k] == x);
        }
    }
    if s.contains(x) {
        let k = choose|k: int| 0 <= k < s.len() && #[trigger] s[k] == x;
        assert(t[k] == x);
    }
    if y == x {
        assert(t[s.len() as int] == x);
    }
}

/// Filtering out `x` goes item by item.
pub proof fn lemma_without_push(s: Seq<Seq<char>>, y: Seq<char>, x: Seq<char>)
    ensures
        without(s.push(y), x) == if y != x {
            without(s, x).push(y)
        } else {
            without(s, x)
        },
{
    let pred = |z: Seq<char>| z != x;
    assert(s.push(y).drop_last() == s);
    reveal(Seq::filter);
    assert(s.push(y).filter(pred) == if pred(y) {
        s.filter(pred).push(y)
    } else {
        s.filter(pred)
    });
}

// ---------------------------------------------------------------------------
// The order and its laws
// ---------------------------------------------------------------------------

/// No text comes before itself.
pub proof fn lemma_lex_irreflexive(a: Seq<char>)
    ensures
        !lex_lt(a, a),
    decreases a.len(),
{
    if a.len() > 0 {
        lemma_lex_irreflexive(a.skip(1));
    }
}

/// What comes before a text that comes before a third comes before the
/// third.
pub proof fn lemma_lex_transitive(a: Seq<char>, b: Seq<char>, c: Seq<char>)
    requires
        lex_lt(a, b),
        lex_lt(b, c),
    ensures
        lex_lt(a, c),
    decreases a.len(),
{
    if a.len() > 0 && b.len() > 0 && c.len() > 0 {
        if a[0] == b[0] && b[0] == c[0] {
            lemma_lex_transitive(a.skip(1), b.skip(1), c.skip(1));
        }
    }
}

/// Of two different texts one comes before the other.
pub proof fn lemma_lex_total(a: Seq<char>, b: Seq<char>)
    ensures
        a == b || lex_lt(a, b) || lex_lt(b, a),
    decreases a.len(),
{
    if a.len() == 0 || b.len() == 0 {
        if a.len() == 0 && b.len() == 0 {
            assert(a =~= b);
        }
    } else if a[0] == b[0] {
        lemma_lex_total(a.skip(1), b.skip(1));
        if a.skip(1) == b.skip(1) {
            assert(a =~= seq![a[0]] + a.skip(1));
            assert(b =~= seq![b[0]] + b.skip(1));
        }
    } else {
        let x = a[0] as u32;
        let y = b[0] as u32;
        vstd::utf8::char_u32_cast(a[0], x);
        vstd::utf8::char_u32_cast(b[0], y);
        assert(x != y);
    }
}

/// Every text of the sequence comes before the texts behind it: the
/// sequence is a set in order.
pub open spec fn strictly_sorted(s: Seq<Seq<char>>) -> bool {
    forall|i: int, j: int| 0 <= i < j < s.len() ==> lex_lt(#[trigger] s[i], #[trigger] s[j])
}

/// The slot of a text lies behind the texts that come before it, and at
/// the slot stands the text itself or one that comes after it.
pub proof fn lemma_slot(s: Seq<Seq<char>>, x: Seq<char>)
    ensures
        slot(s, x) <= s.len(),
        forall|i: int| 0 <= i < slot(s, x) ==> lex_lt(#[trigger] s[i], x),
        slot(s, x) < s.len() ==> s[slot(s, x) as int] == x || lex_lt(x, s[slot(s, x) as int]),
    decreases s.len(),
{
    if s.len() == 0 || s[0] == x || lex_lt(x, s[0]) {
    } else {
        let rest = s.skip(1);
        lemma_slot(rest, x);
        lemma_lex_total(s[0], x);
        assert forall|i: int| 0 <= i < slot(s, x) implies lex_lt(#[trigger] s[i], x) by {
            if i > 0 {
                assert(rest[i - 1] == s[i]);
            }
        }
        if slot(s, x) < s.len() {
            assert(rest[slot(rest, x) as int] == s[slot(s, x) as int]);
        }
    }
}

/// Putting a text into a set in order gives the set in order with that
/// text as a member.
pub proof fn law_insert_sorted(s: Seq<Seq<char>>, x: Seq<char>)
    requires
        strictly_sorted(s),
    ensures
        strictly_sorted(insert_sorted(s, x)),
        forall|y: Seq<char>| insert_sorted(s, x).contains(y) <==> (s.contains(y) || y == x),
{
    lemma_slot(s, x);
    let k = slot(s, x) as int;
    let t = insert_sorted(s, x);
    if k < s.len() && s[k] == x {
        assert forall|y: Seq<char>| t.contains(y) <==> (s.contains(y) || y == x) by {
            if y == x {
                assert(s[k] == y);
            }
        }
    } else {
        assert(t == s.insert(k, x));
        assert forall|i: int, j: int| 0 <= i < j < t.len() implies lex_lt(
            #[trigger] t[i],
            #[trigger] t[j],
        ) by {
            if j < k {
                assert(t[i] == s[i] && t[j] == s[j]);
            } else if j == k {
                assert(t[i] == s[i]);
            } else if i == k {
                assert(t[j] == s[j - 1]);
                if j - 1 > k {
                    lemma_lex_transitive(x, s[k], s[j - 1]);
                }
            } else if i < k {
                assert(t[i] == s[i] && t[j] == s[j - 1]);
            } else {
                assert(t[i] == s[i - 1] && t[j] == s[j - 1]);
            }
        }
        assert forall|y: Seq<char>| t.contains(y) <==> (s.contains(y) || y == x) by {
            if t.contains(y) {
                let i = choose|i: int| 0 <= i < t.len() && t[i] == y;
                if i < k {
                    assert(s[i] == y);
                } else if i > k {
                    assert(s[i - 1] == y);
                }
            }
            if s.contains(y) {
                let i = choose|i: int| 0 <= i < s.len() && s[i] == y;
                if i < k {
                    assert(t[i] == y);
                } else {
                    assert(t[i + 1] == y);
                }
            }
            if y == x {
                assert(t[k] == y);
            }
        }
    }
}

/// Taking a text out of a set in order gives the set in order without
/// that text.
pub proof fn law_without(s: Seq<Seq<char>>, x: Seq<char>)
    requires
        strictly_sorted(s),
    ensures
        strictly_sorted(without(s, x)),
        forall|y: Seq<char>| without(s, x).contains(y) <==> (s.contains(y) && y != x),
        forall|i: int|
            0 <= i < without(s, x).len() && s.len() > 0 ==> (#[trigger] without(s, x)[i]) == s.last()
                || lex_lt(without(s, x)[i], s.last()),
    decreases s.len(),
{
    if s.len() == 0 {
        assert(without(s, x) =~= Seq::<Seq<char>>::empty());
    } else {
        let head = s.drop_last();
        assert(s == head.push(s.last()));
        assert forall|i: int, j: int| 0 <= i < j < head.len() implies lex_lt(
            #[trigger] head[i],
            #[trigger] head[j],
        ) by {
            assert(head[i] == s[i] && head[j] == s[j]);
        }
        law_without(head, x);
        lemma_without_push(head, s.last(), x);
        lemma_contains_push(head, s.last(), x);
        let w = without(head, x);
        let t = without(s, x);
        assert forall|i: int| 0 <= i < w.len() implies lex_lt(#[trigger] w[i], s.last()) by {
            assert(w.contains(w[i]));
            assert(head.contains(w[i]));
            let k = choose|k: int| 0 <= k < head.len() && head[k] == w[i];
            assert(lex_lt(s[k], s[s.len() - 1]));
        }
        assert forall|y: Seq<char>| t.contains(y) <==> (s.contains(y) && y != x) by {
            lemma_contains_push(w, s.last(), y);
            lemma_contains_push(head, s.last(), y);
        }
        if s.last() != x {
            assert(t == w.push(s.last()));
            assert forall|i: int, j: int| 0 <= i < j < t.len() implies lex_lt(
                #[trigger] t[i],
                #[trigger] t[j],
            ) by {
                if j < w.len() {
                    assert(t[i] == w[i] && t[j] == w[j]);
                } else {
                    assert(t[i] == w[i]);
                }
            }
        }
    }
}

} // verus!
