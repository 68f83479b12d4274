//! Finding one text in another, and ordering texts.

use vstd::prelude::*;
use vstd::slice::slice_subrange;
use crate::text::{CharClass, count_trailing, trailing};

verus! {

/// Whether `needle` stands in `hay` at index `i`.
pub open spec fn occurs_at(hay: Seq<char>, needle: Seq<char>, i: int) -> bool {
    &&& 0 <= i
    &&& i + needle.len() <= hay.len()
    &&& hay.subrange(i, i + needle.len()) == needle
}

/// Whether `needle` stands somewhere in `hay`. The empty text stands in
/// every text.
pub open spec fn is_substring(needle: Seq<char>, hay: Seq<char>) -> bool {
    exists|i: int| occurs_at(hay, needle, i)
}

/// Whether `s` begins with `prefix`.
pub open spec fn has_prefix(s: Seq<char>, prefix: Seq<char>) -> bool {
    occurs_at(s, prefix, 0)
}

/// Whether `s` ends with `suffix`.
pub open spec fn has_suffix(s: Seq<char>, suffix: Seq<char>) -> bool {
    occurs_at(s, suffix, s.len() - suffix.len())
}

/// `s` without `suffix` at its end; `s` itself where it does not end so.
pub open spec fn without_suffix(s: Seq<char>, suffix: Seq<char>) -> Seq<char> {
    if has_suffix(s, suffix) {
        s.take(s.len() - suffix.len())
    } else {
        s
    }
}

/// What follows the last `c` in `s`; all of `s` where it holds no `c`.
pub open spec fn after_last(s: Seq<char>, c: char) -> Seq<char> {
    s.skip(s.len() - trailing(s, CharClass::Not(c)))
}

/// Tests whether `needle` stands in `hay` at index `i`.
pub fn matches_at(hay: &[char], needle: &[char], i: usize) -> (b: bool)
    ensures
        b == occurs_at(hay@, needle@, i as int),
{
    if i > hay.len() || needle.len() > hay.len() - i {
        return false;
    }
    let ghost window = hay@.subrange(i as int, i + needle.len());
    let mut j: usize = 0;
    while j < needle.len()
        invariant
            j <= needle.len(),
            i + needle.len() <= hay.len(),
            window == hay@.subrange(i as int, i + needle.len()),
            window.take(j as int) == needle@.take(j as int),
        decreases needle.len() - j,
    {
        if hay[i + j] != needle[j] {
            assert(window[j as int] != needle@[j as int]);
            return false;
        }
        assert(window.take(j + 1) == window.take(j as int).push(window[j as int]));
        assert(needle@.take(j + 1) == needle@.take(j as int).push(needle@[j as int]));
        j += 1;
    }
    assert(window.take(j as int) == window);
    assert(needle@.take(j as int) == needle@);
    true
}

/// Tests whether `needle` stands somewhere in `hay`.
pub fn contains(hay: &[char], needle: &[char]) -> (b: bool)
    ensures
        b == is_substring(needle@, hay@),
{
    if needle.len() > hay.len() {
        return false;
    }
    let last: usize = hay.len() - needle.len();
    let mut i: usize = 0;
    loop
        invariant
            i <= last,
            last == hay.len() - needle.len(),
            forall|k: int| 0 <= k < i ==> !occurs_at(hay@, needle@, k),
        decreases last - i,
    {
        if matches_at(hay, needle, i) {
            return true;
        }
        if i == last {
            return false;
        }
        i += 1;
    }
}

/// Tests whether `s` begins with `prefix`.
pub fn starts_with(s: &[char], prefix: &[char]) -> (b: bool)
    ensures
        b == has_prefix(s@, prefix@),
{
    matches_at(s, prefix, 0)
}

/// Removes `suffix` from the end of `s`, if `s` ends with it.
pub fn strip_suffix<'a>(s: &'a [char], suffix: &[char]) -> (t: &'a [char])
    ensures
        t@ == without_suffix(s@, suffix@),
{
    if suffix.len() <= s.len() && matches_at(s, suffix, s.len() - suffix.len()) {
        slice_subrange(s, 0, s.len() - suffix.len())
    } else {
        slice_subrange(s, 0, s.len())
    }
}

/// Cuts `s` down to what follows its last `c`.
pub fn split_after_last(s: &[char], c: char) -> (t: &[char])
    ensures
        t@ == after_last(s@, c),
{
    let n: usize = count_trailing(s, CharClass::Not(c));
    slice_subrange(s, s.len() - n, s.len())
}

/// The lower-case form of a text, as `str::to_lowercase` gives it.
pub uninterp spec fn lowercase_of(s: Seq<char>) -> Seq<char>;

/// `str::to_lowercase` maps each character to its lower-case form by the
/// Unicode tables (one character can become several); the result depends
/// on the text alone.
pub assume_specification[ str::to_lowercase ](s: &str) -> (lower: String)
    ensures
        lower@ == lowercase_of(s@),
;

/// Whether `a` comes before `b` in the order of a dictionary, each
/// character ranked by its code point: at the first index where the two
/// differ `a` has the smaller character, or `a` ends there and `b` goes on.
pub open spec fn lex_less(a: Seq<char>, b: Seq<char>) -> bool
    decreases a.len(),
{
    if b.len() == 0 {
        false
    } else if a.len() == 0 {
        true
    } else if a[0] != b[0] {
        a[0] < b[0]
    } else {
        lex_less(a.skip(1), b.skip(1))
    }
}

/// A common prefix decides nothing.
pub proof fn lemma_lex_less_skip(a: Seq<char>, b: Seq<char>, k: int)
    requires
        0 <= k <= a.len(),
        k <= b.len(),
        a.take(k) == b.take(k),
    ensures
        lex_less(a, b) == lex_less(a.skip(k), b.skip(k)),
    decreases k,
{
    if k == 0 {
        assert(a.skip(0) == a);
        assert(b.skip(0) == b);
    } else {
        assert(a[0] == a.take(k)[0]);
        assert(b[0] == b.take(k)[0]);
        let a1 = a.skip(1);
        let b1 = b.skip(1);
        assert(a1.take(k - 1) == a.take(k).skip(1));
        assert(b1.take(k - 1) == b.take(k).skip(1));
        lemma_lex_less_skip(a1, b1, k - 1);
        assert(a1.skip(k - 1) == a.skip(k));
        assert(b1.skip(k - 1) == b.skip(k));
    }
}

/// Tests whether `a` comes before `b` in dictionary order.
pub fn is_lex_less(a: &[char], b: &[char]) -> (r: bool)
    ensures
        r == lex_less(a@, b@),
{
    let mut i: usize = 0;
    while i < a.len() && i < b.len() && a[i] == b[i]
        invariant
            i <= a.len(),
            i <= b.len(),
            a@.take(i as int) == b@.take(i as int),
        decreases a.len() - i,
    {
        assert(a@.take(i + 1) == a@.take(i as int).push(a@[i as int]));
        assert(b@.take(i + 1) == b@.take(i as int).push(b@[i as int]));
        i += 1;
    }
    proof {
        lemma_lex_less_skip(a@, b@, i as int);
        let ra = a@.skip(i as int);
        let rb = b@.skip(i as int);
        if i < a.len() {
            assert(ra[0] == a@[i as int]);
        }
        if i < b.len() {
            assert(rb[0] == b@[i as int]);
        }
    }
    if i >= b.len() {
        false
    } else if i >= a.len() {
        true
    } else {
        a[i] < b[i]
    }
}

/// No text comes before itself.
pub proof fn lemma_lex_irreflexive(a: Seq<char>)
    ensures
        !lex_less(a, a),
    decreases a.len(),
{
    if a.len() > 0 {
        lemma_lex_irreflexive(a.skip(1));
    }
}

/// Of two different texts one comes before the other.
pub proof fn lemma_lex_total(a: Seq<char>, b: Seq<char>)
    ensures
        a != b ==> lex_less(a, b) || lex_less(b, a),
        !(lex_less(a, b) && lex_less(b, a)),
    decreases a.len(),
{
    if a.len() > 0 && b.len() > 0 {
        if a[0] == b[0] {
            lemma_lex_total(a.skip(1), b.skip(1));
            if a.skip(1) == b.skip(1) {
                assert(a =~= seq![a[0]] + a.skip(1));
                assert(b =~= seq![b[0]] + b.skip(1));
            }
        }
    } else if a.len() == 0 && b.len() == 0 {
        assert(a =~= b);
    }
}

/// Before is transitive.
pub proof fn lemma_lex_transitive(a: Seq<char>, b: Seq<char>, c: Seq<char>)
    requires
        lex_less(a, b),
        lex_less(b, c),
    ensures
        lex_less(a, c),
    decreases a.len(),
{
    if a.len() > 0 && a[0] == b[0] && b[0] == c[0] {
        lemma_lex_transitive(a.skip(1), b.skip(1), c.skip(1));
    }
}

} // verus!
