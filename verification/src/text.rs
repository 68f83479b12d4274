//! Text as sequences of characters: the primitives the parsers, the filter
//! and the sort keys are built from.
//!
//! Every function here is stated over `Seq<char>`, the view of `str` and
//! `String`. The executable versions work on `&[char]`, which gives them
//! constant-time indexing; `chars_of` and `string_of` convert.

use vstd::prelude::*;
use vstd::slice::slice_subrange;
use vstd::string::StringExecFns;

verus! {

broadcast use vstd::string::group_string_axioms;

/// Appending one character to a `String` appends it to the text it holds.
pub assume_specification[ String::push ](s: &mut String, ch: char)
    ensures
        final(s)@ == old(s)@.push(ch),
;

/// The characters of a string slice, in order.
pub fn chars_of(s: &str) -> (v: Vec<char>)
    ensures
        v@ == s@,
{
    let mut v: Vec<char> = Vec::new();
    for c in it: s.chars()
        invariant
            v@ == it.seq().take(it.index()),
            it.seq() == s@,
    {
        v.push(c);
    }
    v
}

/// The string that holds the given characters, in order.
pub fn string_of(v: &[char]) -> (s: String)
    ensures
        s@ == v@,
{
    let mut s = String::new();
    let mut i: usize = 0;
    while i < v.len()
        invariant
            i <= v.len(),
            s@ == v@.take(i as int),
        decreases v.len() - i,
    {
        s.push(v[i]);
        i += 1;
    }
    s
}

/// Tests two texts for equality.
pub fn str_equal(a: &str, b: &str) -> (same: bool)
    ensures
        same == (a@ == b@),
{
    let x = chars_of(a);
    let y = chars_of(b);
    if x.len() != y.len() {
        return false;
    }
    let mut i: usize = 0;
    while i < x.len()
        invariant
            i <= x.len(),
            x.len() == y.len(),
            x@ == a@,
            y@ == b@,
            x@.take(i as int) == y@.take(i as int),
        decreases x.len() - i,
    {
        if x[i] != y[i] {
            assert(a@[i as int] != b@[i as int]);
            return false;
        }
        assert(x@.take(i + 1) == x@.take(i as int).push(x@[i as int]));
        assert(y@.take(i + 1) == y@.take(i as int).push(y@[i as int]));
        i += 1;
    }
    assert(x@.take(i as int) == x@);
    assert(y@.take(i as int) == y@);
    true
}

/// A class of characters, for counting runs at either end of a text.
#[derive(Clone, Copy, Debug)]
pub enum CharClass {
    /// White space as Unicode defines it.
    Whitespace,
    /// Everything but white space.
    NotWhitespace,
    /// Every character but the given one.
    Not(char),
}

/// White space as Unicode defines it (the property `White_Space`).
pub open spec fn is_whitespace(c: char) -> bool {
    let n = c as int;
    ||| 0x09 <= n <= 0x0D
    ||| n == 0x20
    ||| n == 0x85
    ||| n == 0xA0
    ||| n == 0x1680
    ||| 0x2000 <= n <= 0x200A
    ||| n == 0x2028
    ||| n == 0x2029
    ||| n == 0x202F
    ||| n == 0x205F
    ||| n == 0x3000
}

/// Tests a character for white space.
pub fn char_is_whitespace(c: char) -> (b: bool)
    ensures
        b == is_whitespace(c),
{
    let n: u32 = c as u32;
    (0x09 <= n && n <= 0x0D) || n == 0x20 || n == 0x85 || n == 0xA0 || n == 0x1680 || (0x2000 <= n
        && n <= 0x200A) || n == 0x2028 || n == 0x2029 || n == 0x202F || n == 0x205F || n == 0x3000
}

impl CharClass {
    /// Whether `c` belongs to the class.
    pub open spec fn holds(self, c: char) -> bool {
        match self {
            CharClass::Whitespace => is_whitespace(c),
            CharClass::NotWhitespace => !is_whitespace(c),
            CharClass::Not(x) => c != x,
        }
    }

    /// Tests a character for membership.
    pub fn test(self, c: char) -> (b: bool)
        ensures
            b == self.holds(c),
    {
        match self {
            CharClass::Whitespace => char_is_whitespace(c),
            CharClass::NotWhitespace => !char_is_whitespace(c),
            CharClass::Not(x) => c != x,
        }
    }
}

/// The length of the longest prefix of `s` whose characters are all in `k`.
pub open spec fn leading(s: Seq<char>, k: CharClass) -> nat
    decreases s.len(),
{
    if s.len() > 0 && k.holds(s[0]) {
        1 + leading(s.skip(1), k)
    } else {
        0
    }
}

/// The length of the longest suffix of `s` whose characters are all in `k`.
pub open spec fn trailing(s: Seq<char>, k: CharClass) -> nat
    decreases s.len(),
{
    if s.len() > 0 && k.holds(s.last()) {
        1 + trailing(s.drop_last(), k)
    } else {
        0
    }
}

/// `leading(s, k)` is the one `n` such that the first `n` characters are in
/// `k` and the next one, if there is one, is not.
pub proof fn lemma_leading_is(s: Seq<char>, k: CharClass, n: nat)
    requires
        n <= s.len(),
        forall|i: int| 0 <= i < n ==> k.holds(s[i]),
        n < s.len() ==> !k.holds(s[n as int]),
    ensures
        leading(s, k) == n,
    decreases n,
{
    if n > 0 {
        let t = s.skip(1);
        assert forall|i: int| 0 <= i < n - 1 implies k.holds(t[i]) by {
            assert(t[i] == s[i + 1]);
        }
        lemma_leading_is(t, k, (n - 1) as nat);
    }
}

/// `trailing(s, k)` is the one `n` such that the last `n` characters are in
/// `k` and the one before them, if there is one, is not.
pub proof fn lemma_trailing_is(s: Seq<char>, k: CharClass, n: nat)
    requires
        n <= s.len(),
        forall|i: int| s.len() - n <= i < s.len() ==> k.holds(s[i]),
        n < s.len() ==> !k.holds(s[s.len() - n - 1]),
    ensures
        trailing(s, k) == n,
    decreases n,
{
    if n > 0 {
        let t = s.drop_last();
        assert forall|i: int| t.len() - (n - 1) <= i < t.len() implies k.holds(t[i]) by {
            assert(t[i] == s[i]);
        }
        lemma_trailing_is(t, k, (n - 1) as nat);
    }
}

/// A run at the start of a text is no longer than the text, lies in the
/// class, and ends where the class ends.
pub proof fn lemma_leading_bounds(s: Seq<char>, k: CharClass)
    ensures
        leading(s, k) <= s.len(),
        forall|i: int| 0 <= i < leading(s, k) ==> k.holds(s[i]),
        leading(s, k) < s.len() ==> !k.holds(s[leading(s, k) as int]),
    decreases s.len(),
{
    if s.len() > 0 && k.holds(s[0]) {
        let t = s.skip(1);
        lemma_leading_bounds(t, k);
        assert forall|i: int| 0 <= i < leading(s, k) implies k.holds(s[i]) by {
            if i > 0 {
                assert(s[i] == t[i - 1]);
            }
        }
        if leading(s, k) < s.len() {
            assert(s[leading(s, k) as int] == t[leading(t, k) as int]);
        }
    }
}

/// A run at the end of a text is no longer than the text, lies in the
/// class, and begins where the class begins.
pub proof fn lemma_trailing_bounds(s: Seq<char>, k: CharClass)
    ensures
        trailing(s, k) <= s.len(),
        forall|i: int| s.len() - trailing(s, k) <= i < s.len() ==> k.holds(s[i]),
        trailing(s, k) < s.len() ==> !k.holds(s[s.len() - trailing(s, k) - 1]),
    decreases s.len(),
{
    if s.len() > 0 && k.holds(s.last()) {
        let t = s.drop_last();
        lemma_trailing_bounds(t, k);
        assert forall|i: int| s.len() - trailing(s, k) <= i < s.len() implies k.holds(s[i]) by {
            if i < s.len() - 1 {
                assert(s[i] == t[i]);
            }
        }
        if trailing(s, k) < s.len() {
            assert(s[s.len() - trailing(s, k) - 1] == t[t.len() - trailing(t, k) - 1]);
        }
    }
}

/// Counts the characters at the start of `s` that are in `k`.
pub fn count_leading(s: &[char], k: CharClass) -> (n: usize)
    ensures
        n == leading(s@, k),
        n <= s@.len(),
{
    let mut i: usize = 0;
    while i < s.len() && k.test(s[i])
        invariant
            i <= s.len(),
            forall|j: int| 0 <= j < i ==> k.holds(s@[j]),
        decreases s.len() - i,
    {
        i += 1;
    }
    proof {
        lemma_leading_is(s@, k, i as nat);
    }
    i
}

/// Counts the characters at the end of `s` that are in `k`.
pub fn count_trailing(s: &[char], k: CharClass) -> (n: usize)
    ensures
        n == trailing(s@, k),
        n <= s@.len(),
{
    let len: usize = s.len();
    let mut n: usize = 0;
    while n < len && k.test(s[len - n - 1])
        invariant
            len == s.len(),
            n <= len,
            forall|j: int| len - n <= j < len ==> k.holds(s@[j]),
        decreases len - n,
    {
        n += 1;
    }
    proof {
        lemma_trailing_is(s@, k, n as nat);
    }
    n
}

/// `s` without the white space at its two ends.
pub open spec fn trimmed(s: Seq<char>) -> Seq<char> {
    let t = s.skip(leading(s, CharClass::Whitespace) as int);
    t.take(t.len() - trailing(t, CharClass::Whitespace))
}

/// Removes the white space at the two ends of `s`.
pub fn trim(s: &[char]) -> (t: &[char])
    ensures
        t@ == trimmed(s@),
{
    let a: usize = count_leading(s, CharClass::Whitespace);
    let rest = slice_subrange(s, a, s.len());
    let b: usize = count_trailing(rest, CharClass::Whitespace);
    assert(rest@ == s@.skip(a as int));
    slice_subrange(rest, 0, rest.len() - b)
}

/// The fields of `s`: its maximal runs of characters that are not white
/// space, in order.
pub open spec fn fields_of(s: Seq<char>) -> Seq<Seq<char>>
    decreases s.len(),
{
    let t = s.skip(leading(s, CharClass::Whitespace) as int);
    let n = leading(t, CharClass::NotWhitespace);
    if n == 0 {
        Seq::empty()
    } else {
        proof {
            lemma_leading_bounds(s, CharClass::Whitespace);
            lemma_leading_bounds(t, CharClass::NotWhitespace);
        }
        seq![t.take(n as int)] + fields_of(t.skip(n as int))
    }
}

/// Splits `s` into its fields.
pub fn split_whitespace(s: &[char]) -> (fields: Vec<String>)
    ensures
        fields.deep_view() == fields_of(s@),
{
    let mut fields: Vec<String> = Vec::new();
    let mut pos: usize = 0;
    let len: usize = s.len();
    assert(s@.skip(0) == s@);
    assert(fields.deep_view() + fields_of(s@) =~~= fields_of(s@));
    loop
        invariant
            len == s.len(),
            pos <= len,
            fields_of(s@) == fields.deep_view() + fields_of(s@.skip(pos as int)),
        ensures
            fields.deep_view() == fields_of(s@),
        decreases len - pos,
    {
        let rest = slice_subrange(s, pos, len);
        let a: usize = count_leading(rest, CharClass::Whitespace);
        let tail = slice_subrange(rest, a, rest.len());
        let n: usize = count_leading(tail, CharClass::NotWhitespace);
        assert(rest@ == s@.skip(pos as int));
        assert(tail@ == rest@.skip(a as int));
        if n == 0 {
            assert(fields_of(rest@) == Seq::<Seq<char>>::empty());
            assert(fields.deep_view() + Seq::<Seq<char>>::empty() =~~= fields.deep_view());
            break;
        }
        let field = slice_subrange(tail, 0, n);
        let text = string_of(field);
        proof {
            let before = fields.deep_view();
            assert(field@ == tail@.take(n as int));
            assert(tail@.skip(n as int) == s@.skip(pos + a + n));
            assert(fields_of(rest@) == seq![field@] + fields_of(tail@.skip(n as int)));
            assert(before + (seq![field@] + fields_of(tail@.skip(n as int))) == before.push(field@)
                + fields_of(tail@.skip(n as int)));
        }
        let ghost before = fields.deep_view();
        fields.push(text);
        assert(fields.deep_view() =~~= before.push(text@));
        pos = pos + a + n;
    }
    fields
}

/// `l` without one carriage return at its end.
pub open spec fn without_carriage_return(l: Seq<char>) -> Seq<char> {
    if l.len() > 0 && l.last() == '\r' {
        l.drop_last()
    } else {
        l
    }
}

/// The lines of `s`. A line ends at a line feed, or at a carriage return
/// and a line feed; the last line may end with the text. The line endings
/// are not part of the lines.
pub open spec fn lines_of(s: Seq<char>) -> Seq<Seq<char>>
    decreases s.len(),
{
    if s.len() == 0 {
        Seq::empty()
    } else {
        let n = leading(s, CharClass::Not('\n'));
        if n >= s.len() {
            seq![s]
        } else {
            seq![without_carriage_return(s.take(n as int))] + lines_of(s.skip(n as int + 1))
        }
    }
}

/// Splits `s` into its lines.
pub fn split_lines(s: &[char]) -> (lines: Vec<Vec<char>>)
    ensures
        lines.deep_view() == lines_of(s@),
{
    let mut lines: Vec<Vec<char>> = Vec::new();
    let mut pos: usize = 0;
    let len: usize = s.len();
    assert(s@.skip(0) == s@);
    assert(lines.deep_view() + lines_of(s@) =~~= lines_of(s@));
    while pos < len
        invariant
            len == s.len(),
            pos <= len,
            lines_of(s@) == lines.deep_view() + lines_of(s@.skip(pos as int)),
        decreases len - pos,
    {
        let rest = slice_subrange(s, pos, len);
        let n: usize = count_leading(rest, CharClass::Not('\n'));
        assert(rest@ == s@.skip(pos as int));
        let ghost before = lines.deep_view();
        if n >= rest.len() {
            let line = vstd::slice::slice_to_vec(rest);
            lines.push(line);
            proof {
                assert(lines_of(rest@) == seq![rest@]);
                assert(lines.deep_view() =~~= before.push(rest@));
                assert(s@.skip(len as int).len() == 0);
                assert(lines_of(s@.skip(len as int)) == Seq::<Seq<char>>::empty());
                assert(before + seq![rest@] == before.push(rest@) + Seq::<Seq<char>>::empty());
            }
            pos = len;
        } else {
            let raw = slice_subrange(rest, 0, n);
            let cut: usize = if n > 0 && raw[n - 1] == '\r' {
                n - 1
            } else {
                n
            };
            let body = slice_subrange(raw, 0, cut);
            let line = vstd::slice::slice_to_vec(body);
            lines.push(line);
            proof {
                assert(raw@ == rest@.take(n as int));
                assert(body@ == without_carriage_return(raw@));
                assert(rest@.skip(n + 1) == s@.skip(pos + n + 1));
                assert(lines_of(rest@) == seq![body@] + lines_of(rest@.skip(n + 1)));
                assert(lines.deep_view() =~~= before.push(body@));
                assert(before + (seq![body@] + lines_of(rest@.skip(n + 1))) == before.push(body@)
                    + lines_of(rest@.skip(n + 1)));
            }
            pos = pos + n + 1;
        }
    }
    proof {
        assert(s@.skip(pos as int).len() == 0);
        assert(lines.deep_view() + Seq::<Seq<char>>::empty() =~~= lines.deep_view());
    }
    lines
}

/// The texts of `parts` in order, with `sep` between each two neighbours.
pub open spec fn joined(parts: Seq<Seq<char>>, sep: Seq<char>) -> Seq<char>
    decreases parts.len(),
{
    if parts.len() == 0 {
        Seq::empty()
    } else if parts.len() == 1 {
        parts[0]
    } else {
        joined(parts.drop_last(), sep) + sep + parts.last()
    }
}

/// Joins the texts of `parts` from index `from` on, with `sep` between each
/// two neighbours.
pub fn join_from(parts: &Vec<String>, from: usize, sep: &str) -> (text: String)
    requires
        from <= parts.len(),
    ensures
        text@ == joined(parts.deep_view().skip(from as int), sep@),
{
    let ghost all = parts.deep_view().skip(from as int);
    let mut text = String::new();
    let mut i: usize = from;
    while i < parts.len()
        invariant
            from <= i <= parts.len(),
            all == parts.deep_view().skip(from as int),
            text@ == joined(all.take(i - from), sep@),
        decreases parts.len() - i,
    {
        if i > from {
            text.append(sep);
        }
        text.append(parts[i].as_str());
        proof {
            let next = all.take(i - from + 1);
            assert(next.drop_last() == all.take(i - from));
            assert(next.last() == parts[i as int]@);
            if i > from {
                assert(next.len() > 1);
            } else {
                assert(Seq::<char>::empty() + parts[i as int]@ == parts[i as int]@);
            }
        }
        i += 1;
    }
    assert(all.take(i - from) == all);
    text
}

} // verus!
