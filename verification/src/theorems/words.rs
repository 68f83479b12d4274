//! What holds of the pieces that a text is cut into.

use vstd::prelude::*;
use crate::pattern::after_last;
use crate::port::port_text;
use crate::text::{
    fields_of,
    is_whitespace,
    leading,
    lemma_leading_bounds,
    lemma_trailing_bounds,
    trailing,
    trimmed,
    CharClass,
};

verus! {

/// Every field holds a character, and none that is white space.
pub proof fn lemma_fields_hold_no_space(s: Seq<char>)
    ensures
        forall|i: int|
            0 <= i < fields_of(s).len() ==> (#[trigger] fields_of(s)[i]).len() > 0,
        forall|i: int, j: int|
            0 <= i < fields_of(s).len() && 0 <= j < fields_of(s)[i].len() ==> !is_whitespace(
                #[trigger] fields_of(s)[i][j],
            ),
    decreases s.len(),
{
    let t = s.skip(leading(s, CharClass::Whitespace) as int);
    let n = leading(t, CharClass::NotWhitespace);
    if n > 0 {
        lemma_leading_bounds(s, CharClass::Whitespace);
        lemma_leading_bounds(t, CharClass::NotWhitespace);
        let first = t.take(n as int);
        let rest = fields_of(t.skip(n as int));
        lemma_fields_hold_no_space(t.skip(n as int));
        assert(fields_of(s) == seq![first] + rest);
        assert forall|j: int| 0 <= j < first.len() implies !is_whitespace(#[trigger] first[j]) by {
            assert(first[j] == t[j]);
            assert(CharClass::NotWhitespace.holds(t[j]));
        }
        assert forall|i: int| 0 <= i < fields_of(s).len() implies (#[trigger] fields_of(
            s,
        )[i]).len() > 0 by {
            if i > 0 {
                assert(fields_of(s)[i] == rest[i - 1]);
            }
        }
        assert forall|i: int, j: int|
            0 <= i < fields_of(s).len() && 0 <= j < fields_of(s)[i].len() implies !is_whitespace(
            #[trigger] fields_of(s)[i][j],
        ) by {
            if i > 0 {
                assert(fields_of(s)[i] == rest[i - 1]);
            }
        }
    }
}

/// A trimmed text neither begins nor ends with white space, and the text
/// it was trimmed from is white space, then it, then white space.
pub proof fn lemma_trimmed(s: Seq<char>)
    ensures
        trimmed(s).len() > 0 ==> !is_whitespace(trimmed(s)[0]) && !is_whitespace(trimmed(s).last()),
        ({
            let a = leading(s, CharClass::Whitespace) as int;
            &&& a + trimmed(s).len() <= s.len()
            &&& s.subrange(a, a + trimmed(s).len()) == trimmed(s)
            &&& forall|i: int| 0 <= i < a ==> is_whitespace(#[trigger] s[i])
            &&& forall|i: int| a + trimmed(s).len() <= i < s.len() ==> is_whitespace(#[trigger] s[i])
        }),
{
    let a = leading(s, CharClass::Whitespace) as int;
    lemma_leading_bounds(s, CharClass::Whitespace);
    let t = s.skip(a);
    let b = trailing(t, CharClass::Whitespace) as int;
    lemma_trailing_bounds(t, CharClass::Whitespace);
    let r = trimmed(s);
    assert(r == t.take(t.len() - b));
    assert(s.subrange(a, a + r.len()) =~= r);
    assert forall|i: int| 0 <= i < a implies is_whitespace(#[trigger] s[i]) by {
        assert(CharClass::Whitespace.holds(s[i]));
    }
    assert forall|i: int| a + r.len() <= i < s.len() implies is_whitespace(#[trigger] s[i]) by {
        assert(s[i] == t[i - a]);
        assert(CharClass::Whitespace.holds(t[i - a]));
    }
    if r.len() > 0 {
        assert(r[0] == t[0]);
        assert(t[0] == s[a]);
        assert(!CharClass::Whitespace.holds(s[a]));
        assert(r.last() == t[t.len() - b - 1]);
        assert(!CharClass::Whitespace.holds(t[t.len() - b - 1]));
    }
}

/// What follows the last `c` holds no `c`, and `c` stands right before it
/// where the text holds one.
pub proof fn lemma_after_last(s: Seq<char>, c: char)
    ensures
        !after_last(s, c).contains(c),
        after_last(s, c).len() <= s.len(),
        s.contains(c) ==> after_last(s, c).len() < s.len() && s[s.len() - after_last(s, c).len()
            - 1] == c,
        !s.contains(c) ==> after_last(s, c) == s,
{
    let n = trailing(s, CharClass::Not(c)) as int;
    lemma_trailing_bounds(s, CharClass::Not(c));
    let tail = after_last(s, c);
    assert(tail == s.skip(s.len() - n));
    if tail.contains(c) {
        let i = choose|i: int| 0 <= i < tail.len() && tail[i] == c;
        assert(tail[i] == s[s.len() - n + i]);
        assert(CharClass::Not(c).holds(s[s.len() - n + i]));
    }
    if s.contains(c) {
        let i = choose|i: int| 0 <= i < s.len() && s[i] == c;
        if n == s.len() {
            assert(CharClass::Not(c).holds(s[i]));
        }
        assert(!CharClass::Not(c).holds(s[s.len() - n - 1]));
    } else {
        if n < s.len() {
            assert(!CharClass::Not(c).holds(s[s.len() - n - 1]));
            assert(s.contains(s[s.len() - n - 1]));
        }
        assert(s.skip(0) =~= s);
    }
}

/// The port of a socket name holds no colon and no white space at its
/// ends.
pub proof fn lemma_port_text_is_bare(name: Seq<char>)
    ensures
        port_text(name).len() > 0 ==> !is_whitespace(port_text(name)[0]) && !is_whitespace(
            port_text(name).last(),
        ),
        !port_text(name).contains(':'),
{
    let tail = after_last(name, ':');
    let bare = crate::pattern::without_suffix(tail, "(LISTEN)"@);
    lemma_after_last(name, ':');
    lemma_trimmed(bare);
    let port = port_text(name);
    let a = leading(bare, CharClass::Whitespace) as int;
    if port.contains(':') {
        let i = choose|i: int| 0 <= i < port.len() && port[i] == ':';
        assert(port[i] == bare.subrange(a, a + port.len())[i]);
        assert(bare[a + i] == ':');
        assert(bare[a + i] == tail[a + i]);
        assert(tail.contains(tail[a + i]));
    }
}

} // verus!
