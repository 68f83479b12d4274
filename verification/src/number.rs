//! Unsigned decimal numbers as text: reading them and writing them.

use vstd::prelude::*;
use vstd::slice::slice_subrange;

verus! {

/// Whether `c` is one of the ten decimal digits.
pub open spec fn is_digit(c: char) -> bool {
    '0' <= c <= '9'
}

/// The value of a decimal digit; 0 for every other character.
pub open spec fn digit_value(c: char) -> nat {
    if is_digit(c) {
        (c as int - '0' as int) as nat
    } else {
        0
    }
}

/// Whether `s` holds decimal digits only.
pub open spec fn all_digits(s: Seq<char>) -> bool {
    forall|i: int| 0 <= i < s.len() ==> is_digit(#[trigger] s[i])
}

/// The number that the digits of `s` write in base ten; 0 for no digits.
pub open spec fn decimal_value(s: Seq<char>) -> nat
    decreases s.len(),
{
    if s.len() == 0 {
        0
    } else {
        10 * decimal_value(s.drop_last()) + digit_value(s.last())
    }
}

/// `s` without one plus sign at its start.
pub open spec fn without_plus(s: Seq<char>) -> Seq<char> {
    if s.len() > 0 && s[0] == '+' {
        s.skip(1)
    } else {
        s
    }
}

/// The unsigned number that `s` writes, if it writes one that is at most
/// `max`: an optional plus sign, then one decimal digit or more, and
/// nothing else.
pub open spec fn parsed_unsigned(s: Seq<char>, max: nat) -> Option<nat> {
    let d = without_plus(s);
    if d.len() > 0 && all_digits(d) && decimal_value(d) <= max {
        Some(decimal_value(d))
    } else {
        None
    }
}

/// A number written with more digits is no smaller than the number its
/// first digits write.
pub proof fn lemma_decimal_value_grows(s: Seq<char>, n: int)
    requires
        0 <= n <= s.len(),
    ensures
        decimal_value(s.take(n)) <= decimal_value(s),
    decreases s.len() - n,
{
    if n < s.len() {
        lemma_decimal_value_grows(s, n + 1);
        assert(s.take(n + 1).drop_last() == s.take(n));
    } else {
        assert(s.take(n) == s);
    }
}

/// Reads an unsigned decimal number that is at most `max`.
pub fn parse_unsigned(s: &[char], max: u64) -> (r: Option<u64>)
    ensures
        match parsed_unsigned(s@, max as nat) {
            Some(v) => r == Some(v as u64),
            None => r is None,
        },
{
    let start: usize = if s.len() > 0 && s[0] == '+' {
        1
    } else {
        0
    };
    let d = slice_subrange(s, start, s.len());
    assert(d@ == without_plus(s@));
    if d.len() == 0 {
        return None;
    }
    let mut acc: u64 = 0;
    let mut i: usize = 0;
    while i < d.len()
        invariant
            i <= d.len(),
            d.len() > 0,
            d@ == without_plus(s@),
            forall|j: int| 0 <= j < i ==> is_digit(#[trigger] d@[j]),
            acc == decimal_value(d@.take(i as int)),
            acc <= max,
        decreases d.len() - i,
    {
        let c: char = d[i];
        if c < '0' || c > '9' {
            assert(!is_digit(d@[i as int]));
            return None;
        }
        let digit: u64 = (c as u32 - 48) as u64;
        proof {
            assert(d@.take(i + 1).drop_last() == d@.take(i as int));
            assert(d@.take(i + 1).last() == c);
            assert(decimal_value(d@.take(i + 1)) == 10 * acc + digit);
            lemma_decimal_value_grows(d@, i + 1);
        }
        if digit > max || acc > (max - digit) / 10 {
            assert(decimal_value(d@) > max);
            return None;
        }
        acc = acc * 10 + digit;
        i += 1;
    }
    assert(d@.take(i as int) == d@);
    Some(acc)
}

/// The character that writes the digit `d`.
pub open spec fn digit_char(d: nat) -> char {
    if d == 0 {
        '0'
    } else if d == 1 {
        '1'
    } else if d == 2 {
        '2'
    } else if d == 3 {
        '3'
    } else if d == 4 {
        '4'
    } else if d == 5 {
        '5'
    } else if d == 6 {
        '6'
    } else if d == 7 {
        '7'
    } else if d == 8 {
        '8'
    } else {
        '9'
    }
}

/// The digits that write `n` in base ten, without leading zeros; one zero
/// for 0.
pub open spec fn decimal_digits(n: nat) -> Seq<char>
    decreases n,
{
    if n < 10 {
        seq![digit_char(n)]
    } else {
        decimal_digits(n / 10).push(digit_char(n % 10))
    }
}

/// The character of a digit below ten.
pub fn to_digit_char(d: u64) -> (c: char)
    requires
        d < 10,
    ensures
        c == digit_char(d as nat),
{
    if d == 0 {
        '0'
    } else if d == 1 {
        '1'
    } else if d == 2 {
        '2'
    } else if d == 3 {
        '3'
    } else if d == 4 {
        '4'
    } else if d == 5 {
        '5'
    } else if d == 6 {
        '6'
    } else if d == 7 {
        '7'
    } else if d == 8 {
        '8'
    } else {
        '9'
    }
}

/// Appends the decimal digits of `n` to `out`.
pub fn push_decimal(out: &mut String, n: u64)
    ensures
        final(out)@ == old(out)@ + decimal_digits(n as nat),
    decreases n,
{
    if n >= 10 {
        push_decimal(out, n / 10);
    }
    out.push(to_digit_char(n % 10));
    proof {
        if n < 10 {
            assert(old(out)@.push(digit_char(n as nat)) == old(out)@ + decimal_digits(n as nat));
        } else {
            assert((old(out)@ + decimal_digits((n / 10) as nat)).push(digit_char((n % 10) as nat))
                == old(out)@ + decimal_digits(n as nat));
        }
    }
}

/// `n` written in base ten.
pub fn decimal(n: u64) -> (text: String)
    ensures
        text@ == decimal_digits(n as nat),
{
    let mut text = String::new();
    push_decimal(&mut text, n);
    assert(Seq::<char>::empty() + decimal_digits(n as nat) == decimal_digits(n as nat));
    text
}

/// What is written can be read again: the digits of `n` write `n`.
pub proof fn lemma_decimal_round_trip(n: nat, max: nat)
    requires
        n <= max,
    ensures
        parsed_unsigned(decimal_digits(n), max) == Some(n),
{
    lemma_digits_value(n);
}

/// The digits of `n` are digits, at least one, the first no plus sign, and
/// their value is `n`.
pub proof fn lemma_digits_value(n: nat)
    ensures
        decimal_digits(n).len() > 0,
        all_digits(decimal_digits(n)),
        decimal_value(decimal_digits(n)) == n,
        without_plus(decimal_digits(n)) == decimal_digits(n),
    decreases n,
{
    let s = decimal_digits(n);
    if n < 10 {
        assert(decimal_value(s.drop_last()) == 0);
        assert(s.last() == digit_char(n));
        assert(is_digit(digit_char(n)));
        assert(digit_value(digit_char(n)) == n);
    } else {
        lemma_digits_value(n / 10);
        let init = decimal_digits(n / 10);
        assert(s.drop_last() == init);
        assert(s.last() == digit_char(n % 10));
        assert(is_digit(digit_char(n % 10)));
        assert(digit_value(digit_char(n % 10)) == n % 10);
        assert(s[0] == init[0]);
        assert forall|i: int| 0 <= i < s.len() implies is_digit(#[trigger] s[i]) by {
            if i < init.len() {
                assert(s[i] == init[i]);
            }
        }
    }
}

} // verus!
