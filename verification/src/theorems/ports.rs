//! The port of the socket names that the discovery tool prints.

use vstd::prelude::*;
use crate::number::{all_digits, decimal_value, is_digit, parsed_unsigned};
use crate::pattern::{after_last, has_suffix, without_suffix};
use crate::port::{port_number, port_text};
use crate::text::{
    is_whitespace,
    lemma_leading_is,
    lemma_trailing_is,
    trimmed,
    CharClass,
};
use crate::theorems::words::lemma_after_last;

verus! {

/// Digits are no white space, no colon and no plus sign.
proof fn lemma_digit_is_plain(c: char)
    requires
        is_digit(c),
    ensures
        !is_whitespace(c),
        c != ':',
        c != '+',
        c != ')',
{
}

/// Trimming digits changes nothing, and so does trimming digits with one
/// space behind them but for the space.
proof fn lemma_trimmed_digits(digits: Seq<char>)
    requires
        digits.len() > 0,
        all_digits(digits),
    ensures
        trimmed(digits) == digits,
        trimmed(digits.push(' ')) == digits,
{
    lemma_digit_is_plain(digits[0]);
    lemma_digit_is_plain(digits.last());
    lemma_leading_is(digits, CharClass::Whitespace, 0);
    assert(digits.skip(0) =~= digits);
    lemma_trailing_is(digits, CharClass::Whitespace, 0);
    assert(digits.take(digits.len() as int) =~= digits);
    let spaced = digits.push(' ');
    assert(spaced[0] == digits[0]);
    lemma_leading_is(spaced, CharClass::Whitespace, 0);
    assert(spaced.skip(0) =~= spaced);
    assert(spaced[spaced.len() - 2] == digits.last());
    lemma_trailing_is(spaced, CharClass::Whitespace, 1);
    assert(spaced.take(spaced.len() - 1) =~= digits);
}

/// The port of a name that ends with a colon and digits is the digits,
/// whatever stands before the colon.
pub proof fn lemma_port_of_bare_name(address: Seq<char>, digits: Seq<char>)
    requires
        digits.len() > 0,
        all_digits(digits),
    ensures
        port_text(address + seq![':'] + digits) == digits,
        port_number(address + seq![':'] + digits) == (if decimal_value(digits) <= u32::MAX {
            decimal_value(digits)
        } else {
            0
        }),
{
    let name = address + seq![':'] + digits;
    let n = digits.len();
    assert forall|i: int| name.len() - n <= i < name.len() implies CharClass::Not(':').holds(
        #[trigger] name[i],
    ) by {
        assert(name[i] == digits[i - (name.len() - n)]);
        lemma_digit_is_plain(digits[i - (name.len() - n)]);
    }
    assert(name[name.len() - n - 1] == ':');
    lemma_trailing_is(name, CharClass::Not(':'), n);
    assert(after_last(name, ':') =~= digits);
    reveal_strlit("(LISTEN)");
    if has_suffix(digits, "(LISTEN)"@) {
        assert(digits.subrange(digits.len() - 8, digits.len() as int)[7] == ')');
        lemma_digit_is_plain(digits.last());
    }
    lemma_trimmed_digits(digits);
    lemma_digits_parse(digits);
}

/// The port of a name that ends with a colon, digits, a space and the
/// marker `(LISTEN)` is the digits, whatever stands before the colon.
pub proof fn lemma_port_of_listening_name(address: Seq<char>, digits: Seq<char>)
    requires
        digits.len() > 0,
        all_digits(digits),
    ensures
        port_text(address + seq![':'] + digits + " (LISTEN)"@) == digits,
        port_number(address + seq![':'] + digits + " (LISTEN)"@) == (if decimal_value(digits)
            <= u32::MAX {
            decimal_value(digits)
        } else {
            0
        }),
{
    reveal_strlit(" (LISTEN)");
    reveal_strlit("(LISTEN)");
    let marker = " (LISTEN)"@;
    let name = address + seq![':'] + digits + marker;
    let tail = digits + marker;
    let n = tail.len();
    assert forall|i: int| name.len() - n <= i < name.len() implies CharClass::Not(':').holds(
        #[trigger] name[i],
    ) by {
        let k = i - (name.len() - n);
        assert(name[i] == tail[k]);
        if k < digits.len() {
            lemma_digit_is_plain(digits[k]);
        } else {
            assert(tail[k] == marker[k - digits.len()]);
        }
    }
    assert(name[name.len() - n - 1] == ':');
    lemma_trailing_is(name, CharClass::Not(':'), n);
    assert(after_last(name, ':') =~= tail);
    assert(tail.subrange(tail.len() - 8, tail.len() as int) =~= "(LISTEN)"@);
    assert(has_suffix(tail, "(LISTEN)"@));
    assert(without_suffix(tail, "(LISTEN)"@) =~= digits.push(' '));
    lemma_trimmed_digits(digits);
    lemma_digits_parse(digits);
}

/// Digits are read as the number they write, if it is not too large.
proof fn lemma_digits_parse(digits: Seq<char>)
    requires
        digits.len() > 0,
        all_digits(digits),
    ensures
        parsed_unsigned(digits, u32::MAX as nat) == (if decimal_value(digits) <= u32::MAX {
            Some(decimal_value(digits))
        } else {
            None
        }),
{
    lemma_digit_is_plain(digits[0]);
}

/// The port of a name without a colon is the name, without the marker
/// `(LISTEN)` at its end and the white space around it.
pub proof fn lemma_port_of_name_without_colon(name: Seq<char>)
    requires
        !name.contains(':'),
    ensures
        port_text(name) == trimmed(without_suffix(name, "(LISTEN)"@)),
{
    lemma_after_last(name, ':');
}

} // verus!
