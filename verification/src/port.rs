//! The port of a listening socket, derived from the name the discovery tool
//! prints for it.

use vstd::prelude::*;
use crate::number::{parse_unsigned, parsed_unsigned};
use crate::pattern::{after_last, split_after_last, strip_suffix, without_suffix};
use crate::text::{chars_of, string_of, trim, trimmed};

verus! {

/// The port as text: what follows the last colon of `name` (all of `name`
/// where it has no colon), without the marker `(LISTEN)` at its end and
/// without the white space around it.
pub open spec fn port_text(name: Seq<char>) -> Seq<char> {
    trimmed(without_suffix(after_last(name, ':'), "(LISTEN)"@))
}

/// The port as a number: the number that the port text writes, or 0 where
/// it writes none that fits 32 bits.
pub open spec fn port_number(name: Seq<char>) -> nat {
    match parsed_unsigned(port_text(name), u32::MAX as nat) {
        Some(port) => port,
        None => 0,
    }
}

/// The port text of a socket name, as characters.
fn port_chars(name: &str) -> (port: Vec<char>)
    ensures
        port@ == port_text(name@),
{
    let chars = chars_of(name);
    let marker = chars_of("(LISTEN)");
    let tail = split_after_last(chars.as_slice(), ':');
    let bare = strip_suffix(tail, marker.as_slice());
    vstd::slice::slice_to_vec(trim(bare))
}

/// The port of a socket name, for display.
pub fn port_label(name: &str) -> (port: String)
    ensures
        port@ == port_text(name@),
{
    let chars = port_chars(name);
    string_of(chars.as_slice())
}

/// The port of a socket name, for ordering; 0 where the name gives none.
pub fn extract_port(name: &str) -> (port: u32)
    ensures
        port == port_number(name@),
{
    let chars = port_chars(name);
    match parse_unsigned(chars.as_slice(), 0xFFFF_FFFF) {
        Some(port) => port as u32,
        None => 0,
    }
}

} // verus!
