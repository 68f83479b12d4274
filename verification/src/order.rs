//! The six sort keys and the order each gives to the rows.

use vstd::prelude::*;
use crate::entry::{EntryView, LsofEntry};
use crate::number::{parse_unsigned, parsed_unsigned};
use crate::pattern::{
    is_lex_less,
    lemma_lex_irreflexive,
    lemma_lex_total,
    lemma_lex_transitive,
    lex_less,
};
use crate::port::{extract_port, port_number};
use crate::text::chars_of;

verus! {

/// What the visible rows are ordered by.
#[derive(Clone, Copy, Debug, PartialEq, Eq, Structural)]
pub enum SortBy {
    Port,
    Pid,
    User,
    Command,
    Memory,
    StartTime,
}

impl SortBy {
    /// The key that follows this one in the cycle Port, Pid, User,
    /// Command, Memory, StartTime and Port again.
    pub open spec fn successor(self) -> SortBy {
        match self {
            SortBy::Port => SortBy::Pid,
            SortBy::Pid => SortBy::User,
            SortBy::User => SortBy::Command,
            SortBy::Command => SortBy::Memory,
            SortBy::Memory => SortBy::StartTime,
            SortBy::StartTime => SortBy::Port,
        }
    }

    /// The key that follows this one in the cycle.
    pub fn next(self) -> (key: SortBy)
        ensures
            key == self.successor(),
    {
        match self {
            SortBy::Port => SortBy::Pid,
            SortBy::Pid => SortBy::User,
            SortBy::User => SortBy::Command,
            SortBy::Command => SortBy::Memory,
            SortBy::Memory => SortBy::StartTime,
            SortBy::StartTime => SortBy::Port,
        }
    }
}

/// The process id as a number: the number that the text writes, or 0 where
/// it writes none that fits 32 bits.
pub open spec fn pid_number(pid: Seq<char>) -> nat {
    match parsed_unsigned(pid, u32::MAX as nat) {
        Some(n) => n,
        None => 0,
    }
}

/// Whether `a` ranks strictly before `b` under `key`.
///
/// Port and Pid rank by number, User and Command by the order of a
/// dictionary, Memory by size. StartTime ranks a known start before an
/// unknown one and two known ones by time.
pub open spec fn ranks_before(key: SortBy, a: EntryView, b: EntryView) -> bool {
    match key {
        SortBy::Port => port_number(a.name) < port_number(b.name),
        SortBy::Pid => pid_number(a.pid) < pid_number(b.pid),
        SortBy::User => lex_less(a.user, b.user),
        SortBy::Command => lex_less(a.command, b.command),
        SortBy::Memory => a.memory_kb < b.memory_kb,
        SortBy::StartTime => match (a.start_time, b.start_time) {
            (Some(x), Some(y)) => x < y,
            (Some(_), None) => true,
            (None, _) => false,
        },
    }
}

/// Whether `a` must stand before `b` in the visible rows: ascending, where
/// it ranks before `b`; descending, where `b` ranks before it.
pub open spec fn comes_before(key: SortBy, ascending: bool, a: EntryView, b: EntryView) -> bool {
    if ascending {
        ranks_before(key, a, b)
    } else {
        ranks_before(key, b, a)
    }
}

/// Whether neither of `a` and `b` ranks before the other under `key`.
pub open spec fn ties(key: SortBy, a: EntryView, b: EntryView) -> bool {
    !ranks_before(key, a, b) && !ranks_before(key, b, a)
}

/// The number a process id is ordered by.
pub fn parse_pid(pid: &str) -> (n: u32)
    ensures
        n == pid_number(pid@),
{
    let chars = chars_of(pid);
    match parse_unsigned(chars.as_slice(), 0xFFFF_FFFF) {
        Some(n) => n as u32,
        None => 0,
    }
}

/// Tests whether `a` ranks strictly before `b` under `key`.
pub fn is_ranked_before(key: SortBy, a: &LsofEntry, b: &LsofEntry) -> (r: bool)
    ensures
        r == ranks_before(key, a@, b@),
{
    match key {
        SortBy::Port => extract_port(a.name.as_str()) < extract_port(b.name.as_str()),
        SortBy::Pid => parse_pid(a.pid.as_str()) < parse_pid(b.pid.as_str()),
        SortBy::User => {
            let x = chars_of(a.user.as_str());
            let y = chars_of(b.user.as_str());
            is_lex_less(x.as_slice(), y.as_slice())
        },
        SortBy::Command => {
            let x = chars_of(a.command.as_str());
            let y = chars_of(b.command.as_str());
            is_lex_less(x.as_slice(), y.as_slice())
        },
        SortBy::Memory => a.memory_kb < b.memory_kb,
        SortBy::StartTime => match (a.start_time, b.start_time) {
            (Some(x), Some(y)) => x < y,
            (Some(_), None) => true,
            (None, _) => false,
        },
    }
}

/// Tests whether `a` must stand before `b` in the visible rows.
pub fn is_before(key: SortBy, ascending: bool, a: &LsofEntry, b: &LsofEntry) -> (r: bool)
    ensures
        r == comes_before(key, ascending, a@, b@),
{
    if ascending {
        is_ranked_before(key, a, b)
    } else {
        is_ranked_before(key, b, a)
    }
}

/// Every key gives a strict weak order: no row ranks before itself,
/// ranking before is transitive, and so is tying.
pub proof fn lemma_rank_is_strict_weak_order(key: SortBy, a: EntryView, b: EntryView, c: EntryView)
    ensures
        !ranks_before(key, a, a),
        !(ranks_before(key, a, b) && ranks_before(key, b, a)),
        ranks_before(key, a, b) && ranks_before(key, b, c) ==> ranks_before(key, a, c),
        ties(key, a, b) && ties(key, b, c) ==> ties(key, a, c),
        ranks_before(key, a, b) && ties(key, b, c) ==> ranks_before(key, a, c),
        ties(key, a, b) && ranks_before(key, b, c) ==> ranks_before(key, a, c),
{
    match key {
        SortBy::User => {
            lemma_text_order(a.user, b.user, c.user);
        },
        SortBy::Command => {
            lemma_text_order(a.command, b.command, c.command);
        },
        _ => {},
    }
}

/// The order of a dictionary is a strict total order on texts.
proof fn lemma_text_order(a: Seq<char>, b: Seq<char>, c: Seq<char>)
    ensures
        !lex_less(a, a),
        !(lex_less(a, b) && lex_less(b, a)),
        lex_less(a, b) && lex_less(b, c) ==> lex_less(a, c),
        !lex_less(a, b) && !lex_less(b, a) ==> a == b,
        !lex_less(b, c) && !lex_less(c, b) ==> b == c,
{
    lemma_lex_irreflexive(a);
    lemma_lex_total(a, b);
    lemma_lex_total(b, c);
    if lex_less(a, b) && lex_less(b, c) {
        lemma_lex_transitive(a, b, c);
    }
}

/// The same, for the order of the visible rows in either direction.
pub proof fn lemma_order_is_strict_weak(
    key: SortBy,
    ascending: bool,
    a: EntryView,
    b: EntryView,
    c: EntryView,
)
    ensures
        !comes_before(key, ascending, a, a),
        !(comes_before(key, ascending, a, b) && comes_before(key, ascending, b, a)),
        comes_before(key, ascending, a, b) && comes_before(key, ascending, b, c) ==> comes_before(
            key,
            ascending,
            a,
            c,
        ),
        comes_before(key, ascending, a, b) && !comes_before(key, ascending, c, b) ==> comes_before(
            key,
            ascending,
            a,
            c,
        ),
        !comes_before(key, ascending, b, a) && comes_before(key, ascending, b, c) ==> comes_before(
            key,
            ascending,
            a,
            c,
        ),
{
    lemma_rank_is_strict_weak_order(key, a, b, c);
    lemma_rank_is_strict_weak_order(key, c, b, a);
}

} // verus!
