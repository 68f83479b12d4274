//! The three values looked up per process: protocol, resident memory and
//! start time. Each lookup stands alone and falls back to a default; none
//! can fail a discovery.

use vstd::prelude::*;
use crate::clock::{parse_start_time, parsed_start_time};
use crate::entry::{ProcessInfo, Protocol};
use crate::lsof::CommandOutcome;
use crate::number::{parse_unsigned, parsed_unsigned};
use crate::pattern::{contains, has_prefix, is_substring, starts_with};
use crate::text::{chars_of, lines_of, split_lines, trim, trimmed};

verus! {

/// Whether `line` mentions `pid` and begins with `prefix`.
pub open spec fn names_pid_as(line: Seq<char>, pid: Seq<char>, prefix: Seq<char>) -> bool {
    is_substring(pid, line) && has_prefix(line, prefix)
}

/// Whether line `i` mentions `pid` as a UDP socket and no line before it
/// mentions `pid` as a TCP socket.
pub open spec fn udp_first_at(lines: Seq<Seq<char>>, pid: Seq<char>, i: int) -> bool {
    &&& 0 <= i < lines.len()
    &&& names_pid_as(lines[i], pid, "udp"@)
    &&& forall|j: int| 0 <= j < i ==> !names_pid_as(#[trigger] lines[j], pid, "tcp"@)
}

/// The protocol that a socket-state listing gives for `pid`: that of the
/// first line that mentions `pid` and begins with `tcp` or `udp`; TCP
/// where no line does.
pub open spec fn protocol_in(lines: Seq<Seq<char>>, pid: Seq<char>) -> Protocol {
    if exists|i: int| udp_first_at(lines, pid, i) {
        Protocol::Udp
    } else {
        Protocol::Tcp
    }
}

/// The protocol of `pid` after one run of the socket-state utility.
pub open spec fn protocol_after(outcome: CommandOutcome, pid: Seq<char>) -> Protocol {
    match outcome {
        CommandOutcome::NotStarted { .. } => Protocol::Tcp,
        CommandOutcome::Finished { stdout, .. } => protocol_in(lines_of(stdout@), pid),
    }
}

/// The resident memory in kilobytes that the process-status utility
/// printed: the number between the white space, 0 where there is none.
pub open spec fn memory_in(printed: Seq<char>) -> nat {
    match parsed_unsigned(trimmed(printed), u64::MAX as nat) {
        Some(kb) => kb,
        None => 0,
    }
}

/// The resident memory after one run of the process-status utility.
pub open spec fn memory_after(outcome: CommandOutcome) -> nat {
    match outcome {
        CommandOutcome::NotStarted { .. } => 0,
        CommandOutcome::Finished { stdout, .. } => memory_in(stdout@),
    }
}

/// The start time after one run of the process-status utility.
pub open spec fn start_time_after(outcome: CommandOutcome) -> Option<nat> {
    match outcome {
        CommandOutcome::NotStarted { .. } => None,
        CommandOutcome::Finished { stdout, .. } => parsed_start_time(stdout@),
    }
}

/// Finds the protocol of `pid` in a socket-state listing.
fn find_protocol(listing: &str, pid: &str) -> (protocol: Protocol)
    ensures
        protocol == protocol_in(lines_of(listing@), pid@),
{
    let chars = chars_of(listing);
    let lines = split_lines(chars.as_slice());
    let needle = chars_of(pid);
    let tcp = chars_of("tcp");
    let udp = chars_of("udp");
    let ghost all = lines.deep_view();
    proof {
        reveal_strlit("tcp");
        reveal_strlit("udp");
        assert("tcp"@[0] != "udp"@[0]);
    }
    let mut i: usize = 0;
    while i < lines.len()
        invariant
            i <= lines.len(),
            all == lines.deep_view(),
            all == lines_of(listing@),
            needle@ == pid@,
            tcp@ == "tcp"@,
            udp@ == "udp"@,
            "tcp"@.len() == 3,
            "udp"@.len() == 3,
            "tcp"@[0] != "udp"@[0],
            forall|j: int|
                0 <= j < i ==> !names_pid_as(#[trigger] all[j], pid@, "tcp"@) && !names_pid_as(
                    all[j],
                    pid@,
                    "udp"@,
                ),
        decreases lines.len() - i,
    {
        let line = lines[i].as_slice();
        assert(all[i as int] =~= line@);
        if contains(line, needle.as_slice()) {
            if starts_with(line, tcp.as_slice()) {
                proof {
                    assert(names_pid_as(all[i as int], pid@, "tcp"@));
                    assert(line@.subrange(0, 3)[0] == "tcp"@[0]);
                    assert(!names_pid_as(all[i as int], pid@, "udp"@));
                    assert forall|k: int| !udp_first_at(all, pid@, k) by {
                        if udp_first_at(all, pid@, k) {
                            if k > i {
                                assert(!names_pid_as(all[i as int], pid@, "tcp"@));
                            }
                        }
                    }
                }
                return Protocol::Tcp;
            } else if starts_with(line, udp.as_slice()) {
                assert(udp_first_at(all, pid@, i as int));
                return Protocol::Udp;
            }
        }
        i += 1;
    }
    assert forall|k: int| !udp_first_at(all, pid@, k) by {
        if udp_first_at(all, pid@, k) {
            assert(!names_pid_as(all[k], pid@, "udp"@));
        }
    }
    Protocol::Tcp
}

/// The protocol of `pid`, from one run of the socket-state utility.
pub fn get_protocol_for_pid(pid: &str, outcome: &CommandOutcome) -> (protocol: Protocol)
    ensures
        protocol == protocol_after(*outcome, pid@),
{
    match outcome {
        CommandOutcome::NotStarted { .. } => Protocol::Tcp,
        CommandOutcome::Finished { stdout, .. } => find_protocol(stdout.as_str(), pid),
    }
}

/// The resident memory of a process in kilobytes, from one run of the
/// process-status utility.
pub fn get_memory_usage(outcome: &CommandOutcome) -> (kb: u64)
    ensures
        kb == memory_after(*outcome),
{
    match outcome {
        CommandOutcome::NotStarted { .. } => 0,
        CommandOutcome::Finished { stdout, .. } => {
            let chars = chars_of(stdout.as_str());
            match parse_unsigned(trim(chars.as_slice()), u64::MAX) {
                Some(kb) => kb,
                None => 0,
            }
        },
    }
}

/// The start time of a process in seconds since the epoch, from one run of
/// the process-status utility.
pub fn get_process_start_time(outcome: &CommandOutcome) -> (start: Option<u64>)
    ensures
        match start_time_after(*outcome) {
            Some(t) => start == Some(t as u64),
            None => start is None,
        },
{
    match outcome {
        CommandOutcome::NotStarted { .. } => None,
        CommandOutcome::Finished { stdout, .. } => parse_start_time(stdout.as_str()),
    }
}

/// The three looked-up values of `pid`, each from its own run: of the
/// socket-state utility, and of the process-status utility asked for the
/// resident memory and for the start time.
pub fn get_process_info(
    pid: &str,
    sockets: &CommandOutcome,
    memory: &CommandOutcome,
    started: &CommandOutcome,
) -> (info: ProcessInfo)
    ensures
        info.protocol == protocol_after(*sockets, pid@),
        info.memory_kb == memory_after(*memory),
        match start_time_after(*started) {
            Some(t) => info.start_time == Some(t as u64),
            None => info.start_time is None,
        },
{
    ProcessInfo {
        protocol: get_protocol_for_pid(pid, sockets),
        memory_kb: get_memory_usage(memory),
        start_time: get_process_start_time(started),
    }
}

} // verus!
