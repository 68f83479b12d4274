//! What the system utilities print, turned into rows and results. The
//! utilities themselves are run elsewhere; this module takes what they
//! returned.

use vstd::prelude::*;
use vstd::string::StringExecFns;
use crate::entry::{EntryView, LsofEntry, Protocol};
use crate::text::{
    chars_of,
    fields_of,
    join_from,
    joined,
    lines_of,
    split_lines,
    split_whitespace,
};

verus! {

/// How one run of a system utility ended.
#[derive(Debug)]
pub enum CommandOutcome {
    /// The utility could not be started; `reason` says why.
    NotStarted { reason: String },
    /// The utility ran and exited; `success` is true for exit status 0.
    Finished { success: bool, stdout: String, stderr: String },
}

/// Why a discovery gave no snapshot.
#[derive(Debug)]
pub enum DiscoveryError {
    /// The discovery tool could not be started.
    NotStarted { reason: String },
    /// The discovery tool exited with a failure; `stderr` is what it wrote
    /// to its standard error, unchanged.
    Failed { stderr: String },
}

/// Why a signal was not delivered.
#[derive(Debug)]
pub enum KillError {
    /// The signal utility could not be started.
    NotStarted { reason: String },
    /// The graceful signal was refused.
    Terminate { pid: String, stderr: String },
    /// The unconditional signal was refused.
    ForceTerminate { pid: String, stderr: String },
}

impl DiscoveryError {
    /// The error as a sentence.
    pub open spec fn message_text(self) -> Seq<char> {
        match self {
            DiscoveryError::NotStarted { reason } => reason@,
            DiscoveryError::Failed { stderr } => "lsof command failed: "@ + stderr@,
        }
    }

    /// The error as a sentence.
    pub fn message(&self) -> (text: String)
        ensures
            text@ == self.message_text(),
    {
        match self {
            DiscoveryError::NotStarted { reason } => reason.clone(),
            DiscoveryError::Failed { stderr } => {
                String::from_str("lsof command failed: ").concat(stderr.as_str())
            },
        }
    }
}

impl KillError {
    /// The error as a sentence.
    pub open spec fn message_text(self) -> Seq<char> {
        match self {
            KillError::NotStarted { reason } => reason@,
            KillError::Terminate { pid, stderr } => "Failed to kill process "@ + pid@ + ": "@
                + stderr@,
            KillError::ForceTerminate { pid, stderr } => "Failed to force kill process "@ + pid@
                + ": "@ + stderr@,
        }
    }

    /// The error as a sentence.
    pub fn message(&self) -> (text: String)
        ensures
            text@ == self.message_text(),
    {
        match self {
            KillError::NotStarted { reason } => reason.clone(),
            KillError::Terminate { pid, stderr } => {
                String::from_str("Failed to kill process ").concat(pid.as_str()).concat(
                    ": ",
                ).concat(stderr.as_str())
            },
            KillError::ForceTerminate { pid, stderr } => {
                String::from_str("Failed to force kill process ").concat(pid.as_str()).concat(
                    ": ",
                ).concat(stderr.as_str())
            },
        }
    }
}

/// The least number of fields that make a row.
pub const MIN_FIELDS: usize = 9;

/// The row that the fields of one line give: the first eight fields are
/// the first eight columns, the rest joined with single spaces is the name.
/// The looked-up values start at their defaults.
pub open spec fn entry_of_fields(fields: Seq<Seq<char>>) -> EntryView
    recommends
        fields.len() >= MIN_FIELDS,
{
    EntryView {
        command: fields[0],
        pid: fields[1],
        user: fields[2],
        fd: fields[3],
        type_: fields[4],
        device: fields[5],
        size_off: fields[6],
        node: fields[7],
        name: joined(fields.skip(8), " "@),
        protocol: Protocol::Tcp,
        memory_kb: 0,
        start_time: None,
    }
}

/// Whether a line of the listing gives a row: it does with nine fields or
/// more.
pub open spec fn is_entry_line() -> spec_fn(Seq<char>) -> bool {
    |line: Seq<char>| fields_of(line).len() >= MIN_FIELDS
}

/// The row of a line.
pub open spec fn entry_of_line() -> spec_fn(Seq<char>) -> EntryView {
    |line: Seq<char>| entry_of_fields(fields_of(line))
}

/// `lines` without the first one.
pub open spec fn without_header(lines: Seq<Seq<char>>) -> Seq<Seq<char>> {
    if lines.len() == 0 {
        lines
    } else {
        lines.skip(1)
    }
}

/// The rows of some lines: each line with nine fields or more gives one,
/// in order, and each with fewer gives none.
pub open spec fn rows_of_lines(lines: Seq<Seq<char>>) -> Seq<EntryView> {
    lines.filter(is_entry_line()).map_values(entry_of_line())
}

/// The rows of a listing: the first line is a header and gives none, the
/// other lines give theirs.
pub open spec fn listing_entries(listing: Seq<char>) -> Seq<EntryView> {
    rows_of_lines(without_header(lines_of(listing)))
}

/// Builds the row of a line's fields.
fn make_entry(fields: &Vec<String>) -> (entry: LsofEntry)
    requires
        fields.len() >= MIN_FIELDS,
    ensures
        entry@ == entry_of_fields(fields.deep_view()),
{
    let name = join_from(fields, 8, " ");
    LsofEntry {
        command: fields[0].clone(),
        pid: fields[1].clone(),
        user: fields[2].clone(),
        fd: fields[3].clone(),
        type_: fields[4].clone(),
        device: fields[5].clone(),
        size_off: fields[6].clone(),
        node: fields[7].clone(),
        name,
        protocol: Protocol::Tcp,
        memory_kb: 0,
        start_time: None,
    }
}

/// Reads the rows out of a listing.
pub fn parse_listing(listing: &str) -> (entries: Vec<LsofEntry>)
    ensures
        entries.deep_view() == listing_entries(listing@),
{
    let chars = chars_of(listing);
    let lines = split_lines(chars.as_slice());
    let ghost body = without_header(lines.deep_view());
    let mut entries: Vec<LsofEntry> = Vec::new();
    let mut i: usize = 1;
    if lines.len() == 0 {
        proof {
            body.lemma_filter_len(is_entry_line());
            assert(body.filter(is_entry_line()).len() == 0);
            assert(entries.deep_view() =~= listing_entries(listing@));
        }
        return entries;
    }
    assert(body.take(0) =~= Seq::<Seq<char>>::empty());
    proof {
        body.take(0).lemma_filter_len(is_entry_line());
        assert(body.take(0).filter(is_entry_line()).len() == 0);
        assert(entries.deep_view() =~= body.take(0).filter(is_entry_line()).map_values(
            entry_of_line(),
        ));
    }
    while i < lines.len()
        invariant
            1 <= i <= lines.len(),
            body == lines.deep_view().skip(1),
            entries.deep_view() == body.take(i - 1).filter(is_entry_line()).map_values(
                entry_of_line(),
            ),
        decreases lines.len() - i,
    {
        let fields = split_whitespace(lines[i].as_slice());
        let ghost line = lines[i as int]@;
        let ghost before = entries.deep_view();
        proof {
            assert(lines.deep_view()[i as int] =~= line);
            assert(body[i - 1] == line);
            assert(body.take(i as int) =~= body.take(i - 1).push(line));
            Seq::<Seq<char>>::lemma_filter_push(body.take(i - 1), line, is_entry_line());
        }
        if fields.len() >= MIN_FIELDS {
            let entry = make_entry(&fields);
            entries.push(entry);
            proof {
                let kept = body.take(i - 1).filter(is_entry_line());
                assert(kept.push(line).map_values(entry_of_line()) =~= kept.map_values(
                    entry_of_line(),
                ).push(entry_of_line()(line)));
                assert(entries.deep_view() =~= before.push(entry@));
            }
        }
        i += 1;
    }
    assert(body.take(i - 1) =~= body);
    entries
}

/// The snapshot that one run of the discovery tool gives. A run that
/// exited with a failure gives an error that carries what the tool wrote
/// to its standard error; a run that succeeded gives the rows of its
/// listing, whatever the lines look like.
pub fn get_listening_processes(outcome: &CommandOutcome) -> (result: Result<
    Vec<LsofEntry>,
    DiscoveryError,
>)
    ensures
        match *outcome {
            CommandOutcome::NotStarted { reason } => result matches Err(
                DiscoveryError::NotStarted { reason: r },
            ) && r@ == reason@,
            CommandOutcome::Finished { success, stdout, stderr } => if success {
                result matches Ok(entries) && entries.deep_view() == listing_entries(stdout@)
            } else {
                result matches Err(DiscoveryError::Failed { stderr: e }) && e@ == stderr@
            },
        },
{
    match outcome {
        CommandOutcome::NotStarted { reason } => Err(
            DiscoveryError::NotStarted { reason: reason.clone() },
        ),
        CommandOutcome::Finished { success, stdout, stderr } => {
            if *success {
                Ok(parse_listing(stdout.as_str()))
            } else {
                Err(DiscoveryError::Failed { stderr: stderr.clone() })
            }
        },
    }
}

/// The result of the graceful signal to `pid`, from the run of the signal
/// utility.
pub fn kill_process(pid: &str, outcome: &CommandOutcome) -> (result: Result<(), KillError>)
    ensures
        match *outcome {
            CommandOutcome::NotStarted { reason } => result matches Err(
                KillError::NotStarted { reason: r },
            ) && r@ == reason@,
            CommandOutcome::Finished { success, stdout, stderr } => if success {
                result is Ok
            } else {
                result matches Err(KillError::Terminate { pid: p, stderr: e }) && p@ == pid@ && e@
                    == stderr@
            },
        },
{
    match outcome {
        CommandOutcome::NotStarted { reason } => Err(
            KillError::NotStarted { reason: reason.clone() },
        ),
        CommandOutcome::Finished { success, stdout, stderr } => {
            if *success {
                Ok(())
            } else {
                Err(KillError::Terminate { pid: String::from_str(pid), stderr: stderr.clone() })
            }
        },
    }
}

/// The result of the unconditional signal to `pid`, from the run of the
/// signal utility.
pub fn force_kill_process(pid: &str, outcome: &CommandOutcome) -> (result: Result<(), KillError>)
    ensures
        match *outcome {
            CommandOutcome::NotStarted { reason } => result matches Err(
                KillError::NotStarted { reason: r },
            ) && r@ == reason@,
            CommandOutcome::Finished { success, stdout, stderr } => if success {
                result is Ok
            } else {
                result matches Err(KillError::ForceTerminate { pid: p, stderr: e }) && p@ == pid@
                    && e@ == stderr@
            },
        },
{
    match outcome {
        CommandOutcome::NotStarted { reason } => Err(
            KillError::NotStarted { reason: reason.clone() },
        ),
        CommandOutcome::Finished { success, stdout, stderr } => {
            if *success {
                Ok(())
            } else {
                Err(
                    KillError::ForceTerminate {
                        pid: String::from_str(pid),
                        stderr: stderr.clone(),
                    },
                )
            }
        },
    }
}

} // verus!
