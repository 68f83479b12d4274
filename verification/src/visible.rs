//! The visible rows: the snapshot filtered by the search text and put in
//! the order of the sort key.

use vstd::prelude::*;
use crate::entry::{EntryView, LsofEntry};
use crate::order::SortBy;
use crate::pattern::{contains, is_substring, lowercase_of};
use crate::sorting::{insert_sorted, sorted_entries};
use crate::text::chars_of;

verus! {

/// Whether `lowered` stands in the command, the user or the name, or
/// `query` in the process id.
pub open spec fn found_in(
    command: Seq<char>,
    user: Seq<char>,
    name: Seq<char>,
    pid: Seq<char>,
    lowered: Seq<char>,
    query: Seq<char>,
) -> bool {
    ||| is_substring(lowered, command)
    ||| is_substring(lowered, user)
    ||| is_substring(lowered, name)
    ||| is_substring(query, pid)
}

/// Whether a row matches a search text: the text in lower case stands in
/// the command, the user or the name, each in lower case, or the text as
/// it was typed stands in the process id as it is.
pub open spec fn entry_matches(entry: EntryView, query: Seq<char>) -> bool {
    found_in(
        lowercase_of(entry.command),
        lowercase_of(entry.user),
        lowercase_of(entry.name),
        entry.pid,
        lowercase_of(query),
        query,
    )
}

/// The rows that match `query`, as a predicate.
pub open spec fn matches_query(query: Seq<char>) -> spec_fn(EntryView) -> bool {
    |entry: EntryView| entry_matches(entry, query)
}

/// The rows of `all` that pass the search text: all of them for no text,
/// else those that match it, in the order of `all`.
pub open spec fn filtered_entries(all: Seq<EntryView>, query: Seq<char>) -> Seq<EntryView> {
    if query.len() == 0 {
        all
    } else {
        all.filter(matches_query(query))
    }
}

/// The visible rows of a snapshot.
pub open spec fn visible_entries(
    all: Seq<EntryView>,
    query: Seq<char>,
    key: SortBy,
    ascending: bool,
) -> Seq<EntryView> {
    sorted_entries(filtered_entries(all, query), key, ascending)
}

/// Tests whether `lowered` stands in the command, the user or the name, or
/// `query` in the process id. For a search the first three texts are
/// given in lower case, `lowered` is the search text in lower case and
/// `query` the search text as it was typed.
pub fn is_found_in(
    command: &str,
    user: &str,
    name: &str,
    pid: &str,
    lowered: &str,
    query: &str,
) -> (found: bool)
    ensures
        found == found_in(command@, user@, name@, pid@, lowered@, query@),
{
    let needle = chars_of(lowered);
    let command = chars_of(command);
    if contains(command.as_slice(), needle.as_slice()) {
        return true;
    }
    let user = chars_of(user);
    if contains(user.as_slice(), needle.as_slice()) {
        return true;
    }
    let name = chars_of(name);
    if contains(name.as_slice(), needle.as_slice()) {
        return true;
    }
    let pid = chars_of(pid);
    let typed = chars_of(query);
    contains(pid.as_slice(), typed.as_slice())
}

/// Tests whether a row matches a search text.
pub fn is_match(entry: &LsofEntry, query: &str) -> (found: bool)
    ensures
        found == entry_matches(entry@, query@),
{
    let lowered = query.to_lowercase();
    let command = entry.command.as_str().to_lowercase();
    let user = entry.user.as_str().to_lowercase();
    let name = entry.name.as_str().to_lowercase();
    is_found_in(
        command.as_str(),
        user.as_str(),
        name.as_str(),
        entry.pid.as_str(),
        lowered.as_str(),
        query,
    )
}

/// Computes the visible rows of a snapshot. The result depends on the four
/// arguments alone.
pub fn compute_view(all: &Vec<LsofEntry>, query: &str, key: SortBy, ascending: bool) -> (rows: Vec<
    LsofEntry,
>)
    ensures
        rows.deep_view() == visible_entries(all.deep_view(), query@, key, ascending),
{
    let ghost source = all.deep_view();
    let unfiltered: bool = query.is_empty();
    let mut rows: Vec<LsofEntry> = Vec::new();
    let mut i: usize = 0;
    proof {
        assert(source.take(0) =~= Seq::<EntryView>::empty());
        source.take(0).lemma_filter_len(matches_query(query@));
        assert(filtered_entries(source.take(0), query@) =~= Seq::<EntryView>::empty());
        assert(rows.deep_view() =~= Seq::<EntryView>::empty());
    }
    while i < all.len()
        invariant
            i <= all.len(),
            source == all.deep_view(),
            unfiltered == (query@.len() == 0),
            rows.deep_view() == visible_entries(source.take(i as int), query@, key, ascending),
        decreases all.len() - i,
    {
        let ghost entry = all[i as int]@;
        let ghost kept = filtered_entries(source.take(i as int), query@);
        proof {
            assert(source[i as int] == entry);
            assert(source.take(i + 1) =~= source.take(i as int).push(entry));
            Seq::<EntryView>::lemma_filter_push(
                source.take(i as int),
                entry,
                matches_query(query@),
            );
        }
        if unfiltered || is_match(&all[i], query) {
            proof {
                let next = filtered_entries(source.take(i + 1), query@);
                assert(next == kept.push(entry));
                assert(next.drop_last() =~= kept);
                assert(next.last() == entry);
            }
            insert_sorted(&mut rows, all[i].clone(), key, ascending);
        }
        i += 1;
    }
    assert(source.take(i as int) =~= source);
    rows
}

} // verus!
