use reaper::entry::{LsofEntry, Protocol};
use reaper::order::{is_before, is_ranked_before, parse_pid, SortBy};
use reaper::sorting::insert_sorted;
use reaper::visible::{compute_view, is_found_in, is_match};

fn row(command: &str, pid: &str, user: &str, name: &str, kb: u64, start: Option<u64>) -> LsofEntry {
    LsofEntry {
        command: command.to_string(),
        pid: pid.to_string(),
        user: user.to_string(),
        fd: "3u".to_string(),
        type_: "IPv4".to_string(),
        device: "0x0".to_string(),
        size_off: "0t0".to_string(),
        node: "TCP".to_string(),
        name: name.to_string(),
        protocol: Protocol::Tcp,
        memory_kb: kb,
        start_time: start,
    }
}

fn snapshot() -> Vec<LsofEntry> {
    vec![
        row("node", "1234", "alice", "*:3000 (LISTEN)", 2048, Some(500)),
        row("Postgres", "567", "pg", "[::1]:5432 (LISTEN)", 10240, None),
        row("nginx", "89", "root", "127.0.0.1:80 (LISTEN)", 512, Some(100)),
        row("redis", "4000", "Alice", "*:6379 (LISTEN)", 4096, Some(300)),
        row("odd", "x9", "bob", "no port here", 1, None),
    ]
}

fn pids(rows: &Vec<LsofEntry>) -> Vec<String> {
    rows.iter().map(|r| r.pid.clone()).collect()
}

#[test]
fn an_empty_query_shows_every_row() {
    let all = snapshot();
    let rows = compute_view(&all, "", SortBy::Port, true);
    assert_eq!(rows.len(), all.len());
}

#[test]
fn rows_sort_by_port_number() {
    let all = snapshot();
    assert_eq!(pids(&compute_view(&all, "", SortBy::Port, true)), ["x9", "89", "1234", "567", "4000"]);
    assert_eq!(pids(&compute_view(&all, "", SortBy::Port, false)), ["4000", "567", "1234", "89", "x9"]);
}

#[test]
fn rows_sort_by_pid_number_with_unreadable_pids_as_zero() {
    let all = snapshot();
    assert_eq!(pids(&compute_view(&all, "", SortBy::Pid, true)), ["x9", "89", "567", "1234", "4000"]);
    assert_eq!(pids(&compute_view(&all, "", SortBy::Pid, false)), ["4000", "1234", "567", "89", "x9"]);
    assert_eq!(parse_pid("0042"), 42);
    assert_eq!(parse_pid(""), 0);
    assert_eq!(parse_pid("4294967296"), 0);
}

#[test]
fn rows_sort_by_user_in_dictionary_order() {
    let all = snapshot();
    // Capital letters stand before small ones.
    assert_eq!(pids(&compute_view(&all, "", SortBy::User, true)), ["4000", "1234", "x9", "567", "89"]);
    assert_eq!(pids(&compute_view(&all, "", SortBy::User, false)), ["89", "567", "x9", "1234", "4000"]);
}

#[test]
fn rows_sort_by_command_in_dictionary_order() {
    let all = snapshot();
    assert_eq!(pids(&compute_view(&all, "", SortBy::Command, true)), ["567", "89", "1234", "x9", "4000"]);
    assert_eq!(pids(&compute_view(&all, "", SortBy::Command, false)), ["4000", "x9", "1234", "89", "567"]);
}

#[test]
fn rows_sort_by_memory() {
    let all = snapshot();
    assert_eq!(pids(&compute_view(&all, "", SortBy::Memory, true)), ["x9", "89", "1234", "4000", "567"]);
    assert_eq!(pids(&compute_view(&all, "", SortBy::Memory, false)), ["567", "4000", "1234", "89", "x9"]);
}

#[test]
fn rows_sort_by_start_time_with_known_before_unknown_ascending() {
    let all = snapshot();
    assert_eq!(
        pids(&compute_view(&all, "", SortBy::StartTime, true)),
        ["89", "4000", "1234", "567", "x9"]
    );
}

#[test]
fn rows_sort_by_start_time_with_unknown_before_known_descending() {
    let all = snapshot();
    assert_eq!(
        pids(&compute_view(&all, "", SortBy::StartTime, false)),
        ["567", "x9", "1234", "4000", "89"]
    );
}

#[test]
fn rows_that_tie_keep_the_order_of_the_snapshot() {
    let all = vec![
        row("a", "1", "u", "*:80", 7, None),
        row("b", "2", "u", "*:80", 7, None),
        row("c", "3", "u", "*:80", 7, None),
    ];
    for key in [SortBy::Port, SortBy::User, SortBy::Memory, SortBy::StartTime] {
        assert_eq!(pids(&compute_view(&all, "", key, true)), ["1", "2", "3"]);
        assert_eq!(pids(&compute_view(&all, "", key, false)), ["1", "2", "3"]);
    }
}

#[test]
fn turning_the_direction_round_reverses_rows_without_ties() {
    let all = snapshot();
    for key in [SortBy::Port, SortBy::Pid, SortBy::User, SortBy::Command, SortBy::Memory] {
        let mut up = pids(&compute_view(&all, "", key, true));
        let down = pids(&compute_view(&all, "", key, false));
        up.reverse();
        assert_eq!(up, down);
    }
}

#[test]
fn the_view_is_the_same_for_the_same_arguments() {
    let all = snapshot();
    for key in [SortBy::Port, SortBy::User, SortBy::StartTime] {
        for ascending in [true, false] {
            let first = compute_view(&all, "a", key, ascending);
            let second = compute_view(&all, "a", key, ascending);
            assert_eq!(pids(&first), pids(&second));
            assert_eq!(first.len(), second.len());
        }
    }
}

#[test]
fn the_view_leaves_the_snapshot_alone() {
    let all = snapshot();
    let _ = compute_view(&all, "node", SortBy::Memory, true);
    assert_eq!(pids(&all), ["1234", "567", "89", "4000", "x9"]);
}

#[test]
fn the_query_matches_command_user_and_name_without_regard_to_case() {
    let all = snapshot();
    assert_eq!(pids(&compute_view(&all, "NODE", SortBy::Pid, true)), ["1234"]);
    assert_eq!(pids(&compute_view(&all, "postgres", SortBy::Pid, true)), ["567"]);
    assert_eq!(pids(&compute_view(&all, "alice", SortBy::Pid, true)), ["1234", "4000"]);
    assert_eq!(pids(&compute_view(&all, "listen", SortBy::Pid, true)), ["89", "567", "1234", "4000"]);
    assert_eq!(pids(&compute_view(&all, "PORT HERE", SortBy::Pid, true)), ["x9"]);
}

#[test]
fn the_query_matches_the_pid_as_it_is() {
    let all = snapshot();
    assert_eq!(pids(&compute_view(&all, "123", SortBy::Pid, true)), ["1234"]);
    assert_eq!(pids(&compute_view(&all, "x9", SortBy::Pid, true)), ["x9"]);
    // The pid is compared as it is with the query as it was typed: a
    // capital does not find a small letter, nor a small letter a capital.
    assert_eq!(compute_view(&all, "X9", SortBy::Pid, true).len(), 0);
    let capital = vec![row("c", "AB1", "u", "*:1", 0, None)];
    assert_eq!(compute_view(&capital, "AB1", SortBy::Pid, true).len(), 1);
    assert_eq!(compute_view(&capital, "ab1", SortBy::Pid, true).len(), 0);
    assert_eq!(compute_view(&capital, "1", SortBy::Pid, true).len(), 1);
}

#[test]
fn a_capital_query_does_not_find_a_small_pid() {
    let small = row("cmd", "a", "usr", "*:1", 0, None);
    assert!(!is_match(&small, "A"));
    assert!(is_match(&small, "a"));
    let rows = vec![small];
    assert_eq!(compute_view(&rows, "A", SortBy::Pid, true).len(), 0);
    assert_eq!(compute_view(&rows, "a", SortBy::Pid, true).len(), 1);
}

#[test]
fn a_capital_query_still_finds_command_user_and_name() {
    let r = row("Alpha", "7", "Beta", "Gamma:1", 0, None);
    assert!(is_match(&r, "ALPHA"));
    assert!(is_match(&r, "bEtA"));
    assert!(is_match(&r, "GAMMA"));
}

#[test]
fn the_view_holds_each_matching_row_as_often_as_the_snapshot() {
    let all = vec![
        row("node", "1", "u", "*:1", 0, None),
        row("node", "1", "u", "*:1", 0, None),
        row("other", "2", "u", "*:2", 0, None),
        row("node", "1", "u", "*:1", 0, None),
    ];
    let rows = compute_view(&all, "node", SortBy::Port, false);
    assert_eq!(pids(&rows), ["1", "1", "1"]);
    let rows = compute_view(&all, "", SortBy::Port, true);
    assert_eq!(pids(&rows), ["1", "1", "1", "2"]);
}

#[test]
fn a_query_that_matches_nothing_shows_nothing() {
    let all = snapshot();
    assert_eq!(compute_view(&all, "zzz", SortBy::Port, true).len(), 0);
    assert_eq!(compute_view(&Vec::new(), "", SortBy::Port, true).len(), 0);
    assert_eq!(compute_view(&Vec::new(), "a", SortBy::Port, true).len(), 0);
}

#[test]
fn is_match_lowers_the_query_and_the_three_texts() {
    let r = row("NodeJS", "42", "Ünïcode", "*:80 (LISTEN)", 0, None);
    assert!(is_match(&r, "nodejs"));
    assert!(is_match(&r, "NODEJS"));
    assert!(is_match(&r, "ünï"));
    assert!(is_match(&r, "ÜNÏ"));
    assert!(is_match(&r, "(listen)"));
    assert!(is_match(&r, "42"));
    assert!(is_match(&r, ""));
    assert!(!is_match(&r, "python"));
}

#[test]
fn is_found_in_looks_into_each_of_the_four_texts() {
    assert!(is_found_in("abc", "", "", "", "b", "B"));
    assert!(is_found_in("", "abc", "", "", "b", "B"));
    assert!(is_found_in("", "", "abc", "", "b", "B"));
    assert!(is_found_in("", "", "", "aBc", "b", "B"));
    assert!(!is_found_in("a", "c", "d", "e", "b", "B"));
    assert!(!is_found_in("ABC", "", "", "", "b", "B"));
}

#[test]
fn is_found_in_looks_for_the_typed_text_in_the_pid_only() {
    // The lowered text is not looked for in the pid.
    assert!(!is_found_in("", "", "", "abc", "b", "B"));
    // The typed text is not looked for in the other three.
    assert!(!is_found_in("aBc", "aBc", "aBc", "", "b", "B"));
}

#[test]
fn ranking_before_is_strict() {
    let a = row("a", "1", "u", "*:80", 1, Some(1));
    let b = row("b", "2", "v", "*:81", 2, Some(2));
    for key in [SortBy::Port, SortBy::Pid, SortBy::User, SortBy::Command, SortBy::Memory,
        SortBy::StartTime]
    {
        assert!(is_ranked_before(key, &a, &b));
        assert!(!is_ranked_before(key, &b, &a));
        assert!(!is_ranked_before(key, &a, &a));
        assert!(is_before(key, true, &a, &b));
        assert!(is_before(key, false, &b, &a));
        assert!(!is_before(key, false, &a, &b));
    }
}

#[test]
fn an_unknown_start_ranks_behind_every_known_one() {
    let known = row("a", "1", "u", "*:80", 1, Some(u64::MAX));
    let unknown = row("b", "2", "v", "*:81", 2, None);
    assert!(is_ranked_before(SortBy::StartTime, &known, &unknown));
    assert!(!is_ranked_before(SortBy::StartTime, &unknown, &known));
    assert!(!is_ranked_before(SortBy::StartTime, &unknown, &unknown));
}

#[test]
fn insert_sorted_puts_a_row_behind_its_ties() {
    let mut rows: Vec<LsofEntry> = Vec::new();
    insert_sorted(&mut rows, row("a", "1", "u", "*:80", 5, None), SortBy::Memory, true);
    insert_sorted(&mut rows, row("b", "2", "u", "*:80", 9, None), SortBy::Memory, true);
    insert_sorted(&mut rows, row("c", "3", "u", "*:80", 5, None), SortBy::Memory, true);
    insert_sorted(&mut rows, row("d", "4", "u", "*:80", 1, None), SortBy::Memory, true);
    assert_eq!(pids(&rows), ["4", "1", "3", "2"]);
}

#[test]
fn sort_keys_cycle_in_a_fixed_order() {
    let mut key = SortBy::Port;
    let mut seen = Vec::new();
    for _ in 0..7 {
        seen.push(key);
        key = key.next();
    }
    assert_eq!(
        seen,
        [
            SortBy::Port,
            SortBy::Pid,
            SortBy::User,
            SortBy::Command,
            SortBy::Memory,
            SortBy::StartTime,
            SortBy::Port
        ]
    );
}
