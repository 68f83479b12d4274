use reaper::clock::parse_start_time;
use reaper::entry::Protocol;
use reaper::lookup::{
    get_memory_usage, get_process_info, get_process_start_time, get_protocol_for_pid,
};
use reaper::lsof::{
    force_kill_process, get_listening_processes, kill_process, parse_listing, CommandOutcome,
    DiscoveryError, KillError,
};

const LISTING: &str = "COMMAND   PID  USER   FD   TYPE DEVICE SIZE/OFF NODE NAME\n\
node     1234 alice  21u  IPv4 0x1a2b      0t0  TCP *:3000 (LISTEN)\n\
malformed line with few fields\n\
postgres  567 pg      5u  IPv6 0x3c4d      0t0  TCP [::1]:5432 (LISTEN)\n\
\n\
nginx      89 root    6u  IPv4 0x5e6f      0t0  TCP 127.0.0.1:80 (LISTEN)\n";

fn finished(success: bool, stdout: &str, stderr: &str) -> CommandOutcome {
    CommandOutcome::Finished {
        success,
        stdout: stdout.to_string(),
        stderr: stderr.to_string(),
    }
}

fn not_started(reason: &str) -> CommandOutcome {
    CommandOutcome::NotStarted { reason: reason.to_string() }
}

#[test]
fn listing_gives_one_row_per_full_line() {
    let rows = parse_listing(LISTING);
    assert_eq!(rows.len(), 3);
    assert_eq!(rows[0].command, "node");
    assert_eq!(rows[0].pid, "1234");
    assert_eq!(rows[0].user, "alice");
    assert_eq!(rows[0].fd, "21u");
    assert_eq!(rows[0].type_, "IPv4");
    assert_eq!(rows[0].device, "0x1a2b");
    assert_eq!(rows[0].size_off, "0t0");
    assert_eq!(rows[0].node, "TCP");
    assert_eq!(rows[0].name, "*:3000 (LISTEN)");
    assert_eq!(rows[1].pid, "567");
    assert_eq!(rows[1].name, "[::1]:5432 (LISTEN)");
    assert_eq!(rows[2].pid, "89");
    assert_eq!(rows[2].name, "127.0.0.1:80 (LISTEN)");
}

#[test]
fn rows_start_with_default_lookups() {
    let rows = parse_listing(LISTING);
    for row in rows.iter() {
        assert_eq!(row.protocol, Protocol::Tcp);
        assert_eq!(row.memory_kb, 0);
        assert_eq!(row.start_time, None);
    }
}

#[test]
fn lines_with_fewer_than_nine_fields_are_dropped_silently() {
    let listing = "HEADER\n\
a b c d e f g h\n\
a b c d e f g h i\n\
1 2 3\n\
\n\
x\n";
    let result = get_listening_processes(&finished(true, listing, ""));
    let rows = result.unwrap();
    assert_eq!(rows.len(), 1);
    assert_eq!(rows[0].command, "a");
    assert_eq!(rows[0].name, "i");
}

#[test]
fn a_listing_of_short_lines_only_is_an_empty_snapshot_not_an_error() {
    let result = get_listening_processes(&finished(true, "HEADER\nshort\nalso short\n", ""));
    assert_eq!(result.unwrap().len(), 0);
}

#[test]
fn the_first_line_is_a_header_whatever_it_holds() {
    let listing = "node 1 u 2 3 4 5 6 *:1 (LISTEN)\nnode 2 u 2 3 4 5 6 *:2 (LISTEN)\n";
    let rows = parse_listing(listing);
    assert_eq!(rows.len(), 1);
    assert_eq!(rows[0].pid, "2");
}

#[test]
fn an_empty_listing_gives_no_row() {
    assert_eq!(parse_listing("").len(), 0);
    assert_eq!(parse_listing("HEADER ONLY").len(), 0);
}

#[test]
fn the_name_keeps_its_inner_spaces_as_single_spaces() {
    let listing = "H\ncmd 1 u fd t d s n my   socket \t name (LISTEN)\n";
    let rows = parse_listing(listing);
    assert_eq!(rows[0].name, "my socket name (LISTEN)");
}

#[test]
fn a_failed_discovery_carries_the_standard_error() {
    let result = get_listening_processes(&finished(false, LISTING, "lsof: no permission\n"));
    match result {
        Err(DiscoveryError::Failed { stderr }) => assert_eq!(stderr, "lsof: no permission\n"),
        _ => panic!("a discovery that exited with a failure gave no failure"),
    }
    let result = get_listening_processes(&finished(false, LISTING, "boom"));
    assert_eq!(result.unwrap_err().message(), "lsof command failed: boom");
}

#[test]
fn a_discovery_that_did_not_start_says_why() {
    let result = get_listening_processes(&not_started("No such file or directory"));
    match result {
        Err(DiscoveryError::NotStarted { reason }) => {
            assert_eq!(reason, "No such file or directory")
        }
        _ => panic!("a discovery that did not start gave no failure"),
    }
    let result = get_listening_processes(&not_started("why"));
    assert_eq!(result.unwrap_err().message(), "why");
}

#[test]
fn a_delivered_signal_is_ok() {
    assert!(kill_process("1234", &finished(true, "", "")).is_ok());
    assert!(force_kill_process("1234", &finished(true, "", "ignored")).is_ok());
}

#[test]
fn a_refused_graceful_signal_names_pid_and_reason() {
    let result = kill_process("1234", &finished(false, "", "No such process"));
    match result {
        Err(KillError::Terminate { pid, stderr }) => {
            assert_eq!(pid, "1234");
            assert_eq!(stderr, "No such process");
        }
        _ => panic!("a refused signal gave no refusal"),
    }
    let e = kill_process("1234", &finished(false, "", "No such process")).unwrap_err();
    assert_eq!(e.message(), "Failed to kill process 1234: No such process");
}

#[test]
fn a_refused_forced_signal_names_pid_and_reason() {
    let result = force_kill_process("77", &finished(false, "", "Operation not permitted"));
    match result {
        Err(KillError::ForceTerminate { pid, stderr }) => {
            assert_eq!(pid, "77");
            assert_eq!(stderr, "Operation not permitted");
        }
        _ => panic!("a refused signal gave no refusal"),
    }
    let e = force_kill_process("77", &finished(false, "", "Operation not permitted")).unwrap_err();
    assert_eq!(e.message(), "Failed to force kill process 77: Operation not permitted");
}

#[test]
fn a_signal_utility_that_did_not_start_says_why() {
    let e = kill_process("1", &not_started("kill: not found")).unwrap_err();
    assert_eq!(e.message(), "kill: not found");
    let e = force_kill_process("1", &not_started("kill: not found")).unwrap_err();
    assert_eq!(e.message(), "kill: not found");
}

const SOCKETS: &str = "Active Internet connections (only servers)\n\
Proto Recv-Q Send-Q Local Address   Foreign Address State  PID/Program name\n\
tcp        0      0 0.0.0.0:3000    0.0.0.0:*       LISTEN 1234/node\n\
udp        0      0 0.0.0.0:5353    0.0.0.0:*              567/avahi\n\
raw        0      0 0.0.0.0:1       0.0.0.0:*              999/odd\n\
udp6       0      0 :::999          :::*                   4242/both\n\
tcp6       0      0 :::999          :::*            LISTEN 4242/both\n";

#[test]
fn protocol_is_that_of_the_first_line_that_names_the_pid() {
    let out = finished(true, SOCKETS, "");
    assert_eq!(get_protocol_for_pid("1234", &out), Protocol::Tcp);
    assert_eq!(get_protocol_for_pid("567", &out), Protocol::Udp);
    assert_eq!(get_protocol_for_pid("4242", &out), Protocol::Udp);
}

#[test]
fn protocol_falls_back_to_tcp() {
    let out = finished(true, SOCKETS, "");
    assert_eq!(get_protocol_for_pid("31337", &out), Protocol::Tcp);
    assert_eq!(get_protocol_for_pid("odd", &out), Protocol::Tcp);
    assert_eq!(get_protocol_for_pid("567", &not_started("no netstat")), Protocol::Tcp);
    assert_eq!(get_protocol_for_pid("567", &finished(true, "", "")), Protocol::Tcp);
}

#[test]
fn protocol_skips_lines_without_a_protocol_prefix() {
    let listing = "raw 0 0 x 77/odd\nudp 0 0 y 77/odd\ntcp 0 0 z 77/odd\n";
    assert_eq!(get_protocol_for_pid("77", &finished(true, listing, "")), Protocol::Udp);
    let listing = "raw 0 0 x 77/odd\ntcp 0 0 z 77/odd\nudp 0 0 y 77/odd\n";
    assert_eq!(get_protocol_for_pid("77", &finished(true, listing, "")), Protocol::Tcp);
}

#[test]
fn protocol_is_read_whatever_the_exit_status() {
    let listing = "udp 0 0 y 77/odd\n";
    assert_eq!(get_protocol_for_pid("77", &finished(false, listing, "warn")), Protocol::Udp);
}

#[test]
fn memory_is_the_number_between_the_white_space() {
    assert_eq!(get_memory_usage(&finished(true, "  20480\n", "")), 20480);
    assert_eq!(get_memory_usage(&finished(true, "0", "")), 0);
    assert_eq!(get_memory_usage(&finished(false, "12\n", "")), 12);
}

#[test]
fn memory_falls_back_to_zero() {
    assert_eq!(get_memory_usage(&finished(true, "", "")), 0);
    assert_eq!(get_memory_usage(&finished(true, "\n", "")), 0);
    assert_eq!(get_memory_usage(&finished(true, "n/a", "")), 0);
    assert_eq!(get_memory_usage(&finished(true, "12 34", "")), 0);
    assert_eq!(get_memory_usage(&finished(true, "99999999999999999999999", "")), 0);
    assert_eq!(get_memory_usage(&not_started("no ps")), 0);
}

#[test]
fn start_time_is_read_as_seconds_since_the_epoch() {
    assert_eq!(parse_start_time("Wed Oct 28 19:55:12 2026"), Some(1793217312));
    assert_eq!(parse_start_time("Thu Jan  1 00:00:00 1970"), Some(0));
    assert_eq!(parse_start_time("Thu Jan  1 00:00:01 1970\n"), Some(1));
    assert_eq!(parse_start_time("Thu Feb 29 23:59:59 2024"), Some(1709251199));
    assert_eq!(parse_start_time("Wed Mar  1 00:00:00 2000"), Some(951868800));
    assert_eq!(parse_start_time("Mon Mar  1 12:00:00 2100"), Some(4107585600));
    assert_eq!(parse_start_time("Fri Dec 31 23:59:59 9999"), Some(253402300799));
    assert_eq!(parse_start_time("  Tue Jan  6 09:03:11 2026  "), Some(1767690191));
}

#[test]
fn start_time_of_each_month_is_read() {
    let months = ["Jan", "Feb", "Mar", "Apr", "May", "Jun", "Jul", "Aug", "Sep", "Oct", "Nov",
        "Dec"];
    let starts: [u64; 12] = [
        1735689600, 1738368000, 1740787200, 1743465600, 1746057600, 1748736000, 1751328000,
        1754006400, 1756684800, 1759276800, 1761955200, 1764547200,
    ];
    for i in 0..12 {
        let text = format!("Day {} 1 00:00:00 2025", months[i]);
        assert_eq!(parse_start_time(&text), Some(starts[i]));
    }
}

#[test]
fn start_time_that_is_no_moment_is_unknown() {
    for text in [
        "",
        "\n",
        "Oct 28 19:55:12 2026",
        "Wed Oct 28 19:55:12 2026 UTC",
        "Wed Okt 28 19:55:12 2026",
        "Wed oct 28 19:55:12 2026",
        "Wed Oct 0 19:55:12 2026",
        "Wed Oct 32 19:55:12 2026",
        "Wed Feb 29 19:55:12 2026",
        "Wed Feb 29 19:55:12 2100",
        "Wed Apr 31 19:55:12 2026",
        "Wed Oct 28 24:00:00 2026",
        "Wed Oct 28 19:60:12 2026",
        "Wed Oct 28 19:55:60 2026",
        "Wed Oct 28 19:55 2026",
        "Wed Oct 28 19:55:12:1 2026",
        "Wed Oct 28 19-55-12 2026",
        "Wed Oct 28 19:55:12 1969",
        "Wed Oct 28 19:55:12 10000",
        "Wed Oct 28 19:55:12 year",
        "Wed Oct 28 :55:12 2026",
    ] {
        assert_eq!(parse_start_time(text), None);
    }
}

#[test]
fn start_time_lookup_falls_back_to_unknown() {
    assert_eq!(get_process_start_time(&not_started("no ps")), None);
    assert_eq!(get_process_start_time(&finished(true, "", "")), None);
    assert_eq!(
        get_process_start_time(&finished(true, "Wed Oct 28 19:55:12 2026\n", "")),
        Some(1793217312)
    );
}

#[test]
fn the_three_lookups_are_independent() {
    let info = get_process_info(
        "567",
        &finished(true, SOCKETS, ""),
        &not_started("no ps"),
        &finished(true, "Thu Jan  1 00:01:00 1970\n", ""),
    );
    assert_eq!(info.protocol, Protocol::Udp);
    assert_eq!(info.memory_kb, 0);
    assert_eq!(info.start_time, Some(60));

    let info = get_process_info(
        "567",
        &not_started("no netstat"),
        &finished(true, " 4096\n", ""),
        &finished(true, "garbage", ""),
    );
    assert_eq!(info.protocol, Protocol::Tcp);
    assert_eq!(info.memory_kb, 4096);
    assert_eq!(info.start_time, None);
}
