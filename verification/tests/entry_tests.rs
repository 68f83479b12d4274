use reaper::display::{
    count_label, get_loading_animation, help_text, kill_question, sort_label, sort_name,
};
use reaper::entry::{format_duration, LsofEntry, ProcessInfo, Protocol};
use reaper::model::AppMode;
use reaper::order::SortBy;

fn entry() -> LsofEntry {
    LsofEntry {
        command: "node".to_string(),
        pid: "1234".to_string(),
        user: "alice".to_string(),
        fd: "21u".to_string(),
        type_: "IPv4".to_string(),
        device: "0x1".to_string(),
        size_off: "0t0".to_string(),
        node: "TCP".to_string(),
        name: "*:3000 (LISTEN)".to_string(),
        protocol: Protocol::Tcp,
        memory_kb: 0,
        start_time: None,
    }
}

fn with_memory(kb: u64) -> LsofEntry {
    let mut e = entry();
    e.memory_kb = kb;
    e
}

#[test]
fn durations_use_their_largest_whole_unit() {
    assert_eq!(format_duration(0), "0s");
    assert_eq!(format_duration(59), "59s");
    assert_eq!(format_duration(60), "1m");
    assert_eq!(format_duration(3599), "59m");
    assert_eq!(format_duration(3600), "1h");
    assert_eq!(format_duration(86399), "23h");
    assert_eq!(format_duration(86400), "1d");
    assert_eq!(format_duration(10 * 86400 + 5), "10d");
    assert_eq!(format_duration(u64::MAX), "213503982334601d");
}

#[test]
fn relative_time_counts_from_the_start() {
    let mut e = entry();
    assert_eq!(e.get_relative_time(1000), "unknown");
    e.start_time = Some(400);
    assert_eq!(e.get_relative_time(1000), "10m");
    assert_eq!(e.get_relative_time(400), "0s");
    assert_eq!(e.get_relative_time(399), "unknown");
}

#[test]
fn protocol_names_are_in_capitals() {
    let mut e = entry();
    assert_eq!(e.get_protocol(), "TCP");
    e.protocol = Protocol::Udp;
    assert_eq!(e.get_protocol(), "UDP");
}

#[test]
fn memory_below_a_megabyte_is_shown_in_kilobytes() {
    assert_eq!(with_memory(0).get_memory_display(), "0.0KB");
    assert_eq!(with_memory(512).get_memory_display(), "512.0KB");
    assert_eq!(with_memory(1023).get_memory_display(), "1023.0KB");
}

#[test]
fn memory_up_to_a_gigabyte_is_shown_in_megabytes() {
    assert_eq!(with_memory(1024).get_memory_display(), "1.0MB");
    assert_eq!(with_memory(1536).get_memory_display(), "1.5MB");
    assert_eq!(with_memory(10 * 1024 + 100).get_memory_display(), "10.1MB");
    assert_eq!(with_memory(1024 * 1024).get_memory_display(), "1024.0MB");
}

#[test]
fn memory_above_a_gigabyte_is_shown_in_gigabytes() {
    assert_eq!(with_memory(1024 * 1024 + 1).get_memory_display(), "1.0GB");
    assert_eq!(with_memory(3 * 1024 * 1024 / 2).get_memory_display(), "1.5GB");
    assert_eq!(with_memory(16 * 1024 * 1024).get_memory_display(), "16.0GB");
}

#[test]
fn memory_display_agrees_with_floating_point_formatting() {
    let mut kb: u64 = 0;
    while kb < 3 * 1024 * 1024 {
        let mb = kb as f64 / 1024.0;
        let expected = if mb < 1.0 {
            format!("{:.1}KB", mb * 1024.0)
        } else if mb > 1024.0 {
            format!("{:.1}GB", mb / 1024.0)
        } else {
            format!("{:.1}MB", mb)
        };
        assert_eq!(with_memory(kb).get_memory_display(), expected);
        kb += 257;
    }
}

#[test]
fn memory_display_rounds_a_tie_to_the_even_digit() {
    // 1280 KB is 1.25 MB, exactly between two tenths: the tie goes down
    // to the even digit 2.
    assert_eq!(with_memory(1280).get_memory_display(), format!("{:.1}MB", 1.25f64));
    assert_eq!(with_memory(1280).get_memory_display(), "1.2MB");
    // 1792 KB is 1.75 MB: the tie goes up to the even digit 8.
    assert_eq!(with_memory(1792).get_memory_display(), "1.8MB");
    // Just above a tie rounds up.
    assert_eq!(with_memory(1281).get_memory_display(), "1.3MB");
}

#[test]
fn set_info_replaces_the_looked_up_values() {
    let mut e = entry();
    e.set_info(ProcessInfo { protocol: Protocol::Udp, memory_kb: 2048, start_time: Some(7) });
    assert_eq!(e.protocol, Protocol::Udp);
    assert_eq!(e.memory_kb, 2048);
    assert_eq!(e.start_time, Some(7));
    assert_eq!(e.command, "node");
    assert_eq!(e.name, "*:3000 (LISTEN)");
}

#[test]
fn clone_copies_every_field() {
    let mut e = entry();
    e.memory_kb = 5;
    e.start_time = Some(9);
    let c = e.clone();
    assert_eq!(c.command, e.command);
    assert_eq!(c.pid, e.pid);
    assert_eq!(c.user, e.user);
    assert_eq!(c.fd, e.fd);
    assert_eq!(c.type_, e.type_);
    assert_eq!(c.device, e.device);
    assert_eq!(c.size_off, e.size_off);
    assert_eq!(c.node, e.node);
    assert_eq!(c.name, e.name);
    assert_eq!(c.protocol, e.protocol);
    assert_eq!(c.memory_kb, e.memory_kb);
    assert_eq!(c.start_time, e.start_time);
}

#[test]
fn spinner_wraps_every_ten_frames() {
    let frames = ["⠋", "⠙", "⠹", "⠸", "⠼", "⠴", "⠦", "⠧", "⠇", "⠏"];
    for (i, frame) in frames.iter().enumerate() {
        assert_eq!(get_loading_animation(i), *frame);
        assert_eq!(get_loading_animation(i + 10), *frame);
        assert_eq!(get_loading_animation(i + 1230), *frame);
    }
    assert_eq!(get_loading_animation(usize::MAX), frames[usize::MAX % 10]);
}

#[test]
fn count_label_counts_the_rows() {
    assert_eq!(count_label(0, 0, ""), "Here's what's running...");
    assert_eq!(count_label(1, 1, ""), "1 process");
    assert_eq!(count_label(3, 3, ""), "3 processes");
    assert_eq!(count_label(1, 3, "node"), "1/3 processes (filtered by: \"node\")");
    assert_eq!(count_label(0, 1, "x"), "0/1 process (filtered by: \"x\")");
}

#[test]
fn sort_label_names_key_and_direction() {
    assert_eq!(sort_label(SortBy::Port, false), "sorted by port ↓");
    assert_eq!(sort_label(SortBy::StartTime, true), "sorted by start time ↑");
    assert_eq!(sort_name(SortBy::Pid), "pid");
    assert_eq!(sort_name(SortBy::User), "user");
    assert_eq!(sort_name(SortBy::Command), "command");
    assert_eq!(sort_name(SortBy::Memory), "memory");
}

#[test]
fn help_text_depends_on_mode_and_search() {
    assert_eq!(
        help_text(AppMode::ProcessList, ""),
        "↑/↓: Navigate • Enter: Select • /: Search • s: Sort • r: Refresh • q/Esc: Quit"
    );
    assert_eq!(
        help_text(AppMode::ProcessList, "node"),
        "Search: \"node\" • Esc: Clear search • ↑/↓: Navigate • Enter: Select"
    );
    assert_eq!(
        help_text(AppMode::ConfirmKill, "node"),
        "←/→: Select button • Enter: Confirm • y: Yes • n/Esc: No"
    );
    assert_eq!(help_text(AppMode::Search, ""), "Type to search • Enter: Apply • Esc: Cancel");
}

#[test]
fn kill_question_names_the_port() {
    assert_eq!(kill_question("*:3000 (LISTEN)"), "Are you sure you want to kill port :3000?");
}
