//! The texts of the screen that depend on the state: the spinner, the line
//! that counts the rows, the line that names the order, the help line and
//! the question of the dialog.

use vstd::prelude::*;
use vstd::string::StringExecFns;
use crate::model::AppMode;
use crate::number::{decimal, decimal_digits, push_decimal};
use crate::order::SortBy;
use crate::port::{port_label, port_text};

verus! {

/// The ten frames of the spinner shown while the first snapshot loads.
pub open spec fn spinner_frames() -> Seq<Seq<char>> {
    seq!["⠋"@, "⠙"@, "⠹"@, "⠸"@, "⠼"@, "⠴"@, "⠦"@, "⠧"@, "⠇"@, "⠏"@]
}

/// The spinner frame for a running frame counter; the counter wraps every
/// ten frames.
pub fn get_loading_animation(frame: usize) -> (glyph: &'static str)
    ensures
        glyph@ == spinner_frames()[(frame % 10) as int],
{
    let k: usize = frame % 10;
    if k == 0 {
        "⠋"
    } else if k == 1 {
        "⠙"
    } else if k == 2 {
        "⠹"
    } else if k == 3 {
        "⠸"
    } else if k == 4 {
        "⠼"
    } else if k == 5 {
        "⠴"
    } else if k == 6 {
        "⠦"
    } else if k == 7 {
        "⠧"
    } else if k == 8 {
        "⠇"
    } else {
        "⠏"
    }
}

/// "process" for one, "processes" for any other number.
pub open spec fn process_word(n: nat) -> Seq<char> {
    if n == 1 {
        "process"@
    } else {
        "processes"@
    }
}

/// The line that counts the rows: a greeting while there is none at all;
/// the visible and all rows with the search text where some are filtered
/// away; else the number of rows.
pub open spec fn count_text(shown: nat, total: nat, query: Seq<char>) -> Seq<char> {
    if shown == 0 && total == 0 {
        "Here's what's running..."@
    } else if shown != total {
        decimal_digits(shown) + "/"@ + decimal_digits(total) + " "@ + process_word(total)
            + " (filtered by: \""@ + query + "\")"@
    } else {
        decimal_digits(shown) + " "@ + process_word(shown)
    }
}

/// Writes the line that counts the rows.
pub fn count_label(shown: usize, total: usize, query: &str) -> (text: String)
    ensures
        text@ == count_text(shown as nat, total as nat, query@),
{
    if shown == 0 && total == 0 {
        String::from_str("Here's what's running...")
    } else if shown != total {
        let mut text = decimal(shown as u64);
        text.append("/");
        push_decimal(&mut text, total as u64);
        text.append(" ");
        text.append(
            if total == 1 {
                "process"
            } else {
                "processes"
            },
        );
        text.append(" (filtered by: \"");
        text.append(query);
        text.append("\")");
        text
    } else {
        let mut text = decimal(shown as u64);
        text.append(" ");
        text.append(
            if shown == 1 {
                "process"
            } else {
                "processes"
            },
        );
        text
    }
}

/// The name of a sort key.
pub open spec fn sort_name_text(key: SortBy) -> Seq<char> {
    match key {
        SortBy::Port => "port"@,
        SortBy::Pid => "pid"@,
        SortBy::User => "user"@,
        SortBy::Command => "command"@,
        SortBy::Memory => "memory"@,
        SortBy::StartTime => "start time"@,
    }
}

/// The name of a sort key.
pub fn sort_name(key: SortBy) -> (name: &'static str)
    ensures
        name@ == sort_name_text(key),
{
    match key {
        SortBy::Port => "port",
        SortBy::Pid => "pid",
        SortBy::User => "user",
        SortBy::Command => "command",
        SortBy::Memory => "memory",
        SortBy::StartTime => "start time",
    }
}

/// The line that names the order: the key, and an arrow up for ascending
/// or down for descending.
pub open spec fn sort_text(key: SortBy, ascending: bool) -> Seq<char> {
    "sorted by "@ + sort_name_text(key) + " "@ + (if ascending {
        "↑"@
    } else {
        "↓"@
    })
}

/// Writes the line that names the order.
pub fn sort_label(key: SortBy, ascending: bool) -> (text: String)
    ensures
        text@ == sort_text(key, ascending),
{
    let mut text = String::from_str("sorted by ");
    text.append(sort_name(key));
    text.append(" ");
    text.append(
        if ascending {
            "↑"
        } else {
            "↓"
        },
    );
    text
}

/// The help line of a mode. While the list is shown with a search text,
/// the line shows the text and how to discard it.
pub open spec fn help_line(mode: AppMode, query: Seq<char>) -> Seq<char> {
    match mode {
        AppMode::ProcessList => if query.len() == 0 {
            "↑/↓: Navigate • Enter: Select • /: Search • s: Sort • r: Refresh • q/Esc: Quit"@
        } else {
            "Search: \""@ + query + "\" • Esc: Clear search • ↑/↓: Navigate • Enter: Select"@
        },
        AppMode::ConfirmKill => "←/→: Select button • Enter: Confirm • y: Yes • n/Esc: No"@,
        AppMode::Search => "Type to search • Enter: Apply • Esc: Cancel"@,
    }
}

/// Writes the help line of a mode.
pub fn help_text(mode: AppMode, query: &str) -> (text: String)
    ensures
        text@ == help_line(mode, query@),
{
    match mode {
        AppMode::ProcessList => {
            if query.is_empty() {
                String::from_str(
                    "↑/↓: Navigate • Enter: Select • /: Search • s: Sort • r: Refresh • q/Esc: Quit",
                )
            } else {
                let mut text = String::from_str("Search: \"");
                text.append(query);
                text.append("\" • Esc: Clear search • ↑/↓: Navigate • Enter: Select");
                text
            }
        },
        AppMode::ConfirmKill => String::from_str(
            "←/→: Select button • Enter: Confirm • y: Yes • n/Esc: No",
        ),
        AppMode::Search => String::from_str("Type to search • Enter: Apply • Esc: Cancel"),
    }
}

/// The question of the dialog for a socket name: it names the port.
pub open spec fn kill_question_text(name: Seq<char>) -> Seq<char> {
    "Are you sure you want to kill port :"@ + port_text(name) + "?"@
}

/// Writes the question of the dialog.
pub fn kill_question(name: &str) -> (text: String)
    ensures
        text@ == kill_question_text(name@),
{
    let mut text = String::from_str("Are you sure you want to kill port :");
    let port = port_label(name);
    text.append(port.as_str());
    text.append("?");
    text
}

} // verus!
