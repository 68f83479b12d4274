//! The two-tier termination: what the operator gets to see of it.

use vstd::prelude::*;
use crate::entry::EntryView;
use crate::model::{
    force_killed_notice,
    kill_failure_message,
    killed_notice,
    loading_notice,
    ActionView,
    AppMode,
    AppView,
    KillStageView,
};
use crate::pattern::{has_prefix, is_substring, occurs_at};

verus! {

/// Neither notice of a kill is the loading notice.
pub proof fn lemma_kill_notices_are_no_loading_notice(command: Seq<char>, pid: Seq<char>)
    ensures
        killed_notice(command, pid) != loading_notice(),
        force_killed_notice(command, pid) != loading_notice(),
{
    reveal_strlit("Successfully killed process ");
    reveal_strlit("Force killed process ");
    reveal_strlit("Loading processes...");
    assert(killed_notice(command, pid)[0] == 'S');
    assert(force_killed_notice(command, pid)[0] == 'F');
    assert(loading_notice()[0] == 'L');
}

/// A snapshot takes no status message away but the loading notice, and
/// never the error message.
pub proof fn lemma_snapshot_keeps_messages(s: AppView, snapshot: Seq<EntryView>)
    ensures
        s.with_snapshot(snapshot).status_message == s.status_message,
        s.with_snapshot(snapshot).error_message == s.error_message,
        s.refreshed(Ok(snapshot)).error_message == s.error_message,
        s.status_message != Some(loading_notice()) ==> s.refreshed(Ok(snapshot)).status_message
            == s.status_message,
        s.status_message == Some(loading_notice()) ==> s.refreshed(Ok(snapshot)).status_message
            is None,
{
}

/// The notice of a signal that succeeded outlives the refresh that follows
/// it, whatever the snapshot holds and however the rows came to be there.
pub proof fn lemma_refresh_keeps_kill_notice(s: AppView, snapshot: Seq<EntryView>)
    ensures
        s.kill_stage matches KillStageView::Terminating { command, pid } ==> s.terminate_done(
            None,
        ).0.refreshed(Ok(snapshot)).status_message == Some(killed_notice(command, pid)),
        s.kill_stage matches KillStageView::Forcing { command, pid, .. }
            ==> s.force_terminate_done(None).0.refreshed(Ok(snapshot)).status_message == Some(
            force_killed_notice(command, pid),
        ),
        s.kill_stage is Terminating ==> s.terminate_done(None).0.refreshed(
            Ok(snapshot),
        ).error_message is None,
        s.kill_stage is Forcing ==> s.force_terminate_done(None).0.refreshed(
            Ok(snapshot),
        ).error_message is None,
{
    match s.kill_stage {
        KillStageView::Terminating { command, pid } => {
            lemma_kill_notices_are_no_loading_notice(command, pid);
        },
        KillStageView::Forcing { command, pid, .. } => {
            lemma_kill_notices_are_no_loading_notice(command, pid);
        },
        KillStageView::Idle => {},
    }
}

/// A text stands in every text that is built round it.
pub proof fn lemma_part_is_substring(before: Seq<char>, part: Seq<char>, after: Seq<char>)
    ensures
        is_substring(part, before + part + after),
{
    let whole = before + part + after;
    assert(whole.subrange(before.len() as int, (before.len() + part.len()) as int) =~= part);
    assert(occurs_at(whole, part, before.len() as int));
}

/// "Yes" for a visible row always leads to the graceful signal for the
/// process of that row, and back to the list.
pub proof fn lemma_yes_targets_the_selected_row(s: AppView)
    requires
        s.selected_index < s.filtered_processes.len(),
    ensures
        s.confirm_kill().1 == (ActionView::Terminate {
            pid: s.filtered_processes[s.selected_index as int].pid,
        }),
        s.confirm_kill().0.mode == AppMode::ProcessList,
        s.confirm_kill().0.kill_stage == (KillStageView::Terminating {
            command: s.filtered_processes[s.selected_index as int].command,
            pid: s.filtered_processes[s.selected_index as int].pid,
        }),
{
}

/// A graceful signal that succeeds leaves a status message that names the
/// command and the process id, no error message and the list shown; a
/// refresh after the grace period follows.
pub proof fn lemma_graceful_success_is_noticed(s: AppView)
    requires
        s.kill_stage is Terminating,
    ensures
        ({
            let after = s.terminate_done(None).0;
            &&& after.status_message matches Some(notice)
            &&& is_substring(s.kill_stage->Terminating_pid, notice)
            &&& is_substring(s.kill_stage->Terminating_command, notice)
            &&& after.error_message is None
            &&& after.mode == AppMode::ProcessList
            &&& after.kill_stage is Idle
        }),
        s.terminate_done(None).1 == ActionView::PauseThenRefresh,
{
    let command = s.kill_stage->Terminating_command;
    let pid = s.kill_stage->Terminating_pid;
    let head = "Successfully killed process "@;
    lemma_part_is_substring(head + command + " ("@, pid, ")"@);
    lemma_part_is_substring(head, command, " ("@ + pid + ")"@);
    assert(head + command + (" ("@ + pid + ")"@) =~= killed_notice(command, pid));
}

/// The kill protocol shows one failure alone to nobody: after a failed
/// graceful signal neither message has changed, and the unconditional
/// signal to the same process is what follows.
pub proof fn lemma_single_failure_is_silent(s: AppView, reason: Seq<char>)
    requires
        s.kill_stage is Terminating,
    ensures
        s.terminate_done(Some(reason)).0.error_message == s.error_message,
        s.terminate_done(Some(reason)).0.status_message == s.status_message,
        s.terminate_done(Some(reason)).1 == (ActionView::ForceTerminate {
            pid: s.kill_stage->Terminating_pid,
        }),
{
}

/// An unconditional signal that succeeds leaves a status message that
/// names the command and the process id and speaks of a forced kill, no
/// error message and the list shown; a refresh after the grace period
/// follows.
pub proof fn lemma_forced_success_is_noticed(s: AppView)
    requires
        s.kill_stage is Forcing,
    ensures
        ({
            let after = s.force_terminate_done(None).0;
            &&& after.status_message matches Some(notice)
            &&& has_prefix(notice, "Force killed"@)
            &&& is_substring(s.kill_stage->Forcing_pid, notice)
            &&& is_substring(s.kill_stage->Forcing_command, notice)
            &&& after.error_message is None
            &&& after.mode == AppMode::ProcessList
            &&& after.kill_stage is Idle
        }),
        s.force_terminate_done(None).1 == ActionView::PauseThenRefresh,
{
    let command = s.kill_stage->Forcing_command;
    let pid = s.kill_stage->Forcing_pid;
    let head = "Force killed process "@;
    let notice = force_killed_notice(command, pid);
    lemma_part_is_substring(head + command + " ("@, pid, ")"@);
    lemma_part_is_substring(head, command, " ("@ + pid + ")"@);
    assert(head + command + (" ("@ + pid + ")"@) =~= notice);
    reveal_strlit("Force killed process ");
    reveal_strlit("Force killed");
    assert(notice.subrange(0, 12) =~= "Force killed"@);
}

/// Where both signals fail, the error message holds the reasons of both,
/// there is no status message, the list is shown and nothing follows.
pub proof fn lemma_double_failure_is_shown(s: AppView, reason: Seq<char>)
    requires
        s.kill_stage is Forcing,
    ensures
        ({
            let after = s.force_terminate_done(Some(reason)).0;
            &&& after.error_message matches Some(message)
            &&& is_substring(s.kill_stage->Forcing_first_error, message)
            &&& is_substring(reason, message)
            &&& after.status_message is None
            &&& after.mode == AppMode::ProcessList
            &&& after.kill_stage is Idle
        }),
        s.force_terminate_done(Some(reason)).1 == ActionView::Nothing,
{
    let first = s.kill_stage->Forcing_first_error;
    let head = "Failed to kill process: "@;
    let middle = " | Force kill also failed: "@;
    lemma_part_is_substring(head, first, middle + reason);
    lemma_part_is_substring(head + first + middle, reason, Seq::empty());
    assert(head + first + (middle + reason) =~= kill_failure_message(first, reason));
    assert(head + first + middle + reason + Seq::<char>::empty() =~= kill_failure_message(
        first,
        reason,
    ));
}

} // verus!
