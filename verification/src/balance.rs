//! The issue totals and the worklogs agree.
//!
//! Every second on an issue's total is a second of one of its worklogs,
//! and the other way round. This module states that as a property of the
//! state and proves that no operation of the tracker breaks it.

use vstd::prelude::*;
use crate::decimal::{decimal_value, lemma_text_round_trip};
use crate::issue::IssueView;
use crate::laws::{
    after_command, after_commands, closes_after_epoch, consistent, law_always_consistent,
    law_stop_keeps_consistent, Command,
};
use crate::lookup::{
    lemma_distinct_position, lemma_position_after_append, lemma_position_is_found, position,
};
use crate::rows::{
    issue_row, issue_row_readable, lemma_issue_row_round_trip, lemma_worklog_row_round_trip,
    worklog_row, worklog_row_readable, WorklogRow,
};
use crate::session::{after_save, after_start, after_stop, new_issue, open_worklog, StateView};
use crate::storage::{
    after_add_issue, after_edit_issue, issue_by_name, issue_ids, issue_names, worklog_ids,
    StorageView,
};
use crate::worklog::WorklogView;

verus! {

/// The seconds that `row` counts towards the issue with the id `issue_id`.
pub open spec fn counted(row: WorklogRow, issue_id: Seq<char>) -> nat {
    if row.issue_id == issue_id {
        decimal_value(row.total_time) as nat
    } else {
        0
    }
}

/// The seconds that the worklogs of the table count towards the issue
/// with the id `issue_id`.
pub open spec fn logged(rows: Seq<WorklogRow>, issue_id: Seq<char>) -> nat
    decreases rows.len(),
{
    if rows.len() == 0 {
        0
    } else {
        logged(rows.drop_last(), issue_id) + counted(rows.last(), issue_id)
    }
}

/// Every row of both tables can be read, every worklog refers to a stored
/// issue, and each issue's total is what its worklogs count.
pub open spec fn totals_match(store: StorageView) -> bool {
    &&& forall|i: int|
        0 <= i < store.issues.len() ==> issue_row_readable(#[trigger] store.issues[i])
    &&& forall|j: int|
        0 <= j < store.worklogs.len() ==> worklog_row_readable(#[trigger] store.worklogs[j])
    &&& forall|j: int|
        0 <= j < store.worklogs.len() ==> position(
            issue_ids(store.issues),
            (#[trigger] store.worklogs[j]).issue_id,
        ) is Some
    &&& forall|i: int|
        0 <= i < store.issues.len() ==> decimal_value(
            (#[trigger] store.issues[i]).time_tracked_all,
        ) == logged(store.worklogs, store.issues[i].id)
}

/// The totals match the worklogs, and a running session has counted
/// nothing yet and is on an issue that the store holds under the
/// session's key and id.
pub open spec fn balanced(state: StateView) -> bool {
    &&& totals_match(state.storage)
    &&& match state.session {
        None => true,
        Some(session) => {
            let at = position(issue_names(state.storage.issues), session.issue.name);
            &&& at is Some
            &&& state.storage.issues[at->0].id == session.issue.id
            &&& session.worklog.total_time == 0
        },
    }
}

/// A worklog appended to the table counts in addition to the others.
proof fn lemma_logged_push(rows: Seq<WorklogRow>, row: WorklogRow, issue_id: Seq<char>)
    ensures
        logged(rows.push(row), issue_id) == logged(rows, issue_id) + counted(row, issue_id),
{
    assert(rows.push(row).drop_last() =~= rows);
}

/// A worklog replaced in the table counts in place of the one it replaces.
proof fn lemma_logged_update(rows: Seq<WorklogRow>, at: int, row: WorklogRow, issue_id: Seq<char>)
    requires
        0 <= at < rows.len(),
    ensures
        logged(rows.update(at, row), issue_id) + counted(rows[at], issue_id) == logged(
            rows,
            issue_id,
        ) + counted(row, issue_id),
    decreases rows.len(),
{
    let changed = rows.update(at, row);
    if at == rows.len() - 1 {
        assert(changed.drop_last() =~= rows.drop_last());
    } else {
        assert(changed.drop_last() =~= rows.drop_last().update(at, row));
        lemma_logged_update(rows.drop_last(), at, row, issue_id);
    }
}

/// An issue that no worklog refers to has nothing logged.
proof fn lemma_logged_unreferenced(rows: Seq<WorklogRow>, issue_id: Seq<char>)
    requires
        forall|j: int| 0 <= j < rows.len() ==> (#[trigger] rows[j]).issue_id != issue_id,
    ensures
        logged(rows, issue_id) == 0,
    decreases rows.len(),
{
    if rows.len() > 0 {
        let earlier = rows.drop_last();
        assert forall|j: int| 0 <= j < earlier.len() implies (#[trigger] earlier[j]).issue_id
            != issue_id by {
            assert(earlier[j] == rows[j]);
        }
        lemma_logged_unreferenced(earlier, issue_id);
        assert(rows.last() == rows[rows.len() - 1]);
    }
}

/// A state with an empty store and no session is balanced.
pub proof fn law_empty_state_balanced(state: StateView)
    requires
        state.session is None,
        state.storage.issues.len() == 0,
        state.storage.worklogs.len() == 0,
    ensures
        balanced(state),
{
}

/// Adding an issue that has no time tracked keeps the state balanced.
pub proof fn law_add_issue_keeps_balanced(
    state: StateView,
    id: Seq<char>,
    name: Seq<char>,
    summary: Seq<char>,
)
    requires
        consistent(state),
        balanced(state),
    ensures
        balanced(after_command(state, Command::AddIssue { id, name, summary })),
{
    let issue = new_issue(id, name, summary, state.config.user);
    let next = after_command(state, Command::AddIssue { id, name, summary });
    if after_add_issue(state.storage, issue).1 is Ok {
        let rows = state.storage.issues;
        let logs = state.storage.worklogs;
        let added = next.storage.issues;
        assert(issue_ids(added) =~= issue_ids(rows).push(id));
        assert(issue_names(added) =~= issue_names(rows).push(name));
        lemma_issue_row_round_trip(issue);
        assert forall|j: int| 0 <= j < logs.len() implies (#[trigger] logs[j]).issue_id != id
            && position(issue_ids(added), logs[j].issue_id) is Some by {
            lemma_position_is_found(issue_ids(rows), logs[j].issue_id);
            lemma_position_after_append(issue_ids(rows), id, logs[j].issue_id);
        }
        lemma_logged_unreferenced(logs, id);
        assert forall|i: int| 0 <= i < added.len() implies issue_row_readable(
            #[trigger] added[i],
        ) && decimal_value(added[i].time_tracked_all) == logged(logs, added[i].id) by {
            if i < rows.len() {
                assert(added[i] == rows[i]);
            }
        }
        if state.session is Some {
            let key = state.session->0.issue.name;
            lemma_position_is_found(issue_names(rows), key);
            lemma_position_after_append(issue_names(rows), name, key);
        }
    }
}

/// Starting a session keeps the state balanced: the open worklog counts
/// nothing yet.
pub proof fn law_start_keeps_balanced(
    state: StateView,
    name: Seq<char>,
    clock: Option<u64>,
    worklog_id: Seq<char>,
)
    requires
        consistent(state),
        balanced(state),
    ensures
        balanced(after_start(state, name, clock, worklog_id).0),
{
    let (next, outcome) = after_start(state, name, clock, worklog_id);
    if outcome is Ok {
        let rows = state.storage.issues;
        let logs = state.storage.worklogs;
        lemma_position_is_found(issue_names(rows), name);
        let i = position(issue_names(rows), name)->0;
        let issue = issue_by_name(state.storage, name)->Ok_0;
        let worklog = open_worklog(worklog_id, issue, clock->0);
        let row = worklog_row(worklog);
        lemma_worklog_row_round_trip(worklog);
        lemma_text_round_trip(0);
        let longer = next.storage.worklogs;
        assert(longer == logs.push(row));
        assert(issue_ids(rows)[i] == issue.id);
        lemma_distinct_position(issue_ids(rows), i);
        assert forall|j: int| 0 <= j < longer.len() implies worklog_row_readable(
            #[trigger] longer[j],
        ) && position(issue_ids(rows), longer[j].issue_id) is Some by {
            if j < logs.len() {
                assert(longer[j] == logs[j]);
            }
        }
        assert forall|k: int| 0 <= k < rows.len() implies decimal_value(
            (#[trigger] rows[k]).time_tracked_all,
        ) == logged(longer, rows[k].id) by {
            lemma_logged_push(logs, row, rows[k].id);
        }
    }
}

/// Stopping keeps the state balanced: the duration goes to the issue's
/// total and to the session's worklog alike.
pub proof fn law_stop_keeps_balanced(state: StateView, clock: Option<u64>, elapsed: u64)
    requires
        consistent(state),
        balanced(state),
    ensures
        balanced(after_stop(state, clock, elapsed).0),
{
    let (saved, outcome) = after_save(state, clock, elapsed);
    if state.session is Some && clock is Some {
        let session = state.session->0;
        let rows = state.storage.issues;
        let logs = state.storage.worklogs;
        let i = position(issue_names(rows), session.issue.name)->0;
        lemma_position_is_found(issue_names(rows), session.issue.name);
        let issue = issue_by_name(state.storage, session.issue.name)->Ok_0;
        if issue.time_tracked_all + elapsed <= u64::MAX {
            let updated = IssueView {
                time_tracked_all: (issue.time_tracked_all + elapsed) as u64,
                ..issue
            };
            assert(issue_ids(rows)[i] == issue.id);
            lemma_distinct_position(issue_ids(rows), i);
            lemma_issue_row_round_trip(updated);
            let with_issue = after_edit_issue(state.storage, updated).0;
            let at = position(worklog_ids(logs), session.worklog.id)->0;
            lemma_position_is_found(worklog_ids(logs), session.worklog.id);
            let closed = WorklogView {
                end: clock->0,
                total_time: elapsed,
                issue_id: logs[at].issue_id,
                ..session.worklog
            };
            lemma_worklog_row_round_trip(closed);
            let new_rows = saved.storage.issues;
            let new_logs = saved.storage.worklogs;
            assert(new_rows == rows.update(i, issue_row(updated)));
            assert(new_logs == logs.update(at, worklog_row(closed)));
            assert(issue_ids(new_rows) =~= issue_ids(rows));
            assert(counted(logs[at], issue.id) == 0);
            assert forall|j: int| 0 <= j < new_logs.len() implies worklog_row_readable(
                #[trigger] new_logs[j],
            ) && position(issue_ids(new_rows), new_logs[j].issue_id) is Some by {
                if j != at {
                    assert(new_logs[j] == logs[j]);
                }
            }
            assert forall|k: int| 0 <= k < new_rows.len() implies issue_row_readable(
                #[trigger] new_rows[k],
            ) && decimal_value(new_rows[k].time_tracked_all) == logged(
                new_logs,
                new_rows[k].id,
            ) by {
                lemma_logged_update(logs, at, worklog_row(closed), rows[k].id);
                if k != i {
                    assert(new_rows[k] == rows[k]);
                    assert(issue_ids(rows)[k] != issue_ids(rows)[i]);
                }
            }
        }
    }
}

/// Whatever operations are made on a state that is consistent and
/// balanced, the state stays balanced: each issue's total is the sum of
/// the seconds of its worklogs. The one condition is that no session is
/// closed with the wall clock reading the epoch itself.
pub proof fn law_always_balanced(state: StateView, commands: Seq<Command>)
    requires
        consistent(state),
        balanced(state),
        forall|i: int| 0 <= i < commands.len() ==> closes_after_epoch(#[trigger] commands[i]),
    ensures
        balanced(after_commands(state, commands)),
        totals_match(after_commands(state, commands).storage),
    decreases commands.len(),
{
    if commands.len() > 0 {
        let earlier = commands.drop_last();
        assert forall|i: int| 0 <= i < earlier.len() implies closes_after_epoch(
            #[trigger] earlier[i],
        ) by {
            assert(earlier[i] == commands[i]);
        }
        law_always_balanced(state, earlier);
        law_always_consistent(state, earlier);
        let before = after_commands(state, earlier);
        assert(closes_after_epoch(commands[commands.len() - 1]));
        match commands.last() {
            Command::AddIssue { id, name, summary } => {
                law_add_issue_keeps_balanced(before, id, name, summary);
            },
            Command::Start { name, clock, worklog_id } => {
                law_start_keeps_balanced(before, name, clock, worklog_id);
            },
            Command::Stop { clock, elapsed } => {
                law_stop_keeps_balanced(before, clock, elapsed);
            },
            Command::Switch { name, stop_clock, elapsed, start_clock, worklog_id } => {
                law_stop_keeps_balanced(before, stop_clock, elapsed);
                law_stop_keeps_consistent(before, stop_clock, elapsed);
                let stopped = after_stop(before, stop_clock, elapsed).0;
                law_start_keeps_balanced(stopped, name, start_clock, worklog_id);
            },
            Command::Flush { clock, elapsed } => {
                law_stop_keeps_balanced(before, clock, elapsed);
            },
        }
    }
}

} // verus!
