//! What holds of the tracker over several operations.
//!
//! The laws are stated over the rules of the session and the store, which
//! are what the operations are proved to follow.

use vstd::prelude::*;
use crate::decimal::{decimal_value, is_decimal, lemma_text_round_trip};
use crate::error::TrackerError;
use crate::issue::IssueView;
use crate::lookup::{
    distinct, lemma_distinct_after_append, lemma_distinct_position, lemma_position_after_append,
    lemma_position_is_found, lemma_position_of_appended, position,
};
use crate::recent::recent_after;
use crate::rows::{
    lemma_issue_row_round_trip, lemma_worklog_row_round_trip, read_worklog_row, worklog_row,
    WorklogRow,
};
use crate::session::{
    after_exit, after_save, after_start, after_stop, after_switch, new_issue, open_worklog,
    StateView,
};
use crate::storage::{
    after_add_issue, after_add_worklog, after_edit_issue, after_edit_worklog, issue_by_name,
    issue_ids, issue_names, worklog_by_id, worklog_ids, StorageView,
};
use crate::worklog::WorklogView;

verus! {

/// No two issues share an id or a key, and no two worklogs share an id.
pub open spec fn keys_distinct(store: StorageView) -> bool {
    &&& distinct(issue_ids(store.issues))
    &&& distinct(issue_names(store.issues))
    &&& distinct(worklog_ids(store.worklogs))
}

/// An issue that was added is read back, by its key, as it was given.
pub proof fn law_issue_round_trip(store: StorageView, issue: IssueView)
    requires
        after_add_issue(store, issue).1 is Ok,
    ensures
        after_add_issue(store, issue).1 == Ok::<IssueView, TrackerError>(issue),
        issue_by_name(after_add_issue(store, issue).0, issue.name) == Ok::<
            IssueView,
            TrackerError,
        >(issue),
{
    let stored = after_add_issue(store, issue).0;
    assert(issue_names(stored.issues) =~= issue_names(store.issues).push(issue.name));
    lemma_position_of_appended(issue_names(store.issues), issue.name);
    lemma_issue_row_round_trip(issue);
}

/// A worklog that was added is read back, by its id, as it was given.
pub proof fn law_worklog_round_trip(store: StorageView, worklog: WorklogView)
    requires
        after_add_worklog(store, worklog).1 is Ok,
    ensures
        after_add_worklog(store, worklog).1 == Ok::<WorklogView, TrackerError>(worklog),
        worklog_by_id(after_add_worklog(store, worklog).0, worklog.id) == Ok::<
            WorklogView,
            TrackerError,
        >(worklog),
{
    let stored = after_add_worklog(store, worklog).0;
    assert(worklog_ids(stored.worklogs) =~= worklog_ids(store.worklogs).push(worklog.id));
    lemma_position_of_appended(worklog_ids(store.worklogs), worklog.id);
    lemma_worklog_row_round_trip(worklog);
}

/// An issue that was replaced is read back, by its key, as it was given,
/// provided that no other issue has that key.
pub proof fn law_edited_issue_round_trip(store: StorageView, issue: IssueView)
    requires
        after_edit_issue(store, issue).1 is Ok,
        distinct(issue_names(after_edit_issue(store, issue).0.issues)),
    ensures
        after_edit_issue(store, issue).1 == Ok::<IssueView, TrackerError>(issue),
        issue_by_name(after_edit_issue(store, issue).0, issue.name) == Ok::<
            IssueView,
            TrackerError,
        >(issue),
{
    let stored = after_edit_issue(store, issue).0;
    lemma_position_is_found(issue_ids(store.issues), issue.id);
    let at = position(issue_ids(store.issues), issue.id)->0;
    assert(issue_names(stored.issues)[at] == issue.name);
    lemma_distinct_position(issue_names(stored.issues), at);
    lemma_issue_row_round_trip(issue);
}

/// A worklog whose times were set is read back, by its id, with those
/// times and the issue it referred to before.
pub proof fn law_edited_worklog_round_trip(store: StorageView, worklog: WorklogView)
    requires
        after_edit_worklog(store, worklog).1 is Ok,
    ensures
        worklog_by_id(after_edit_worklog(store, worklog).0, worklog.id) == after_edit_worklog(
            store,
            worklog,
        ).1,
        after_edit_worklog(store, worklog).1->Ok_0.start == worklog.start,
        after_edit_worklog(store, worklog).1->Ok_0.end == worklog.end,
        after_edit_worklog(store, worklog).1->Ok_0.total_time == worklog.total_time,
        worklog_by_id(store, worklog.id) is Ok ==> after_edit_worklog(
            store,
            worklog,
        ).1->Ok_0.issue_id == worklog_by_id(store, worklog.id)->Ok_0.issue_id,
{
    let stored = after_edit_worklog(store, worklog).0;
    lemma_position_is_found(worklog_ids(store.worklogs), worklog.id);
    assert(worklog_ids(stored.worklogs) =~= worklog_ids(store.worklogs));
    lemma_worklog_row_round_trip(after_edit_worklog(store, worklog).1->Ok_0);
}

/// Adding an issue keeps ids and keys distinct, whether it goes through or not.
pub proof fn law_add_issue_keeps_keys_distinct(store: StorageView, issue: IssueView)
    requires
        keys_distinct(store),
    ensures
        keys_distinct(after_add_issue(store, issue).0),
{
    let stored = after_add_issue(store, issue).0;
    if after_add_issue(store, issue).1 is Ok {
        assert(issue_names(stored.issues) =~= issue_names(store.issues).push(issue.name));
        assert(issue_ids(stored.issues) =~= issue_ids(store.issues).push(issue.id));
    }
}

/// A session that is started and then stopped adds its measured duration
/// to the issue's total and to nothing else of the issue, and leaves a
/// worklog that holds the two clock readings and the duration.
pub proof fn law_aggregate_consistency(
    state: StateView,
    name: Seq<char>,
    worklog_id: Seq<char>,
    start_clock: Option<u64>,
    stop_clock: Option<u64>,
    elapsed: u64,
)
    requires
        distinct(issue_ids(state.storage.issues)),
        after_start(state, name, start_clock, worklog_id).1 is Ok,
        after_stop(
            after_start(state, name, start_clock, worklog_id).0,
            stop_clock,
            elapsed,
        ).1 is Ok,
    ensures
        ({
            let started = after_start(state, name, start_clock, worklog_id).0;
            let stopped = after_stop(started, stop_clock, elapsed).0;
            let before = issue_by_name(state.storage, name);
            let after = issue_by_name(stopped.storage, name);
            &&& before is Ok
            &&& start_clock is Some
            &&& stop_clock is Some
            &&& after == Ok::<IssueView, TrackerError>(
                IssueView {
                    time_tracked_all: (before->Ok_0.time_tracked_all + elapsed) as u64,
                    ..before->Ok_0
                },
            )
            &&& before->Ok_0.time_tracked_all + elapsed <= u64::MAX
            &&& worklog_by_id(stopped.storage, worklog_id) == Ok::<WorklogView, TrackerError>(
                WorklogView {
                    id: worklog_id,
                    issue_id: before->Ok_0.id,
                    start: start_clock->0,
                    end: stop_clock->0,
                    total_time: elapsed,
                },
            )
            &&& stopped.session is None
        }),
{
    let started = after_start(state, name, start_clock, worklog_id).0;
    let stopped = after_stop(started, stop_clock, elapsed).0;
    let rows = state.storage.issues;
    let names = issue_names(rows);
    let ids = issue_ids(rows);
    lemma_position_is_found(names, name);
    let i = position(names, name)->0;
    let issue = issue_by_name(state.storage, name)->Ok_0;
    assert(issue.name == name);
    let worklog = open_worklog(worklog_id, issue, start_clock->0);
    // the worklog went to the end of its table
    let logs = state.storage.worklogs;
    assert(worklog_ids(started.storage.worklogs) =~= worklog_ids(logs).push(worklog_id));
    lemma_position_of_appended(worklog_ids(logs), worklog_id);
    // stopping reads the same row and writes it back in place
    assert(started.storage.issues == rows);
    assert(ids[i] == issue.id);
    lemma_distinct_position(ids, i);
    let updated = IssueView {
        time_tracked_all: (issue.time_tracked_all + elapsed) as u64,
        ..issue
    };
    let with_issue = after_edit_issue(started.storage, updated).0;
    assert(issue_names(with_issue.issues) =~= names);
    lemma_issue_row_round_trip(updated);
    let closed = WorklogView { end: stop_clock->0, total_time: elapsed, ..worklog };
    let with_both = after_edit_worklog(with_issue, closed).0;
    assert(worklog_ids(with_both.worklogs) =~= worklog_ids(started.storage.worklogs));
    lemma_worklog_row_round_trip(closed);
    lemma_text_round_trip(0);
}

/// Stopping when no session runs changes nothing and succeeds, whatever
/// the clocks read.
pub proof fn law_stop_when_idle(state: StateView, clock: Option<u64>, elapsed: u64)
    requires
        state.session is None,
    ensures
        after_stop(state, clock, elapsed) == (state, Ok::<(), TrackerError>(())),
{
}

/// The flush made before the program ends leaves the issues and the
/// worklogs as stopping with the same readings does, and has the same outcome.
pub proof fn law_flush_as_stop(state: StateView, clock: Option<u64>, elapsed: u64)
    ensures
        after_exit(state, clock, elapsed).1 == after_stop(state, clock, elapsed).1,
        after_exit(state, clock, elapsed).0.storage.issues == after_stop(
            state,
            clock,
            elapsed,
        ).0.storage.issues,
        after_exit(state, clock, elapsed).0.storage.worklogs == after_stop(
            state,
            clock,
            elapsed,
        ).0.storage.worklogs,
        after_exit(state, clock, elapsed).0.session == after_stop(state, clock, elapsed).0.session,
        after_exit(state, clock, elapsed).1 is Ok ==> after_exit(
            state,
            clock,
            elapsed,
        ).0.storage.recent_issues == state.recent_issues,
{
}

/// The row stands for a session that has not been closed: its end reads as zero.
pub open spec fn row_is_open(row: WorklogRow) -> bool {
    is_decimal(row.end) && decimal_value(row.end) == 0
}

/// No worklog of the table is open.
pub open spec fn none_open(rows: Seq<WorklogRow>) -> bool {
    forall|i: int| 0 <= i < rows.len() ==> !row_is_open(#[trigger] rows[i])
}

/// The worklog at `at` is open and no other is.
pub open spec fn only_open_at(rows: Seq<WorklogRow>, at: int) -> bool {
    &&& 0 <= at < rows.len()
    &&& row_is_open(rows[at])
    &&& forall|j: int| 0 <= j < rows.len() && j != at ==> !row_is_open(#[trigger] rows[j])
}

/// At most one worklog of the table is open.
pub open spec fn at_most_one_open(rows: Seq<WorklogRow>) -> bool {
    forall|i: int, j: int|
        0 <= i < rows.len() && 0 <= j < rows.len() && row_is_open(#[trigger] rows[i])
            && row_is_open(#[trigger] rows[j]) ==> i == j
}

/// The state is consistent: keys are distinct, and a session runs exactly
/// when the store holds an open worklog, which is then the session's own,
/// refers to the session's issue, and is the only open one.
pub open spec fn consistent(state: StateView) -> bool {
    &&& keys_distinct(state.storage)
    &&& match state.session {
        None => none_open(state.storage.worklogs),
        Some(session) => {
            let rows = state.storage.worklogs;
            let at = position(worklog_ids(rows), session.worklog.id);
            &&& session.worklog.issue_id == session.issue.id
            &&& at is Some
            &&& only_open_at(rows, at->0)
            &&& read_worklog_row(rows[at->0]) == Ok::<WorklogView, TrackerError>(
                session.worklog,
            )
        },
    }
}

/// In a consistent state at most one worklog is open, and one is open
/// exactly when a session runs.
pub proof fn law_mutual_exclusion(state: StateView)
    requires
        consistent(state),
    ensures
        at_most_one_open(state.storage.worklogs),
        state.session is Some <==> exists|i: int|
            0 <= i < state.storage.worklogs.len() && row_is_open(
                #[trigger] state.storage.worklogs[i],
            ),
{
    let rows = state.storage.worklogs;
    if state.session is Some {
        let at = position(worklog_ids(rows), state.session->0.worklog.id)->0;
        assert(row_is_open(rows[at]));
    }
}

/// A state with an empty store and no session is consistent.
pub proof fn law_empty_state_consistent(state: StateView)
    requires
        state.session is None,
        state.storage.issues.len() == 0,
        state.storage.worklogs.len() == 0,
    ensures
        consistent(state),
{
}

/// Starting a session keeps the state consistent, whether it goes
/// through or not.
pub proof fn law_start_keeps_consistent(
    state: StateView,
    name: Seq<char>,
    clock: Option<u64>,
    worklog_id: Seq<char>,
)
    requires
        consistent(state),
    ensures
        consistent(after_start(state, name, clock, worklog_id).0),
{
    let (next, outcome) = after_start(state, name, clock, worklog_id);
    if outcome is Ok {
        let rows = state.storage.worklogs;
        let issue = issue_by_name(state.storage, name)->Ok_0;
        let worklog = open_worklog(worklog_id, issue, clock->0);
        assert(worklog_ids(next.storage.worklogs) =~= worklog_ids(rows).push(worklog_id));
        lemma_position_of_appended(worklog_ids(rows), worklog_id);
        lemma_distinct_after_append(worklog_ids(rows), worklog_id);
        lemma_worklog_row_round_trip(worklog);
        lemma_text_round_trip(0);
        let longer = next.storage.worklogs;
        assert forall|j: int| 0 <= j < longer.len() && j != rows.len() implies !row_is_open(
            #[trigger] longer[j],
        ) by {
            assert(longer[j] == rows[j]);
        }
    }
}

/// While a session runs no second one can be started: after a start that
/// went through, every further start is refused and changes nothing.
pub proof fn law_second_start_refused(
    state: StateView,
    name: Seq<char>,
    clock: Option<u64>,
    worklog_id: Seq<char>,
    other_name: Seq<char>,
    other_clock: Option<u64>,
    other_worklog_id: Seq<char>,
)
    requires
        after_start(state, name, clock, worklog_id).1 is Ok,
    ensures
        after_start(
            after_start(state, name, clock, worklog_id).0,
            other_name,
            other_clock,
            other_worklog_id,
        ) == (
            after_start(state, name, clock, worklog_id).0,
            Err::<(), TrackerError>(TrackerError::AlreadyTracking),
        ),
{
}

/// Writing the session's issue back leaves the columns of ids and keys
/// as they were.
proof fn lemma_save_keeps_keys(state: StateView, clock: Option<u64>, elapsed: u64)
    requires
        keys_distinct(state.storage),
    ensures
        issue_ids(after_save(state, clock, elapsed).0.storage.issues) == issue_ids(
            state.storage.issues,
        ),
        issue_names(after_save(state, clock, elapsed).0.storage.issues) == issue_names(
            state.storage.issues,
        ),
        worklog_ids(after_save(state, clock, elapsed).0.storage.worklogs) == worklog_ids(
            state.storage.worklogs,
        ),
        after_save(state, clock, elapsed).0.session == state.session,
        after_save(state, clock, elapsed).0.recent_issues == state.recent_issues,
{
    let next = after_save(state, clock, elapsed).0;
    if state.session is Some && clock is Some {
        let session = state.session->0;
        let rows = state.storage.issues;
        if issue_by_name(state.storage, session.issue.name) is Ok {
            let issue = issue_by_name(state.storage, session.issue.name)->Ok_0;
            lemma_position_is_found(issue_names(rows), session.issue.name);
            let i = position(issue_names(rows), session.issue.name)->0;
            assert(issue_ids(rows)[i] == issue.id);
            lemma_distinct_position(issue_ids(rows), i);
        }
        let logs = worklog_ids(state.storage.worklogs);
        if position(logs, session.worklog.id) is Some {
            lemma_position_is_found(logs, session.worklog.id);
        }
    }
    assert(issue_ids(next.storage.issues) =~= issue_ids(state.storage.issues));
    assert(issue_names(next.storage.issues) =~= issue_names(state.storage.issues));
    assert(worklog_ids(next.storage.worklogs) =~= worklog_ids(state.storage.worklogs));
}

/// Stopping keeps the state consistent, whether it goes through or not,
/// for every clock reading but the epoch itself: a worklog closed at
/// second zero could not be told from an open one.
pub proof fn law_stop_keeps_consistent(state: StateView, clock: Option<u64>, elapsed: u64)
    requires
        consistent(state),
        clock != Some(0u64),
    ensures
        consistent(after_stop(state, clock, elapsed).0),
        after_stop(state, clock, elapsed).1 is Ok ==> after_stop(
            state,
            clock,
            elapsed,
        ).0.session is None,
        state.session is Some && after_stop(state, clock, elapsed).1 is Ok ==> worklog_by_id(
            after_stop(state, clock, elapsed).0.storage,
            state.session->0.worklog.id,
        ) == Ok::<WorklogView, TrackerError>(
            WorklogView { end: clock->0, total_time: elapsed, ..state.session->0.worklog },
        ),
{
    lemma_save_keeps_keys(state, clock, elapsed);
    let (saved, outcome) = after_save(state, clock, elapsed);
    if state.session is Some {
        let session = state.session->0;
        let rows = state.storage.worklogs;
        let at = position(worklog_ids(rows), session.worklog.id)->0;
        if outcome is Ok {
            let closed = WorklogView {
                end: clock->0,
                total_time: elapsed,
                issue_id: rows[at].issue_id,
                ..session.worklog
            };
            lemma_worklog_row_round_trip(closed);
            let after = saved.storage.worklogs;
            assert(after == rows.update(at, worklog_row(closed)));
            assert forall|j: int| 0 <= j < after.len() implies !row_is_open(
                #[trigger] after[j],
            ) by {
                if j != at {
                    assert(after[j] == rows[j]);
                }
            }
        } else {
            assert(saved.storage.worklogs == rows);
        }
    }
}

/// The flush made before the program ends keeps the state consistent,
/// under the same condition as stopping.
pub proof fn law_exit_keeps_consistent(state: StateView, clock: Option<u64>, elapsed: u64)
    requires
        consistent(state),
        clock != Some(0u64),
    ensures
        consistent(after_exit(state, clock, elapsed).0),
{
    law_stop_keeps_consistent(state, clock, elapsed);
}

/// Switching from a running session to another issue closes the running
/// session's worklog, with the reading of the wall clock and the measured
/// duration, and opens one for the new issue, which is then the only open
/// worklog in the store.
pub proof fn law_switch(
    state: StateView,
    name: Seq<char>,
    stop_clock: Option<u64>,
    elapsed: u64,
    start_clock: Option<u64>,
    worklog_id: Seq<char>,
)
    requires
        consistent(state),
        state.session is Some,
        stop_clock != Some(0u64),
        after_switch(state, name, stop_clock, elapsed, start_clock, worklog_id).1 is Ok,
    ensures
        ({
            let next = after_switch(state, name, stop_clock, elapsed, start_clock, worklog_id).0;
            let previous = state.session->0.worklog;
            &&& consistent(next)
            &&& stop_clock is Some
            &&& start_clock is Some
            &&& worklog_by_id(next.storage, previous.id) == Ok::<WorklogView, TrackerError>(
                WorklogView { end: stop_clock->0, total_time: elapsed, ..previous },
            )
            &&& next.session is Some
            &&& next.session->0.issue.name == name
            &&& next.session->0.worklog == open_worklog(
                worklog_id,
                next.session->0.issue,
                start_clock->0,
            )
            &&& worklog_by_id(next.storage, worklog_id) == Ok::<WorklogView, TrackerError>(
                next.session->0.worklog,
            )
            &&& at_most_one_open(next.storage.worklogs)
        }),
{
    let stopped = after_stop(state, stop_clock, elapsed).0;
    law_stop_keeps_consistent(state, stop_clock, elapsed);
    law_start_keeps_consistent(stopped, name, start_clock, worklog_id);
    let next = after_start(stopped, name, start_clock, worklog_id).0;
    law_mutual_exclusion(next);
    let previous = state.session->0.worklog;
    let rows = stopped.storage.worklogs;
    let issue = issue_by_name(stopped.storage, name)->Ok_0;
    lemma_position_is_found(issue_names(stopped.storage.issues), name);
    law_worklog_round_trip(stopped.storage, open_worklog(worklog_id, issue, start_clock->0));
    assert(worklog_ids(next.storage.worklogs) =~= worklog_ids(rows).push(worklog_id));
    lemma_position_is_found(worklog_ids(rows), previous.id);
    lemma_position_after_append(worklog_ids(rows), worklog_id, previous.id);
}

/// A switch that goes through puts the key at the end of the recent
/// list, from which the oldest entries leave until it fits; stopping
/// leaves the list alone.
pub proof fn law_switch_records_key(
    state: StateView,
    name: Seq<char>,
    stop_clock: Option<u64>,
    elapsed: u64,
    start_clock: Option<u64>,
    worklog_id: Seq<char>,
)
    requires
        after_switch(state, name, stop_clock, elapsed, start_clock, worklog_id).1 is Ok,
    ensures
        after_switch(
            state,
            name,
            stop_clock,
            elapsed,
            start_clock,
            worklog_id,
        ).0.recent_issues == recent_after(state.recent_issues, name),
        after_stop(state, stop_clock, elapsed).0.recent_issues == state.recent_issues,
{
    let stopped = after_stop(state, stop_clock, elapsed).0;
    lemma_position_is_found(issue_names(stopped.storage.issues), name);
}

/// Switching keeps the state consistent, whether it goes through or not.
pub proof fn law_switch_keeps_consistent(
    state: StateView,
    name: Seq<char>,
    stop_clock: Option<u64>,
    elapsed: u64,
    start_clock: Option<u64>,
    worklog_id: Seq<char>,
)
    requires
        consistent(state),
        stop_clock != Some(0u64),
    ensures
        consistent(after_switch(state, name, stop_clock, elapsed, start_clock, worklog_id).0),
{
    let stopped = after_stop(state, stop_clock, elapsed).0;
    law_stop_keeps_consistent(state, stop_clock, elapsed);
    law_start_keeps_consistent(stopped, name, start_clock, worklog_id);
}

/// One operation of the tracker, with the readings it is made with.
pub ghost enum Command {
    AddIssue { id: Seq<char>, name: Seq<char>, summary: Seq<char> },
    Start { name: Seq<char>, clock: Option<u64>, worklog_id: Seq<char> },
    Stop { clock: Option<u64>, elapsed: u64 },
    Switch {
        name: Seq<char>,
        stop_clock: Option<u64>,
        elapsed: u64,
        start_clock: Option<u64>,
        worklog_id: Seq<char>,
    },
    Flush { clock: Option<u64>, elapsed: u64 },
}

/// The wall-clock reading with which the operation would close a session
/// is not the epoch itself.
pub open spec fn closes_after_epoch(command: Command) -> bool {
    match command {
        Command::AddIssue { .. } => true,
        Command::Start { .. } => true,
        Command::Stop { clock, .. } => clock != Some(0u64),
        Command::Switch { stop_clock, .. } => stop_clock != Some(0u64),
        Command::Flush { clock, .. } => clock != Some(0u64),
    }
}

/// The state after one operation, whether it went through or not.
pub open spec fn after_command(state: StateView, command: Command) -> StateView {
    match command {
        Command::AddIssue { id, name, summary } => StateView {
            storage: after_add_issue(
                state.storage,
                new_issue(id, name, summary, state.config.user),
            ).0,
            ..state
        },
        Command::Start { name, clock, worklog_id } => after_start(
            state,
            name,
            clock,
            worklog_id,
        ).0,
        Command::Stop { clock, elapsed } => after_stop(state, clock, elapsed).0,
        Command::Switch { name, stop_clock, elapsed, start_clock, worklog_id } => after_switch(
            state,
            name,
            stop_clock,
            elapsed,
            start_clock,
            worklog_id,
        ).0,
        Command::Flush { clock, elapsed } => after_exit(state, clock, elapsed).0,
    }
}

/// The state after a run of operations, made one after the other.
pub open spec fn after_commands(state: StateView, commands: Seq<Command>) -> StateView
    decreases commands.len(),
{
    if commands.len() == 0 {
        state
    } else {
        after_command(after_commands(state, commands.drop_last()), commands.last())
    }
}

/// Whatever operations are made on a consistent state, in whatever order
/// and whether they go through or not, the state stays consistent: the
/// store never holds two open worklogs, and it holds one exactly while a
/// session runs. The one condition is that no session is closed with the
/// wall clock reading the epoch itself.
pub proof fn law_always_consistent(state: StateView, commands: Seq<Command>)
    requires
        consistent(state),
        forall|i: int| 0 <= i < commands.len() ==> closes_after_epoch(#[trigger] commands[i]),
    ensures
        consistent(after_commands(state, commands)),
        at_most_one_open(after_commands(state, commands).storage.worklogs),
    decreases commands.len(),
{
    if commands.len() > 0 {
        let earlier = commands.drop_last();
        assert forall|i: int| 0 <= i < earlier.len() implies closes_after_epoch(
            #[trigger] earlier[i],
        ) by {
            assert(earlier[i] == commands[i]);
        }
        law_always_consistent(state, earlier);
        let before = after_commands(state, earlier);
        assert(closes_after_epoch(commands[commands.len() - 1]));
        match commands.last() {
            Command::AddIssue { id, name, summary } => {
                law_add_issue_keeps_keys_distinct(
                    before.storage,
                    new_issue(id, name, summary, before.config.user),
                );
            },
            Command::Start { name, clock, worklog_id } => {
                law_start_keeps_consistent(before, name, clock, worklog_id);
            },
            Command::Stop { clock, elapsed } => {
                law_stop_keeps_consistent(before, clock, elapsed);
            },
            Command::Switch { name, stop_clock, elapsed, start_clock, worklog_id } => {
                law_switch_keeps_consistent(
                    before,
                    name,
                    stop_clock,
                    elapsed,
                    start_clock,
                    worklog_id,
                );
            },
            Command::Flush { clock, elapsed } => {
                law_exit_keeps_consistent(before, clock, elapsed);
            },
        }
    }
    law_mutual_exclusion(after_commands(state, commands));
}

} // verus!
