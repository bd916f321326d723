//! The operations of the tracker.
//!
//! Each takes the whole state by `&mut`, so no two of them can run at once
//! on one state. The operations that need the time or a fresh id come in
//! two forms: one takes the readings as arguments and says exactly what it
//! does with them; the other takes the readings itself and then does what
//! the first does.

use std::time::Instant;
use vstd::prelude::*;
use vstd::string::*;
use crate::clock::{elapsed_seconds, epoch_seconds};
use crate::error::TrackerError;
use crate::ids::fresh_id;
use crate::issue::{Issue, IssueView};
use crate::recent::{push_recent, recent_after};
use crate::rows::issue_result_view;
use crate::session::{
    after_exit, after_save, after_start, after_stop, after_switch, new_issue, AppState,
    StateView, TracingInfo,
};
use crate::storage::{after_add_issue, all_issues, issue_views, texts};
use crate::worklog::Worklog;

verus! {

/// Every issue of the store, in table order; `CorruptData` if a row
/// cannot be read.
pub fn get_issues(state: &AppState) -> (issues: Result<Vec<Issue>, TrackerError>)
    ensures
        match issues {
            Ok(list) => all_issues(state@.storage) == Ok::<Seq<IssueView>, TrackerError>(
                issue_views(list@),
            ),
            Err(e) => all_issues(state@.storage) == Err::<Seq<IssueView>, TrackerError>(e),
        },
{
    state.storage.get_issues()
}

/// Adds an issue with the id `id`, the key `name` and the given summary,
/// assigned to the configured account, with no url and no time tracked.
/// `Conflict` if the id or the key is taken; nothing changes then.
pub fn add_issue_with_id(id: String, name: String, summary: String, state: &mut AppState) -> (issue:
    Result<Issue, TrackerError>)
    ensures
        (final(state)@.storage, issue_result_view(issue)) == after_add_issue(
            old(state)@.storage,
            new_issue(id@, name@, summary@, old(state)@.config.user),
        ),
        final(state)@ == (StateView { storage: final(state)@.storage, ..old(state)@ }),
{
    let issue = Issue {
        id,
        name,
        url: String::new(),
        summary,
        assignee_email: state.jira_config.user.clone(),
        time_tracked_all: 0,
    };
    state.storage.add_issue(issue)
}

/// Adds an issue under a fresh id of thirty-six characters: what
/// [`add_issue_with_id`] does, for an id that is not known beforehand.
pub fn add_issue(name: String, summary: String, state: &mut AppState) -> (issue: Result<
    Issue,
    TrackerError,
>)
    ensures
        exists|id: Seq<char>|
            id.len() == 36 && (final(state)@.storage, issue_result_view(issue)) == after_add_issue(
                old(state)@.storage,
                new_issue(id, name@, summary@, old(state)@.config.user),
            ),
        final(state)@ == (StateView { storage: final(state)@.storage, ..old(state)@ }),
{
    add_issue_with_id(fresh_id(), name, summary, state)
}

/// The key of the issue being tracked, or `None` when no session runs.
pub fn get_tracing_issue_name(state: &AppState) -> (name: Option<String>)
    ensures
        match name {
            Some(key) => state@.session is Some && key@ == state@.session->0.issue.name,
            None => state@.session is None,
        },
{
    match &state.tracing_info {
        Some(info) => Some(info.time_tracing_issue.name.clone()),
        None => None,
    }
}

/// The seconds the running session has lasted on the monotonic clock;
/// zero when no session runs.
pub fn get_elapsed_time(state: &AppState) -> (seconds: u64)
    ensures
        state@.session is None ==> seconds == 0,
{
    match &state.tracing_info {
        Some(info) => elapsed_seconds(&info.start_time),
        None => 0,
    }
}

/// Starts a session on the issue with the key `name`, given the
/// wall-clock reading, the id for the new worklog and the reading of the
/// monotonic clock to measure from.
pub fn start_tracking_at(
    name: String,
    state: &mut AppState,
    clock: Option<u64>,
    worklog_id: String,
    start_time: Instant,
) -> (outcome: Result<(), TrackerError>)
    ensures
        (final(state)@, outcome) == after_start(old(state)@, name@, clock, worklog_id@),
{
    if state.tracing_info.is_some() {
        return Err(TrackerError::AlreadyTracking);
    }
    let issue = match state.storage.get_issue(name) {
        Ok(issue) => issue,
        Err(e) => return Err(e),
    };
    let now = match clock {
        Some(now) => now,
        None => return Err(TrackerError::ClockError),
    };
    let worklog = Worklog {
        id: worklog_id,
        issue_id: issue.id.clone(),
        start: now,
        end: 0,
        total_time: 0,
    };
    match state.storage.add_worklog(worklog.clone()) {
        Ok(_) => {},
        Err(e) => return Err(e),
    }
    add_to_recent_issues(&issue.name, state);
    state.tracing_info = Some(
        TracingInfo { time_tracing_issue: issue, current_worklog: worklog, start_time },
    );
    Ok(())
}

/// Starts a session on the issue with the key `name`, reading the clocks
/// and drawing a fresh worklog id of thirty-six characters: what
/// [`start_tracking_at`] does, for readings that are not known beforehand.
pub fn start_tracking(name: String, state: &mut AppState) -> (outcome: Result<(), TrackerError>)
    ensures
        exists|clock: Option<u64>, worklog_id: Seq<char>|
            worklog_id.len() == 36 && (final(state)@, outcome) == after_start(
                old(state)@,
                name@,
                clock,
                worklog_id,
            ),
        old(state)@.session is Some ==> outcome == Err::<(), TrackerError>(
            TrackerError::AlreadyTracking,
        ) && final(state)@ == old(state)@,
{
    let clock = epoch_seconds();
    let worklog_id = fresh_id();
    let start_time = Instant::now();
    start_tracking_at(name, state, clock, worklog_id, start_time)
}

/// Puts `issue_name` at the end of the recent list; the oldest entries
/// leave until the list fits.
pub fn add_to_recent_issues(issue_name: &String, state: &mut AppState)
    ensures
        final(state)@ == (StateView {
            recent_issues: recent_after(old(state)@.recent_issues, issue_name@),
            ..old(state)@
        }),
{
    push_recent(&mut state.recent_issues, issue_name.clone());
}

/// Writes the running session to the store, given the wall-clock reading
/// and the seconds measured; the session itself stays.
pub fn save_tracing_at(state: &mut AppState, clock: Option<u64>, elapsed: u64) -> (outcome: Result<
    (),
    TrackerError,
>)
    ensures
        (final(state)@, outcome) == after_save(old(state)@, clock, elapsed),
{
    let (name, mut worklog) = match &state.tracing_info {
        Some(info) => (info.time_tracing_issue.name.clone(), info.current_worklog.clone()),
        None => return Ok(()),
    };
    let now = match clock {
        Some(now) => now,
        None => return Err(TrackerError::ClockError),
    };
    worklog.end = now;
    worklog.total_time = elapsed;
    let mut issue = match state.storage.get_issue(name) {
        Ok(issue) => issue,
        Err(e) => return Err(e),
    };
    if issue.time_tracked_all > u64::MAX - elapsed {
        return Err(TrackerError::Overflow);
    }
    issue.time_tracked_all = issue.time_tracked_all + elapsed;
    match state.storage.edit_issue(issue) {
        Ok(_) => {},
        Err(e) => return Err(e),
    }
    match state.storage.edit_worklog(worklog) {
        Ok(_) => Ok(()),
        Err(e) => Err(e),
    }
}

/// The readings for closing the running session: the wall clock, and the
/// seconds since the session started (zero when none runs).
fn closing_readings(state: &AppState) -> (readings: (Option<u64>, u64))
    ensures
        state@.session is None ==> readings.1 == 0,
{
    let elapsed = get_elapsed_time(state);
    (epoch_seconds(), elapsed)
}

/// Writes the running session to the store, reading the clocks: what
/// [`save_tracing_at`] does, for readings that are not known beforehand.
pub fn save_tracing(state: &mut AppState) -> (outcome: Result<(), TrackerError>)
    ensures
        exists|clock: Option<u64>, elapsed: u64|
            (final(state)@, outcome) == after_save(old(state)@, clock, elapsed),
        old(state)@.session is None ==> outcome is Ok && final(state)@ == old(state)@,
{
    let (clock, elapsed) = closing_readings(state);
    save_tracing_at(state, clock, elapsed)
}

/// Stops the running session, given the wall-clock reading and the
/// seconds measured. With no session running this does nothing and
/// succeeds. If the store refuses a write the session goes on.
pub fn stop_tracking_at(state: &mut AppState, clock: Option<u64>, elapsed: u64) -> (outcome:
    Result<(), TrackerError>)
    ensures
        (final(state)@, outcome) == after_stop(old(state)@, clock, elapsed),
        old(state)@.session is None ==> outcome is Ok && final(state)@ == old(state)@,
{
    match save_tracing_at(state, clock, elapsed) {
        Ok(()) => {},
        Err(e) => return Err(e),
    }
    state.tracing_info = None;
    Ok(())
}

/// Stops the running session, reading the clocks: what
/// [`stop_tracking_at`] does, for readings that are not known beforehand.
pub fn stop_tracking(state: &mut AppState) -> (outcome: Result<(), TrackerError>)
    ensures
        exists|clock: Option<u64>, elapsed: u64|
            (final(state)@, outcome) == after_stop(old(state)@, clock, elapsed),
        old(state)@.session is None ==> outcome is Ok && final(state)@ == old(state)@,
{
    let (clock, elapsed) = closing_readings(state);
    stop_tracking_at(state, clock, elapsed)
}

/// Writes the running session to the store and ends it: the same as
/// [`stop_tracking`], under the name by which the shutdown path calls it.
pub fn save_progress(state: &mut AppState) -> (outcome: Result<(), TrackerError>)
    ensures
        exists|clock: Option<u64>, elapsed: u64|
            (final(state)@, outcome) == after_stop(old(state)@, clock, elapsed),
        old(state)@.session is None ==> outcome is Ok && final(state)@ == old(state)@,
{
    stop_tracking(state)
}

/// The flush made before the program ends, given the wall-clock reading
/// and the seconds measured: the running session is written to the store;
/// if that went through, the recent list is stored and the session ended.
pub fn exit_save_process_at(state: &mut AppState, clock: Option<u64>, elapsed: u64) -> (outcome:
    Result<(), TrackerError>)
    ensures
        (final(state)@, outcome) == after_exit(old(state)@, clock, elapsed),
{
    match save_tracing_at(state, clock, elapsed) {
        Ok(()) => {},
        Err(e) => return Err(e),
    }
    let recent = state.recent_issues.clone();
    assert(texts(recent@) =~= texts(state.recent_issues@));
    state.storage.save_recent_issues(recent);
    state.tracing_info = None;
    Ok(())
}

/// The flush made before the program ends, reading the clocks: what
/// [`exit_save_process_at`] does, for readings that are not known
/// beforehand.
pub fn exit_save_process(state: &mut AppState) -> (outcome: Result<(), TrackerError>)
    ensures
        exists|clock: Option<u64>, elapsed: u64|
            (final(state)@, outcome) == after_exit(old(state)@, clock, elapsed),
{
    let (clock, elapsed) = closing_readings(state);
    exit_save_process_at(state, clock, elapsed)
}

/// Switches to the issue with the key `name`, given all readings: a
/// running session is stopped first; if that fails nothing is started.
pub fn start_tracking_cmd_at(
    name: String,
    state: &mut AppState,
    stop_clock: Option<u64>,
    elapsed: u64,
    start_clock: Option<u64>,
    worklog_id: String,
    start_time: Instant,
) -> (outcome: Result<(), TrackerError>)
    ensures
        (final(state)@, outcome) == after_switch(
            old(state)@,
            name@,
            stop_clock,
            elapsed,
            start_clock,
            worklog_id@,
        ),
{
    match stop_tracking_at(state, stop_clock, elapsed) {
        Ok(()) => {},
        Err(e) => return Err(e),
    }
    start_tracking_at(name, state, start_clock, worklog_id, start_time)
}

/// Switches to the issue with the key `name`, reading the clocks and
/// drawing a fresh worklog id: what [`start_tracking_cmd_at`] does, for
/// readings that are not known beforehand.
pub fn start_tracking_cmd(name: String, state: &mut AppState) -> (outcome: Result<
    (),
    TrackerError,
>)
    ensures
        exists|
            stop_clock: Option<u64>,
            elapsed: u64,
            start_clock: Option<u64>,
            worklog_id: Seq<char>,
        |
            (final(state)@, outcome) == after_switch(
                old(state)@,
                name@,
                stop_clock,
                elapsed,
                start_clock,
                worklog_id,
            ),
{
    let (stop_clock, elapsed) = closing_readings(state);
    match stop_tracking_at(state, stop_clock, elapsed) {
        Ok(()) => {},
        Err(e) => {
            assert((state@, Err::<(), TrackerError>(e)) == after_switch(
                old(state)@,
                name@,
                stop_clock,
                elapsed,
                None,
                Seq::empty(),
            ));
            return Err(e);
        },
    }
    let start_clock = epoch_seconds();
    let worklog_id = fresh_id();
    let start_time = Instant::now();
    let outcome = start_tracking_at(name, state, start_clock, worklog_id, start_time);
    assert((state@, outcome) == after_switch(
        old(state)@,
        name@,
        stop_clock,
        elapsed,
        start_clock,
        worklog_id@,
    ));
    outcome
}

/// Stops the running session; with none running this does nothing and
/// succeeds.
pub fn stop_tracking_cmd(state: &mut AppState) -> (outcome: Result<(), TrackerError>)
    ensures
        exists|clock: Option<u64>, elapsed: u64|
            (final(state)@, outcome) == after_stop(old(state)@, clock, elapsed),
        old(state)@.session is None ==> outcome is Ok && final(state)@ == old(state)@,
{
    stop_tracking(state)
}

} // verus!
