//! The tracker's state and the rules by which a session starts and ends.
//!
//! At most one session runs at a time. Starting one stores an open
//! worklog; closing it adds the measured duration to the issue's total,
//! then fills in the worklog. Each rule is a function from the state
//! before, and the clock readings, to the state after and the outcome.

use std::collections::VecDeque;
use std::time::Instant;
use vstd::prelude::*;
use crate::error::TrackerError;
use crate::issue::{Issue, IssueView};
use crate::jira::{JiraConfiguration, JiraView};
use crate::recent::recent_after;
use crate::storage::{
    after_add_worklog, after_edit_issue, after_edit_worklog, after_save_recent, issue_by_name,
    texts, Storage, StorageView,
};
use crate::worklog::{Worklog, WorklogView};

verus! {

/// The running session: the issue worked on, its open worklog and the
/// reading of the monotonic clock taken when it started.
#[derive(Debug)]
pub struct TracingInfo {
    pub time_tracing_issue: Issue,
    pub current_worklog: Worklog,
    pub start_time: Instant,
}

/// What a running session holds, as plain values. The clock reading is
/// left out: it only serves to measure the duration.
pub ghost struct Session {
    pub issue: IssueView,
    pub worklog: WorklogView,
}

impl View for TracingInfo {
    type V = Session;

    open spec fn view(&self) -> Session {
        Session { issue: self.time_tracing_issue@, worklog: self.current_worklog@ }
    }
}

/// Everything the tracker holds: the configured account, the running
/// session if there is one, the store and the recent list.
#[derive(Debug)]
pub struct AppState {
    pub jira_config: JiraConfiguration,
    pub tracing_info: Option<TracingInfo>,
    pub storage: Storage,
    pub recent_issues: VecDeque<String>,
}

/// What an [`AppState`] holds, as plain values.
pub ghost struct StateView {
    pub config: JiraView,
    pub session: Option<Session>,
    pub storage: StorageView,
    pub recent_issues: Seq<Seq<char>>,
}

/// The running session of an optional `TracingInfo`, as plain values.
pub open spec fn session_view(info: Option<TracingInfo>) -> Option<Session> {
    match info {
        Some(info) => Some(info@),
        None => None,
    }
}

impl View for AppState {
    type V = StateView;

    open spec fn view(&self) -> StateView {
        StateView {
            config: self.jira_config@,
            session: session_view(self.tracing_info),
            storage: self.storage@,
            recent_issues: texts(self.recent_issues@),
        }
    }
}

/// The worklog that opens a session on `issue` at the wall-clock time `now`.
pub open spec fn open_worklog(id: Seq<char>, issue: IssueView, now: u64) -> WorklogView {
    WorklogView { id, issue_id: issue.id, start: now, end: 0, total_time: 0 }
}

/// The state after an attempt to start a session on the issue with the
/// key `name`, and the outcome. `clock` is the wall-clock reading, `None`
/// where the clock reads a time before the epoch; `worklog_id` is the id
/// for the new worklog.
///
/// The attempt fails, and leaves the state as it was, if a session is
/// running, if the issue cannot be read from the store, if the clock gave
/// no reading, or if the worklog cannot be stored. Otherwise the open
/// worklog is stored, the key goes into the recent list, and the session
/// runs.
pub open spec fn after_start(
    state: StateView,
    name: Seq<char>,
    clock: Option<u64>,
    worklog_id: Seq<char>,
) -> (StateView, Result<(), TrackerError>) {
    if state.session is Some {
        (state, Err(TrackerError::AlreadyTracking))
    } else {
        match issue_by_name(state.storage, name) {
            Err(e) => (state, Err(e)),
            Ok(issue) => match clock {
                None => (state, Err(TrackerError::ClockError)),
                Some(now) => {
                    let worklog = open_worklog(worklog_id, issue, now);
                    let (storage, added) = after_add_worklog(state.storage, worklog);
                    match added {
                        Err(e) => (state, Err(e)),
                        Ok(_) => (
                            StateView {
                                session: Some(Session { issue, worklog }),
                                storage,
                                recent_issues: recent_after(state.recent_issues, issue.name),
                                ..state
                            },
                            Ok(()),
                        ),
                    }
                },
            },
        }
    }
}

/// The state after an attempt to write the running session to the store,
/// and the outcome. `clock` is the wall-clock reading, `elapsed` the
/// seconds measured on the monotonic clock since the session started.
///
/// With no session running nothing happens. Otherwise the issue is read
/// again by its key, its total grows by `elapsed`, and the worklog gets
/// `end` and `total_time`; the issue is written first. The session itself
/// stays. A failure before the first write leaves the state as it was; a
/// failure of the second write leaves the issue updated and the worklog open.
pub open spec fn after_save(state: StateView, clock: Option<u64>, elapsed: u64) -> (
    StateView,
    Result<(), TrackerError>,
) {
    match state.session {
        None => (state, Ok(())),
        Some(session) => match clock {
            None => (state, Err(TrackerError::ClockError)),
            Some(now) => match issue_by_name(state.storage, session.issue.name) {
                Err(e) => (state, Err(e)),
                Ok(issue) => if issue.time_tracked_all + elapsed > u64::MAX {
                    (state, Err(TrackerError::Overflow))
                } else {
                    let updated = IssueView {
                        time_tracked_all: (issue.time_tracked_all + elapsed) as u64,
                        ..issue
                    };
                    let (with_issue, edited) = after_edit_issue(state.storage, updated);
                    match edited {
                        Err(e) => (state, Err(e)),
                        Ok(_) => {
                            let closed = WorklogView {
                                end: now,
                                total_time: elapsed,
                                ..session.worklog
                            };
                            let (with_both, written) = after_edit_worklog(with_issue, closed);
                            match written {
                                Err(e) => (StateView { storage: with_issue, ..state }, Err(e)),
                                Ok(_) => (StateView { storage: with_both, ..state }, Ok(())),
                            }
                        },
                    }
                },
            },
        },
    }
}

/// The state after an attempt to stop, and the outcome: the session is
/// written to the store and, if that went through, ended. If it did not,
/// the session goes on.
pub open spec fn after_stop(state: StateView, clock: Option<u64>, elapsed: u64) -> (
    StateView,
    Result<(), TrackerError>,
) {
    let (saved, outcome) = after_save(state, clock, elapsed);
    if outcome is Ok {
        (StateView { session: None, ..saved }, outcome)
    } else {
        (saved, outcome)
    }
}

/// The state after the flush made before the program ends, and the
/// outcome: the session is written to the store and, if that went
/// through, the recent list is stored and the session ended.
pub open spec fn after_exit(state: StateView, clock: Option<u64>, elapsed: u64) -> (
    StateView,
    Result<(), TrackerError>,
) {
    let (saved, outcome) = after_save(state, clock, elapsed);
    if outcome is Ok {
        (
            StateView {
                session: None,
                storage: after_save_recent(saved.storage, saved.recent_issues),
                ..saved
            },
            outcome,
        )
    } else {
        (saved, outcome)
    }
}

/// The state after a request to track the issue with the key `name`, and
/// the outcome: a running session is stopped first, with the readings
/// `stop_clock` and `elapsed`, and only if that went through is the new
/// one started, with `start_clock` and `worklog_id`.
pub open spec fn after_switch(
    state: StateView,
    name: Seq<char>,
    stop_clock: Option<u64>,
    elapsed: u64,
    start_clock: Option<u64>,
    worklog_id: Seq<char>,
) -> (StateView, Result<(), TrackerError>) {
    let (stopped, outcome) = after_stop(state, stop_clock, elapsed);
    if outcome is Ok {
        after_start(stopped, name, start_clock, worklog_id)
    } else {
        (stopped, outcome)
    }
}

/// The issue that `add_issue` makes from a key and a summary: no url, no
/// time tracked, assigned to `account`.
pub open spec fn new_issue(
    id: Seq<char>,
    name: Seq<char>,
    summary: Seq<char>,
    account: Seq<char>,
) -> IssueView {
    IssueView {
        id,
        name,
        url: Seq::empty(),
        summary,
        assignee_email: account,
        time_tracked_all: 0,
    }
}

impl AppState {
    /// The state at startup: no session, and the recent list as the store
    /// has it.
    pub fn new(jira_config: JiraConfiguration, storage: Storage) -> (state: Self)
        ensures
            state@ == (StateView {
                config: jira_config@,
                session: None,
                storage: storage@,
                recent_issues: storage@.recent_issues,
            }),
    {
        let recent_issues = storage.get_recent_issues();
        AppState { jira_config, tracing_info: None, storage, recent_issues }
    }
}

} // verus!
