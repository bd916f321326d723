use std::collections::VecDeque;
use std::time::{Duration, Instant};
use time_tracker::commands::{
    add_issue, add_issue_with_id, add_to_recent_issues, exit_save_process, exit_save_process_at,
    get_elapsed_time, get_issues, get_tracing_issue_name, save_progress, save_tracing,
    save_tracing_at, start_tracking, start_tracking_at, start_tracking_cmd,
    start_tracking_cmd_at, stop_tracking, stop_tracking_at, stop_tracking_cmd,
};
use time_tracker::error::TrackerError;
use time_tracker::issue::Issue;
use time_tracker::jira::JiraConfiguration;
use time_tracker::recent::{push_recent, MAX_RECENT};
use time_tracker::session::AppState;
use time_tracker::storage::Storage;
use time_tracker::worklog::Worklog;

fn config() -> JiraConfiguration {
    JiraConfiguration {
        base_path: "https://tracker.example".to_string(),
        user: "dev@example.org".to_string(),
        api_key: "k".to_string(),
    }
}

fn state_with(keys: &[&str]) -> AppState {
    let mut state = AppState::new(config(), Storage::new());
    for (i, key) in keys.iter().enumerate() {
        add_issue_with_id(format!("id-{}", i), key.to_string(), "test".to_string(), &mut state)
            .unwrap();
    }
    state
}

fn stored_worklog(state: &AppState, id: &str) -> Worklog {
    let row = state.storage.worklogs.iter().find(|row| row.id == id).unwrap().clone();
    Worklog::from_row(row).unwrap()
}

fn open_worklogs(state: &AppState) -> Vec<Worklog> {
    state
        .storage
        .worklogs
        .iter()
        .map(|row| Worklog::from_row(row.clone()).unwrap())
        .filter(|worklog| worklog.end == 0)
        .collect()
}

fn total(state: &AppState, key: &str) -> u64 {
    state.storage.get_issue(key.to_string()).unwrap().time_tracked_all
}

fn recent(state: &AppState) -> Vec<String> {
    state.recent_issues.iter().cloned().collect()
}

fn move_start_back(state: &mut AppState, seconds: u64) {
    let info = state.tracing_info.as_mut().unwrap();
    info.start_time = info.start_time.checked_sub(Duration::from_secs(seconds)).unwrap();
}

#[test]
fn new_state_is_idle_and_restores_recent_list() {
    let mut store = Storage::new();
    store.save_recent_issues(["A", "B"].iter().map(|k| k.to_string()).collect());
    let state = AppState::new(config(), store);
    assert!(state.tracing_info.is_none());
    assert_eq!(state.jira_config, config());
    assert_eq!(recent(&state), vec!["A", "B"]);
    assert_eq!(get_tracing_issue_name(&state), None);
    assert_eq!(get_elapsed_time(&state), 0);
}

#[test]
fn add_issue_with_id_fills_the_defaults() {
    let mut state = state_with(&[]);
    let issue =
        add_issue_with_id("7".to_string(), "X-7".to_string(), "seven".to_string(), &mut state);
    let expected = Issue::new("7".to_string(), "X-7".to_string(), String::new(),
        "seven".to_string(), "dev@example.org".to_string(), 0);
    assert_eq!(issue, Ok(expected.clone()));
    assert_eq!(get_issues(&state), Ok(vec![expected]));
}

#[test]
fn adding_a_known_key_again_is_conflict() {
    let mut state = state_with(&["X-1"]);
    let again =
        add_issue_with_id("other".to_string(), "X-1".to_string(), "s".to_string(), &mut state);
    assert_eq!(again, Err(TrackerError::Conflict));
    assert_eq!(get_issues(&state).unwrap().len(), 1);
}

#[test]
fn add_issue_draws_a_fresh_id() {
    let mut state = state_with(&[]);
    let first = add_issue("X-1".to_string(), "one".to_string(), &mut state).unwrap();
    let second = add_issue("X-2".to_string(), "two".to_string(), &mut state).unwrap();
    assert_eq!(first.id.chars().count(), 36);
    assert_eq!(second.id.chars().count(), 36);
    assert_ne!(first.id, second.id);
    assert_eq!(first.name, "X-1");
    assert_eq!(first.summary, "one");
    assert_eq!(first.url, "");
    assert_eq!(first.assignee_email, "dev@example.org");
    assert_eq!(first.time_tracked_all, 0);
    assert_eq!(state.storage.get_issue("X-2".to_string()), Ok(second));
}

#[test]
fn start_stores_an_open_worklog() {
    let mut state = state_with(&["X-1"]);
    let outcome = start_tracking_at("X-1".to_string(), &mut state, Some(1000), "w1".to_string(),
        Instant::now());
    assert_eq!(outcome, Ok(()));
    assert_eq!(get_tracing_issue_name(&state), Some("X-1".to_string()));
    assert_eq!(stored_worklog(&state, "w1"), Worklog::new("w1".to_string(), "id-0".to_string(),
        1000, 0, 0));
    let info = state.tracing_info.as_ref().unwrap();
    assert_eq!(info.current_worklog, stored_worklog(&state, "w1"));
    assert_eq!(info.time_tracing_issue, state.storage.get_issue("X-1".to_string()).unwrap());
    assert_eq!(recent(&state), vec!["X-1"]);
}

#[test]
fn start_of_unknown_key_is_not_found() {
    let mut state = state_with(&["X-1"]);
    let outcome = start_tracking_at("X-9".to_string(), &mut state, Some(1000), "w1".to_string(),
        Instant::now());
    assert_eq!(outcome, Err(TrackerError::NotFound));
    assert!(state.tracing_info.is_none());
    assert!(state.storage.worklogs.is_empty());
    assert!(state.recent_issues.is_empty());
    assert_eq!(start_tracking("X-9".to_string(), &mut state), Err(TrackerError::NotFound));
}

#[test]
fn start_while_tracking_is_already_tracking() {
    let mut state = state_with(&["X-1", "X-2"]);
    start_tracking_at("X-1".to_string(), &mut state, Some(1000), "w1".to_string(), Instant::now())
        .unwrap();
    let outcome = start_tracking_at("X-2".to_string(), &mut state, Some(1001), "w2".to_string(),
        Instant::now());
    assert_eq!(outcome, Err(TrackerError::AlreadyTracking));
    assert_eq!(start_tracking("X-2".to_string(), &mut state), Err(TrackerError::AlreadyTracking));
    assert_eq!(get_tracing_issue_name(&state), Some("X-1".to_string()));
    assert_eq!(state.storage.worklogs.len(), 1);
    assert_eq!(recent(&state), vec!["X-1"]);
}

#[test]
fn start_without_clock_reading_is_clock_error() {
    let mut state = state_with(&["X-1"]);
    let outcome =
        start_tracking_at("X-1".to_string(), &mut state, None, "w1".to_string(), Instant::now());
    assert_eq!(outcome, Err(TrackerError::ClockError));
    assert!(state.tracing_info.is_none());
    assert!(state.storage.worklogs.is_empty());
}

#[test]
fn start_with_taken_worklog_id_is_conflict() {
    let mut state = state_with(&["X-1"]);
    state.storage.add_worklog(Worklog::new("w1".to_string(), "id-0".to_string(), 1, 2, 1)).unwrap();
    let outcome = start_tracking_at("X-1".to_string(), &mut state, Some(1000), "w1".to_string(),
        Instant::now());
    assert_eq!(outcome, Err(TrackerError::Conflict));
    assert!(state.tracing_info.is_none());
    assert!(state.recent_issues.is_empty());
}

#[test]
fn start_of_corrupt_issue_is_corrupt_data() {
    let mut state = state_with(&["X-1"]);
    state.storage.issues[0].time_tracked_all = "much".to_string();
    let outcome = start_tracking_at("X-1".to_string(), &mut state, Some(1000), "w1".to_string(),
        Instant::now());
    assert_eq!(outcome, Err(TrackerError::CorruptData));
    assert!(state.tracing_info.is_none());
}

#[test]
fn stop_adds_the_duration_to_the_total() {
    let mut state = state_with(&["X-1", "X-2"]);
    state.storage.edit_issue(Issue::new("id-0".to_string(), "X-1".to_string(), String::new(),
        "test".to_string(), "dev@example.org".to_string(), 100)).unwrap();
    start_tracking_at("X-1".to_string(), &mut state, Some(1000), "w1".to_string(), Instant::now())
        .unwrap();
    assert_eq!(stop_tracking_at(&mut state, Some(1090), 90), Ok(()));
    assert_eq!(total(&state, "X-1"), 190);
    assert_eq!(total(&state, "X-2"), 0);
    assert_eq!(stored_worklog(&state, "w1"), Worklog::new("w1".to_string(), "id-0".to_string(),
        1000, 1090, 90));
    assert!(state.tracing_info.is_none());
    assert!(open_worklogs(&state).is_empty());
}

#[test]
fn stop_when_idle_is_a_no_op() {
    let mut state = state_with(&["X-1"]);
    assert_eq!(stop_tracking_at(&mut state, Some(5), 5), Ok(()));
    assert_eq!(stop_tracking_at(&mut state, None, 5), Ok(()));
    assert_eq!(stop_tracking(&mut state), Ok(()));
    assert_eq!(stop_tracking_cmd(&mut state), Ok(()));
    assert_eq!(save_progress(&mut state), Ok(()));
    assert_eq!(save_tracing(&mut state), Ok(()));
    assert_eq!(total(&state, "X-1"), 0);
    assert!(state.storage.worklogs.is_empty());
    assert!(state.tracing_info.is_none());
}

#[test]
fn stop_twice_counts_once() {
    let mut state = state_with(&["X-1"]);
    start_tracking_at("X-1".to_string(), &mut state, Some(1000), "w1".to_string(), Instant::now())
        .unwrap();
    stop_tracking_at(&mut state, Some(1010), 10).unwrap();
    stop_tracking_at(&mut state, Some(1020), 20).unwrap();
    assert_eq!(total(&state, "X-1"), 10);
    assert_eq!(stored_worklog(&state, "w1").end, 1010);
}

#[test]
fn stop_without_clock_reading_keeps_the_session() {
    let mut state = state_with(&["X-1"]);
    start_tracking_at("X-1".to_string(), &mut state, Some(1000), "w1".to_string(), Instant::now())
        .unwrap();
    assert_eq!(stop_tracking_at(&mut state, None, 10), Err(TrackerError::ClockError));
    assert_eq!(get_tracing_issue_name(&state), Some("X-1".to_string()));
    assert_eq!(total(&state, "X-1"), 0);
    assert_eq!(open_worklogs(&state).len(), 1);
    assert_eq!(stop_tracking_at(&mut state, Some(1010), 10), Ok(()));
    assert_eq!(total(&state, "X-1"), 10);
}

#[test]
fn stop_that_would_overflow_keeps_the_session() {
    let mut state = state_with(&["X-1"]);
    state.storage.issues[0].time_tracked_all = u64::MAX.to_string();
    start_tracking_at("X-1".to_string(), &mut state, Some(1000), "w1".to_string(), Instant::now())
        .unwrap();
    assert_eq!(stop_tracking_at(&mut state, Some(1010), 1), Err(TrackerError::Overflow));
    assert!(state.tracing_info.is_some());
    assert_eq!(total(&state, "X-1"), u64::MAX);
    assert_eq!(stop_tracking_at(&mut state, Some(1010), 0), Ok(()));
    assert_eq!(total(&state, "X-1"), u64::MAX);
    assert!(state.tracing_info.is_none());
}

#[test]
fn stop_with_issue_gone_keeps_the_session() {
    let mut state = state_with(&["X-1"]);
    start_tracking_at("X-1".to_string(), &mut state, Some(1000), "w1".to_string(), Instant::now())
        .unwrap();
    state.storage.issues.clear();
    assert_eq!(stop_tracking_at(&mut state, Some(1010), 10), Err(TrackerError::NotFound));
    assert!(state.tracing_info.is_some());
    assert_eq!(stored_worklog(&state, "w1").end, 0);
}

#[test]
fn stop_with_worklog_gone_updates_issue_and_keeps_the_session() {
    let mut state = state_with(&["X-1"]);
    start_tracking_at("X-1".to_string(), &mut state, Some(1000), "w1".to_string(), Instant::now())
        .unwrap();
    state.storage.worklogs.clear();
    assert_eq!(stop_tracking_at(&mut state, Some(1010), 10), Err(TrackerError::NotFound));
    assert!(state.tracing_info.is_some());
    assert_eq!(total(&state, "X-1"), 10);
}

#[test]
fn save_tracing_writes_but_keeps_the_session() {
    let mut state = state_with(&["X-1"]);
    start_tracking_at("X-1".to_string(), &mut state, Some(1000), "w1".to_string(), Instant::now())
        .unwrap();
    assert_eq!(save_tracing_at(&mut state, Some(1030), 30), Ok(()));
    assert_eq!(total(&state, "X-1"), 30);
    assert_eq!(stored_worklog(&state, "w1").end, 1030);
    assert_eq!(stored_worklog(&state, "w1").total_time, 30);
    assert!(state.tracing_info.is_some());
}

#[test]
fn switching_closes_the_old_worklog_and_opens_a_new_one() {
    let mut state = state_with(&["A-1", "B-1"]);
    start_tracking_at("A-1".to_string(), &mut state, Some(1000), "wa".to_string(), Instant::now())
        .unwrap();
    let outcome = start_tracking_cmd_at("B-1".to_string(), &mut state, Some(1060), 60, Some(1061),
        "wb".to_string(), Instant::now());
    assert_eq!(outcome, Ok(()));
    assert_eq!(stored_worklog(&state, "wa"), Worklog::new("wa".to_string(), "id-0".to_string(),
        1000, 1060, 60));
    assert_eq!(stored_worklog(&state, "wb"), Worklog::new("wb".to_string(), "id-1".to_string(),
        1061, 0, 0));
    assert_eq!(total(&state, "A-1"), 60);
    assert_eq!(total(&state, "B-1"), 0);
    assert_eq!(get_tracing_issue_name(&state), Some("B-1".to_string()));
    assert_eq!(open_worklogs(&state), vec![stored_worklog(&state, "wb")]);
    assert_eq!(recent(&state), vec!["A-1", "B-1"]);
}

#[test]
fn switching_to_unknown_key_stops_and_reports_not_found() {
    let mut state = state_with(&["A-1"]);
    start_tracking_at("A-1".to_string(), &mut state, Some(1000), "wa".to_string(), Instant::now())
        .unwrap();
    let outcome = start_tracking_cmd_at("B-1".to_string(), &mut state, Some(1060), 60, Some(1061),
        "wb".to_string(), Instant::now());
    assert_eq!(outcome, Err(TrackerError::NotFound));
    assert!(state.tracing_info.is_none());
    assert_eq!(total(&state, "A-1"), 60);
    assert!(open_worklogs(&state).is_empty());
}

#[test]
fn switching_when_stop_fails_starts_nothing() {
    let mut state = state_with(&["A-1", "B-1"]);
    start_tracking_at("A-1".to_string(), &mut state, Some(1000), "wa".to_string(), Instant::now())
        .unwrap();
    let outcome = start_tracking_cmd_at("B-1".to_string(), &mut state, None, 60, Some(1061),
        "wb".to_string(), Instant::now());
    assert_eq!(outcome, Err(TrackerError::ClockError));
    assert_eq!(get_tracing_issue_name(&state), Some("A-1".to_string()));
    assert_eq!(state.storage.worklogs.len(), 1);
}

#[test]
fn repeated_starts_never_leave_two_open_worklogs() {
    let mut state = state_with(&["A", "B", "C"]);
    for key in ["A", "B", "A", "C", "C", "B"] {
        start_tracking_cmd(key.to_string(), &mut state).unwrap();
        assert_eq!(open_worklogs(&state).len(), 1);
        assert_eq!(get_tracing_issue_name(&state), Some(key.to_string()));
        let info = state.tracing_info.as_ref().unwrap();
        assert_eq!(open_worklogs(&state)[0], info.current_worklog);
        assert_eq!(info.current_worklog.issue_id, info.time_tracing_issue.id);
    }
    assert_eq!(state.storage.worklogs.len(), 6);
    stop_tracking_cmd(&mut state).unwrap();
    assert!(open_worklogs(&state).is_empty());
}

#[test]
fn start_then_stop_with_the_clocks() {
    let mut state = state_with(&["X-1"]);
    start_tracking("X-1".to_string(), &mut state).unwrap();
    let worklog = state.tracing_info.as_ref().unwrap().current_worklog.clone();
    assert_eq!(worklog.id.chars().count(), 36);
    assert!(worklog.start > 1_600_000_000);
    assert_eq!(worklog.end, 0);
    move_start_back(&mut state, 3);
    let elapsed = get_elapsed_time(&state);
    assert!(elapsed >= 3 && elapsed < 10);
    stop_tracking(&mut state).unwrap();
    let closed = stored_worklog(&state, &worklog.id);
    assert!(closed.total_time >= 3 && closed.total_time < 10);
    assert!(closed.end >= worklog.start);
    assert_eq!(closed.start, worklog.start);
    assert_eq!(total(&state, "X-1"), closed.total_time);
    assert_eq!(get_elapsed_time(&state), 0);
}

#[test]
fn recent_list_keeps_the_last_five() {
    let mut state = state_with(&["K1", "K2", "K3", "K4", "K5", "K6", "K7"]);
    for (i, key) in ["K1", "K2", "K3", "K4", "K5", "K6", "K7"].iter().enumerate() {
        start_tracking_cmd_at(key.to_string(), &mut state, Some(10), 1, Some(10), format!("w{}", i),
            Instant::now()).unwrap();
        assert_eq!(state.recent_issues.len(), (i + 1).min(5));
    }
    assert_eq!(recent(&state), vec!["K3", "K4", "K5", "K6", "K7"]);
}

#[test]
fn recent_list_after_exactly_five_starts() {
    let mut state = state_with(&["K1", "K2", "K3", "K4", "K5"]);
    for key in ["K1", "K2", "K3", "K4", "K5"] {
        start_tracking_cmd(key.to_string(), &mut state).unwrap();
    }
    assert_eq!(recent(&state), vec!["K1", "K2", "K3", "K4", "K5"]);
    assert_eq!(state.recent_issues.len(), MAX_RECENT);
}

#[test]
fn push_recent_trims_an_overlong_list() {
    let mut list: VecDeque<String> = (0..9).map(|i| format!("K{}", i)).collect();
    push_recent(&mut list, "new".to_string());
    let kept: Vec<String> = list.into_iter().collect();
    assert_eq!(kept, vec!["K5", "K6", "K7", "K8", "new"]);
}

#[test]
fn add_to_recent_issues_keeps_repeats() {
    let mut state = state_with(&[]);
    add_to_recent_issues(&"A".to_string(), &mut state);
    add_to_recent_issues(&"A".to_string(), &mut state);
    assert_eq!(recent(&state), vec!["A", "A"]);
}

#[test]
fn flush_on_shutdown_saves_the_session() {
    let mut state = state_with(&[]);
    add_issue("X-1".to_string(), "test".to_string(), &mut state).unwrap();
    start_tracking_cmd("X-1".to_string(), &mut state).unwrap();
    let id = state.tracing_info.as_ref().unwrap().current_worklog.id.clone();
    move_start_back(&mut state, 2);
    assert_eq!(exit_save_process(&mut state), Ok(()));
    assert!(total(&state, "X-1") >= 2);
    assert_ne!(stored_worklog(&state, &id).end, 0);
    assert!(stored_worklog(&state, &id).total_time >= 2);
    assert!(state.tracing_info.is_none());
    assert_eq!(state.storage.recent_issues, vec!["X-1"]);
}

#[test]
fn flush_leaves_the_tables_as_stop_does() {
    let mut flushed = state_with(&["X-1", "X-2"]);
    let mut stopped = state_with(&["X-1", "X-2"]);
    for state in [&mut flushed, &mut stopped] {
        start_tracking_at("X-2".to_string(), state, Some(500), "w".to_string(), Instant::now())
            .unwrap();
    }
    assert_eq!(exit_save_process_at(&mut flushed, Some(502), 2), Ok(()));
    assert_eq!(stop_tracking_at(&mut stopped, Some(502), 2), Ok(()));
    assert_eq!(flushed.storage.issues, stopped.storage.issues);
    assert_eq!(flushed.storage.worklogs, stopped.storage.worklogs);
    assert_eq!(flushed.storage.recent_issues, vec!["X-2"]);
    assert!(stopped.storage.recent_issues.is_empty());
    assert!(flushed.tracing_info.is_none());
}

#[test]
fn flush_when_idle_stores_the_recent_list() {
    let mut state = state_with(&["X-1"]);
    add_to_recent_issues(&"X-1".to_string(), &mut state);
    assert_eq!(exit_save_process_at(&mut state, None, 0), Ok(()));
    assert_eq!(state.storage.recent_issues, vec!["X-1"]);
    assert_eq!(total(&state, "X-1"), 0);
}

#[test]
fn flush_that_fails_reports_and_stores_nothing() {
    let mut state = state_with(&["X-1"]);
    start_tracking_at("X-1".to_string(), &mut state, Some(500), "w".to_string(), Instant::now())
        .unwrap();
    assert_eq!(exit_save_process_at(&mut state, None, 2), Err(TrackerError::ClockError));
    assert!(state.storage.recent_issues.is_empty());
    assert!(state.tracing_info.is_some());
    assert_eq!(total(&state, "X-1"), 0);
}

#[test]
fn totals_equal_the_sum_of_the_worklogs() {
    let mut state = state_with(&["A", "B", "C"]);
    let steps: [(&str, u64); 6] = [("A", 10), ("B", 20), ("A", 5), ("C", 0), ("B", 7), ("A", 1)];
    for (i, (key, seconds)) in steps.iter().enumerate() {
        start_tracking_cmd_at(key.to_string(), &mut state, Some(100), 0, Some(100 + i as u64),
            format!("w{}", i), Instant::now()).unwrap();
        stop_tracking_at(&mut state, Some(200 + i as u64), *seconds).unwrap();
    }
    assert_eq!(total(&state, "A"), 16);
    assert_eq!(total(&state, "B"), 27);
    assert_eq!(total(&state, "C"), 0);
    for issue in get_issues(&state).unwrap() {
        let logged: u64 = state
            .storage
            .worklogs
            .iter()
            .map(|row| Worklog::from_row(row.clone()).unwrap())
            .filter(|worklog| worklog.issue_id == issue.id)
            .map(|worklog| worklog.total_time)
            .sum();
        assert_eq!(issue.time_tracked_all, logged);
    }
    assert!(open_worklogs(&state).is_empty());
}

#[test]
fn a_second_start_changes_nothing() {
    let mut state = state_with(&["A", "B"]);
    start_tracking("A".to_string(), &mut state).unwrap();
    let worklogs = state.storage.worklogs.clone();
    let session = state.tracing_info.as_ref().unwrap().current_worklog.clone();
    for key in ["A", "B", "missing"] {
        assert_eq!(start_tracking(key.to_string(), &mut state), Err(TrackerError::AlreadyTracking));
    }
    assert_eq!(state.storage.worklogs, worklogs);
    assert_eq!(state.tracing_info.as_ref().unwrap().current_worklog, session);
    assert_eq!(recent(&state), vec!["A"]);
}
