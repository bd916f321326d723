use time_tracker::error::TrackerError;
use time_tracker::issue::Issue;
use time_tracker::rows::{convert_to_issue, convert_to_worklog, IssueDb, WorklogDB};
use time_tracker::worklog::Worklog;

fn sample_issue() -> Issue {
    Issue::new(
        "10001".to_string(),
        "X-1".to_string(),
        "https://tracker.example/X-1".to_string(),
        "test".to_string(),
        "dev@example.org".to_string(),
        3725,
    )
}

fn sample_worklog() -> Worklog {
    Worklog::new("w-1".to_string(), "10001".to_string(), 1_700_000_000, 1_700_000_120, 120)
}

#[test]
fn issue_new_keeps_every_field() {
    let issue = sample_issue();
    assert_eq!(issue.id, "10001");
    assert_eq!(issue.name, "X-1");
    assert_eq!(issue.url, "https://tracker.example/X-1");
    assert_eq!(issue.summary, "test");
    assert_eq!(issue.assignee_email, "dev@example.org");
    assert_eq!(issue.time_tracked_all, 3725);
}

#[test]
fn issue_empty_is_blank() {
    let issue = Issue::empty();
    assert_eq!(issue, Issue::new(String::new(), String::new(), String::new(), String::new(),
        String::new(), 0));
}

#[test]
fn issue_label_shows_key_and_summary() {
    assert_eq!(sample_issue().label(), "(X-1: test)");
    assert_eq!(Issue::empty().label(), "(: )");
}

#[test]
fn issue_clone_is_equal() {
    let issue = sample_issue();
    assert_eq!(issue.clone(), issue);
}

#[test]
fn worklog_new_keeps_every_field() {
    let worklog = sample_worklog();
    assert_eq!(worklog.id, "w-1");
    assert_eq!(worklog.issue_id, "10001");
    assert_eq!(worklog.start, 1_700_000_000);
    assert_eq!(worklog.end, 1_700_000_120);
    assert_eq!(worklog.total_time, 120);
}

#[test]
fn worklog_empty_is_blank_and_open() {
    let worklog = Worklog::empty();
    assert_eq!(worklog, Worklog::new(String::new(), String::new(), 0, 0, 0));
    assert!(worklog.is_open());
    assert!(!sample_worklog().is_open());
}

#[test]
fn issue_row_holds_total_as_text() {
    let row = IssueDb::from_issue(sample_issue());
    assert_eq!(row.id, "10001");
    assert_eq!(row.name, "X-1");
    assert_eq!(row.url, "https://tracker.example/X-1");
    assert_eq!(row.summary, "test");
    assert_eq!(row.assignee_email, "dev@example.org");
    assert_eq!(row.time_tracked_all, "3725");
}

#[test]
fn worklog_row_holds_times_as_text() {
    let row = WorklogDB::from_worklog(sample_worklog());
    assert_eq!(row.id, "w-1");
    assert_eq!(row.issue_id, "10001");
    assert_eq!(row.start, "1700000000");
    assert_eq!(row.end, "1700000120");
    assert_eq!(row.total_time, "120");
}

#[test]
fn issue_survives_its_row() {
    let row = IssueDb::from_issue(sample_issue());
    assert_eq!(Issue::from_row(row), Ok(sample_issue()));
    let full = Issue::new("i".to_string(), "K".to_string(), String::new(), String::new(),
        String::new(), u64::MAX);
    assert_eq!(Issue::from_row(IssueDb::from_issue(full.clone())), Ok(full));
}

#[test]
fn worklog_survives_its_row() {
    let row = WorklogDB::from_worklog(sample_worklog());
    assert_eq!(Worklog::from_row(row), Ok(sample_worklog()));
    let open = Worklog::new("w".to_string(), "i".to_string(), 5, 0, 0);
    assert_eq!(Worklog::from_row(WorklogDB::from_worklog(open.clone())), Ok(open));
}

#[test]
fn unreadable_issue_total_is_corrupt_data() {
    let mut row = IssueDb::from_issue(sample_issue());
    row.time_tracked_all = "12h".to_string();
    assert_eq!(Issue::from_row(row.clone()), Err(TrackerError::CorruptData));
    row.time_tracked_all = String::new();
    assert_eq!(Issue::from_row(row.clone()), Err(TrackerError::CorruptData));
    row.time_tracked_all = "-3".to_string();
    assert_eq!(Issue::from_row(row), Err(TrackerError::CorruptData));
}

#[test]
fn unreadable_worklog_time_is_corrupt_data() {
    let good = WorklogDB::from_worklog(sample_worklog());
    let mut row = good.clone();
    row.start = "soon".to_string();
    assert_eq!(Worklog::from_row(row), Err(TrackerError::CorruptData));
    let mut row = good.clone();
    row.end = "".to_string();
    assert_eq!(Worklog::from_row(row), Err(TrackerError::CorruptData));
    let mut row = good.clone();
    row.total_time = "18446744073709551616".to_string();
    assert_eq!(Worklog::from_row(row), Err(TrackerError::CorruptData));
}

#[test]
fn convert_to_issue_reads_a_row() {
    let row = IssueDb::from_issue(sample_issue());
    assert_eq!(convert_to_issue(Ok(row)), Ok(sample_issue()));
}

#[test]
fn convert_to_issue_passes_errors_on() {
    assert_eq!(convert_to_issue(Err(TrackerError::NotFound)), Err(TrackerError::NotFound));
    assert_eq!(convert_to_issue(Err(TrackerError::Conflict)), Err(TrackerError::Conflict));
}

#[test]
fn convert_to_issue_reports_corrupt_rows() {
    let mut row = IssueDb::from_issue(sample_issue());
    row.time_tracked_all = "1e3".to_string();
    assert_eq!(convert_to_issue(Ok(row)), Err(TrackerError::CorruptData));
}

#[test]
fn convert_to_worklog_reads_a_row() {
    let row = WorklogDB::from_worklog(sample_worklog());
    assert_eq!(convert_to_worklog(Ok(row)), Ok(sample_worklog()));
}

#[test]
fn convert_to_worklog_passes_errors_on() {
    assert_eq!(convert_to_worklog(Err(TrackerError::NotFound)), Err(TrackerError::NotFound));
}

#[test]
fn convert_to_worklog_reports_corrupt_rows() {
    let mut row = WorklogDB::from_worklog(sample_worklog());
    row.end = "never".to_string();
    assert_eq!(convert_to_worklog(Ok(row)), Err(TrackerError::CorruptData));
}

#[test]
fn error_messages() {
    assert_eq!(TrackerError::AlreadyTracking.message(), "Issue already tracked");
    assert_eq!(TrackerError::ClockError.message(), "time went backwards");
    assert_eq!(TrackerError::NotFound.message(), "no rows returned by the store");
    assert_eq!(TrackerError::Conflict.message(), "a row with this id or key already exists");
    assert_eq!(TrackerError::CorruptData.message(), "invalid digit found in stored time field");
    assert_eq!(TrackerError::Overflow.message(), "tracked time out of range");
}
