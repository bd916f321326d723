//! The stored form of issues and worklogs.
//!
//! A row keeps every field as text. Going from a value to its row writes
//! each time field in decimal; going back reads it, and fails on a field
//! that is not the decimal text of a `u64`.

use vstd::prelude::*;
use vstd::string::*;
use crate::decimal::{decimal_text, decimal_value, format_u64, is_decimal, parse_u64, lemma_text_round_trip};
use crate::error::TrackerError;
use crate::issue::{Issue, IssueView};
use crate::worklog::{Worklog, WorklogView};

verus! {

/// An issue as the store holds it.
#[derive(Debug, PartialEq, Eq)]
pub struct IssueDb {
    pub id: String,
    pub name: String,
    pub url: String,
    pub summary: String,
    pub assignee_email: String,
    pub time_tracked_all: String,
}

/// What an [`IssueDb`] holds, as plain values.
pub ghost struct IssueRow {
    pub id: Seq<char>,
    pub name: Seq<char>,
    pub url: Seq<char>,
    pub summary: Seq<char>,
    pub assignee_email: Seq<char>,
    pub time_tracked_all: Seq<char>,
}

impl View for IssueDb {
    type V = IssueRow;

    open spec fn view(&self) -> IssueRow {
        IssueRow {
            id: self.id@,
            name: self.name@,
            url: self.url@,
            summary: self.summary@,
            assignee_email: self.assignee_email@,
            time_tracked_all: self.time_tracked_all@,
        }
    }
}

/// A worklog as the store holds it.
#[derive(Debug, PartialEq, Eq)]
pub struct WorklogDB {
    pub id: String,
    pub issue_id: String,
    pub start: String,
    pub end: String,
    pub total_time: String,
}

/// What a [`WorklogDB`] holds, as plain values.
pub ghost struct WorklogRow {
    pub id: Seq<char>,
    pub issue_id: Seq<char>,
    pub start: Seq<char>,
    pub end: Seq<char>,
    pub total_time: Seq<char>,
}

impl View for WorklogDB {
    type V = WorklogRow;

    open spec fn view(&self) -> WorklogRow {
        WorklogRow {
            id: self.id@,
            issue_id: self.issue_id@,
            start: self.start@,
            end: self.end@,
            total_time: self.total_time@,
        }
    }
}

/// The row that stores `issue`.
pub open spec fn issue_row(issue: IssueView) -> IssueRow {
    IssueRow {
        id: issue.id,
        name: issue.name,
        url: issue.url,
        summary: issue.summary,
        assignee_email: issue.assignee_email,
        time_tracked_all: decimal_text(issue.time_tracked_all as nat),
    }
}

/// The time field of the row can be read.
pub open spec fn issue_row_readable(row: IssueRow) -> bool {
    is_decimal(row.time_tracked_all)
}

/// The issue that a readable row stores.
pub open spec fn row_issue(row: IssueRow) -> IssueView {
    IssueView {
        id: row.id,
        name: row.name,
        url: row.url,
        summary: row.summary,
        assignee_email: row.assignee_email,
        time_tracked_all: decimal_value(row.time_tracked_all),
    }
}

/// The row that stores `worklog`.
pub open spec fn worklog_row(worklog: WorklogView) -> WorklogRow {
    WorklogRow {
        id: worklog.id,
        issue_id: worklog.issue_id,
        start: decimal_text(worklog.start as nat),
        end: decimal_text(worklog.end as nat),
        total_time: decimal_text(worklog.total_time as nat),
    }
}

/// All three time fields of the row can be read.
pub open spec fn worklog_row_readable(row: WorklogRow) -> bool {
    is_decimal(row.start) && is_decimal(row.end) && is_decimal(row.total_time)
}

/// The worklog that a readable row stores.
pub open spec fn row_worklog(row: WorklogRow) -> WorklogView {
    WorklogView {
        id: row.id,
        issue_id: row.issue_id,
        start: decimal_value(row.start),
        end: decimal_value(row.end),
        total_time: decimal_value(row.total_time),
    }
}

/// What reading an issue row gives: the issue, or `CorruptData`.
pub open spec fn read_issue_row(row: IssueRow) -> Result<IssueView, TrackerError> {
    if issue_row_readable(row) {
        Ok(row_issue(row))
    } else {
        Err(TrackerError::CorruptData)
    }
}

/// What reading a worklog row gives: the worklog, or `CorruptData`.
pub open spec fn read_worklog_row(row: WorklogRow) -> Result<WorklogView, TrackerError> {
    if worklog_row_readable(row) {
        Ok(row_worklog(row))
    } else {
        Err(TrackerError::CorruptData)
    }
}

/// The view of a result that holds an issue.
pub open spec fn issue_result_view(r: Result<Issue, TrackerError>) -> Result<
    IssueView,
    TrackerError,
> {
    match r {
        Ok(issue) => Ok(issue@),
        Err(e) => Err(e),
    }
}

/// The view of a result that holds a worklog.
pub open spec fn worklog_result_view(r: Result<Worklog, TrackerError>) -> Result<
    WorklogView,
    TrackerError,
> {
    match r {
        Ok(worklog) => Ok(worklog@),
        Err(e) => Err(e),
    }
}

/// An issue written to its row and read back is the same issue.
pub proof fn lemma_issue_row_round_trip(issue: IssueView)
    ensures
        read_issue_row(issue_row(issue)) == Ok::<IssueView, TrackerError>(issue),
{
    lemma_text_round_trip(issue.time_tracked_all);
}

/// A worklog written to its row and read back is the same worklog.
pub proof fn lemma_worklog_row_round_trip(worklog: WorklogView)
    ensures
        read_worklog_row(worklog_row(worklog)) == Ok::<WorklogView, TrackerError>(worklog),
{
    lemma_text_round_trip(worklog.start);
    lemma_text_round_trip(worklog.end);
    lemma_text_round_trip(worklog.total_time);
}

impl Clone for IssueDb {
    fn clone(&self) -> (copy: Self)
        ensures
            copy@ == self@,
    {
        IssueDb {
            id: self.id.clone(),
            name: self.name.clone(),
            url: self.url.clone(),
            summary: self.summary.clone(),
            assignee_email: self.assignee_email.clone(),
            time_tracked_all: self.time_tracked_all.clone(),
        }
    }
}

impl Clone for WorklogDB {
    fn clone(&self) -> (copy: Self)
        ensures
            copy@ == self@,
    {
        WorklogDB {
            id: self.id.clone(),
            issue_id: self.issue_id.clone(),
            start: self.start.clone(),
            end: self.end.clone(),
            total_time: self.total_time.clone(),
        }
    }
}

impl IssueDb {
    /// The row that stores `issue`: the total is written in decimal.
    pub fn from_issue(issue: Issue) -> (row: Self)
        ensures
            row@ == issue_row(issue@),
    {
        IssueDb {
            id: issue.id,
            name: issue.name,
            url: issue.url,
            summary: issue.summary,
            assignee_email: issue.assignee_email,
            time_tracked_all: format_u64(issue.time_tracked_all),
        }
    }
}

impl WorklogDB {
    /// The row that stores `worklog`: each time is written in decimal.
    pub fn from_worklog(worklog: Worklog) -> (row: Self)
        ensures
            row@ == worklog_row(worklog@),
    {
        WorklogDB {
            id: worklog.id,
            issue_id: worklog.issue_id,
            start: format_u64(worklog.start),
            end: format_u64(worklog.end),
            total_time: format_u64(worklog.total_time),
        }
    }
}

impl Issue {
    /// Reads an issue from its row; `CorruptData` if the total cannot be read.
    pub fn from_row(row: IssueDb) -> (issue: Result<Self, TrackerError>)
        ensures
            issue_result_view(issue) == read_issue_row(row@),
    {
        let time = match parse_u64(row.time_tracked_all.as_str()) {
            Some(v) => v,
            None => return Err(TrackerError::CorruptData),
        };
        Ok(
            Issue {
                id: row.id,
                name: row.name,
                url: row.url,
                summary: row.summary,
                assignee_email: row.assignee_email,
                time_tracked_all: time,
            },
        )
    }
}

impl Worklog {
    /// Reads a worklog from its row; `CorruptData` if one of its times
    /// cannot be read.
    pub fn from_row(row: WorklogDB) -> (worklog: Result<Self, TrackerError>)
        ensures
            worklog_result_view(worklog) == read_worklog_row(row@),
    {
        let start = match parse_u64(row.start.as_str()) {
            Some(v) => v,
            None => return Err(TrackerError::CorruptData),
        };
        let end = match parse_u64(row.end.as_str()) {
            Some(v) => v,
            None => return Err(TrackerError::CorruptData),
        };
        let total_time = match parse_u64(row.total_time.as_str()) {
            Some(v) => v,
            None => return Err(TrackerError::CorruptData),
        };
        Ok(Worklog { id: row.id, issue_id: row.issue_id, start, end, total_time })
    }
}

/// Turns the outcome of a query for one issue row into the issue: an error
/// of the query is passed on, a row is read.
pub fn convert_to_issue(val: Result<IssueDb, TrackerError>) -> (issue: Result<Issue, TrackerError>)
    ensures
        issue_result_view(issue) == match val {
            Ok(row) => read_issue_row(row@),
            Err(e) => Err(e),
        },
{
    match val {
        Ok(row) => Issue::from_row(row),
        Err(e) => Err(e),
    }
}

/// Turns the outcome of a query for one worklog row into the worklog: an
/// error of the query is passed on, a row is read.
pub fn convert_to_worklog(val: Result<WorklogDB, TrackerError>) -> (worklog: Result<
    Worklog,
    TrackerError,
>)
    ensures
        worklog_result_view(worklog) == match val {
            Ok(row) => read_worklog_row(row@),
            Err(e) => Err(e),
        },
{
    match val {
        Ok(row) => Worklog::from_row(row),
        Err(e) => Err(e),
    }
}

} // verus!
