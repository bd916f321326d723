//! A worklog: one interval of work on one issue.

use vstd::prelude::*;
use vstd::string::*;

verus! {

/// One work interval. While the session runs, `end` and `total_time` are
/// zero; closing the session fills them in.
#[derive(Debug, PartialEq, Eq)]
pub struct Worklog {
    /// Identifier of the row, fresh for every session.
    pub id: String,
    /// The id of the issue worked on.
    pub issue_id: String,
    /// Wall-clock start, in seconds since the Unix epoch.
    pub start: u64,
    /// Wall-clock end, in seconds since the Unix epoch; zero while open.
    pub end: u64,
    /// Seconds worked; zero while open.
    pub total_time: u64,
}

/// What a [`Worklog`] holds, as plain values.
pub ghost struct WorklogView {
    pub id: Seq<char>,
    pub issue_id: Seq<char>,
    pub start: u64,
    pub end: u64,
    pub total_time: u64,
}

impl View for Worklog {
    type V = WorklogView;

    open spec fn view(&self) -> WorklogView {
        WorklogView {
            id: self.id@,
            issue_id: self.issue_id@,
            start: self.start,
            end: self.end,
            total_time: self.total_time,
        }
    }
}

impl Clone for Worklog {
    fn clone(&self) -> (copy: Self)
        ensures
            copy@ == self@,
    {
        Worklog {
            id: self.id.clone(),
            issue_id: self.issue_id.clone(),
            start: self.start,
            end: self.end,
            total_time: self.total_time,
        }
    }
}

impl Worklog {
    /// A worklog with the given fields.
    pub fn new(id: String, issue_id: String, start: u64, end: u64, total_time: u64) -> (worklog:
        Self)
        ensures
            worklog@ == (WorklogView { id: id@, issue_id: issue_id@, start, end, total_time }),
    {
        Self { id, issue_id, start, end, total_time }
    }

    /// The worklog with empty ids and all times zero.
    pub fn empty() -> (worklog: Self)
        ensures
            worklog@ == (WorklogView {
                id: Seq::empty(),
                issue_id: Seq::empty(),
                start: 0,
                end: 0,
                total_time: 0,
            }),
    {
        Self { id: String::new(), issue_id: String::new(), start: 0, end: 0, total_time: 0 }
    }

    /// The worklog stands for a session that has not been closed.
    pub fn is_open(&self) -> (open: bool)
        ensures
            open == (self@.end == 0),
    {
        self.end == 0
    }
}

} // verus!
