//! The store: the table of issues, the table of worklogs and the list of
//! recently tracked issue keys.
//!
//! Rows are kept as text, in the order in which they were added. Each
//! operation either goes through as a whole or leaves the store as it was.

use std::collections::VecDeque;
use vstd::prelude::*;
use vstd::string::*;
use crate::error::TrackerError;
use crate::issue::{Issue, IssueView};
use crate::lookup::{absent, found_at, lemma_found_is_position, position};
use crate::rows::{
    issue_result_view, issue_row, lemma_issue_row_round_trip, lemma_worklog_row_round_trip,
    read_issue_row, read_worklog_row, issue_row_readable, row_issue, worklog_result_view,
    worklog_row, IssueDb, IssueRow, WorklogDB, WorklogRow,
};
use crate::worklog::{Worklog, WorklogView};

verus! {

/// The tables of the store.
#[derive(Debug)]
pub struct Storage {
    pub issues: Vec<IssueDb>,
    pub worklogs: Vec<WorklogDB>,
    pub recent_issues: Vec<String>,
}

/// What a [`Storage`] holds, as plain values.
pub ghost struct StorageView {
    pub issues: Seq<IssueRow>,
    pub worklogs: Seq<WorklogRow>,
    pub recent_issues: Seq<Seq<char>>,
}

/// The rows of an issue table.
pub open spec fn issue_rows(table: Seq<IssueDb>) -> Seq<IssueRow> {
    Seq::new(table.len(), |i: int| table[i]@)
}

/// The rows of a worklog table.
pub open spec fn worklog_rows(table: Seq<WorklogDB>) -> Seq<WorklogRow> {
    Seq::new(table.len(), |i: int| table[i]@)
}

/// The texts of a list of strings.
pub open spec fn texts(list: Seq<String>) -> Seq<Seq<char>> {
    Seq::new(list.len(), |i: int| list[i]@)
}

/// The issues of a list, as plain values.
pub open spec fn issue_views(list: Seq<Issue>) -> Seq<IssueView> {
    Seq::new(list.len(), |i: int| list[i]@)
}

/// The column of issue keys.
pub open spec fn issue_names(rows: Seq<IssueRow>) -> Seq<Seq<char>> {
    Seq::new(rows.len(), |i: int| rows[i].name)
}

/// The column of issue ids.
pub open spec fn issue_ids(rows: Seq<IssueRow>) -> Seq<Seq<char>> {
    Seq::new(rows.len(), |i: int| rows[i].id)
}

/// The column of worklog ids.
pub open spec fn worklog_ids(rows: Seq<WorklogRow>) -> Seq<Seq<char>> {
    Seq::new(rows.len(), |i: int| rows[i].id)
}

impl View for Storage {
    type V = StorageView;

    open spec fn view(&self) -> StorageView {
        StorageView {
            issues: issue_rows(self.issues@),
            worklogs: worklog_rows(self.worklogs@),
            recent_issues: texts(self.recent_issues@),
        }
    }
}

/// What looking an issue up by its key gives.
pub open spec fn issue_by_name(store: StorageView, name: Seq<char>) -> Result<
    IssueView,
    TrackerError,
> {
    match position(issue_names(store.issues), name) {
        None => Err(TrackerError::NotFound),
        Some(i) => read_issue_row(store.issues[i]),
    }
}

/// What looking a worklog up by its id gives.
pub open spec fn worklog_by_id(store: StorageView, id: Seq<char>) -> Result<
    WorklogView,
    TrackerError,
> {
    match position(worklog_ids(store.worklogs), id) {
        None => Err(TrackerError::NotFound),
        Some(i) => read_worklog_row(store.worklogs[i]),
    }
}

/// Every issue row can be read.
pub open spec fn all_issues_readable(rows: Seq<IssueRow>) -> bool {
    forall|i: int| 0 <= i < rows.len() ==> issue_row_readable(#[trigger] rows[i])
}

/// What listing the issues gives: every issue in table order, or
/// `CorruptData` if some row cannot be read.
pub open spec fn all_issues(store: StorageView) -> Result<Seq<IssueView>, TrackerError> {
    if all_issues_readable(store.issues) {
        Ok(Seq::new(store.issues.len(), |i: int| row_issue(store.issues[i])))
    } else {
        Err(TrackerError::CorruptData)
    }
}

/// The store after an attempt to add `issue`, and what the attempt returns.
pub open spec fn after_add_issue(store: StorageView, issue: IssueView) -> (
    StorageView,
    Result<IssueView, TrackerError>,
) {
    if position(issue_ids(store.issues), issue.id) is Some || position(
        issue_names(store.issues),
        issue.name,
    ) is Some {
        (store, Err(TrackerError::Conflict))
    } else {
        (StorageView { issues: store.issues.push(issue_row(issue)), ..store }, Ok(issue))
    }
}

/// The store after an attempt to replace the issue with `issue.id`, and
/// what the attempt returns.
pub open spec fn after_edit_issue(store: StorageView, issue: IssueView) -> (
    StorageView,
    Result<IssueView, TrackerError>,
) {
    match position(issue_ids(store.issues), issue.id) {
        None => (store, Err(TrackerError::NotFound)),
        Some(i) => (
            StorageView { issues: store.issues.update(i, issue_row(issue)), ..store },
            Ok(issue),
        ),
    }
}

/// The store after an attempt to add `worklog`, and what the attempt returns.
pub open spec fn after_add_worklog(store: StorageView, worklog: WorklogView) -> (
    StorageView,
    Result<WorklogView, TrackerError>,
) {
    if position(worklog_ids(store.worklogs), worklog.id) is Some {
        (store, Err(TrackerError::Conflict))
    } else {
        (StorageView { worklogs: store.worklogs.push(worklog_row(worklog)), ..store }, Ok(worklog))
    }
}

/// The store after an attempt to set the times of the worklog with
/// `worklog.id`, and what the attempt returns. The row keeps the issue it
/// refers to.
pub open spec fn after_edit_worklog(store: StorageView, worklog: WorklogView) -> (
    StorageView,
    Result<WorklogView, TrackerError>,
) {
    match position(worklog_ids(store.worklogs), worklog.id) {
        None => (store, Err(TrackerError::NotFound)),
        Some(i) => {
            let stored = WorklogView { issue_id: store.worklogs[i].issue_id, ..worklog };
            (
                StorageView { worklogs: store.worklogs.update(i, worklog_row(stored)), ..store },
                Ok(stored),
            )
        },
    }
}

/// The store after the recent list has been replaced by `recent`.
pub open spec fn after_save_recent(store: StorageView, recent: Seq<Seq<char>>) -> StorageView {
    StorageView { recent_issues: recent, ..store }
}

/// The first row of `table` whose key is `name`.
fn find_issue_named(table: &Vec<IssueDb>, name: &String) -> (at: Option<usize>)
    ensures
        match at {
            Some(i) => found_at(issue_names(issue_rows(table@)), name@, i as int),
            None => absent(issue_names(issue_rows(table@)), name@),
        },
        position(issue_names(issue_rows(table@)), name@) == match at {
            Some(i) => Some(i as int),
            None => None,
        },
{
    let ghost keys = issue_names(issue_rows(table@));
    let mut i: usize = 0;
    while i < table.len()
        invariant
            i <= table.len(),
            keys == issue_names(issue_rows(table@)),
            forall|j: int| 0 <= j < i ==> #[trigger] keys[j] != name@,
        decreases table.len() - i,
    {
        if table[i].name == *name {
            proof {
                assert(keys[i as int] == name@);
                lemma_found_is_position(keys, name@, i as int);
            }
            return Some(i);
        }
        assert(keys[i as int] != name@);
        i = i + 1;
    }
    None
}

/// The first row of `table` whose id is `id`.
fn find_issue_with_id(table: &Vec<IssueDb>, id: &String) -> (at: Option<usize>)
    ensures
        match at {
            Some(i) => found_at(issue_ids(issue_rows(table@)), id@, i as int),
            None => absent(issue_ids(issue_rows(table@)), id@),
        },
        position(issue_ids(issue_rows(table@)), id@) == match at {
            Some(i) => Some(i as int),
            None => None,
        },
{
    let ghost keys = issue_ids(issue_rows(table@));
    let mut i: usize = 0;
    while i < table.len()
        invariant
            i <= table.len(),
            keys == issue_ids(issue_rows(table@)),
            forall|j: int| 0 <= j < i ==> #[trigger] keys[j] != id@,
        decreases table.len() - i,
    {
        if table[i].id == *id {
            proof {
                assert(keys[i as int] == id@);
                lemma_found_is_position(keys, id@, i as int);
            }
            return Some(i);
        }
        assert(keys[i as int] != id@);
        i = i + 1;
    }
    None
}

/// The first row of `table` whose id is `id`.
fn find_worklog_with_id(table: &Vec<WorklogDB>, id: &String) -> (at: Option<usize>)
    ensures
        match at {
            Some(i) => found_at(worklog_ids(worklog_rows(table@)), id@, i as int),
            None => absent(worklog_ids(worklog_rows(table@)), id@),
        },
        position(worklog_ids(worklog_rows(table@)), id@) == match at {
            Some(i) => Some(i as int),
            None => None,
        },
{
    let ghost keys = worklog_ids(worklog_rows(table@));
    let mut i: usize = 0;
    while i < table.len()
        invariant
            i <= table.len(),
            keys == worklog_ids(worklog_rows(table@)),
            forall|j: int| 0 <= j < i ==> #[trigger] keys[j] != id@,
        decreases table.len() - i,
    {
        if table[i].id == *id {
            proof {
                assert(keys[i as int] == id@);
                lemma_found_is_position(keys, id@, i as int);
            }
            return Some(i);
        }
        assert(keys[i as int] != id@);
        i = i + 1;
    }
    None
}

impl Storage {
    /// A store with no rows.
    pub fn new() -> (store: Self)
        ensures
            store@ == (StorageView {
                issues: Seq::empty(),
                worklogs: Seq::empty(),
                recent_issues: Seq::empty(),
            }),
    {
        let store = Storage { issues: Vec::new(), worklogs: Vec::new(), recent_issues: Vec::new() };
        assert(store@.issues =~= Seq::empty());
        assert(store@.worklogs =~= Seq::empty());
        assert(store@.recent_issues =~= Seq::empty());
        store
    }

    /// The issue with the key `name`: `NotFound` if no row has that key,
    /// `CorruptData` if the row's total cannot be read.
    pub fn get_issue(&self, name: String) -> (issue: Result<Issue, TrackerError>)
        ensures
            issue_result_view(issue) == issue_by_name(self@, name@),
    {
        match find_issue_named(&self.issues, &name) {
            None => Err(TrackerError::NotFound),
            Some(i) => Issue::from_row(self.issues[i].clone()),
        }
    }

    /// Every issue, in table order; `CorruptData` if some row cannot be read.
    pub fn get_issues(&self) -> (issues: Result<Vec<Issue>, TrackerError>)
        ensures
            match issues {
                Ok(list) => all_issues(self@) == Ok::<Seq<IssueView>, TrackerError>(
                    issue_views(list@),
                ),
                Err(e) => all_issues(self@) == Err::<Seq<IssueView>, TrackerError>(e),
            },
    {
        let mut list: Vec<Issue> = Vec::new();
        let mut i: usize = 0;
        while i < self.issues.len()
            invariant
                i <= self.issues.len(),
                list@.len() == i,
                forall|j: int|
                    0 <= j < i ==> issue_row_readable(#[trigger] self@.issues[j]) && list@[j]@
                        == row_issue(self@.issues[j]),
            decreases self.issues.len() - i,
        {
            match Issue::from_row(self.issues[i].clone()) {
                Ok(issue) => list.push(issue),
                Err(e) => {
                    assert(!issue_row_readable(self@.issues[i as int]));
                    return Err(e);
                },
            }
            i = i + 1;
        }
        assert(issue_views(list@) =~= Seq::new(
            self@.issues.len(),
            |i: int| row_issue(self@.issues[i]),
        ));
        Ok(list)
    }

    /// Adds `given_issue` as a new row and returns it as stored. `Conflict`
    /// if a row already has its id or its key; the store is then unchanged.
    pub fn add_issue(&mut self, given_issue: Issue) -> (issue: Result<Issue, TrackerError>)
        ensures
            (final(self)@, issue_result_view(issue)) == after_add_issue(old(self)@, given_issue@),
    {
        if find_issue_with_id(&self.issues, &given_issue.id).is_some() {
            return Err(TrackerError::Conflict);
        }
        if find_issue_named(&self.issues, &given_issue.name).is_some() {
            return Err(TrackerError::Conflict);
        }
        let row = IssueDb::from_issue(given_issue);
        let stored = row.clone();
        self.issues.push(row);
        proof {
            lemma_issue_row_round_trip(given_issue@);
            assert(final(self)@.issues =~= old(self)@.issues.push(issue_row(given_issue@)));
        }
        Issue::from_row(stored)
    }

    /// Replaces the row with the id of `given_issue` by it and returns it
    /// as stored. `NotFound` if no row has that id; the store is then
    /// unchanged.
    pub fn edit_issue(&mut self, given_issue: Issue) -> (issue: Result<Issue, TrackerError>)
        ensures
            (final(self)@, issue_result_view(issue)) == after_edit_issue(old(self)@, given_issue@),
    {
        let at = match find_issue_with_id(&self.issues, &given_issue.id) {
            None => return Err(TrackerError::NotFound),
            Some(i) => i,
        };
        let row = IssueDb::from_issue(given_issue);
        let stored = row.clone();
        self.issues.set(at, row);
        proof {
            lemma_issue_row_round_trip(given_issue@);
            assert(final(self)@.issues =~= old(self)@.issues.update(
                at as int,
                issue_row(given_issue@),
            ));
        }
        Issue::from_row(stored)
    }

    /// Adds `given_worklog` as a new row and returns it as stored.
    /// `Conflict` if a row already has its id; the store is then unchanged.
    pub fn add_worklog(&mut self, given_worklog: Worklog) -> (worklog: Result<
        Worklog,
        TrackerError,
    >)
        ensures
            (final(self)@, worklog_result_view(worklog)) == after_add_worklog(
                old(self)@,
                given_worklog@,
            ),
    {
        if find_worklog_with_id(&self.worklogs, &given_worklog.id).is_some() {
            return Err(TrackerError::Conflict);
        }
        let row = WorklogDB::from_worklog(given_worklog);
        let stored = row.clone();
        self.worklogs.push(row);
        proof {
            lemma_worklog_row_round_trip(given_worklog@);
            assert(final(self)@.worklogs =~= old(self)@.worklogs.push(worklog_row(given_worklog@)));
        }
        Worklog::from_row(stored)
    }

    /// Sets the three times of the row with the id of `given_worklog` and
    /// returns the row as stored. `NotFound` if no row has that id; the
    /// store is then unchanged.
    pub fn edit_worklog(&mut self, given_worklog: Worklog) -> (worklog: Result<
        Worklog,
        TrackerError,
    >)
        ensures
            (final(self)@, worklog_result_view(worklog)) == after_edit_worklog(
                old(self)@,
                given_worklog@,
            ),
    {
        let at = match find_worklog_with_id(&self.worklogs, &given_worklog.id) {
            None => return Err(TrackerError::NotFound),
            Some(i) => i,
        };
        let ghost stored_view = WorklogView {
            issue_id: old(self)@.worklogs[at as int].issue_id,
            ..given_worklog@
        };
        let issue_id = self.worklogs[at].issue_id.clone();
        let row = WorklogDB::from_worklog(
            Worklog {
                id: given_worklog.id,
                issue_id,
                start: given_worklog.start,
                end: given_worklog.end,
                total_time: given_worklog.total_time,
            },
        );
        let stored = row.clone();
        self.worklogs.set(at, row);
        proof {
            lemma_worklog_row_round_trip(stored_view);
            assert(final(self)@.worklogs =~= old(self)@.worklogs.update(
                at as int,
                worklog_row(stored_view),
            ));
        }
        Worklog::from_row(stored)
    }

    /// Replaces the stored recent list by `recent_issues`, in the same order.
    pub fn save_recent_issues(&mut self, recent_issues: VecDeque<String>)
        ensures
            final(self)@ == after_save_recent(old(self)@, texts(recent_issues@)),
    {
        let mut list: Vec<String> = Vec::new();
        let mut i: usize = 0;
        while i < recent_issues.len()
            invariant
                i <= recent_issues.len(),
                list@.len() == i,
                forall|j: int| 0 <= j < i ==> (#[trigger] list@[j])@ == recent_issues@[j]@,
            decreases recent_issues.len() - i,
        {
            list.push(recent_issues[i].clone());
            i = i + 1;
        }
        self.recent_issues = list;
        assert(final(self)@.recent_issues =~= texts(recent_issues@));
    }

    /// The stored recent list, in the order in which it was saved.
    pub fn get_recent_issues(&self) -> (recent: VecDeque<String>)
        ensures
            texts(recent@) == self@.recent_issues,
    {
        let mut recent: VecDeque<String> = VecDeque::new();
        let mut i: usize = 0;
        while i < self.recent_issues.len()
            invariant
                i <= self.recent_issues.len(),
                recent@.len() == i,
                forall|j: int| 0 <= j < i ==> (#[trigger] recent@[j])@ == self.recent_issues@[j]@,
            decreases self.recent_issues.len() - i,
        {
            recent.push_back(self.recent_issues[i].clone());
            i = i + 1;
        }
        assert(texts(recent@) =~= self@.recent_issues);
        recent
    }
}

} // verus!
