//! An issue: a unit of work that time is tracked against.

use vstd::prelude::*;
use vstd::string::*;

verus! {

/// A unit of trackable work, as the tracker and its callers see it.
#[derive(Debug, PartialEq, Eq)]
pub struct Issue {
    /// Stable identifier of the row.
    pub id: String,
    /// The key under which the issue tracker knows the issue; sessions are
    /// started by it.
    pub name: String,
    pub url: String,
    pub summary: String,
    pub assignee_email: String,
    /// Seconds tracked on this issue over all closed sessions.
    pub time_tracked_all: u64,
}

/// What an [`Issue`] holds, as plain values.
pub ghost struct IssueView {
    pub id: Seq<char>,
    pub name: Seq<char>,
    pub url: Seq<char>,
    pub summary: Seq<char>,
    pub assignee_email: Seq<char>,
    pub time_tracked_all: u64,
}

impl View for Issue {
    type V = IssueView;

    open spec fn view(&self) -> IssueView {
        IssueView {
            id: self.id@,
            name: self.name@,
            url: self.url@,
            summary: self.summary@,
            assignee_email: self.assignee_email@,
            time_tracked_all: self.time_tracked_all,
        }
    }
}

impl Clone for Issue {
    fn clone(&self) -> (copy: Self)
        ensures
            copy@ == self@,
    {
        Issue {
            id: self.id.clone(),
            name: self.name.clone(),
            url: self.url.clone(),
            summary: self.summary.clone(),
            assignee_email: self.assignee_email.clone(),
            time_tracked_all: self.time_tracked_all,
        }
    }
}

impl Issue {
    /// An issue with the given fields.
    pub fn new(
        id: String,
        name: String,
        url: String,
        summary: String,
        assignee_email: String,
        time_tracked_all: u64,
    ) -> (issue: Self)
        ensures
            issue@ == (IssueView {
                id: id@,
                name: name@,
                url: url@,
                summary: summary@,
                assignee_email: assignee_email@,
                time_tracked_all,
            }),
    {
        Self { id, name, url, summary, assignee_email, time_tracked_all }
    }

    /// The issue whose text fields are all empty and whose total is zero.
    pub fn empty() -> (issue: Self)
        ensures
            issue@ == (IssueView {
                id: Seq::empty(),
                name: Seq::empty(),
                url: Seq::empty(),
                summary: Seq::empty(),
                assignee_email: Seq::empty(),
                time_tracked_all: 0,
            }),
    {
        Self {
            id: String::new(),
            name: String::new(),
            url: String::new(),
            summary: String::new(),
            assignee_email: String::new(),
            time_tracked_all: 0,
        }
    }

    /// The line shown for the issue: its key and its summary, as `(key: summary)`.
    pub fn label(&self) -> (text: String)
        ensures
            text@ == "("@ + self@.name + ": "@ + self@.summary + ")"@,
    {
        let mut text = String::from_str("(");
        text.append(self.name.as_str());
        text.append(": ");
        text.append(self.summary.as_str());
        text.append(")");
        text
    }
}

} // verus!
