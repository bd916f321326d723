//! Time tracking against issues.
//!
//! One session runs at a time. Starting a session stores an open worklog;
//! stopping it adds the measured duration to the issue's total and closes
//! the worklog. The store keeps issues and worklogs as rows of text.
//!
//! - [`issue`], [`worklog`]: the two kinds of value.
//! - [`decimal`], [`rows`]: their stored form, and reading it back.
//! - [`lookup`], [`storage`]: the tables and the operations on them.
//! - [`recent`]: the list of recently tracked keys.
//! - [`session`]: the state, and the rules for starting and ending a session.
//! - [`commands`]: the operations that callers use.
//! - [`clock`], [`ids`]: clock readings and fresh identifiers.
//! - [`display`]: how a duration is shown.
//! - [`jira`]: the request by which an issue is asked of the tracker.
//! - [`laws`], [`balance`]: what is proved of runs of operations.

pub mod balance;
pub mod clock;
pub mod commands;
pub mod decimal;
pub mod display;
pub mod error;
pub mod ids;
pub mod issue;
pub mod jira;
pub mod laws;
pub mod lookup;
pub mod recent;
pub mod rows;
pub mod session;
pub mod storage;
pub mod worklog;
