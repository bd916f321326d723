//! What is needed to ask the issue tracker for an issue: the account, the
//! address of an issue and the credentials that go with the request.
//! Sending the request is left to the caller.

use vstd::prelude::*;
use vstd::string::*;
use crate::issue::{Issue, IssueView};

verus! {

/// Where the issue tracker is and under which account it is asked.
#[derive(Debug, PartialEq, Eq)]
pub struct JiraConfiguration {
    /// The address of the tracker, without a slash at its end.
    pub base_path: String,
    /// The account; new issues are assigned to it.
    pub user: String,
    /// The key that stands for the account's password.
    pub api_key: String,
}

/// What a [`JiraConfiguration`] holds, as plain values.
pub ghost struct JiraView {
    pub base_path: Seq<char>,
    pub user: Seq<char>,
    pub api_key: Seq<char>,
}

impl View for JiraConfiguration {
    type V = JiraView;

    open spec fn view(&self) -> JiraView {
        JiraView { base_path: self.base_path@, user: self.user@, api_key: self.api_key@ }
    }
}

/// The setting that is missing from the configuration.
#[derive(Debug, Clone, Copy, PartialEq, Eq, Structural)]
pub enum ConfigError {
    /// The address of the tracker is not set.
    MissingUrl,
    /// The account is not set.
    MissingUser,
    /// The key of the account is not set.
    MissingKey,
}

/// A request for one issue: where to ask, and the value of the
/// `Authorization` header to send along.
#[derive(Debug, PartialEq, Eq)]
pub struct IssueRequest {
    pub url: String,
    pub authorization: String,
}

/// The value of the `Authorization` header for basic authentication with
/// the given user and password, as `http_auth_basic` composes it.
pub uninterp spec fn basic_authorization(user: Seq<char>, password: Seq<char>) -> Seq<char>;

/// The address under which the tracker at `base_path` serves the issue
/// with the key `name`.
pub open spec fn issue_address(base_path: Seq<char>, name: Seq<char>) -> Seq<char> {
    base_path + "/rest/api/3/issue/"@ + name
}

/// The value of the `Authorization` header for `user` and `password`:
/// `http_auth_basic::Credentials::new` followed by `as_http_header`, which
/// writes the word `Basic`, a space, and the base64 form of the user, a
/// colon and the password. The contract only names that text; it is the
/// same for the same user and password.
#[verifier::external_body]
fn authorization_header(user: &str, password: &str) -> (header: String)
    ensures
        header@ == basic_authorization(user@, password@),
{
    http_auth_basic::Credentials::new(user, password).as_http_header()
}

/// The configuration made of the three settings. The first one that is
/// missing, in the order address, account, key, is reported.
pub fn setup_jira(base_path: Option<String>, user: Option<String>, api_key: Option<String>) -> (config:
    Result<JiraConfiguration, ConfigError>)
    ensures
        match config {
            Ok(c) => base_path is Some && user is Some && api_key is Some && c@ == (JiraView {
                base_path: base_path->0@,
                user: user->0@,
                api_key: api_key->0@,
            }),
            Err(e) => {
                &&& base_path is None ==> e == ConfigError::MissingUrl
                &&& base_path is Some && user is None ==> e == ConfigError::MissingUser
                &&& base_path is Some && user is Some ==> e == ConfigError::MissingKey
                    && api_key is None
            },
        },
{
    let base_path = match base_path {
        Some(v) => v,
        None => return Err(ConfigError::MissingUrl),
    };
    let user = match user {
        Some(v) => v,
        None => return Err(ConfigError::MissingUser),
    };
    let api_key = match api_key {
        Some(v) => v,
        None => return Err(ConfigError::MissingKey),
    };
    Ok(JiraConfiguration { base_path, user, api_key })
}

/// The request for the issue with the key `name`, given the value of the
/// `Authorization` header.
pub fn issue_request_with(config: &JiraConfiguration, name: &str, authorization: String) -> (request:
    IssueRequest)
    ensures
        request.url@ == issue_address(config@.base_path, name@),
        request.authorization@ == authorization@,
{
    let mut url = config.base_path.clone();
    url.append("/rest/api/3/issue/");
    url.append(name);
    IssueRequest { url, authorization }
}

/// The request for the issue with the key `name`, with the credentials of
/// the configured account.
pub fn issue_request(config: &JiraConfiguration, name: &str) -> (request: IssueRequest)
    ensures
        request.url@ == issue_address(config@.base_path, name@),
        request.authorization@ == basic_authorization(config@.user, config@.api_key),
{
    let authorization = authorization_header(config.user.as_str(), config.api_key.as_str());
    issue_request_with(config, name, authorization)
}

/// The issue that the tracker's answer describes. The key is the one that
/// was asked for; time that the tracker does not report counts as zero.
pub fn issue_from_remote(
    name: String,
    id: String,
    url: String,
    summary: String,
    assignee_email: String,
    time_spent: Option<u64>,
) -> (issue: Issue)
    ensures
        issue@ == (IssueView {
            id: id@,
            name: name@,
            url: url@,
            summary: summary@,
            assignee_email: assignee_email@,
            time_tracked_all: match time_spent {
                Some(seconds) => seconds,
                None => 0,
            },
        }),
{
    let time_tracked_all = match time_spent {
        Some(seconds) => seconds,
        None => 0,
    };
    Issue { id, name, url, summary, assignee_email, time_tracked_all }
}

} // verus!
