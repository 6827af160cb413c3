//! The remote host's API: the interface the listing operations use, and
//! how a request is addressed and its answer judged.

use reqwest::blocking::{Client, Response};
use std::time::Duration;
use vstd::prelude::*;
use vstd::string::StringExecFns;
use crate::error::{AppError, AppErrorView};
use crate::models::{PullRequest, Repository};
use crate::text::{decimal, has_prefix, to_decimal};

verus! {

/// Page size used where the caller asks for none.
pub const DEFAULT_LIMIT: usize = 30;

/// Seconds after which a request is given up.
pub const DEFAULT_TIMEOUT_SECS: u64 = 30;

/// One question that was asked of the remote API, with its answer.
pub enum Question {
    /// The repositories of a user.
    UserRepos {
        token: Seq<char>,
        username: Seq<char>,
        limit: usize,
        answer: Result<Seq<Repository>, AppErrorView>,
    },
    /// The repositories of an organization.
    OrgRepos {
        token: Seq<char>,
        org: Seq<char>,
        limit: usize,
        answer: Result<Seq<Repository>, AppErrorView>,
    },
    /// The open pull requests of a repository.
    Pulls {
        token: Seq<char>,
        owner: Seq<char>,
        repo: Seq<char>,
        limit: usize,
        pulls: Result<Seq<PullRequest>, AppErrorView>,
    },
}

/// A listing of repositories or an error, as plain values.
pub open spec fn listing_of(res: Result<Vec<Repository>, AppError>) -> Result<
    Seq<Repository>,
    AppErrorView,
> {
    match res {
        Ok(v) => Ok(v@),
        Err(e) => Err(e@),
    }
}

/// A listing of pull requests or an error, as plain values.
pub open spec fn pulls_of(res: Result<Vec<PullRequest>, AppError>) -> Result<
    Seq<PullRequest>,
    AppErrorView,
> {
    match res {
        Ok(v) => Ok(v@),
        Err(e) => Err(e@),
    }
}

/// The remote API, as the listing operations see it. Every answer depends
/// on the network and on the remote host: nothing is promised of it. What
/// is promised is only that the record keeps what was asked.
pub trait Remote {
    /// What has been asked of this remote, oldest first, each with its
    /// answer. It records what was asked; it claims nothing of the host.
    closed spec fn questions(&self) -> Seq<Question> {
        arbitrary()
    }

    /// The repositories of a user, most recently pushed first.
    fn list_user_repos(&mut self, token: &str, username: &str, limit: usize) -> (res: Result<
        Vec<Repository>,
        AppError,
    >)
        ensures
            final(self).questions() == old(self).questions().push(
                Question::UserRepos {
                    token: token@,
                    username: username@,
                    limit,
                    answer: listing_of(res),
                },
            ),
    ;

    /// The repositories of an organization, most recently pushed first.
    fn list_org_repos(&mut self, token: &str, org: &str, limit: usize) -> (res: Result<
        Vec<Repository>,
        AppError,
    >)
        ensures
            final(self).questions() == old(self).questions().push(
                Question::OrgRepos { token: token@, org: org@, limit, answer: listing_of(res) },
            ),
    ;

    /// The open pull requests of a repository, most recently updated first.
    fn list_pull_requests(&mut self, token: &str, owner: &str, repo: &str, limit: usize) -> (res:
        Result<Vec<PullRequest>, AppError>)
        ensures
            final(self).questions() == old(self).questions().push(
                Question::Pulls {
                    token: token@,
                    owner: owner@,
                    repo: repo@,
                    limit,
                    pulls: pulls_of(res),
                },
            ),
    ;
}

/// The page size that is asked for: a limit of zero stands for the default.
pub fn effective_limit(limit: usize) -> (res: usize)
    ensures
        res == if limit == 0 {
            DEFAULT_LIMIT
        } else {
            limit
        },
{
    if limit == 0 {
        DEFAULT_LIMIT
    } else {
        limit
    }
}

/// The page size in decimal, as it stands in a request.
pub open spec fn per_page(limit: usize) -> Seq<char> {
    decimal(
        if limit == 0 {
            DEFAULT_LIMIT as nat
        } else {
            limit as nat
        },
    )
}

/// Address of the listing of a user's repositories.
pub fn user_repos_url(username: &str, limit: usize) -> (res: String)
    ensures
        res@ == "https://api.github.com/users/"@ + username@
            + "/repos?sort=pushed&direction=desc&per_page="@ + per_page(limit),
{
    let mut out = String::from_str("https://api.github.com/users/");
    out.append(username);
    out.append("/repos?sort=pushed&direction=desc&per_page=");
    out.append(to_decimal(effective_limit(limit)).as_str());
    out
}

/// Address of the listing of an organization's repositories.
pub fn org_repos_url(org: &str, limit: usize) -> (res: String)
    ensures
        res@ == "https://api.github.com/orgs/"@ + org@
            + "/repos?sort=pushed&direction=desc&per_page="@ + per_page(limit),
{
    let mut out = String::from_str("https://api.github.com/orgs/");
    out.append(org);
    out.append("/repos?sort=pushed&direction=desc&per_page=");
    out.append(to_decimal(effective_limit(limit)).as_str());
    out
}

/// Address of one repository.
pub fn repo_url(owner: &str, repo: &str) -> (res: String)
    ensures
        res@ == "https://api.github.com/repos/"@ + owner@ + "/"@ + repo@,
{
    let mut out = String::from_str("https://api.github.com/repos/");
    out.append(owner);
    out.append("/");
    out.append(repo);
    out
}

/// Address of the listing of a repository's open pull requests.
pub fn pulls_url(owner: &str, repo: &str, limit: usize) -> (res: String)
    ensures
        res@ == "https://api.github.com/repos/"@ + owner@ + "/"@ + repo@
            + "/pulls?state=open&sort=updated&direction=desc&per_page="@ + per_page(limit),
{
    let mut out = String::from_str("https://api.github.com/repos/");
    out.append(owner);
    out.append("/");
    out.append(repo);
    out.append("/pulls?state=open&sort=updated&direction=desc&per_page=");
    out.append(to_decimal(effective_limit(limit)).as_str());
    out
}

/// The value of the authorization header for a secret.
pub fn bearer(token: &str) -> (res: String)
    ensures
        res@ == "Bearer "@ + token@,
{
    let mut out = String::from_str("Bearer ");
    out.append(token);
    out
}

/// Judges an answer by its status code: one from 200 to 299 gives the body
/// back; any other is an error of the remote API that carries the status
/// line and the body.
pub fn check_response(code: u16, status: &str, body: String) -> (res: Result<String, AppError>)
    ensures
        match res {
            Ok(b) => 200 <= code < 300 && b == body,
            Err(e) => !(200 <= code < 300) && e@ == AppErrorView::GitHubApi(
                "API error "@ + status@ + ": "@ + body@,
            ),
        },
        res matches Err(e) ==> e@ matches AppErrorView::GitHubApi(detail) && has_prefix(
            detail,
            "API error "@,
        ),
{
    if 200 <= code && code < 300 {
        return Ok(body);
    }
    let mut detail = String::from_str("API error ");
    let ghost head = detail@;
    detail.append(status);
    detail.append(": ");
    detail.append(body.as_str());
    assert(detail@.subrange(0, head.len() as int) =~= head);
    Err(AppError::GitHubApi(detail))
}

#[verifier::external_type_specification]
#[verifier::external_body]
pub struct ExClient(Client);

#[verifier::external_type_specification]
#[verifier::external_body]
pub struct ExResponse(Response);

#[verifier::external_type_specification]
#[verifier::external_body]
pub struct ExReqwestError(reqwest::Error);

/// `reqwest::blocking::Client::builder().timeout(..).build()`: a client
/// that gives a request up after `timeout_secs` seconds. Whether one can be
/// made depends on the machine; nothing is claimed of the result. As all
/// of the blocking client, it is not to be called from inside an
/// asynchronous runtime.
#[verifier::external_body]
fn build_client(timeout_secs: u64) -> Result<Client, reqwest::Error> {
    Client::builder().timeout(Duration::from_secs(timeout_secs)).build()
}

/// `Client::get(url)`, three `header` calls and `send`: asks for `url` with
/// the given user agent, authorization and accepted format. The answer
/// depends on the network and on the host; nothing is claimed of it. As
/// all of the blocking client, it is not to be called from inside an
/// asynchronous runtime.
#[verifier::external_body]
fn send_get(client: &Client, url: &str, agent: &str, authorization: &str, accept: &str) -> Result<
    Response,
    reqwest::Error,
> {
    client
        .get(url)
        .header(reqwest::header::USER_AGENT, agent)
        .header(reqwest::header::AUTHORIZATION, authorization)
        .header(reqwest::header::ACCEPT, accept)
        .send()
}

/// `Response::status().as_u16()`: the status code of an answer. Nothing is
/// claimed of it.
#[verifier::external_body]
fn status_code(response: &Response) -> u16 {
    response.status().as_u16()
}

/// The text `StatusCode` displays for the status of an answer: its code
/// and, where it has one, its reason. Nothing is claimed of it.
#[verifier::external_body]
fn status_line(response: &Response) -> String {
    response.status().to_string()
}

/// `Response::text`: the body of an answer as text. Reading it may fail;
/// nothing is claimed of the result. As all of the blocking client, it is
/// not to be called from inside an asynchronous runtime.
#[verifier::external_body]
fn body_text(response: Response) -> Result<String, reqwest::Error> {
    response.text()
}

/// The text `reqwest::Error` displays. Nothing is claimed of it.
#[verifier::external_body]
fn request_error_text(e: &reqwest::Error) -> String {
    e.to_string()
}

/// `what` followed by what the HTTP client said.
fn with_cause(what: &str, e: &reqwest::Error) -> (res: String)
    ensures
        has_prefix(res@, what@),
{
    let mut detail = String::from_str(what);
    let ghost head = detail@;
    detail.append(request_error_text(e).as_str());
    assert(detail@.subrange(0, head.len() as int) =~= head);
    detail
}

/// What an answer comes to, given its status and how the reading of its
/// body ended. With the body read, [`check_response`] judges. Without it,
/// an answer outside 200 to 299 is judged as one with an empty body, and
/// one inside is an error of the remote API that says the answer could
/// not be read.
pub fn answer(code: u16, status: &str, body: Result<String, reqwest::Error>) -> (res: Result<
    String,
    AppError,
>)
    ensures
        match body {
            Ok(b) => match res {
                Ok(r) => 200 <= code < 300 && r == b,
                Err(e) => !(200 <= code < 300) && e@ == AppErrorView::GitHubApi(
                    "API error "@ + status@ + ": "@ + b@,
                ),
            },
            Err(_) => res matches Err(e) && if 200 <= code < 300 {
                e@ matches AppErrorView::GitHubApi(detail) && has_prefix(
                    detail,
                    "failed to parse response: "@,
                )
            } else {
                e@ == AppErrorView::GitHubApi("API error "@ + status@ + ": "@)
            },
        },
        res matches Err(e) ==> e@ matches AppErrorView::GitHubApi(detail) && (has_prefix(
            detail,
            "API error "@,
        ) || has_prefix(detail, "failed to parse response: "@)),
{
    match body {
        Ok(b) => check_response(code, status, b),
        Err(e) => if 200 <= code && code < 300 {
            Err(AppError::GitHubApi(with_cause("failed to parse response: ", &e)))
        } else {
            let empty = String::new();
            assert("API error "@ + status@ + ": "@ + empty@ =~= "API error "@ + status@ + ": "@);
            check_response(code, status, empty)
        },
    }
}

/// What sending a request comes to: the answer is handed on; a request
/// that could not be made becomes a network error that says so.
pub fn sent(outcome: Result<Response, reqwest::Error>) -> (res: Result<Response, AppError>)
    ensures
        match outcome {
            Ok(r) => res == Ok::<Response, AppError>(r),
            Err(_) => res matches Err(e) && e@ matches AppErrorView::Network(detail)
                && has_prefix(detail, "request failed: "@),
        },
{
    match outcome {
        Ok(r) => Ok(r),
        Err(e) => Err(AppError::Network(with_cause("request failed: ", &e))),
    }
}

/// Whether an error is one that a request can end in: a network error for
/// a request that could not be made, or an error of the remote API for an
/// answer that was refused or could not be read.
pub open spec fn is_request_error(e: AppErrorView) -> bool {
    ||| e matches AppErrorView::Network(detail) && has_prefix(detail, "request failed: "@)
    ||| e matches AppErrorView::GitHubApi(detail) && (has_prefix(detail, "API error "@)
        || has_prefix(detail, "failed to parse response: "@))
}

/// A client of the remote API that carries the secret of one account.
pub struct GitHubClient {
    client: Client,
    token: String,
}

impl GitHubClient {
    /// The secret this client signs its requests with.
    pub closed spec fn token(&self) -> Seq<char> {
        self.token@
    }

    /// A client for the account whose secret is `token`.
    pub fn new(token: String) -> (res: Result<GitHubClient, AppError>)
        ensures
            match res {
                Ok(c) => c.token() == token@,
                Err(e) => e@ matches AppErrorView::Network(detail) && has_prefix(
                    detail,
                    "failed to create HTTP client: "@,
                ),
            },
    {
        match build_client(DEFAULT_TIMEOUT_SECS) {
            Ok(client) => Ok(GitHubClient { client, token }),
            Err(e) => Err(AppError::Network(with_cause("failed to create HTTP client: ", &e))),
        }
    }

    /// Asks for `url`, signed with the secret of this client, and gives
    /// back the body of the answer. Sending comes to what [`sent`] says,
    /// and the answer to what [`answer`] says of its status and its body.
    pub fn request(&self, url: &str) -> (res: Result<String, AppError>)
        ensures
            res matches Err(e) ==> is_request_error(e@),
    {
        let authorization = bearer(self.token.as_str());
        let response = sent(
            send_get(
                &self.client,
                url,
                "gho",
                authorization.as_str(),
                "application/vnd.github+json",
            ),
        )?;
        let code = status_code(&response);
        let line = status_line(&response);
        answer(code, line.as_str(), body_text(response))
    }

    /// The listing of a user's repositories, as the remote API writes it:
    /// a JSON array, most recently pushed first.
    pub fn list_user_repos(&self, username: &str, limit: usize) -> (res: Result<String, AppError>)
        ensures
            res matches Err(e) ==> is_request_error(e@),
    {
        self.request(user_repos_url(username, limit).as_str())
    }

    /// The listing of an organization's repositories, as the remote API
    /// writes it: a JSON array, most recently pushed first.
    pub fn list_org_repos(&self, org: &str, limit: usize) -> (res: Result<String, AppError>)
        ensures
            res matches Err(e) ==> is_request_error(e@),
    {
        self.request(org_repos_url(org, limit).as_str())
    }

    /// One repository, as the remote API writes it: a JSON object.
    pub fn get_repo(&self, owner: &str, repo: &str) -> (res: Result<String, AppError>)
        ensures
            res matches Err(e) ==> is_request_error(e@),
    {
        self.request(repo_url(owner, repo).as_str())
    }

    /// The listing of a repository's open pull requests, as the remote API
    /// writes it: a JSON array, most recently updated first.
    pub fn list_pull_requests(&self, owner: &str, repo: &str, limit: usize) -> (res: Result<
        String,
        AppError,
    >)
        ensures
            res matches Err(e) ==> is_request_error(e@),
    {
        self.request(pulls_url(owner, repo, limit).as_str())
    }
}

} // verus!
