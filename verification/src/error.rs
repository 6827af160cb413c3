//! The error type shared by every operation of the library.

use vstd::prelude::*;
use vstd::string::StringExecFns;
use crate::text::owned;

verus! {

/// Why an operation failed. Text payloads are the detail shown to the user.
#[derive(Debug)]
pub enum AppError {
    /// A document could not be read or written.
    Io(String),
    /// The configuration is unusable, or a prompt gave nothing usable.
    Config(String),
    /// No account has the given id.
    AccountNotFound(String),
    /// The active id is unset or names no account.
    NoActiveAccount,
    /// The secret vault refused an operation.
    Keychain(String),
    /// The remote API answered outside the 2xx range, or unreadably.
    GitHubApi(String),
    /// The local version-control program failed.
    Git(String),
    /// A document is not valid JSON of the expected shape.
    Json(String),
    /// The remote host could not be reached.
    Network(String),
    /// Interactive selection needs a terminal.
    TtyRequired,
    /// An argument is malformed.
    InvalidInput(String),
    /// An account with the given id already exists.
    DuplicateAccount(String),
}

/// An [`AppError`] as plain values.
pub enum AppErrorView {
    Io(Seq<char>),
    Config(Seq<char>),
    AccountNotFound(Seq<char>),
    NoActiveAccount,
    Keychain(Seq<char>),
    GitHubApi(Seq<char>),
    Git(Seq<char>),
    Json(Seq<char>),
    Network(Seq<char>),
    TtyRequired,
    InvalidInput(Seq<char>),
    DuplicateAccount(Seq<char>),
}

impl View for AppError {
    type V = AppErrorView;

    open spec fn view(&self) -> AppErrorView {
        match self {
            AppError::Io(m) => AppErrorView::Io(m@),
            AppError::Config(m) => AppErrorView::Config(m@),
            AppError::AccountNotFound(m) => AppErrorView::AccountNotFound(m@),
            AppError::NoActiveAccount => AppErrorView::NoActiveAccount,
            AppError::Keychain(m) => AppErrorView::Keychain(m@),
            AppError::GitHubApi(m) => AppErrorView::GitHubApi(m@),
            AppError::Git(m) => AppErrorView::Git(m@),
            AppError::Json(m) => AppErrorView::Json(m@),
            AppError::Network(m) => AppErrorView::Network(m@),
            AppError::TtyRequired => AppErrorView::TtyRequired,
            AppError::InvalidInput(m) => AppErrorView::InvalidInput(m@),
            AppError::DuplicateAccount(m) => AppErrorView::DuplicateAccount(m@),
        }
    }
}

impl AppErrorView {
    /// The one-line message of the error.
    pub open spec fn message(self) -> Seq<char> {
        match self {
            AppErrorView::Io(m) => "IO error: "@ + m,
            AppErrorView::Config(m) => "Configuration error: "@ + m,
            AppErrorView::AccountNotFound(m) => "Account not found: "@ + m,
            AppErrorView::NoActiveAccount => "No active account configured"@,
            AppErrorView::Keychain(m) => "Keychain error: "@ + m,
            AppErrorView::GitHubApi(m) => "GitHub API error: "@ + m,
            AppErrorView::Git(m) => "Git error: "@ + m,
            AppErrorView::Json(m) => "JSON error: "@ + m,
            AppErrorView::Network(m) => "Network error: "@ + m,
            AppErrorView::TtyRequired => "TTY required for interactive selection"@,
            AppErrorView::InvalidInput(m) => "Invalid input: "@ + m,
            AppErrorView::DuplicateAccount(id) => "Invalid input: account '"@ + id
                + "' already exists"@,
        }
    }
}

/// `prefix` followed by `detail`.
fn prefixed(prefix: &str, detail: &str) -> (res: String)
    ensures
        res@ == prefix@ + detail@,
{
    let mut out = String::from_str(prefix);
    out.append(detail);
    out
}

impl AppError {
    pub fn io(msg: &str) -> (res: AppError)
        ensures
            res@ == AppErrorView::Io(msg@),
    {
        AppError::Io(owned(msg))
    }

    pub fn config(msg: &str) -> (res: AppError)
        ensures
            res@ == AppErrorView::Config(msg@),
    {
        AppError::Config(owned(msg))
    }

    pub fn keychain(msg: &str) -> (res: AppError)
        ensures
            res@ == AppErrorView::Keychain(msg@),
    {
        AppError::Keychain(owned(msg))
    }

    pub fn github_api(msg: &str) -> (res: AppError)
        ensures
            res@ == AppErrorView::GitHubApi(msg@),
    {
        AppError::GitHubApi(owned(msg))
    }

    pub fn git(msg: &str) -> (res: AppError)
        ensures
            res@ == AppErrorView::Git(msg@),
    {
        AppError::Git(owned(msg))
    }

    pub fn json(msg: &str) -> (res: AppError)
        ensures
            res@ == AppErrorView::Json(msg@),
    {
        AppError::Json(owned(msg))
    }

    pub fn network(msg: &str) -> (res: AppError)
        ensures
            res@ == AppErrorView::Network(msg@),
    {
        AppError::Network(owned(msg))
    }

    pub fn invalid_input(msg: &str) -> (res: AppError)
        ensures
            res@ == AppErrorView::InvalidInput(msg@),
    {
        AppError::InvalidInput(owned(msg))
    }

    /// The one-line message shown for this error.
    pub fn message(&self) -> (res: String)
        ensures
            res@ == self@.message(),
    {
        match self {
            AppError::Io(m) => prefixed("IO error: ", m.as_str()),
            AppError::Config(m) => prefixed("Configuration error: ", m.as_str()),
            AppError::AccountNotFound(m) => prefixed("Account not found: ", m.as_str()),
            AppError::NoActiveAccount => owned("No active account configured"),
            AppError::Keychain(m) => prefixed("Keychain error: ", m.as_str()),
            AppError::GitHubApi(m) => prefixed("GitHub API error: ", m.as_str()),
            AppError::Git(m) => prefixed("Git error: ", m.as_str()),
            AppError::Json(m) => prefixed("JSON error: ", m.as_str()),
            AppError::Network(m) => prefixed("Network error: ", m.as_str()),
            AppError::TtyRequired => owned("TTY required for interactive selection"),
            AppError::InvalidInput(m) => prefixed("Invalid input: ", m.as_str()),
            AppError::DuplicateAccount(id) => {
                let mut out = prefixed("Invalid input: account '", id.as_str());
                out.append("' already exists");
                out
            },
        }
    }
}

} // verus!
