//! Where the documents of the tool live.

use std::path::PathBuf;
use vstd::prelude::*;
use crate::error::{AppError, AppErrorView};
use crate::text::opt_view;

verus! {

#[verifier::external_type_specification]
#[verifier::external_body]
pub struct ExPathBuf(PathBuf);

pub assume_specification[ <PathBuf as Clone>::clone ](p: &PathBuf) -> (res: PathBuf)
    ensures
        res == *p,
;

/// The path that `Path::join` gives for a base directory and a leaf name.
pub uninterp spec fn joined(base: PathBuf, leaf: Seq<char>) -> PathBuf;

/// `Path::join`: the path made by adjoining `leaf` to `base`. The result is
/// a function of the two arguments; it is named, not spelled out.
#[verifier::external_body]
pub(crate) fn join(base: &PathBuf, leaf: &str) -> (res: PathBuf)
    ensures
        res == joined(*base, leaf@),
{
    base.join(leaf)
}

/// The path that `PathBuf::from` makes of a text.
pub uninterp spec fn path_from(text: Seq<char>) -> PathBuf;

/// `PathBuf::from`: the path that `text` spells. The result is a function
/// of the text; it is named, not spelled out.
#[verifier::external_body]
pub(crate) fn path_of(text: &str) -> (res: PathBuf)
    ensures
        res == path_from(text@),
{
    PathBuf::from(text)
}

/// The text that `Path::display` shows for a path.
pub uninterp spec fn displayed(path: PathBuf) -> Seq<char>;

/// `Path::display`: the path as text, for messages. The result is a
/// function of the path; it is named, not spelled out.
#[verifier::external_body]
pub(crate) fn path_text(path: &PathBuf) -> (res: String)
    ensures
        res@ == displayed(*path),
{
    path.display().to_string()
}

/// Application-wide configuration.
#[derive(Debug)]
pub struct Config {
    /// Directory that holds the documents.
    pub config_path: PathBuf,
}

impl Clone for Config {
    fn clone(&self) -> (res: Config)
        ensures
            res == *self,
    {
        Config { config_path: self.config_path.clone() }
    }
}

impl Config {
    /// A configuration rooted at `path`.
    pub fn with_path(path: PathBuf) -> (res: Config)
        ensures
            res.config_path == path,
    {
        Config { config_path: path }
    }

    /// The directory of the documents under a home directory.
    pub open spec fn default_path(home: Seq<char>) -> PathBuf {
        joined(joined(path_from(home), ".config"@), "gho"@)
    }

    /// The configuration under the user's home directory, which the caller
    /// reads from the environment. Without a home directory there is none.
    pub fn new_default(home: Option<String>) -> (res: Result<Config, AppError>)
        ensures
            match opt_view(home) {
                Some(h) => res matches Ok(c) && c.config_path == Config::default_path(h),
                None => res matches Err(e) && e@ == AppErrorView::Config(
                    "HOME environment variable not set"@,
                ),
            },
    {
        match home {
            Some(h) => {
                let base = join(&path_of(h.as_str()), ".config");
                Ok(Config { config_path: join(&base, "gho") })
            },
            None => Err(AppError::config("HOME environment variable not set")),
        }
    }

    /// Path of the accounts document.
    pub fn accounts_path(&self) -> (res: PathBuf)
        ensures
            res == joined(self.config_path, "accounts.json"@),
    {
        join(&self.config_path, "accounts.json")
    }

    /// Path of the state document.
    pub fn state_path(&self) -> (res: PathBuf)
        ensures
            res == joined(self.config_path, "state.json"@),
    {
        join(&self.config_path, "state.json")
    }
}

} // verus!
