//! The local side of cloning: the working directory and the
//! version-control program, as the operations see them.

use std::path::PathBuf;
use vstd::prelude::*;
use crate::text::opt_view;

verus! {

/// How a run of the version-control program ended.
#[derive(Debug)]
pub enum GitRun {
    /// The program could not be started; the text says why.
    Unstartable(String),
    /// The program ran and reported failure; the text is its exit status.
    Failed(String),
    /// The program ran and reported success; the text is what it printed.
    Succeeded(String),
}

/// A [`GitRun`] as plain values.
pub enum GitRunView {
    Unstartable(Seq<char>),
    Failed(Seq<char>),
    Succeeded(Seq<char>),
}

impl View for GitRun {
    type V = GitRunView;

    open spec fn view(&self) -> GitRunView {
        match self {
            GitRun::Unstartable(t) => GitRunView::Unstartable(t@),
            GitRun::Failed(t) => GitRunView::Failed(t@),
            GitRun::Succeeded(t) => GitRunView::Succeeded(t@),
        }
    }
}

/// One thing that was asked of a workspace, with what it answered.
pub enum Asked {
    /// Whether something exists at a path.
    Present { path: PathBuf, answer: bool },
    /// A clone of a URL into a target, and how the run ended.
    Cloned { url: Seq<char>, target: PathBuf, run: GitRunView },
    /// A line of progress that was shown.
    Reported { line: Seq<char> },
    /// Which `owner/repo` the environment names, if any.
    Named { answer: Option<Seq<char>> },
    /// The URL of the remote `origin`, and how the run that asked ended.
    Origin { run: GitRunView },
}

/// The machine the operations run on. Every answer depends on the file
/// system, the environment and the installed programs: nothing is promised
/// of it. What is promised is only that the record keeps what was asked.
pub trait Workspace {
    /// What has been asked of this workspace, oldest first, each with its
    /// answer. It records what was asked; it claims nothing of the machine.
    closed spec fn asked(&self) -> Seq<Asked> {
        arbitrary()
    }

    /// Whether something exists at `path`.
    fn is_present(&mut self, path: &PathBuf) -> (res: bool)
        ensures
            final(self).asked() == old(self).asked().push(
                Asked::Present { path: *path, answer: res },
            ),
    ;

    /// Clones `url` into `target`.
    fn git_clone(&mut self, url: &str, target: &PathBuf) -> (res: GitRun)
        ensures
            final(self).asked() == old(self).asked().push(
                Asked::Cloned { url: url@, target: *target, run: res@ },
            ),
    ;

    /// The `owner/repo` that the environment names, if it names one.
    fn repository_override(&mut self) -> (res: Option<String>)
        ensures
            final(self).asked() == old(self).asked().push(Asked::Named { answer: opt_view(res) }),
    ;

    /// Asks for the URL of the remote `origin` of the current directory.
    fn origin_url(&mut self) -> (res: GitRun)
        ensures
            final(self).asked() == old(self).asked().push(Asked::Origin { run: res@ }),
    ;

    /// Shows a line of progress to the user.
    fn report(&mut self, line: &str)
        ensures
            final(self).asked() == old(self).asked().push(Asked::Reported { line: line@ }),
    ;
}

} // verus!
