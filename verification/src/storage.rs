//! The persistent store: the interface the lifecycle operations use, and
//! the description of the store that lives in a configuration directory.

use std::path::PathBuf;
use vstd::prelude::*;
use crate::config::{joined, Config};
use crate::error::{AppError, AppErrorView};
use crate::text::opt_view;
use crate::models::{AccountsFile, AccountsFileView, StateFile, StateFileView};

verus! {

/// One save that was asked of a store, with how it ended.
pub enum Saved {
    /// The accounts document was to be replaced.
    Accounts { doc: AccountsFileView, done: bool },
    /// The state document was to be replaced.
    State { state: StateFileView, done: bool },
}

/// Whether a save ended well.
pub open spec fn save_done(call: Saved) -> bool {
    match call {
        Saved::Accounts { done, .. } => done,
        Saved::State { done, .. } => done,
    }
}

/// Whether `after` is `before` with one more save at its end: one of the
/// registry `doc` as the accounts document.
pub open spec fn one_save(before: Seq<Saved>, after: Seq<Saved>, doc: AccountsFileView) -> bool {
    &&& after.len() == before.len() + 1
    &&& after.drop_last() == before
    &&& after.last() matches Saved::Accounts { doc: d, .. } && d == doc
}

/// A store of the two documents. An implementation answers for what its
/// methods promise; nothing here promises that a call succeeds.
pub trait Storage {
    /// The saves that were asked of this store, oldest first, each with
    /// how it ended. It records what was asked; it claims nothing of the
    /// store.
    closed spec fn saves(&self) -> Seq<Saved> {
        arbitrary()
    }

    /// What the accounts document holds. An absent document holds the empty
    /// registry. An implementation with state of its own says here what
    /// that state stands for.
    closed spec fn accounts_doc(&self) -> AccountsFileView {
        arbitrary()
    }

    /// What the state document holds.
    closed spec fn state_doc(&self) -> StateFileView {
        arbitrary()
    }

    /// Reads the accounts document.
    fn load_accounts(&self) -> (res: Result<AccountsFile, AppError>)
        ensures
            res matches Ok(a) ==> a@ == self.accounts_doc(),
    ;

    /// Replaces the accounts document. A save that fails leaves the
    /// document as it was.
    fn save_accounts(&mut self, accounts: &AccountsFile) -> (res: Result<(), AppError>)
        ensures
            res is Ok ==> final(self).accounts_doc() == accounts@,
            res is Err ==> final(self).accounts_doc() == old(self).accounts_doc(),
            final(self).state_doc() == old(self).state_doc(),
            final(self).saves() == old(self).saves().push(
                Saved::Accounts { doc: accounts@, done: res is Ok },
            ),
    ;

    /// Reads the state document.
    fn load_state(&self) -> (res: Result<StateFile, AppError>)
        ensures
            res matches Ok(s) ==> s@ == self.state_doc(),
    ;

    /// Replaces the state document. A save that fails leaves the document
    /// as it was.
    fn save_state(&mut self, state: &StateFile) -> (res: Result<(), AppError>)
        ensures
            res is Ok ==> final(self).state_doc() == state@,
            res is Err ==> final(self).state_doc() == old(self).state_doc(),
            final(self).accounts_doc() == old(self).accounts_doc(),
            final(self).saves() == old(self).saves().push(
                Saved::State { state: state@, done: res is Ok },
            ),
    ;
}

/// Saves a registry and reads it back: one save is asked for, and only
/// where it was done is the registry read. What comes back is what was
/// saved, the same accounts in the same partitions with the same active id.
pub fn save_and_reload<S: Storage>(storage: &mut S, accounts: &AccountsFile) -> (res: Result<
    AccountsFile,
    AppError,
>)
    ensures
        final(storage).state_doc() == old(storage).state_doc(),
        one_save(old(storage).saves(), final(storage).saves(), accounts@),
        if save_done(final(storage).saves().last()) {
            final(storage).accounts_doc() == accounts@
        } else {
            res is Err && final(storage).accounts_doc() == old(storage).accounts_doc()
        },
        res matches Ok(loaded) ==> loaded@ == accounts@,
{
    let saved = storage.save_accounts(accounts);
    assert(storage.saves().drop_last() =~= old(storage).saves());
    saved?;
    storage.load_accounts()
}

/// The store kept as two files in a configuration directory.
#[derive(Debug)]
pub struct FilesystemStorage {
    config: Config,
}

impl FilesystemStorage {
    /// The store in the directory that `config` names.
    pub fn new(config: &Config) -> (res: FilesystemStorage)
        ensures
            res.config() == *config,
    {
        FilesystemStorage { config: config.clone() }
    }

    /// The store under the user's home directory, which the caller reads
    /// from the environment. Without a home directory there is none.
    pub fn new_default(home: Option<String>) -> (res: Result<FilesystemStorage, AppError>)
        ensures
            match opt_view(home) {
                Some(h) => res matches Ok(s) && s.config().config_path == Config::default_path(h),
                None => res matches Err(e) && e@ == AppErrorView::Config(
                    "HOME environment variable not set"@,
                ),
            },
    {
        let config = Config::new_default(home)?;
        Ok(FilesystemStorage::new(&config))
    }

    /// The configuration this store was made with.
    pub closed spec fn config(&self) -> Config {
        self.config
    }

    /// Directory that holds the two documents; it is created on first write.
    pub fn config_dir(&self) -> (res: PathBuf)
        ensures
            res == self.config().config_path,
    {
        self.config.config_path.clone()
    }

    /// Path of the accounts document.
    pub fn accounts_path(&self) -> (res: PathBuf)
        ensures
            res == joined(self.config().config_path, "accounts.json"@),
    {
        self.config.accounts_path()
    }

    /// Path of the state document.
    pub fn state_path(&self) -> (res: PathBuf)
        ensures
            res == joined(self.config().config_path, "state.json"@),
    {
        self.config.state_path()
    }
}

} // verus!
