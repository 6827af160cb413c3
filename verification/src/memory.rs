//! A store, a vault and a workspace that live in memory: what the
//! operations run against where no disk, no credential service and no
//! program should be touched.

use std::path::PathBuf;
use vstd::prelude::*;
use crate::commands::repo::texts;
use crate::config::{displayed, path_text};
use crate::error::AppError;
use crate::git::{Asked, GitRun, GitRunView, Workspace};
use crate::github::{listing_of, pulls_of, Question, Remote};
use crate::keychain::{Vault, VaultCall};
use crate::models::{
    AccountsFile, AccountsFileView, PullRequest, Repository, StateFile, StateFileView,
};
use crate::storage::{Saved, Storage};
use crate::text::{clone_opt, opt_view, owned, str_eq};

verus! {

/// A store that keeps both documents in memory. Its calls never fail.
pub struct MemoryStorage {
    accounts: AccountsFile,
    state: StateFile,
    record: Ghost<Seq<Saved>>,
}

impl MemoryStorage {
    /// A store whose documents are absent.
    pub fn new() -> (res: MemoryStorage)
        ensures
            res.accounts_doc() == AccountsFileView::empty(),
            res.state_doc() == (StateFileView { last_org: None, last_repo: None }),
            res.saves() == Seq::<Saved>::empty(),
    {
        MemoryStorage {
            accounts: AccountsFile::default(),
            state: StateFile::default(),
            record: Ghost(Seq::empty()),
        }
    }

    /// A store whose accounts document holds `accounts`.
    pub fn with_accounts(accounts: AccountsFile) -> (res: MemoryStorage)
        ensures
            res.accounts_doc() == accounts@,
            res.state_doc() == (StateFileView { last_org: None, last_repo: None }),
            res.saves() == Seq::<Saved>::empty(),
    {
        MemoryStorage { accounts, state: StateFile::default(), record: Ghost(Seq::empty()) }
    }
}

impl Storage for MemoryStorage {
    closed spec fn accounts_doc(&self) -> AccountsFileView {
        self.accounts@
    }

    closed spec fn state_doc(&self) -> StateFileView {
        self.state@
    }

    closed spec fn saves(&self) -> Seq<Saved> {
        self.record@
    }

    fn load_accounts(&self) -> (res: Result<AccountsFile, AppError>)
        ensures
            res is Ok,
    {
        Ok(self.accounts.clone())
    }

    fn save_accounts(&mut self, accounts: &AccountsFile) -> (res: Result<(), AppError>)
        ensures
            res is Ok,
    {
        self.accounts = accounts.clone();
        self.record = Ghost(self.record@.push(Saved::Accounts { doc: accounts@, done: true }));
        Ok(())
    }

    fn load_state(&self) -> (res: Result<StateFile, AppError>)
        ensures
            res is Ok,
    {
        Ok(self.state.clone())
    }

    fn save_state(&mut self, state: &StateFile) -> (res: Result<(), AppError>)
        ensures
            res is Ok,
    {
        self.state = state.clone();
        self.record = Ghost(self.record@.push(Saved::State { state: state@, done: true }));
        Ok(())
    }
}

/// The pairs of a run of entries, as plain values.
pub open spec fn pairs(entries: Seq<(String, String)>) -> Seq<(Seq<char>, Seq<char>)> {
    entries.map_values(|e: (String, String)| (e.0@, e.1@))
}

/// The map that a run of pairs stands for: a later pair overrides an
/// earlier one with the same key.
pub open spec fn as_map(s: Seq<(Seq<char>, Seq<char>)>) -> Map<Seq<char>, Seq<char>>
    decreases s.len(),
{
    if s.len() == 0 {
        Map::empty()
    } else {
        as_map(s.drop_last()).insert(s.last().0, s.last().1)
    }
}

/// A key that no pair has is not in the map.
proof fn lemma_as_map_absent(s: Seq<(Seq<char>, Seq<char>)>, key: Seq<char>)
    requires
        forall|k: int| 0 <= k < s.len() ==> s[k].0 != key,
    ensures
        !as_map(s).contains_key(key),
    decreases s.len(),
{
    if s.len() > 0 {
        lemma_as_map_absent(s.drop_last(), key);
    }
}

/// The map is given by the last pair with the key.
proof fn lemma_as_map_last(s: Seq<(Seq<char>, Seq<char>)>, key: Seq<char>, at: int)
    requires
        0 <= at < s.len(),
        s[at].0 == key,
        forall|k: int| at < k < s.len() ==> s[k].0 != key,
    ensures
        as_map(s).contains_key(key),
        as_map(s)[key] == s[at].1,
    decreases s.len(),
{
    if at < s.len() - 1 {
        lemma_as_map_last(s.drop_last(), key, at);
    }
}

/// A vault that keeps its secrets in memory. Storing never fails;
/// retrieving and deleting fail where there is no entry.
pub struct MemoryVault {
    entries: Vec<(String, String)>,
    fixed: Option<String>,
    record: Ghost<Seq<VaultCall>>,
}

impl MemoryVault {
    /// An empty vault without an override.
    pub fn new() -> (res: MemoryVault)
        ensures
            res.secrets() == Map::<Seq<char>, Seq<char>>::empty(),
            res.override_secret() is None,
            res.calls() == Seq::<VaultCall>::empty(),
    {
        MemoryVault { entries: Vec::new(), fixed: None, record: Ghost(Seq::empty()) }
    }

    /// An empty vault whose retrieval always gives `secret`.
    pub fn with_override(secret: String) -> (res: MemoryVault)
        ensures
            res.secrets() == Map::<Seq<char>, Seq<char>>::empty(),
            res.override_secret() == Some(secret@),
            res.calls() == Seq::<VaultCall>::empty(),
    {
        MemoryVault { entries: Vec::new(), fixed: Some(secret), record: Ghost(Seq::empty()) }
    }

    /// Whether the vault holds a secret for `account_id`.
    pub fn holds(&self, account_id: &str) -> (res: bool)
        ensures
            res == self.secrets().contains_key(account_id@),
    {
        self.last_of(account_id) < self.entries.len()
    }

    /// Position of the last entry for `account_id`, or the number of
    /// entries if there is none.
    fn last_of(&self, account_id: &str) -> (res: usize)
        ensures
            res <= self.entries.len(),
            res < self.entries.len() ==> self.secrets().contains_key(account_id@)
                && self.secrets()[account_id@] == self.entries[res as int].1@,
            res == self.entries.len() ==> !self.secrets().contains_key(account_id@),
    {
        let n = self.entries.len();
        let mut i: usize = n;
        while i > 0
            invariant
                i <= n,
                n == self.entries.len(),
                forall|k: int| i <= k < n ==> pairs(self.entries@)[k].0 != account_id@,
            decreases i,
        {
            i -= 1;
            if str_eq(self.entries[i].0.as_str(), account_id) {
                proof {
                    lemma_as_map_last(pairs(self.entries@), account_id@, i as int);
                }
                return i;
            }
        }
        proof {
            lemma_as_map_absent(pairs(self.entries@), account_id@);
        }
        n
    }
}

impl Vault for MemoryVault {
    closed spec fn secrets(&self) -> Map<Seq<char>, Seq<char>> {
        as_map(pairs(self.entries@))
    }

    closed spec fn override_secret(&self) -> Option<Seq<char>> {
        opt_view(self.fixed)
    }

    closed spec fn calls(&self) -> Seq<VaultCall> {
        self.record@
    }

    fn store(&mut self, account_id: &str, secret: &str) -> (res: Result<(), AppError>)
        ensures
            res is Ok,
    {
        self.entries.push((owned(account_id), owned(secret)));
        self.record = Ghost(
            self.record@.push(VaultCall::Store { id: account_id@, secret: secret@, done: true }),
        );
        proof {
            let new = pairs(self.entries@);
            assert(new.drop_last() =~= pairs(old(self).entries@));
        }
        Ok(())
    }

    fn retrieve(&mut self, account_id: &str) -> (res: Result<String, AppError>)
        ensures
            old(self).override_secret() is None ==> (res is Ok <==> old(self).secrets().contains_key(
                account_id@,
            )),
    {
        if let Some(secret) = clone_opt(&self.fixed) {
            self.record = Ghost(
                self.record@.push(VaultCall::Retrieve { id: account_id@, done: true }),
            );
            return Ok(secret);
        }
        let at = self.last_of(account_id);
        if at < self.entries.len() {
            self.record = Ghost(
                self.record@.push(VaultCall::Retrieve { id: account_id@, done: true }),
            );
            Ok(self.entries[at].1.clone())
        } else {
            self.record = Ghost(
                self.record@.push(VaultCall::Retrieve { id: account_id@, done: false }),
            );
            Err(AppError::keychain("failed to retrieve token: no entry"))
        }
    }

    fn delete(&mut self, account_id: &str) -> (res: Result<(), AppError>)
        ensures
            res is Ok <==> old(self).secrets().contains_key(account_id@),
    {
        if self.last_of(account_id) == self.entries.len() {
            self.record = Ghost(
                self.record@.push(VaultCall::Delete { id: account_id@, done: false }),
            );
            return Err(AppError::keychain("failed to delete token: no entry"));
        }
        let mut kept: Vec<(String, String)> = Vec::new();
        let mut i: usize = 0;
        while i < self.entries.len()
            invariant
                i <= self.entries.len(),
                as_map(pairs(kept@)) == as_map(
                    pairs(self.entries@.subrange(0, i as int)),
                ).remove(account_id@),
            decreases self.entries.len() - i,
        {
            let ghost before = pairs(self.entries@.subrange(0, i as int));
            let ghost after = pairs(self.entries@.subrange(0, i + 1));
            let ghost kept_before = pairs(kept@);
            assert(after.drop_last() =~= before);
            if !str_eq(self.entries[i].0.as_str(), account_id) {
                kept.push((self.entries[i].0.clone(), self.entries[i].1.clone()));
                assert(pairs(kept@).drop_last() =~= kept_before);
                assert(as_map(pairs(kept@)) =~= as_map(after).remove(account_id@));
            } else {
                assert(as_map(pairs(kept@)) =~= as_map(after).remove(account_id@));
            }
            i += 1;
        }
        assert(self.entries@.subrange(0, i as int) =~= self.entries@);
        self.entries = kept;
        self.record = Ghost(self.record@.push(VaultCall::Delete { id: account_id@, done: true }));
        Ok(())
    }
}

/// Whether one of `v` is `text`.
fn holds_text(v: &Vec<String>, text: &str) -> (res: bool)
    ensures
        res == texts(v@).contains(text@),
{
    let mut i: usize = 0;
    while i < v.len()
        invariant
            i <= v.len(),
            forall|k: int| 0 <= k < i ==> texts(v@)[k] != text@,
        decreases v.len() - i,
    {
        if str_eq(v[i].as_str(), text) {
            assert(texts(v@)[i as int] == text@);
            return true;
        }
        i += 1;
    }
    false
}

/// What a [`MemoryWorkspace`] holds, as plain values.
pub struct WorkspaceState {
    /// The paths at which something exists, as they are displayed.
    pub present: Seq<Seq<char>>,
    /// The URLs whose clone fails.
    pub failing: Seq<Seq<char>>,
    /// The `owner/repo` that the environment names.
    pub named: Option<Seq<char>>,
    /// The URL of the remote `origin` of the current directory.
    pub origin: Option<Seq<char>>,
    /// The lines of progress that were shown, oldest first.
    pub shown: Seq<Seq<char>>,
}

/// A workspace that lives in memory. What is there, which clones fail and
/// what the environment and the remote `origin` name is set by its owner;
/// a clone that succeeds puts its target there. The program can always be
/// started.
pub struct MemoryWorkspace {
    present: Vec<String>,
    failing: Vec<String>,
    named: Option<String>,
    origin: Option<String>,
    lines: Vec<String>,
    record: Ghost<Seq<Asked>>,
}

impl MemoryWorkspace {
    /// What this workspace holds.
    pub closed spec fn state(&self) -> WorkspaceState {
        WorkspaceState {
            present: texts(self.present@),
            failing: texts(self.failing@),
            named: opt_view(self.named),
            origin: opt_view(self.origin),
            shown: texts(self.lines@),
        }
    }

    /// A workspace in which nothing exists, no clone fails, and neither
    /// the environment nor a remote names a repository.
    pub fn new() -> (res: MemoryWorkspace)
        ensures
            res.asked() == Seq::<Asked>::empty(),
            res.state() == (WorkspaceState {
                present: Seq::empty(),
                failing: Seq::empty(),
                named: None,
                origin: None,
                shown: Seq::empty(),
            }),
    {
        let res = MemoryWorkspace {
            present: Vec::new(),
            failing: Vec::new(),
            named: None,
            origin: None,
            lines: Vec::new(),
            record: Ghost(Seq::empty()),
        };
        assert(texts(res.present@) =~= Seq::empty());
        assert(texts(res.failing@) =~= Seq::empty());
        assert(texts(res.lines@) =~= Seq::empty());
        res
    }

    /// Puts something at `path`.
    pub fn put(&mut self, path: &PathBuf)
        ensures
            final(self).asked() == old(self).asked(),
            final(self).state() == (WorkspaceState {
                present: old(self).state().present.push(displayed(*path)),
                ..old(self).state()
            }),
    {
        self.present.push(path_text(path));
        assert(texts(self.present@) =~= texts(old(self).present@).push(displayed(*path)));
    }

    /// Makes every clone of `url` fail.
    pub fn fail_on(&mut self, url: &str)
        ensures
            final(self).asked() == old(self).asked(),
            final(self).state() == (WorkspaceState {
                failing: old(self).state().failing.push(url@),
                ..old(self).state()
            }),
    {
        self.failing.push(owned(url));
        assert(texts(self.failing@) =~= texts(old(self).failing@).push(url@));
    }

    /// Lets the environment name a repository.
    pub fn name_repository(&mut self, spec: &str)
        ensures
            final(self).asked() == old(self).asked(),
            final(self).state() == (WorkspaceState { named: Some(spec@), ..old(self).state() }),
    {
        self.named = Some(owned(spec));
    }

    /// Gives the current directory a remote `origin` with this URL.
    pub fn set_origin(&mut self, url: &str)
        ensures
            final(self).asked() == old(self).asked(),
            final(self).state() == (WorkspaceState { origin: Some(url@), ..old(self).state() }),
    {
        self.origin = Some(owned(url));
    }

    /// The lines of progress that were shown, oldest first.
    pub fn lines(&self) -> (res: Vec<String>)
        ensures
            texts(res@) == self.state().shown,
    {
        let mut out: Vec<String> = Vec::new();
        let mut i: usize = 0;
        while i < self.lines.len()
            invariant
                i <= self.lines.len(),
                out@.len() == i,
                forall|k: int| 0 <= k < i ==> out@[k]@ == self.lines@[k]@,
            decreases self.lines.len() - i,
        {
            out.push(self.lines[i].clone());
            i += 1;
        }
        assert(texts(out@) =~= texts(self.lines@));
        out
    }
}

impl Workspace for MemoryWorkspace {
    closed spec fn asked(&self) -> Seq<Asked> {
        self.record@
    }

    fn is_present(&mut self, path: &PathBuf) -> (res: bool)
        ensures
            res == old(self).state().present.contains(displayed(*path)),
            final(self).state() == old(self).state(),
    {
        let res = holds_text(&self.present, path_text(path).as_str());
        self.record = Ghost(self.record@.push(Asked::Present { path: *path, answer: res }));
        res
    }

    fn git_clone(&mut self, url: &str, target: &PathBuf) -> (res: GitRun)
        ensures
            if old(self).state().failing.contains(url@) {
                &&& res@ == GitRunView::Failed("exit status: 128"@)
                &&& final(self).state() == old(self).state()
            } else {
                &&& res@ == GitRunView::Succeeded(Seq::empty())
                &&& final(self).state() == (WorkspaceState {
                    present: old(self).state().present.push(displayed(*target)),
                    ..old(self).state()
                })
            },
    {
        let res = if holds_text(&self.failing, url) {
            GitRun::Failed(owned("exit status: 128"))
        } else {
            self.present.push(path_text(target));
            assert(texts(self.present@) =~= texts(old(self).present@).push(displayed(*target)));
            GitRun::Succeeded(String::new())
        };
        self.record = Ghost(
            self.record@.push(Asked::Cloned { url: url@, target: *target, run: res@ }),
        );
        res
    }

    fn repository_override(&mut self) -> (res: Option<String>)
        ensures
            opt_view(res) == old(self).state().named,
            final(self).state() == old(self).state(),
    {
        let res = clone_opt(&self.named);
        self.record = Ghost(self.record@.push(Asked::Named { answer: opt_view(res) }));
        res
    }

    fn origin_url(&mut self) -> (res: GitRun)
        ensures
            res@ == match old(self).state().origin {
                Some(url) => GitRunView::Succeeded(url),
                None => GitRunView::Failed("exit status: 2"@),
            },
            final(self).state() == old(self).state(),
    {
        let res = match &self.origin {
            Some(url) => GitRun::Succeeded(url.clone()),
            None => GitRun::Failed(owned("exit status: 2")),
        };
        self.record = Ghost(self.record@.push(Asked::Origin { run: res@ }));
        res
    }

    fn report(&mut self, line: &str)
        ensures
            final(self).state() == (WorkspaceState {
                shown: old(self).state().shown.push(line@),
                ..old(self).state()
            }),
    {
        self.lines.push(owned(line));
        assert(texts(self.lines@) =~= texts(old(self).lines@).push(line@));
        self.record = Ghost(self.record@.push(Asked::Reported { line: line@ }));
    }
}

/// A copy of a run of repositories, each as it is.
fn same_repos(v: &Vec<Repository>) -> (res: Vec<Repository>)
    ensures
        res@ == v@,
{
    let mut out: Vec<Repository> = Vec::new();
    let mut i: usize = 0;
    while i < v.len()
        invariant
            i <= v.len(),
            out@ == v@.subrange(0, i as int),
        decreases v.len() - i,
    {
        out.push(v[i].clone());
        assert(out@ =~= v@.subrange(0, i + 1));
        i += 1;
    }
    assert(v@.subrange(0, i as int) =~= v@);
    out
}

/// A copy of a run of pull requests, each as it is.
fn same_pulls(v: &Vec<PullRequest>) -> (res: Vec<PullRequest>)
    ensures
        res@ == v@,
{
    let mut out: Vec<PullRequest> = Vec::new();
    let mut i: usize = 0;
    while i < v.len()
        invariant
            i <= v.len(),
            out@ == v@.subrange(0, i as int),
        decreases v.len() - i,
    {
        out.push(v[i].clone());
        assert(out@ =~= v@.subrange(0, i + 1));
        i += 1;
    }
    assert(v@.subrange(0, i as int) =~= v@);
    out
}

/// A remote that lives in memory: it answers every question for
/// repositories with the same listing, and every question for pull
/// requests with the same pull requests, whatever secret, name and page
/// size come with the question. Its calls never fail.
pub struct MemoryRemote {
    repos: Vec<Repository>,
    pulls: Vec<PullRequest>,
    record: Ghost<Seq<Question>>,
}

impl MemoryRemote {
    /// The listing this remote answers with.
    pub closed spec fn repos(&self) -> Seq<Repository> {
        self.repos@
    }

    /// The pull requests this remote answers with.
    pub closed spec fn pulls(&self) -> Seq<PullRequest> {
        self.pulls@
    }

    /// A remote that answers with `repos` and `pulls`.
    pub fn new(repos: Vec<Repository>, pulls: Vec<PullRequest>) -> (res: MemoryRemote)
        ensures
            res.repos() == repos@,
            res.pulls() == pulls@,
            res.questions() == Seq::<Question>::empty(),
    {
        MemoryRemote { repos, pulls, record: Ghost(Seq::empty()) }
    }
}

impl Remote for MemoryRemote {
    closed spec fn questions(&self) -> Seq<Question> {
        self.record@
    }

    fn list_user_repos(&mut self, token: &str, username: &str, limit: usize) -> (res: Result<
        Vec<Repository>,
        AppError,
    >)
        ensures
            res matches Ok(v) && v@ == old(self).repos(),
            final(self).repos() == old(self).repos(),
            final(self).pulls() == old(self).pulls(),
    {
        let res = Ok(same_repos(&self.repos));
        self.record = Ghost(
            self.record@.push(
                Question::UserRepos {
                    token: token@,
                    username: username@,
                    limit,
                    answer: listing_of(res),
                },
            ),
        );
        res
    }

    fn list_org_repos(&mut self, token: &str, org: &str, limit: usize) -> (res: Result<
        Vec<Repository>,
        AppError,
    >)
        ensures
            res matches Ok(v) && v@ == old(self).repos(),
            final(self).repos() == old(self).repos(),
            final(self).pulls() == old(self).pulls(),
    {
        let res = Ok(same_repos(&self.repos));
        self.record = Ghost(
            self.record@.push(
                Question::OrgRepos { token: token@, org: org@, limit, answer: listing_of(res) },
            ),
        );
        res
    }

    fn list_pull_requests(&mut self, token: &str, owner: &str, repo: &str, limit: usize) -> (res:
        Result<Vec<PullRequest>, AppError>)
        ensures
            res matches Ok(v) && v@ == old(self).pulls(),
            final(self).repos() == old(self).repos(),
            final(self).pulls() == old(self).pulls(),
    {
        let res = Ok(same_pulls(&self.pulls));
        self.record = Ghost(
            self.record@.push(
                Question::Pulls {
                    token: token@,
                    owner: owner@,
                    repo: repo@,
                    limit,
                    pulls: pulls_of(res),
                },
            ),
        );
        res
    }
}

} // verus!
