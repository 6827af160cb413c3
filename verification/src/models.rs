//! Data model: accounts, the registry that holds them, and remote records.

use vstd::prelude::*;
use crate::text::{clone_opt, opt_view, str_eq};

verus! {

/// Transport used when a clone URL is built.
#[derive(Debug, Clone, Copy, PartialEq, Eq, Structural)]
pub enum Protocol {
    Ssh,
    Https,
}

impl Default for Protocol {
    fn default() -> (res: Protocol)
        ensures
            res == Protocol::Ssh,
    {
        Protocol::Ssh
    }
}

impl Protocol {
    /// Lower-case name, as written in the accounts document.
    pub fn name(&self) -> (res: &'static str)
        ensures
            res@ == self.spec_name(),
    {
        match self {
            Protocol::Ssh => "ssh",
            Protocol::Https => "https",
        }
    }

    pub open spec fn spec_name(&self) -> Seq<char> {
        match self {
            Protocol::Ssh => "ssh"@,
            Protocol::Https => "https"@,
        }
    }
}

/// Partition of the registry an account belongs to.
#[derive(Debug, Clone, Copy, PartialEq, Eq, Structural)]
pub enum AccountKind {
    Personal,
    Work,
}

impl AccountKind {
    /// Lower-case name, as written in the accounts document.
    pub fn name(&self) -> (res: &'static str)
        ensures
            res@ == self.spec_name(),
    {
        match self {
            AccountKind::Personal => "personal",
            AccountKind::Work => "work",
        }
    }

    pub open spec fn spec_name(&self) -> Seq<char> {
        match self {
            AccountKind::Personal => "personal"@,
            AccountKind::Work => "work"@,
        }
    }
}

/// One identity. The secret is never part of it: it lives in the vault,
/// addressed by `id`.
#[derive(Debug)]
pub struct Account {
    pub id: String,
    pub kind: AccountKind,
    pub username: String,
    pub default_org: Option<String>,
    pub protocol: Protocol,
    pub clone_dir: Option<String>,
}

/// What an [`Account`] holds, as plain values.
pub struct AccountView {
    pub id: Seq<char>,
    pub kind: AccountKind,
    pub username: Seq<char>,
    pub default_org: Option<Seq<char>>,
    pub protocol: Protocol,
    pub clone_dir: Option<Seq<char>>,
}

impl View for Account {
    type V = AccountView;

    open spec fn view(&self) -> AccountView {
        AccountView {
            id: self.id@,
            kind: self.kind,
            username: self.username@,
            default_org: opt_view(self.default_org),
            protocol: self.protocol,
            clone_dir: opt_view(self.clone_dir),
        }
    }
}

impl Clone for Account {
    fn clone(&self) -> (res: Account)
        ensures
            res@ == self@,
    {
        Account {
            id: self.id.clone(),
            kind: self.kind,
            username: self.username.clone(),
            default_org: clone_opt(&self.default_org),
            protocol: self.protocol,
            clone_dir: clone_opt(&self.clone_dir),
        }
    }
}

/// The views of a sequence of accounts, in order.
pub open spec fn views(s: Seq<Account>) -> Seq<AccountView> {
    s.map_values(|a: Account| a@)
}

/// Position of the first record of `s` whose id is `id`, or `s.len()`.
pub open spec fn first_index(s: Seq<AccountView>, id: Seq<char>) -> int
    decreases s.len(),
{
    if s.len() == 0 {
        0
    } else if s[0].id == id {
        0
    } else {
        1 + first_index(s.drop_first(), id)
    }
}

/// `first_index` is the least position that holds `id`.
pub proof fn lemma_first_index(s: Seq<AccountView>, id: Seq<char>)
    ensures
        0 <= first_index(s, id) <= s.len(),
        first_index(s, id) < s.len() ==> s[first_index(s, id)].id == id,
        forall|k: int| 0 <= k < first_index(s, id) ==> s[k].id != id,
    decreases s.len(),
{
    if s.len() > 0 && s[0].id != id {
        let t = s.drop_first();
        lemma_first_index(t, id);
        assert forall|k: int| 0 <= k < first_index(s, id) implies s[k].id != id by {
            if k > 0 {
                assert(s[k] == t[k - 1]);
            }
        }
    }
}

/// A position that holds `id` with none before it is `first_index`.
pub proof fn lemma_first_index_is(s: Seq<AccountView>, id: Seq<char>, i: int)
    requires
        0 <= i <= s.len(),
        i < s.len() ==> s[i].id == id,
        forall|k: int| 0 <= k < i ==> s[k].id != id,
    ensures
        first_index(s, id) == i,
{
    lemma_first_index(s, id);
}

/// The registry as plain values: two ordered partitions and the active id.
pub struct AccountsFileView {
    pub personal: Seq<AccountView>,
    pub work: Seq<AccountView>,
    pub active_account_id: Option<Seq<char>>,
}

impl AccountsFileView {
    /// The registry with no account and no active id.
    pub open spec fn empty() -> AccountsFileView {
        AccountsFileView {
            personal: Seq::empty(),
            work: Seq::empty(),
            active_account_id: None,
        }
    }

    /// Every account: the personal ones, then the work ones, each in
    /// insertion order.
    pub open spec fn all(self) -> Seq<AccountView> {
        self.personal + self.work
    }

    /// Whether some account has this id.
    pub open spec fn contains(self, id: Seq<char>) -> bool {
        first_index(self.all(), id) < self.all().len()
    }

    /// The first account with this id, personal partition first.
    pub open spec fn find(self, id: Seq<char>) -> Option<AccountView> {
        if self.contains(id) {
            Some(self.all()[first_index(self.all(), id)])
        } else {
            None
        }
    }

    /// The account the active id resolves to.
    pub open spec fn active(self) -> Option<AccountView> {
        match self.active_account_id {
            Some(id) => self.find(id),
            None => None,
        }
    }

    /// The registry after `account` was appended to the partition of its kind.
    pub open spec fn with_account(self, account: AccountView) -> AccountsFileView {
        match account.kind {
            AccountKind::Personal => AccountsFileView {
                personal: self.personal.push(account),
                ..self
            },
            AccountKind::Work => AccountsFileView { work: self.work.push(account), ..self },
        }
    }

    /// The active id after the account `id` has left the registry.
    pub open spec fn active_without(self, id: Seq<char>) -> Option<Seq<char>> {
        if self.active_account_id == Some(id) {
            None
        } else {
            self.active_account_id
        }
    }

    /// The registry after the first account with this id was taken out:
    /// from the personal partition if it is there, else from the work one.
    pub open spec fn without(self, id: Seq<char>) -> AccountsFileView {
        let p = first_index(self.personal, id);
        let w = first_index(self.work, id);
        if p < self.personal.len() {
            AccountsFileView {
                personal: self.personal.remove(p),
                work: self.work,
                active_account_id: self.active_without(id),
            }
        } else if w < self.work.len() {
            AccountsFileView {
                personal: self.personal,
                work: self.work.remove(w),
                active_account_id: self.active_without(id),
            }
        } else {
            self
        }
    }

    /// The registry with the active id set to `id`.
    pub open spec fn with_active(self, id: Seq<char>) -> AccountsFileView {
        AccountsFileView { active_account_id: Some(id), ..self }
    }

    /// No id occurs twice, over both partitions.
    pub open spec fn ids_distinct(self) -> bool {
        forall|i: int, j: int|
            0 <= i < j < self.all().len() ==> self.all()[i].id != self.all()[j].id
    }

    /// Every account sits in the partition of its kind.
    pub open spec fn partitioned(self) -> bool {
        &&& forall|i: int|
            0 <= i < self.personal.len() ==> self.personal[i].kind == AccountKind::Personal
        &&& forall|i: int| 0 <= i < self.work.len() ==> self.work[i].kind == AccountKind::Work
    }

    /// The active id, if set, names an account of the registry.
    pub open spec fn active_resolves(self) -> bool {
        self.active_account_id matches Some(id) ==> self.contains(id)
    }

    /// The target state that the lifecycle operations keep.
    pub open spec fn wf(self) -> bool {
        &&& self.ids_distinct()
        &&& self.partitioned()
        &&& self.active_resolves()
    }
}

/// All known accounts, partitioned by kind, plus the active id.
#[derive(Debug)]
pub struct AccountsFile {
    pub personal: Vec<Account>,
    pub work: Vec<Account>,
    pub active_account_id: Option<String>,
}

impl View for AccountsFile {
    type V = AccountsFileView;

    open spec fn view(&self) -> AccountsFileView {
        AccountsFileView {
            personal: views(self.personal@),
            work: views(self.work@),
            active_account_id: opt_view(self.active_account_id),
        }
    }
}

/// A copy of a run of accounts, account for account.
pub fn clone_accounts(v: &Vec<Account>) -> (res: Vec<Account>)
    ensures
        views(res@) == views(v@),
{
    let mut out: Vec<Account> = Vec::new();
    let mut i: usize = 0;
    while i < v.len()
        invariant
            i <= v.len(),
            out@.len() == i,
            forall|k: int| 0 <= k < i ==> out@[k]@ == v@[k]@,
        decreases v.len() - i,
    {
        out.push(v[i].clone());
        i += 1;
    }
    assert(views(out@) =~= views(v@));
    out
}

impl Clone for AccountsFile {
    fn clone(&self) -> (res: AccountsFile)
        ensures
            res@ == self@,
    {
        AccountsFile {
            personal: clone_accounts(&self.personal),
            work: clone_accounts(&self.work),
            active_account_id: clone_opt(&self.active_account_id),
        }
    }
}

impl Default for AccountsFile {
    fn default() -> (res: AccountsFile)
        ensures
            res@ == AccountsFileView::empty(),
    {
        let res = AccountsFile { personal: Vec::new(), work: Vec::new(), active_account_id: None };
        assert(res@.personal =~= Seq::empty());
        assert(res@.work =~= Seq::empty());
        res
    }
}

/// Position in `v` of the first account whose id is `id`, or `v.len()`.
pub fn position(v: &Vec<Account>, id: &str) -> (res: usize)
    ensures
        res == first_index(views(v@), id@),
        res <= v.len(),
{
    let mut i: usize = 0;
    while i < v.len()
        invariant
            i <= v.len(),
            forall|k: int| 0 <= k < i ==> views(v@)[k].id != id@,
        decreases v.len() - i,
    {
        if str_eq(v[i].id.as_str(), id) {
            proof {
                lemma_first_index_is(views(v@), id@, i as int);
            }
            return i;
        }
        i += 1;
    }
    proof {
        lemma_first_index_is(views(v@), id@, i as int);
    }
    i
}

/// Searching a concatenation: the left part first, then the right.
pub proof fn lemma_first_index_concat(p: Seq<AccountView>, w: Seq<AccountView>, id: Seq<char>)
    ensures
        first_index(p + w, id) == if first_index(p, id) < p.len() {
            first_index(p, id)
        } else {
            p.len() + first_index(w, id)
        },
{
    lemma_first_index(p, id);
    lemma_first_index(w, id);
    let i = if first_index(p, id) < p.len() {
        first_index(p, id)
    } else {
        p.len() + first_index(w, id)
    };
    assert forall|k: int| 0 <= k < i implies (p + w)[k].id != id by {
        if k >= p.len() {
            assert((p + w)[k] == w[k - p.len()]);
        }
    }
    lemma_first_index_is(p + w, id, i);
}

impl AccountsFile {
    /// Every account, personal first, then work, each in insertion order.
    pub fn all_accounts(&self) -> (res: Vec<&Account>)
        ensures
            res@.len() == self@.all().len(),
            forall|i: int| 0 <= i < res@.len() ==> (#[trigger] res@[i])@ == self@.all()[i],
    {
        let mut out: Vec<&Account> = Vec::new();
        let mut i: usize = 0;
        while i < self.personal.len()
            invariant
                i <= self.personal.len(),
                out@.len() == i,
                forall|k: int| 0 <= k < i ==> (#[trigger] out@[k])@ == self@.personal[k],
            decreases self.personal.len() - i,
        {
            out.push(&self.personal[i]);
            i += 1;
        }
        let mut j: usize = 0;
        while j < self.work.len()
            invariant
                j <= self.work.len(),
                out@.len() == self.personal.len() + j,
                forall|k: int|
                    0 <= k < self.personal.len() ==> (#[trigger] out@[k])@ == self@.personal[k],
                forall|k: int|
                    self.personal.len() <= k < self.personal.len() + j ==> (#[trigger] out@[k])@
                        == self@.work[k - self.personal.len()],
            decreases self.work.len() - j,
        {
            out.push(&self.work[j]);
            j += 1;
        }
        out
    }

    /// The first account with this id, searching personal then work.
    pub fn find_account(&self, id: &str) -> (res: Option<&Account>)
        ensures
            match res {
                Some(a) => self@.find(id@) == Some(a@),
                None => self@.find(id@) is None,
            },
    {
        proof {
            lemma_first_index_concat(self@.personal, self@.work, id@);
        }
        let p = position(&self.personal, id);
        if p < self.personal.len() {
            return Some(&self.personal[p]);
        }
        let w = position(&self.work, id);
        if w < self.work.len() {
            return Some(&self.work[w]);
        }
        None
    }

    /// The first account with this id, for update in place.
    pub fn find_account_mut(&mut self, id: &str) -> (res: Option<&mut Account>)
        ensures
            match res {
                Some(a) => {
                    let i = first_index(old(self)@.all(), id@);
                    &&& old(self)@.find(id@) == Some((*a)@)
                    &&& final(self)@.all() == old(self)@.all().update(i, (*final(a))@)
                    &&& final(self)@.personal.len() == old(self)@.personal.len()
                    &&& final(self)@.active_account_id == old(self)@.active_account_id
                },
                None => old(self)@.find(id@) is None && *final(self) == *old(self),
            },
    {
        proof {
            lemma_first_index_concat(self@.personal, self@.work, id@);
        }
        let p = position(&self.personal, id);
        if p < self.personal.len() {
            return Some(&mut self.personal[p]);
        }
        let w = position(&self.work, id);
        if w < self.work.len() {
            return Some(&mut self.work[w]);
        }
        None
    }

    /// The account the active id resolves to.
    pub fn active_account(&self) -> (res: Option<&Account>)
        ensures
            match res {
                Some(a) => self@.active() == Some(a@),
                None => self@.active() is None,
            },
    {
        match &self.active_account_id {
            Some(id) => self.find_account(id.as_str()),
            None => None,
        }
    }

    /// Appends `account` to the partition of its kind. No duplicate check
    /// is made here: uniqueness of ids is the caller's obligation.
    pub fn add_account(&mut self, account: Account)
        ensures
            final(self)@ == old(self)@.with_account(account@),
    {
        match account.kind {
            AccountKind::Personal => {
                self.personal.push(account);
                assert(views(self.personal@) =~= views(old(self).personal@).push(account@));
            },
            AccountKind::Work => {
                self.work.push(account);
                assert(views(self.work@) =~= views(old(self).work@).push(account@));
            },
        }
    }

    /// Takes out the first account with this id, personal partition first,
    /// and clears the active id if it named that account.
    pub fn remove_account(&mut self, id: &str) -> (res: Option<Account>)
        ensures
            final(self)@ == old(self)@.without(id@),
            match res {
                Some(a) => old(self)@.find(id@) == Some(a@),
                None => old(self)@.find(id@) is None,
            },
    {
        proof {
            lemma_first_index_concat(self@.personal, self@.work, id@);
        }
        let p = position(&self.personal, id);
        if p < self.personal.len() {
            self.clear_active_if(id);
            let a = self.personal.remove(p);
            assert(views(self.personal@) =~= views(old(self).personal@).remove(p as int));
            return Some(a);
        }
        let w = position(&self.work, id);
        if w < self.work.len() {
            self.clear_active_if(id);
            let a = self.work.remove(w);
            assert(views(self.work@) =~= views(old(self).work@).remove(w as int));
            return Some(a);
        }
        None
    }

    /// Clears the active id if it is `id`.
    fn clear_active_if(&mut self, id: &str)
        ensures
            final(self).personal == old(self).personal,
            final(self).work == old(self).work,
            opt_view(final(self).active_account_id) == old(self)@.active_without(id@),
    {
        let hit = match &self.active_account_id {
            Some(active) => str_eq(active.as_str(), id),
            None => false,
        };
        if hit {
            self.active_account_id = None;
        }
    }
}

/// Convenience memory of the last organization and repository used.
#[derive(Debug)]
pub struct StateFile {
    pub last_org: Option<String>,
    pub last_repo: Option<String>,
}

/// A [`StateFile`] as plain values.
pub struct StateFileView {
    pub last_org: Option<Seq<char>>,
    pub last_repo: Option<Seq<char>>,
}

impl View for StateFile {
    type V = StateFileView;

    open spec fn view(&self) -> StateFileView {
        StateFileView {
            last_org: opt_view(self.last_org),
            last_repo: opt_view(self.last_repo),
        }
    }
}

impl Default for StateFile {
    fn default() -> (res: StateFile)
        ensures
            res@ == (StateFileView { last_org: None, last_repo: None }),
    {
        StateFile { last_org: None, last_repo: None }
    }
}

impl Clone for StateFile {
    fn clone(&self) -> (res: StateFile)
        ensures
            res@ == self@,
    {
        StateFile { last_org: clone_opt(&self.last_org), last_repo: clone_opt(&self.last_repo) }
    }
}

/// Owner of a repository, as the remote API reports it.
#[derive(Debug)]
pub struct RepositoryOwner {
    pub login: String,
}

/// A copy of an optional string that is that string again.
fn same_opt(s: &Option<String>) -> (res: Option<String>)
    ensures
        res == *s,
{
    match s {
        Some(t) => Some(t.clone()),
        None => None,
    }
}

impl Clone for Repository {
    fn clone(&self) -> (res: Repository)
        ensures
            res == *self,
    {
        Repository {
            name: self.name.clone(),
            full_name: self.full_name.clone(),
            html_url: self.html_url.clone(),
            ssh_url: self.ssh_url.clone(),
            clone_url: self.clone_url.clone(),
            pushed_at: same_opt(&self.pushed_at),
            owner: RepositoryOwner { login: self.owner.login.clone() },
        }
    }
}

impl Clone for PullRequest {
    fn clone(&self) -> (res: PullRequest)
        ensures
            res == *self,
    {
        PullRequest {
            number: self.number,
            title: self.title.clone(),
            user: PullRequestUser { login: self.user.login.clone() },
            head: PullRequestHead { branch: self.head.branch.clone() },
            mergeable: self.mergeable,
        }
    }
}

/// A repository, as the remote API reports it.
#[derive(Debug)]
pub struct Repository {
    pub name: String,
    pub full_name: String,
    pub html_url: String,
    pub ssh_url: String,
    pub clone_url: String,
    pub pushed_at: Option<String>,
    pub owner: RepositoryOwner,
}

/// Author of a pull request.
#[derive(Debug)]
pub struct PullRequestUser {
    pub login: String,
}

/// Head branch of a pull request.
#[derive(Debug)]
pub struct PullRequestHead {
    pub branch: String,
}

/// A pull request, as the remote API reports it.
#[derive(Debug)]
pub struct PullRequest {
    pub number: u64,
    pub title: String,
    pub user: PullRequestUser,
    pub head: PullRequestHead,
    pub mergeable: Option<bool>,
}

/// A pull request, as it is listed.
#[derive(Debug)]
pub struct PullRequestOutput {
    pub number: u64,
    pub title: String,
    pub author: String,
    pub branch: String,
    pub mergeable: Option<bool>,
    pub actions_in_progress: bool,
    pub ci_status: String,
}

} // verus!
