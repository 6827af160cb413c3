//! Repository operations: naming a repository and building its clone URL.

use std::path::PathBuf;
use vstd::prelude::*;
use vstd::string::StrSliceExecFns;
use vstd::string::StringExecFns;
use crate::commands::account::{get_active_with_token, sign_in_asked, signed_in};
use crate::config::{displayed, join, joined, path_from, path_of, path_text};
use crate::error::{AppError, AppErrorView};
use crate::git::{Asked, GitRun, GitRunView, Workspace};
use crate::github::{listing_of, Question, Remote};
use crate::keychain::Vault;
use crate::models::{Account, AccountView, Protocol, Repository};
use crate::storage::Storage;
use crate::text::{find_char, index_of, lemma_index_of, lemma_index_of_is, opt_view, owned};

verus! {

/// Owner and repository of an `owner/repo` text: the parts before and after
/// its slash, if it has exactly one.
pub open spec fn repo_spec_parts(s: Seq<char>) -> Option<(Seq<char>, Seq<char>)> {
    let i = index_of(s, '/');
    if i < s.len() && index_of(s.subrange(i + 1, s.len() as int), '/') == s.len() - (i + 1) {
        Some((s.subrange(0, i), s.subrange(i + 1, s.len() as int)))
    } else {
        None
    }
}

/// The detail of the error for a text that is no `owner/repo`.
pub open spec fn repo_spec_error(s: Seq<char>) -> Seq<char> {
    "invalid repository format '"@ + s + "', expected owner/repo"@
}

/// What `repo_spec_parts` gives back is the text cut at its only slash.
pub proof fn lemma_repo_spec_parts_sound(s: Seq<char>)
    requires
        repo_spec_parts(s) is Some,
    ensures
        ({
            let (owner, repo) = repo_spec_parts(s)->0;
            &&& s == owner + seq!['/'] + repo
            &&& !owner.contains('/')
            &&& !repo.contains('/')
        }),
{
    let i = index_of(s, '/');
    lemma_index_of(s, '/');
    let (owner, repo) = repo_spec_parts(s)->0;
    lemma_index_of(repo, '/');
    assert(s =~= owner + seq!['/'] + repo);
}

/// Every slash-free owner and repository come back from their joined text.
pub proof fn lemma_repo_spec_parts_complete(owner: Seq<char>, repo: Seq<char>)
    requires
        !owner.contains('/'),
        !repo.contains('/'),
    ensures
        repo_spec_parts(owner + seq!['/'] + repo) == Some((owner, repo)),
{
    let s = owner + seq!['/'] + repo;
    let n = owner.len() as int;
    assert(s[n] == '/');
    assert forall|k: int| 0 <= k < n implies s[k] != '/' by {
        assert(s[k] == owner[k]);
        assert(owner.contains(owner[k]));
    }
    lemma_index_of_is(s, '/', n);
    let rest = s.subrange(n + 1, s.len() as int);
    assert(rest =~= repo);
    assert forall|k: int| 0 <= k < repo.len() implies repo[k] != '/' by {
        assert(repo.contains(repo[k]));
    }
    lemma_index_of_is(rest, '/', rest.len() as int);
    assert(s.subrange(0, n) =~= owner);
}

/// Splits `owner/repo` at its slash. A text with no slash, or with more than
/// one, is refused as invalid input.
pub fn parse_repo_spec(spec: &str) -> (res: Result<(String, String), AppError>)
    ensures
        match repo_spec_parts(spec@) {
            Some((owner, repo)) => res matches Ok((o, r)) && o@ == owner && r@ == repo,
            None => res matches Err(e) && e@ == AppErrorView::InvalidInput(
                repo_spec_error(spec@),
            ),
        },
{
    let n = spec.unicode_len();
    let i = find_char(spec, '/', 0);
    assert(spec@.subrange(0, n as int) =~= spec@);
    if i < n {
        let j = find_char(spec, '/', i + 1);
        if j == n {
            let owner = owned(spec.substring_char(0, i));
            let repo = owned(spec.substring_char(i + 1, n));
            return Ok((owner, repo));
        }
    }
    let mut detail = String::from_str("invalid repository format '");
    detail.append(spec);
    detail.append("', expected owner/repo");
    Err(AppError::InvalidInput(detail))
}

/// The clone URL of a repository for a transport.
pub open spec fn clone_url(owner: Seq<char>, repo: Seq<char>, protocol: Protocol) -> Seq<char> {
    match protocol {
        Protocol::Ssh => "git@github.com:"@ + owner + "/"@ + repo + ".git"@,
        Protocol::Https => "https://github.com/"@ + owner + "/"@ + repo + ".git"@,
    }
}

/// Builds the URL a repository is cloned from.
pub fn build_clone_url(owner: &str, repo: &str, protocol: Protocol) -> (res: String)
    ensures
        res@ == clone_url(owner@, repo@, protocol),
{
    let mut out = match protocol {
        Protocol::Ssh => String::from_str("git@github.com:"),
        Protocol::Https => String::from_str("https://github.com/"),
    };
    out.append(owner);
    out.append("/");
    out.append(repo);
    out.append(".git");
    out
}

/// The organization whose repositories are listed: the one asked for, else
/// the account's default; with neither, the account's own repositories are.
pub open spec fn wanted_org(org: Option<Seq<char>>, account: AccountView) -> Option<Seq<char>> {
    match org {
        Some(o) => Some(o),
        None => account.default_org,
    }
}

/// The text of an optional string slice.
pub open spec fn slice_view(s: Option<&str>) -> Option<Seq<char>> {
    match s {
        Some(t) => Some(t@),
        None => None,
    }
}

/// The organization whose repositories are listed: the one asked for, else
/// the account's default; with neither, the account's own repositories are.
pub fn listing_org<'a>(org: Option<&'a str>, account: &'a Account) -> (res: Option<&'a str>)
    ensures
        slice_view(res) == wanted_org(slice_view(org), account@),
{
    match org {
        Some(o) => Some(o),
        None => match &account.default_org {
            Some(d) => Some(d.as_str()),
            None => None,
        },
    }
}

/// The question for a listing of repositories: for those of `org` if
/// there is one, else for those of the user, with the answer it got.
pub open spec fn listing_question(
    token: Seq<char>,
    org: Option<Seq<char>>,
    username: Seq<char>,
    limit: usize,
    answer: Result<Seq<Repository>, AppErrorView>,
) -> Question {
    match org {
        Some(o) => Question::OrgRepos { token, org: o, limit, answer },
        None => Question::UserRepos { token, username, limit, answer },
    }
}

/// Lists repositories for the active account. The account and its secret
/// are got as [`get_active_with_token`] does; where they cannot be had,
/// the remote is not asked. Else the remote is asked once, with that
/// secret and the page size given: for the repositories of the
/// organization that [`wanted_org`] gives, else for the account's own. Its
/// answer is what comes back. Neither the store nor what the vault holds
/// is changed.
pub fn list<S: Storage, V: Vault, R: Remote>(
    storage: &S,
    vault: &mut V,
    remote: &mut R,
    org: Option<&str>,
    limit: usize,
) -> (res: Result<Vec<Repository>, AppError>)
    ensures
        storage.accounts_doc().active() is None ==> res is Err,
        sign_in_asked(*storage, *old(vault), *final(vault)),
        match signed_in(*storage, *old(vault), *final(vault)) {
            None => res is Err && *final(remote) == *old(remote),
            Some((account, token)) => final(remote).questions() == old(remote).questions().push(
                listing_question(
                    token,
                    wanted_org(slice_view(org), account),
                    account.username,
                    limit,
                    listing_of(res),
                ),
            ),
        },
{
    let (account, token) = get_active_with_token(storage, vault)?;
    match listing_org(org, &account) {
        Some(org) => remote.list_org_repos(token.as_str(), org, limit),
        None => remote.list_user_repos(token.as_str(), account.username.as_str(), limit),
    }
}

/// Where a repository named `name` is cloned to.
pub open spec fn target_of(clone_dir: Option<Seq<char>>, name: Seq<char>) -> PathBuf {
    match clone_dir {
        Some(dir) => joined(path_from(dir), name),
        None => path_from(name),
    }
}

/// The directory a repository is cloned into: `name` inside the account's
/// clone directory, or `name` itself where the account has none.
pub fn clone_target(clone_dir: &Option<String>, name: &str) -> (res: PathBuf)
    ensures
        res == target_of(opt_view(*clone_dir), name@),
{
    match clone_dir {
        Some(dir) => join(&path_of(dir.as_str()), name),
        None => path_of(name),
    }
}

/// What a clone of `repo_spec` for an account needs: the URL to clone from
/// and the directory to clone into.
pub fn clone_plan(account: &Account, repo_spec: &str) -> (res: Result<(String, PathBuf), AppError>)
    ensures
        match repo_spec_parts(repo_spec@) {
            Some((owner, repo)) => res matches Ok((url, target)) && url@ == clone_url(
                owner,
                repo,
                account.protocol,
            ) && target == target_of(account@.clone_dir, repo),
            None => res matches Err(e) && e@ == AppErrorView::InvalidInput(
                repo_spec_error(repo_spec@),
            ),
        },
{
    let (owner, repo) = parse_repo_spec(repo_spec)?;
    let url = build_clone_url(owner.as_str(), repo.as_str(), account.protocol);
    let target = clone_target(&account.clone_dir, repo.as_str());
    Ok((url, target))
}

/// The error for a target that is already there.
pub fn target_taken(target: &PathBuf) -> (res: AppError)
    ensures
        res@ == AppErrorView::Git("directory '"@ + displayed(*target) + "' already exists"@),
{
    let mut detail = String::from_str("directory '");
    detail.append(path_text(target).as_str());
    detail.append("' already exists");
    AppError::Git(detail)
}

/// What a single clone comes to, given how the program's run ended.
pub fn clone_result(run: GitRun) -> (res: Result<(), AppError>)
    ensures
        match run@ {
            GitRunView::Succeeded(_) => res is Ok,
            GitRunView::Failed(status) => res matches Err(e) && e@ == AppErrorView::Git(
                "git clone failed with status "@ + status,
            ),
            GitRunView::Unstartable(why) => res matches Err(e) && e@ == AppErrorView::Git(
                "failed to run git: "@ + why,
            ),
        },
        outcome_of(res) == clone_outcome(run@),
{
    match run {
        GitRun::Succeeded(_) => Ok(()),
        GitRun::Failed(status) => {
            let mut detail = String::from_str("git clone failed with status ");
            detail.append(status.as_str());
            Err(AppError::Git(detail))
        },
        GitRun::Unstartable(why) => {
            let mut detail = String::from_str("failed to run git: ");
            detail.append(why.as_str());
            Err(AppError::Git(detail))
        },
    }
}

/// What a clone comes to, by how the program's run ended.
pub open spec fn clone_outcome(run: GitRunView) -> Result<(), AppErrorView> {
    match run {
        GitRunView::Succeeded(_) => Ok(()),
        GitRunView::Failed(status) => Err(
            AppErrorView::Git("git clone failed with status "@ + status),
        ),
        GitRunView::Unstartable(why) => Err(AppErrorView::Git("failed to run git: "@ + why)),
    }
}

/// What one clone of `url` into `target` asks of the workspace, and what
/// it comes to. First it asks whether the target is there. If it is,
/// nothing else is asked and the clone is refused. If it is not, the
/// program is run once, for this URL and this target, and the clone comes
/// to what [`clone_outcome`] says of that run.
pub open spec fn one_clone(
    before: Seq<Asked>,
    after: Seq<Asked>,
    url: Seq<char>,
    target: PathBuf,
    outcome: Result<(), AppErrorView>,
) -> bool {
    let k = before.len() as int;
    &&& after.len() > k
    &&& after.subrange(0, k) == before
    &&& after[k] matches Asked::Present { path, answer } && path == target && if answer {
        &&& after.len() == k + 1
        &&& outcome == Err::<(), AppErrorView>(
            AppErrorView::Git("directory '"@ + displayed(target) + "' already exists"@),
        )
    } else {
        &&& after.len() == k + 2
        &&& after[k + 1] matches Asked::Cloned { url: u, target: g, run } && u == url && g
            == target && outcome == clone_outcome(run)
    }
}

/// A result without what it carries on success, its error as plain values.
pub open spec fn outcome_of(res: Result<(), AppError>) -> Result<(), AppErrorView> {
    match res {
        Ok(()) => Ok(()),
        Err(e) => Err(e@),
    }
}

/// Clones one repository for `account`. A malformed `repo_spec` is refused
/// before the workspace is touched. For a well-formed one, what is asked of
/// the workspace and what the clone comes to is what [`one_clone`] says,
/// for the URL and the target that [`clone_plan`] gives.
pub fn clone_for<W: Workspace>(account: &Account, workspace: &mut W, repo_spec: &str) -> (res:
    Result<(), AppError>)
    ensures
        match repo_spec_parts(repo_spec@) {
            None => {
                &&& res matches Err(e) && e@ == AppErrorView::InvalidInput(
                    repo_spec_error(repo_spec@),
                )
                &&& *final(workspace) == *old(workspace)
            },
            Some((owner, repo)) => one_clone(
                old(workspace).asked(),
                final(workspace).asked(),
                clone_url(owner, repo, account.protocol),
                target_of(account@.clone_dir, repo),
                outcome_of(res),
            ),
        },
{
    let (url, target) = clone_plan(account, repo_spec)?;
    let ghost k = old(workspace).asked().len() as int;
    let there = workspace.is_present(&target);
    assert(workspace.asked().subrange(0, k) =~= old(workspace).asked());
    if there {
        return Err(target_taken(&target));
    }
    let run = workspace.git_clone(url.as_str(), &target);
    assert(workspace.asked().subrange(0, k) =~= old(workspace).asked());
    clone_result(run)
}

/// Clones a repository for the active account. The account and its secret
/// are got as [`get_active_with_token`] does; where they cannot be had,
/// the workspace is not touched. Else the clone is the one that
/// [`clone_for`] makes for the active account. Neither the store nor what
/// the vault holds is changed.
pub fn clone<S: Storage, V: Vault, W: Workspace>(
    storage: &S,
    vault: &mut V,
    workspace: &mut W,
    repo_spec: &str,
) -> (res: Result<(), AppError>)
    ensures
        storage.accounts_doc().active() is None || repo_spec_parts(repo_spec@) is None ==> res
            is Err && *final(workspace) == *old(workspace),
        sign_in_asked(*storage, *old(vault), *final(vault)),
        match signed_in(*storage, *old(vault), *final(vault)) {
            None => res is Err && *final(workspace) == *old(workspace),
            Some((account, _)) => match repo_spec_parts(repo_spec@) {
                None => {
                    &&& res matches Err(e) && e@ == AppErrorView::InvalidInput(
                        repo_spec_error(repo_spec@),
                    )
                    &&& *final(workspace) == *old(workspace)
                },
                Some((owner, repo)) => one_clone(
                    old(workspace).asked(),
                    final(workspace).asked(),
                    clone_url(owner, repo, account.protocol),
                    target_of(account.clone_dir, repo),
                    outcome_of(res),
                ),
            },
        },
{
    let (account, _token) = get_active_with_token(storage, vault)?;
    clone_for(&account, workspace, repo_spec)
}

/// The URL a listed repository is cloned from, for a transport.
pub fn clone_source<'a>(repo: &'a Repository, protocol: Protocol) -> (res: &'a str)
    ensures
        res@ == source_of(*repo, protocol),
{
    match protocol {
        Protocol::Ssh => repo.ssh_url.as_str(),
        Protocol::Https => repo.clone_url.as_str(),
    }
}

/// The texts of a run of strings, in order.
pub open spec fn texts(v: Seq<String>) -> Seq<Seq<char>> {
    v.map_values(|s: String| s@)
}

/// The URL a listed repository is cloned from, for a transport.
pub open spec fn source_of(repo: Repository, protocol: Protocol) -> Seq<char> {
    match protocol {
        Protocol::Ssh => repo.ssh_url@,
        Protocol::Https => repo.clone_url@,
    }
}

/// The line that reports a repository passed over because its target is
/// already there.
pub open spec fn skip_line(name: Seq<char>) -> Seq<char> {
    "⏭️  Skipping "@ + name + " (already exists)"@
}

/// The line that reports a repository whose clone failed.
pub open spec fn failure_line(name: Seq<char>) -> Seq<char> {
    "⚠️  Failed to clone "@ + name
}

/// Whether the last things asked in `t` are the skipping of `repo`: its
/// target was there, and that was reported.
pub open spec fn ends_skipped(account: AccountView, repo: Repository, t: Seq<Asked>) -> bool {
    let n = t.len() as int;
    &&& n >= 2
    &&& t[n - 2] == (Asked::Present {
        path: target_of(account.clone_dir, repo.name@),
        answer: true,
    })
    &&& t[n - 1] == (Asked::Reported { line: skip_line(repo.name@) })
}

/// Whether the things asked at `at` and after it in `t` are a run of the
/// program for `repo`: its target was not there, and it was cloned from its
/// source into its target.
pub open spec fn ran_at(account: AccountView, repo: Repository, t: Seq<Asked>, at: int) -> bool {
    &&& 0 <= at
    &&& at + 1 < t.len()
    &&& t[at] == (Asked::Present {
        path: target_of(account.clone_dir, repo.name@),
        answer: false,
    })
    &&& t[at + 1] matches Asked::Cloned { url, target, .. } && url == source_of(
        repo,
        account.protocol,
    ) && target == target_of(account.clone_dir, repo.name@)
}

/// How the run recorded at a place of `t` ended.
pub open spec fn run_at(t: Seq<Asked>, at: int) -> GitRunView {
    match t[at] {
        Asked::Cloned { run, .. } => run,
        _ => GitRunView::Unstartable(Seq::empty()),
    }
}

/// Whether the last things asked in `t` are the cloning of `repo`: its
/// target was not there, and the run for it succeeded.
pub open spec fn ends_cloned(account: AccountView, repo: Repository, t: Seq<Asked>) -> bool {
    let n = t.len() as int;
    ran_at(account, repo, t, n - 2) && run_at(t, n - 1) is Succeeded
}

/// Whether the last things asked in `t` are a clone of `repo` that came to
/// nothing: its target was not there, the run for it failed or could not
/// be started, and that was reported.
pub open spec fn ends_failed(account: AccountView, repo: Repository, t: Seq<Asked>) -> bool {
    let n = t.len() as int;
    &&& ran_at(account, repo, t, n - 3)
    &&& !(run_at(t, n - 2) is Succeeded)
    &&& t[n - 1] == (Asked::Reported { line: failure_line(repo.name@) })
}

/// The names that a batch over `repos` gives back, where `t` is what the
/// batch asked of the workspace: one repository after the other, in order,
/// each either skipped, cloned or failed, and nothing else. The names are
/// those of the repositories that were cloned: whose target was not there
/// and whose run succeeded. A run that failed, or that could not be
/// started, takes nothing from the rest of the batch. Where `t` is no such
/// asking, there are none.
pub open spec fn batch_names(account: AccountView, repos: Seq<Repository>, t: Seq<Asked>) -> Option<
    Seq<Seq<char>>,
>
    decreases repos.len(),
{
    if repos.len() == 0 {
        if t.len() == 0 {
            Some(Seq::empty())
        } else {
            None
        }
    } else {
        let repo = repos.last();
        let rest = repos.drop_last();
        let n = t.len() as int;
        if ends_skipped(account, repo, t) {
            batch_names(account, rest, t.subrange(0, n - 2))
        } else if ends_cloned(account, repo, t) {
            match batch_names(account, rest, t.subrange(0, n - 2)) {
                Some(names) => Some(names.push(repo.name@)),
                None => None,
            }
        } else if ends_failed(account, repo, t) {
            batch_names(account, rest, t.subrange(0, n - 3))
        } else {
            None
        }
    }
}

/// What was asked of a workspace since its record was `before`.
pub open spec fn since(before: Seq<Asked>, after: Seq<Asked>) -> Seq<Asked> {
    after.subrange(before.len() as int, after.len() as int)
}

/// Whether a record has grown from `before` to `after` and lost nothing.
pub open spec fn grown(before: Seq<Asked>, after: Seq<Asked>) -> bool {
    before.len() <= after.len() && after.subrange(0, before.len() as int) == before
}

/// The line that reports a repository passed over because its target is
/// already there.
pub fn skip_notice(name: &str) -> (res: String)
    ensures
        res@ == skip_line(name@),
{
    let mut line = String::from_str("⏭️  Skipping ");
    line.append(name);
    line.append(" (already exists)");
    line
}

/// What becomes of one repository of a batch, given how its clone ended. A
/// clone that succeeded gives no line: the repository counts as cloned. One
/// that failed, or for which the program could not be started, gives the
/// line that reports it. Either way the batch goes on.
pub fn batch_step(name: &str, run: GitRun) -> (res: Option<String>)
    ensures
        match run@ {
            GitRunView::Succeeded(_) => res is None,
            _ => res matches Some(line) && line@ == failure_line(name@),
        },
{
    match run {
        GitRun::Succeeded(_) => None,
        _ => {
            let mut line = String::from_str("⚠️  Failed to clone ");
            line.append(name);
            Some(line)
        },
    }
}

/// Clones each of `repos` for `account`, in order: from the URL that
/// [`clone_source`] gives into the directory that [`clone_target`] gives.
/// One whose target is already there is skipped and reported with
/// [`skip_notice`]; for the others the program is run, and what becomes of
/// each is what [`batch_step`] says. No repository ends the batch: it
/// always succeeds. The names that come back are exactly those of the
/// repositories whose target was not there and whose run succeeded, in the
/// order of `repos`, as [`batch_names`] says of what was asked of the
/// workspace.
pub fn clone_all<W: Workspace>(account: &Account, workspace: &mut W, repos: Vec<Repository>) -> (res:
    Result<Vec<String>, AppError>)
    ensures
        grown(old(workspace).asked(), final(workspace).asked()),
        res matches Ok(cloned) && batch_names(
            account@,
            repos@,
            since(old(workspace).asked(), final(workspace).asked()),
        ) == Some(texts(cloned@)),
        repos@.len() == 0 ==> *final(workspace) == *old(workspace),
{
    let mut cloned: Vec<String> = Vec::new();
    let mut i: usize = 0;
    let ghost before = old(workspace).asked();
    assert(repos@.subrange(0, 0) =~= Seq::<Repository>::empty());
    assert(texts(cloned@) =~= Seq::<Seq<char>>::empty());
    assert(before.subrange(0, before.len() as int) =~= before);
    while i < repos.len()
        invariant
            i <= repos.len(),
            before == old(workspace).asked(),
            grown(before, workspace.asked()),
            batch_names(account@, repos@.subrange(0, i as int), since(before, workspace.asked()))
                == Some(texts(cloned@)),
            repos@.len() == 0 ==> *workspace == *old(workspace),
        decreases repos.len() - i,
    {
        let repo = &repos[i];
        let ghost done = repos@.subrange(0, i as int);
        let ghost next = repos@.subrange(0, i + 1);
        let ghost had = texts(cloned@);
        let ghost t0 = since(before, workspace.asked());
        assert(next.drop_last() =~= done);
        assert(next.last() == *repo);
        let url = clone_source(repo, account.protocol);
        let target = clone_target(&account.clone_dir, repo.name.as_str());
        if workspace.is_present(&target) {
            workspace.report(skip_notice(repo.name.as_str()).as_str());
            proof {
                let t = since(before, workspace.asked());
                assert(workspace.asked().subrange(0, before.len() as int) =~= before);
                assert(t.subrange(0, t.len() - 2) =~= t0);
                assert(ends_skipped(account@, *repo, t));
            }
        } else {
            let run = workspace.git_clone(url, &target);
            proof {
                let t = since(before, workspace.asked());
                assert(workspace.asked().subrange(0, before.len() as int) =~= before);
                assert(t.subrange(0, t.len() - 2) =~= t0);
                assert(ran_at(account@, *repo, t, t.len() - 2));
                assert(run_at(t, t.len() - 1) == run@);
            }
            let ghost t1 = since(before, workspace.asked());
            match batch_step(repo.name.as_str(), run) {
                None => {
                    cloned.push(repo.name.clone());
                    proof {
                        assert(texts(cloned@) =~= had.push(repo.name@));
                        assert(ends_cloned(account@, *repo, t1));
                        assert(!ends_skipped(account@, *repo, t1));
                    }
                },
                Some(line) => {
                    workspace.report(line.as_str());
                    proof {
                        let t = since(before, workspace.asked());
                        assert(workspace.asked().subrange(0, before.len() as int) =~= before);
                        assert(t.subrange(0, t.len() - 3) =~= t0);
                        assert(t[t.len() - 3] == t1[t1.len() - 2]);
                        assert(t[t.len() - 2] == t1[t1.len() - 1]);
                        assert(ends_failed(account@, *repo, t));
                        assert(!ends_skipped(account@, *repo, t));
                        assert(!ends_cloned(account@, *repo, t));
                    }
                },
            }
        }
        i += 1;
    }
    assert(repos@.subrange(0, i as int) =~= repos@);
    Ok(cloned)
}

/// Goes on with a batch, given what the remote answered to the question
/// for the listing. An error of the remote comes back as it is, and the
/// workspace is not touched. A listing is gone through as [`clone_all`]
/// does, and that always succeeds.
pub fn clone_listed<W: Workspace>(
    account: &Account,
    workspace: &mut W,
    listing: Result<Vec<Repository>, AppError>,
) -> (res: Result<Vec<String>, AppError>)
    ensures
        grown(old(workspace).asked(), final(workspace).asked()),
        match listing {
            Err(e) => res == Err::<Vec<String>, AppError>(e) && *final(workspace) == *old(
                workspace,
            ),
            Ok(repos) => res matches Ok(cloned) && batch_names(
                account@,
                repos@,
                since(old(workspace).asked(), final(workspace).asked()),
            ) == Some(texts(cloned@)),
        },
{
    match listing {
        Err(e) => {
            assert(old(workspace).asked().subrange(0, old(workspace).asked().len() as int)
                =~= old(workspace).asked());
            Err(e)
        },
        Ok(repos) => clone_all(account, workspace, repos),
    }
}

/// The answer that the question asked last of a remote got, where that was
/// a question for repositories.
pub open spec fn last_listing(asked: Seq<Question>) -> Result<Seq<Repository>, AppErrorView> {
    match asked.last() {
        Question::UserRepos { answer, .. } => answer,
        Question::OrgRepos { answer, .. } => answer,
        _ => Err(AppErrorView::NoActiveAccount),
    }
}

/// Clones the repositories of an organization for the active account. The
/// account and its secret are got as [`get_active_with_token`] does; where
/// they cannot be had, neither the remote nor the workspace is touched.
/// Else the remote is asked once, for the repositories of `org`, with that
/// secret and the page size given, and its answer is handled as
/// [`clone_listed`] does: an error comes back as it is, and a listing is
/// gone through for the active account, which always succeeds. Neither the
/// store nor what the vault holds is changed.
pub fn clone_org<S: Storage, V: Vault, R: Remote, W: Workspace>(
    storage: &S,
    vault: &mut V,
    remote: &mut R,
    workspace: &mut W,
    org: &str,
    limit: usize,
) -> (res: Result<Vec<String>, AppError>)
    ensures
        grown(old(workspace).asked(), final(workspace).asked()),
        storage.accounts_doc().active() is None ==> res is Err && *final(workspace) == *old(
            workspace,
        ),
        sign_in_asked(*storage, *old(vault), *final(vault)),
        match signed_in(*storage, *old(vault), *final(vault)) {
            None => res is Err && *final(remote) == *old(remote) && *final(workspace) == *old(
                workspace,
            ),
            Some((account, token)) => {
                &&& final(remote).questions() == old(remote).questions().push(
                    Question::OrgRepos {
                        token,
                        org: org@,
                        limit,
                        answer: last_listing(final(remote).questions()),
                    },
                )
                &&& match last_listing(final(remote).questions()) {
                    Err(e) => (res matches Err(r) && r@ == e) && *final(workspace) == *old(
                        workspace,
                    ),
                    Ok(listing) => res matches Ok(cloned) && batch_names(
                        account,
                        listing,
                        since(old(workspace).asked(), final(workspace).asked()),
                    ) == Some(texts(cloned@)),
                }
            },
        },
{
    assert(old(workspace).asked().subrange(0, old(workspace).asked().len() as int)
        =~= old(workspace).asked());
    let (account, token) = get_active_with_token(storage, vault)?;
    let listing = remote.list_org_repos(token.as_str(), org, limit);
    clone_listed(&account, workspace, listing)
}

} // verus!
