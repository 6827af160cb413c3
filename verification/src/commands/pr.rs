//! Pull-request operations: finding out which repository is meant.

use vstd::prelude::*;
use vstd::string::StrSliceExecFns;
use vstd::string::StringExecFns;
use crate::commands::account::{get_active_with_token, sign_in_asked, signed_in};
use crate::commands::repo::{
    clone_url, slice_view, lemma_repo_spec_parts_complete, lemma_repo_spec_parts_sound, parse_repo_spec,
    repo_spec_error, repo_spec_parts,
};
use crate::error::{AppError, AppErrorView};
use crate::git::{Asked, GitRun, GitRunView, Workspace};
use crate::github::{Question, Remote};
use crate::keychain::Vault;
use crate::models::{Protocol, PullRequest, PullRequestOutput};
use crate::storage::Storage;
use crate::text::{
    has_prefix, has_suffix, matches_at, owned, trim, trim_end, trim_end_matches, trimmed,
};

verus! {

/// The `owner/repo` path inside a remote URL of one of the two known
/// shapes, with every trailing `.git` taken off.
pub open spec fn remote_path(url: Seq<char>) -> Option<Seq<char>> {
    if has_prefix(url, "git@github.com:"@) {
        Some(trim_end(url.subrange("git@github.com:"@.len() as int, url.len() as int), ".git"@))
    } else if has_prefix(url, "https://github.com/"@) {
        Some(
            trim_end(url.subrange("https://github.com/"@.len() as int, url.len() as int), ".git"@),
        )
    } else {
        None
    }
}

/// What the URL of a remote names, or why it names nothing.
pub open spec fn remote_repo(url: Seq<char>) -> Result<(Seq<char>, Seq<char>), AppErrorView> {
    match remote_path(url) {
        Some(path) => match repo_spec_parts(path) {
            Some(parts) => Ok(parts),
            None => Err(AppErrorView::InvalidInput(repo_spec_error(path))),
        },
        None => Err(AppErrorView::Git("unrecognized remote URL format: "@ + url)),
    }
}

/// Owner and repository named by the URL of a remote: an SSH or an HTTPS
/// URL of the one known host. Any other URL is refused, and so is one whose
/// path is no `owner/repo`.
pub fn parse_remote_url(url: &str) -> (res: Result<(String, String), AppError>)
    ensures
        match remote_repo(url@) {
            Ok((owner, repo)) => res matches Ok((o, r)) && o@ == owner && r@ == repo,
            Err(err) => res matches Err(e) && e@ == err,
        },
{
    let n = url.unicode_len();
    assert(url@.subrange(0, n as int) =~= url@);
    if matches_at(url, 0, "git@github.com:") {
        let k = "git@github.com:".unicode_len();
        let path = trim_end_matches(url.substring_char(k, n), ".git");
        return parse_repo_spec(path);
    }
    if matches_at(url, 0, "https://github.com/") {
        let k = "https://github.com/".unicode_len();
        let path = trim_end_matches(url.substring_char(k, n), ".git");
        return parse_repo_spec(path);
    }
    let mut detail = String::from_str("unrecognized remote URL format: ");
    detail.append(url);
    Err(AppError::Git(detail))
}

/// The URL that a repository is cloned from names that repository again:
/// for an owner and a repository without a slash, where the repository's
/// name does not itself end in `.git`.
pub proof fn lemma_clone_url_names_repo(owner: Seq<char>, repo: Seq<char>, protocol: Protocol)
    requires
        !owner.contains('/'),
        !repo.contains('/'),
        !has_suffix(repo, ".git"@),
    ensures
        remote_repo(clone_url(owner, repo, protocol)) == Ok::<
            (Seq<char>, Seq<char>),
            AppErrorView,
        >((owner, repo)),
{
    reveal_strlit(".git");
    reveal_strlit("/");
    reveal_strlit("git@github.com:");
    reveal_strlit("https://github.com/");
    let ssh = "git@github.com:"@;
    let https = "https://github.com/"@;
    let path = owner + seq!['/'] + repo;
    let tail = path + ".git"@;
    let url = clone_url(owner, repo, protocol);
    assert(ssh[0] == 'g' && https[0] == 'h');
    match protocol {
        Protocol::Ssh => {
            assert(url =~= ssh + tail);
            assert(url.subrange(0, ssh.len() as int) =~= ssh);
            assert(url.subrange(ssh.len() as int, url.len() as int) =~= tail);
        },
        Protocol::Https => {
            assert(url =~= https + tail);
            assert(url.subrange(0, https.len() as int) =~= https);
            assert(url[0] != ssh[0]);
            if has_prefix(url, ssh) {
                assert(url.subrange(0, ssh.len() as int)[0] == ssh[0]);
            }
            assert(url.subrange(https.len() as int, url.len() as int) =~= tail);
        },
    }
    // one `.git` comes off the tail, and no more
    assert(tail.subrange(tail.len() - 4, tail.len() as int) =~= ".git"@);
    assert(tail.subrange(0, tail.len() - 4) =~= path);
    if has_suffix(path, ".git"@) {
        let end = path.subrange(path.len() - 4, path.len() as int);
        if repo.len() >= 4 {
            assert(repo.subrange(repo.len() - 4, repo.len() as int) =~= end);
        } else {
            let at = 3 - repo.len();
            assert(end[at] == path[owner.len() as int]);
            assert(end[at] == '/');
        }
    }
    assert(trim_end(path, ".git"@) == path);
    assert(trim_end(tail, ".git"@) == path);
    lemma_repo_spec_parts_complete(owner, repo);
}

/// What an `owner/repo` text names, or why it names nothing.
pub open spec fn spec_repo(spec: Seq<char>) -> Result<(Seq<char>, Seq<char>), AppErrorView> {
    match repo_spec_parts(spec) {
        Some(parts) => Ok(parts),
        None => Err(AppErrorView::InvalidInput(repo_spec_error(spec))),
    }
}

/// The repository of the current directory, by how the question for the
/// URL of its remote `origin` ended.
pub open spec fn origin_repo(run: GitRunView) -> Result<(Seq<char>, Seq<char>), AppErrorView> {
    match run {
        GitRunView::Unstartable(why) => Err(AppErrorView::Git("failed to run git: "@ + why)),
        GitRunView::Failed(_) => Err(
            AppErrorView::Git("no repository detected, provide owner/repo argument"@),
        ),
        GitRunView::Succeeded(out) => remote_repo(trimmed(out)),
    }
}

/// A repository or an error, as plain values.
pub open spec fn named_by(res: Result<(String, String), AppError>) -> Result<
    (Seq<char>, Seq<char>),
    AppErrorView,
> {
    match res {
        Ok((owner, repo)) => Ok((owner@, repo@)),
        Err(e) => Err(e@),
    }
}

/// The repository of the current directory, given how the question for the
/// URL of its remote `origin` ended. What the program printed is read
/// without the white space around it.
pub fn repo_from_origin(run: GitRun) -> (res: Result<(String, String), AppError>)
    ensures
        named_by(res) == origin_repo(run@),
{
    match run {
        GitRun::Unstartable(why) => {
            let mut detail = String::from_str("failed to run git: ");
            detail.append(why.as_str());
            Err(AppError::Git(detail))
        },
        GitRun::Failed(_) => Err(AppError::git("no repository detected, provide owner/repo argument")),
        GitRun::Succeeded(out) => parse_remote_url(trim(out.as_str())),
    }
}

/// What the detection of a repository asks of the workspace, and what it
/// comes to. First the environment is asked. If it names an `owner/repo`,
/// that text decides and nothing else is asked. If it names none, the
/// remote `origin` is asked for its URL, once, and the answer decides as
/// [`origin_repo`] says.
pub open spec fn detected(
    before: Seq<Asked>,
    after: Seq<Asked>,
    outcome: Result<(Seq<char>, Seq<char>), AppErrorView>,
) -> bool {
    let k = before.len() as int;
    &&& after.len() > k
    &&& after.subrange(0, k) == before
    &&& after[k] matches Asked::Named { answer } && match answer {
        Some(spec) => after.len() == k + 1 && outcome == spec_repo(spec),
        None => {
            &&& after.len() == k + 2
            &&& after[k + 1] matches Asked::Origin { run } && outcome == origin_repo(run)
        },
    }
}

/// Finds out which repository is meant where none was named: the one the
/// environment names, else the one the remote `origin` of the current
/// directory points to. What is asked of the workspace, in which order,
/// and what each answer comes to, is what [`detected`] says.
pub fn detect_repo_from_git<W: Workspace>(workspace: &mut W) -> (res: Result<
    (String, String),
    AppError,
>)
    ensures
        detected(old(workspace).asked(), final(workspace).asked(), named_by(res)),
        match res {
            Ok((owner, repo)) => !owner@.contains('/') && !repo@.contains('/'),
            Err(e) => e@ is InvalidInput || e@ is Git,
        },
{
    let ghost k = old(workspace).asked().len() as int;
    let named = workspace.repository_override();
    assert(workspace.asked().subrange(0, k) =~= old(workspace).asked());
    match named {
        Some(spec) => {
            proof {
                if repo_spec_parts(spec@) is Some {
                    lemma_repo_spec_parts_sound(spec@);
                }
            }
            parse_repo_spec(spec.as_str())
        },
        None => {
            let run = workspace.origin_url();
            assert(workspace.asked().subrange(0, k) =~= old(workspace).asked());
            proof {
                if let GitRunView::Succeeded(out) = run@ {
                    if let Some(path) = remote_path(trimmed(out)) {
                        if repo_spec_parts(path) is Some {
                            lemma_repo_spec_parts_sound(path);
                        }
                    }
                }
            }
            repo_from_origin(run)
        },
    }
}

/// A pull request as it is listed. The state of its checks is not asked
/// for: it is listed as unknown, with no action in progress.
pub fn to_output(pr: PullRequest) -> (res: PullRequestOutput)
    ensures
        res.number == pr.number,
        res.title == pr.title,
        res.author == pr.user.login,
        res.branch == pr.head.branch,
        res.mergeable == pr.mergeable,
        !res.actions_in_progress,
        res.ci_status@ == "unknown"@,
{
    PullRequestOutput {
        number: pr.number,
        title: pr.title,
        author: pr.user.login,
        branch: pr.head.branch,
        mergeable: pr.mergeable,
        actions_in_progress: false,
        ci_status: owned("unknown"),
    }
}

/// Whether `outs` is the listed form of `prs`: one entry for each pull
/// request, in order, with its number, title, author, branch and
/// mergeability, no action in progress and the checks unknown.
pub open spec fn listed_as(prs: Seq<PullRequest>, outs: Seq<PullRequestOutput>) -> bool {
    &&& outs.len() == prs.len()
    &&& forall|i: int|
        0 <= i < outs.len() ==> {
            &&& (#[trigger] outs[i]).number == prs[i].number
            &&& outs[i].title == prs[i].title
            &&& outs[i].author == prs[i].user.login
            &&& outs[i].branch == prs[i].head.branch
            &&& outs[i].mergeable == prs[i].mergeable
            &&& !outs[i].actions_in_progress
            &&& outs[i].ci_status@ == "unknown"@
        }
}

/// The listed form of each pull request, in order.
pub fn to_outputs(prs: Vec<PullRequest>) -> (res: Vec<PullRequestOutput>)
    ensures
        listed_as(prs@, res@),
{
    let ghost all = prs@;
    let mut prs = prs;
    let mut out: Vec<PullRequestOutput> = Vec::new();
    while prs.len() > 0
        invariant
            out@.len() + prs@.len() == all.len(),
            forall|k: int| 0 <= k < prs@.len() ==> prs@[k] == all[k],
            forall|i: int|
                prs@.len() <= i < all.len() ==> {
                    let o = #[trigger] out@[all.len() - 1 - i];
                    &&& o.number == all[i].number
                    &&& o.title == all[i].title
                    &&& o.author == all[i].user.login
                    &&& o.branch == all[i].head.branch
                    &&& o.mergeable == all[i].mergeable
                    &&& !o.actions_in_progress
                    &&& o.ci_status@ == "unknown"@
                },
        decreases prs@.len(),
    {
        let pr = prs.pop().unwrap();
        out.push(to_output(pr));
    }
    // `out` holds the pull requests last first: turn it round
    let ghost rev = out@;
    let mut res: Vec<PullRequestOutput> = Vec::new();
    while out.len() > 0
        invariant
            res@.len() + out@.len() == all.len(),
            rev.len() == all.len(),
            forall|k: int| 0 <= k < out@.len() ==> out@[k] == rev[k],
            forall|i: int| 0 <= i < res@.len() ==> (#[trigger] res@[i]) == rev[all.len() - 1 - i],
        decreases out@.len(),
    {
        let o = out.pop().unwrap();
        res.push(o);
    }
    assert forall|i: int| 0 <= i < res@.len() implies {
        &&& (#[trigger] res@[i]).number == all[i].number
        &&& res@[i].title == all[i].title
        &&& res@[i].author == all[i].user.login
        &&& res@[i].branch == all[i].head.branch
        &&& res@[i].mergeable == all[i].mergeable
        &&& !res@[i].actions_in_progress
        &&& res@[i].ci_status@ == "unknown"@
    } by {
        assert(res@[i] == rev[all.len() - 1 - i]);
    }
    res
}

/// What an answer of the remote to the question for pull requests comes
/// to: an error comes back as it is, and pull requests are listed as
/// [`to_outputs`] does.
pub fn pulls_listed(answer: Result<Vec<PullRequest>, AppError>) -> (res: Result<
    Vec<PullRequestOutput>,
    AppError,
>)
    ensures
        match answer {
            Ok(prs) => res matches Ok(outs) && listed_as(prs@, outs@),
            Err(e) => res == Err::<Vec<PullRequestOutput>, AppError>(e),
        },
{
    match answer {
        Ok(prs) => Ok(to_outputs(prs)),
        Err(e) => Err(e),
    }
}

/// The answer that the question asked last of a remote got, where that was
/// a question for pull requests.
pub open spec fn last_pulls(asked: Seq<Question>) -> Result<Seq<PullRequest>, AppErrorView> {
    match asked.last() {
        Question::Pulls { pulls, .. } => pulls,
        _ => Err(AppErrorView::NoActiveAccount),
    }
}

/// The repository that a detection found, read off what it asked of the
/// workspace since the record was `before`.
pub open spec fn found(before: Seq<Asked>, after: Seq<Asked>) -> Result<
    (Seq<char>, Seq<char>),
    AppErrorView,
> {
    let k = before.len() as int;
    match after[k] {
        Asked::Named { answer: Some(spec) } => spec_repo(spec),
        _ => match after[k + 1] {
            Asked::Origin { run } => origin_repo(run),
            _ => Err(AppErrorView::NoActiveAccount),
        },
    }
}

/// The repository whose pull requests are listed, and what finding it
/// asks of the workspace: where a text names it, that text decides and the
/// workspace is not asked; else it is detected, as [`detected`] says.
pub open spec fn wanted_repo<W: Workspace>(repo_spec: Option<Seq<char>>, before: W, after: W) -> Result<
    (Seq<char>, Seq<char>),
    AppErrorView,
> {
    match repo_spec {
        Some(spec) => spec_repo(spec),
        None => found(before.asked(), after.asked()),
    }
}

/// Lists the open pull requests of a repository for the active account.
/// The account and its secret are got as [`get_active_with_token`] does;
/// where they cannot be had, neither the workspace nor the remote is
/// touched. Then the repository is found: the one `repo_spec` names, else
/// the one [`detect_repo_from_git`] finds; where there is none, that error
/// comes back and the remote is not asked. Else the remote is asked once,
/// for the pull requests of that repository, with that secret and the page
/// size given, and what it answers comes back as [`pulls_listed`] says.
/// Neither the store nor what the vault holds is changed.
pub fn list<S: Storage, V: Vault, R: Remote, W: Workspace>(
    storage: &S,
    vault: &mut V,
    remote: &mut R,
    workspace: &mut W,
    repo_spec: Option<&str>,
    limit: usize,
) -> (res: Result<Vec<PullRequestOutput>, AppError>)
    ensures
        storage.accounts_doc().active() is None ==> res is Err,
        repo_spec matches Some(spec) && repo_spec_parts(spec@) is None ==> res is Err,
        sign_in_asked(*storage, *old(vault), *final(vault)),
        match signed_in(*storage, *old(vault), *final(vault)) {
            None => res is Err && *final(remote) == *old(remote) && *final(workspace) == *old(
                workspace,
            ),
            Some((_, token)) => {
                &&& match repo_spec {
                    Some(_) => *final(workspace) == *old(workspace),
                    None => detected(
                        old(workspace).asked(),
                        final(workspace).asked(),
                        found(old(workspace).asked(), final(workspace).asked()),
                    ),
                }
                &&& match wanted_repo(slice_view(repo_spec), *old(workspace), *final(workspace)) {
                    Err(e) => (res matches Err(r) && r@ == e) && *final(remote) == *old(remote),
                    Ok((owner, repo)) => {
                        &&& final(remote).questions() == old(remote).questions().push(
                            Question::Pulls {
                                token,
                                owner,
                                repo,
                                limit,
                                pulls: last_pulls(final(remote).questions()),
                            },
                        )
                        &&& match last_pulls(final(remote).questions()) {
                            Err(e) => res matches Err(r) && r@ == e,
                            Ok(prs) => res matches Ok(outs) && listed_as(prs, outs@),
                        }
                    },
                }
            },
        },
{
    let (_account, token) = get_active_with_token(storage, vault)?;
    let (owner, repo) = match repo_spec {
        Some(spec) => parse_repo_spec(spec)?,
        None => detect_repo_from_git(workspace)?,
    };
    let answer = remote.list_pull_requests(token.as_str(), owner.as_str(), repo.as_str(), limit);
    pulls_listed(answer)
}

} // verus!
