use gho::commands::account::add;
use gho::commands::pr::{
    detect_repo_from_git, pulls_listed, repo_from_origin, to_output, to_outputs,
};
use gho::commands::repo::{
    batch_step, clone_all, clone_for, clone_listed, clone_plan, clone_result, clone_source,
    clone_target, listing_org, skip_notice, target_taken,
};
use gho::error::AppError;
use gho::git::{GitRun, Workspace};
use gho::github::Remote;
use gho::memory::{MemoryRemote, MemoryStorage, MemoryVault, MemoryWorkspace};
use gho::models::{
    Account, AccountKind, Protocol, PullRequest, PullRequestHead, PullRequestUser, Repository,
    RepositoryOwner,
};
use std::path::PathBuf;

fn account(protocol: Protocol, clone_dir: Option<&str>, default_org: Option<&str>) -> Account {
    Account {
        id: "me".to_string(),
        kind: AccountKind::Personal,
        username: "octocat".to_string(),
        default_org: default_org.map(|s| s.to_string()),
        protocol,
        clone_dir: clone_dir.map(|s| s.to_string()),
    }
}

fn repository(name: &str) -> Repository {
    Repository {
        name: name.to_string(),
        full_name: format!("acme/{}", name),
        html_url: format!("https://github.com/acme/{}", name),
        ssh_url: format!("git@github.com:acme/{}.git", name),
        clone_url: format!("https://github.com/acme/{}.git", name),
        pushed_at: None,
        owner: RepositoryOwner { login: "acme".to_string() },
    }
}

fn pull(number: u64, title: &str, mergeable: Option<bool>) -> PullRequest {
    PullRequest {
        number,
        title: title.to_string(),
        user: PullRequestUser { login: format!("author{}", number) },
        head: PullRequestHead { branch: format!("branch{}", number) },
        mergeable,
    }
}

/// A machine that exists on paper: it records what is asked of it.
#[derive(Default)]
struct Desk {
    present: Vec<PathBuf>,
    failing: Vec<String>,
    unstartable: bool,
    cloned: Vec<(String, PathBuf)>,
    lines: Vec<String>,
    named: Option<String>,
    origin: Option<GitRun>,
    named_asked: usize,
    origin_asked: usize,
}

impl Workspace for Desk {
    fn is_present(&mut self, path: &PathBuf) -> bool {
        self.present.contains(path)
    }

    fn git_clone(&mut self, url: &str, target: &PathBuf) -> GitRun {
        if self.unstartable {
            return GitRun::Unstartable("No such file or directory (os error 2)".to_string());
        }
        if self.failing.iter().any(|u| u == url) {
            return GitRun::Failed("exit status: 128".to_string());
        }
        self.cloned.push((url.to_string(), target.clone()));
        GitRun::Succeeded(String::new())
    }

    fn repository_override(&mut self) -> Option<String> {
        self.named_asked += 1;
        self.named.clone()
    }

    fn origin_url(&mut self) -> GitRun {
        self.origin_asked += 1;
        match &self.origin {
            Some(GitRun::Succeeded(out)) => GitRun::Succeeded(out.clone()),
            Some(GitRun::Failed(s)) => GitRun::Failed(s.clone()),
            Some(GitRun::Unstartable(s)) => GitRun::Unstartable(s.clone()),
            None => GitRun::Failed("exit status: 2".to_string()),
        }
    }

    fn report(&mut self, line: &str) {
        self.lines.push(line.to_string());
    }
}

/// A remote host on paper: it records what is asked of it.
#[derive(Default)]
struct Paper {
    asked: Vec<String>,
}

impl Remote for Paper {
    fn list_user_repos(
        &mut self,
        token: &str,
        username: &str,
        limit: usize,
    ) -> Result<Vec<Repository>, AppError> {
        self.asked.push(format!("user {} {} {}", token, username, limit));
        Ok(vec![repository("mine")])
    }

    fn list_org_repos(
        &mut self,
        token: &str,
        org: &str,
        limit: usize,
    ) -> Result<Vec<Repository>, AppError> {
        self.asked.push(format!("org {} {} {}", token, org, limit));
        Ok(vec![repository("one"), repository("two"), repository("three")])
    }

    fn list_pull_requests(
        &mut self,
        token: &str,
        owner: &str,
        repo: &str,
        limit: usize,
    ) -> Result<Vec<PullRequest>, AppError> {
        self.asked.push(format!("pulls {} {} {} {}", token, owner, repo, limit));
        Ok(vec![pull(2, "second", Some(true)), pull(1, "first", None)])
    }
}

fn signed_in(default_org: Option<&str>, clone_dir: Option<&str>) -> (MemoryStorage, MemoryVault) {
    let mut storage = MemoryStorage::new();
    let mut vault = MemoryVault::new();
    add(
        &mut storage,
        &mut vault,
        "me",
        "octocat",
        AccountKind::Personal,
        "tok",
        default_org.map(|s| s.to_string()),
        Protocol::Https,
        clone_dir.map(|s| s.to_string()),
    )
    .unwrap();
    (storage, vault)
}

#[test]
fn clone_target_is_inside_the_clone_directory() {
    assert_eq!(clone_target(&Some("/src".to_string()), "repo"), PathBuf::from("/src").join("repo"));
    assert_eq!(clone_target(&None, "repo"), PathBuf::from("repo"));
    assert_ne!(clone_target(&Some("/src".to_string()), "repo"), PathBuf::from("/src"));
    assert_ne!(clone_target(&Some("/src".to_string()), "repo"), PathBuf::from("repo"));
}

#[test]
fn clone_plan_gives_url_and_target() {
    let a = account(Protocol::Ssh, Some("/src"), None);
    let (url, target) = clone_plan(&a, "octocat/hello-world").unwrap();
    assert_eq!(url, "git@github.com:octocat/hello-world.git");
    assert_eq!(target, PathBuf::from("/src").join("hello-world"));
    let a = account(Protocol::Https, None, None);
    let (url, target) = clone_plan(&a, "octocat/hello-world").unwrap();
    assert_eq!(url, "https://github.com/octocat/hello-world.git");
    assert_eq!(target, PathBuf::from("hello-world"));
    assert!(matches!(clone_plan(&a, "invalid"), Err(AppError::InvalidInput(_))));
}

#[test]
fn target_taken_names_the_directory() {
    match target_taken(&PathBuf::from("/src/repo")) {
        AppError::Git(detail) => assert_eq!(detail, "directory '/src/repo' already exists"),
        other => panic!("unexpected: {:?}", other),
    }
    assert_ne!(target_taken(&PathBuf::from("a")).message(), target_taken(&PathBuf::from("b")).message());
}

#[test]
fn clone_result_by_run() {
    assert!(clone_result(GitRun::Succeeded("done".to_string())).is_ok());
    match clone_result(GitRun::Failed("exit status: 128".to_string())) {
        Err(AppError::Git(detail)) => {
            assert_eq!(detail, "git clone failed with status exit status: 128")
        }
        other => panic!("unexpected: {:?}", other),
    }
    match clone_result(GitRun::Unstartable("not found".to_string())) {
        Err(AppError::Git(detail)) => assert_eq!(detail, "failed to run git: not found"),
        other => panic!("unexpected: {:?}", other),
    }
}

#[test]
fn clone_for_runs_the_program_once() {
    let a = account(Protocol::Ssh, Some("/src"), None);
    let mut desk = Desk::default();
    clone_for(&a, &mut desk, "octocat/hello-world").unwrap();
    assert_eq!(
        desk.cloned,
        vec![(
            "git@github.com:octocat/hello-world.git".to_string(),
            PathBuf::from("/src").join("hello-world")
        )]
    );
}

#[test]
fn clone_for_refuses_an_existing_target() {
    let a = account(Protocol::Ssh, None, None);
    let mut desk = Desk { present: vec![PathBuf::from("hello-world")], ..Desk::default() };
    match clone_for(&a, &mut desk, "octocat/hello-world") {
        Err(AppError::Git(detail)) => assert_eq!(detail, "directory 'hello-world' already exists"),
        other => panic!("unexpected: {:?}", other),
    }
    assert!(desk.cloned.is_empty());
    assert!(matches!(clone_for(&a, &mut desk, "nonsense"), Err(AppError::InvalidInput(_))));
    assert!(desk.cloned.is_empty());
}

#[test]
fn clone_needs_an_active_account() {
    let storage = MemoryStorage::new();
    let mut vault = MemoryVault::new();
    let mut desk = Desk::default();
    assert!(matches!(
        gho::commands::repo::clone(&storage, &mut vault, &mut desk, "o/r"),
        Err(AppError::NoActiveAccount)
    ));
    assert!(desk.cloned.is_empty());
    let (storage, mut vault) = signed_in(None, Some("/src"));
    gho::commands::repo::clone(&storage, &mut vault, &mut desk, "o/r").unwrap();
    assert_eq!(
        desk.cloned,
        vec![("https://github.com/o/r.git".to_string(), PathBuf::from("/src").join("r"))]
    );
}

#[test]
fn clone_source_follows_the_protocol() {
    let r = repository("x");
    assert_eq!(clone_source(&r, Protocol::Ssh), "git@github.com:acme/x.git");
    assert_eq!(clone_source(&r, Protocol::Https), "https://github.com/acme/x.git");
}

#[test]
fn clone_all_skips_and_goes_on() {
    let a = account(Protocol::Ssh, Some("/src"), None);
    let mut desk = Desk {
        present: vec![PathBuf::from("/src").join("two")],
        failing: vec!["git@github.com:acme/three.git".to_string()],
        ..Desk::default()
    };
    let repos =
        vec![repository("one"), repository("two"), repository("three"), repository("four")];
    let cloned = clone_all(&a, &mut desk, repos).unwrap();
    assert_eq!(cloned, vec!["one", "four"]);
    assert_eq!(desk.cloned.len(), 2);
    assert_eq!(desk.cloned[0].1, PathBuf::from("/src").join("one"));
    assert_eq!(
        desk.lines,
        vec!["⏭️  Skipping two (already exists)", "⚠️  Failed to clone three"]
    );
}

#[test]
fn clone_all_of_nothing_is_nothing() {
    let a = account(Protocol::Ssh, None, None);
    let mut desk = Desk::default();
    assert!(clone_all(&a, &mut desk, Vec::new()).unwrap().is_empty());
    assert!(desk.lines.is_empty());
}

#[test]
fn clone_all_goes_on_when_the_program_cannot_start() {
    let a = account(Protocol::Https, None, None);
    let mut desk = Desk { unstartable: true, ..Desk::default() };
    let cloned = clone_all(&a, &mut desk, vec![repository("one"), repository("two")]).unwrap();
    assert!(cloned.is_empty());
    assert_eq!(desk.lines, vec!["⚠️  Failed to clone one", "⚠️  Failed to clone two"]);
    desk.unstartable = false;
    let cloned = clone_all(&a, &mut desk, vec![repository("one"), repository("two")]).unwrap();
    assert_eq!(cloned, vec!["one", "two"]);
}

#[test]
fn a_single_clone_still_fails_when_the_program_cannot_start() {
    let a = account(Protocol::Https, None, None);
    let mut desk = Desk { unstartable: true, ..Desk::default() };
    match clone_for(&a, &mut desk, "o/r") {
        Err(AppError::Git(detail)) => {
            assert_eq!(detail, "failed to run git: No such file or directory (os error 2)")
        }
        other => panic!("unexpected: {:?}", other),
    }
}

#[test]
fn clone_org_asks_the_remote_and_clones() {
    let (storage, mut vault) = signed_in(None, None);
    let mut paper = Paper::default();
    let mut desk = Desk { present: vec![PathBuf::from("two")], ..Desk::default() };
    let cloned =
        gho::commands::repo::clone_org(&storage, &mut vault, &mut paper, &mut desk, "acme", 10).unwrap();
    assert_eq!(cloned, vec!["one", "three"]);
    assert_eq!(paper.asked, vec!["org tok acme 10"]);
    assert_eq!(desk.cloned[0].0, "https://github.com/acme/one.git");
}

#[test]
fn listing_org_prefers_the_argument() {
    let with = account(Protocol::Ssh, None, Some("default-org"));
    let without = account(Protocol::Ssh, None, None);
    assert_eq!(listing_org(Some("asked"), &with), Some("asked"));
    assert_eq!(listing_org(None, &with), Some("default-org"));
    assert_eq!(listing_org(Some("asked"), &without), Some("asked"));
    assert_eq!(listing_org(None, &without), None);
}

#[test]
fn repo_list_picks_org_or_user() {
    let mut paper = Paper::default();
    let (storage, mut vault) = signed_in(None, None);
    let repos = gho::commands::repo::list(&storage, &mut vault, &mut paper, None, 0).unwrap();
    assert_eq!(repos.len(), 1);
    assert_eq!(repos[0].name, "mine");
    let repos = gho::commands::repo::list(&storage, &mut vault, &mut paper, Some("acme"), 5).unwrap();
    assert_eq!(repos.len(), 3);
    let (storage, mut vault) = signed_in(Some("home-org"), None);
    gho::commands::repo::list(&storage, &mut vault, &mut paper, None, 7).unwrap();
    assert_eq!(
        paper.asked,
        vec!["user tok octocat 0", "org tok acme 5", "org tok home-org 7"]
    );
    let empty = MemoryStorage::new();
    assert!(matches!(
        gho::commands::repo::list(&empty, &mut vault, &mut paper, None, 0),
        Err(AppError::NoActiveAccount)
    ));
}

#[test]
fn to_output_keeps_the_fields() {
    let out = to_output(pull(7, "fix", Some(false)));
    assert_eq!(out.number, 7);
    assert_eq!(out.title, "fix");
    assert_eq!(out.author, "author7");
    assert_eq!(out.branch, "branch7");
    assert_eq!(out.mergeable, Some(false));
    assert!(!out.actions_in_progress);
    assert_eq!(out.ci_status, "unknown");
}

#[test]
fn to_outputs_keeps_the_order() {
    let outs = to_outputs(vec![pull(3, "c", None), pull(1, "a", Some(true)), pull(2, "b", None)]);
    let numbers: Vec<u64> = outs.iter().map(|o| o.number).collect();
    assert_eq!(numbers, vec![3, 1, 2]);
    assert_eq!(outs[1].title, "a");
    assert_eq!(outs[1].mergeable, Some(true));
    assert!(to_outputs(Vec::new()).is_empty());
}

#[test]
fn repo_from_origin_by_run() {
    let (owner, repo) =
        repo_from_origin(GitRun::Succeeded("git@github.com:octocat/hello-world.git\n".to_string()))
            .unwrap();
    assert_eq!(owner, "octocat");
    assert_eq!(repo, "hello-world");
    match repo_from_origin(GitRun::Failed("exit status: 2".to_string())) {
        Err(AppError::Git(detail)) => {
            assert_eq!(detail, "no repository detected, provide owner/repo argument")
        }
        other => panic!("unexpected: {:?}", other),
    }
    match repo_from_origin(GitRun::Unstartable("not found".to_string())) {
        Err(AppError::Git(detail)) => assert_eq!(detail, "failed to run git: not found"),
        other => panic!("unexpected: {:?}", other),
    }
    assert!(matches!(
        repo_from_origin(GitRun::Succeeded("ssh://elsewhere/x\n".to_string())),
        Err(AppError::Git(_))
    ));
}

#[test]
fn detection_prefers_the_environment() {
    let mut desk = Desk {
        named: Some("env-owner/env-repo".to_string()),
        origin: Some(GitRun::Succeeded("https://github.com/o/r.git\n".to_string())),
        ..Desk::default()
    };
    assert_eq!(
        detect_repo_from_git(&mut desk).unwrap(),
        ("env-owner".to_string(), "env-repo".to_string())
    );
    let mut desk = Desk {
        origin: Some(GitRun::Succeeded(" https://github.com/o/r.git\n".to_string())),
        ..Desk::default()
    };
    assert_eq!(detect_repo_from_git(&mut desk).unwrap(), ("o".to_string(), "r".to_string()));
    let mut desk = Desk { named: Some("broken".to_string()), ..Desk::default() };
    assert!(matches!(detect_repo_from_git(&mut desk), Err(AppError::InvalidInput(_))));
    assert!(matches!(detect_repo_from_git(&mut Desk::default()), Err(AppError::Git(_))));
}

#[test]
fn pr_list_names_the_repository() {
    let (storage, mut vault) = signed_in(None, None);
    let mut paper = Paper::default();
    let mut desk = Desk {
        origin: Some(GitRun::Succeeded("git@github.com:found/here.git\n".to_string())),
        ..Desk::default()
    };
    let outs =
        gho::commands::pr::list(&storage, &mut vault, &mut paper, &mut desk, Some("owner/repo"), 0).unwrap();
    assert_eq!(outs.len(), 2);
    assert_eq!(outs[0].number, 2);
    assert_eq!(outs[0].author, "author2");
    assert_eq!(outs[1].branch, "branch1");
    gho::commands::pr::list(&storage, &mut vault, &mut paper, &mut desk, None, 3).unwrap();
    assert_eq!(paper.asked, vec!["pulls tok owner repo 0", "pulls tok found here 3"]);
    assert!(matches!(
        gho::commands::pr::list(&storage, &mut vault, &mut paper, &mut desk, Some("bad"), 0),
        Err(AppError::InvalidInput(_))
    ));
    let empty = MemoryStorage::new();
    assert!(matches!(
        gho::commands::pr::list(&empty, &mut vault, &mut paper, &mut desk, Some("owner/repo"), 0),
        Err(AppError::NoActiveAccount)
    ));
}

#[test]
fn skip_notice_names_the_repository() {
    assert_eq!(skip_notice("two"), "⏭️  Skipping two (already exists)");
    assert_eq!(skip_notice(""), "⏭️  Skipping  (already exists)");
}

#[test]
fn batch_step_by_run() {
    assert_eq!(batch_step("one", GitRun::Succeeded("out".to_string())), None);
    assert_eq!(
        batch_step("three", GitRun::Failed("exit status: 128".to_string())),
        Some("⚠️  Failed to clone three".to_string())
    );
    assert_eq!(
        batch_step("one", GitRun::Unstartable("not found".to_string())),
        Some("⚠️  Failed to clone one".to_string())
    );
}

#[test]
fn pr_list_marks_checks_as_unknown() {
    let (storage, mut vault) = signed_in(None, None);
    let outs = gho::commands::pr::list(
        &storage,
        &mut vault,
        &mut Paper::default(),
        &mut Desk::default(),
        Some("owner/repo"),
        0,
    )
    .unwrap();
    assert!(!outs.is_empty());
    assert!(outs.iter().all(|o| !o.actions_in_progress && o.ci_status == "unknown"));
}

#[test]
fn clone_listed_hands_an_error_of_the_remote_on() {
    let a = account(Protocol::Ssh, None, None);
    let mut desk = Desk::default();
    match clone_listed(&a, &mut desk, Err(AppError::network("request failed: offline"))) {
        Err(AppError::Network(detail)) => assert_eq!(detail, "request failed: offline"),
        other => panic!("unexpected: {:?}", other),
    }
    assert!(desk.cloned.is_empty());
    assert!(desk.lines.is_empty());
    let cloned = clone_listed(&a, &mut desk, Ok(vec![repository("one")])).unwrap();
    assert_eq!(cloned, vec!["one"]);
}

#[test]
fn clone_all_asks_in_order_and_only_runs_for_absent_targets() {
    let a = account(Protocol::Https, Some("/src"), None);
    let mut desk = Desk { present: vec![PathBuf::from("/src").join("one")], ..Desk::default() };
    let cloned = clone_all(&a, &mut desk, vec![repository("one"), repository("two")]).unwrap();
    assert_eq!(cloned, vec!["two"]);
    assert_eq!(
        desk.cloned,
        vec![("https://github.com/acme/two.git".to_string(), PathBuf::from("/src").join("two"))]
    );
}

#[test]
fn memory_workspace_skips_fails_and_clones() {
    let a = account(Protocol::Ssh, Some("/src"), None);
    let mut space = MemoryWorkspace::new();
    space.put(&PathBuf::from("/src").join("two"));
    space.fail_on("git@github.com:acme/three.git");
    let repos =
        vec![repository("one"), repository("two"), repository("three"), repository("four")];
    let cloned = clone_all(&a, &mut space, repos).unwrap();
    assert_eq!(cloned, vec!["one", "four"]);
    assert_eq!(
        space.lines(),
        vec!["⏭️  Skipping two (already exists)", "⚠️  Failed to clone three"]
    );
    let again = clone_all(&a, &mut space, vec![repository("one"), repository("three")]).unwrap();
    assert!(again.is_empty());
    assert_eq!(space.lines().len(), 4);
}

#[test]
fn memory_workspace_single_clone() {
    let a = account(Protocol::Ssh, None, None);
    let mut space = MemoryWorkspace::new();
    clone_for(&a, &mut space, "octocat/hello-world").unwrap();
    match clone_for(&a, &mut space, "octocat/hello-world") {
        Err(AppError::Git(detail)) => assert_eq!(detail, "directory 'hello-world' already exists"),
        other => panic!("unexpected: {:?}", other),
    }
    space.fail_on("git@github.com:octocat/other.git");
    match clone_for(&a, &mut space, "octocat/other") {
        Err(AppError::Git(detail)) => {
            assert_eq!(detail, "git clone failed with status exit status: 128")
        }
        other => panic!("unexpected: {:?}", other),
    }
}

#[test]
fn memory_workspace_names_the_repository() {
    let mut space = MemoryWorkspace::new();
    assert!(matches!(detect_repo_from_git(&mut space), Err(AppError::Git(_))));
    space.set_origin("git@github.com:found/here.git\n");
    assert_eq!(detect_repo_from_git(&mut space).unwrap(), ("found".to_string(), "here".to_string()));
    space.name_repository("env/wins");
    assert_eq!(detect_repo_from_git(&mut space).unwrap(), ("env".to_string(), "wins".to_string()));
}

#[test]
fn detection_asks_the_environment_first_and_the_origin_only_then() {
    let mut desk = Desk {
        named: Some("env-owner/env-repo".to_string()),
        origin: Some(GitRun::Succeeded("https://github.com/o/r.git\n".to_string())),
        ..Desk::default()
    };
    detect_repo_from_git(&mut desk).unwrap();
    assert_eq!(desk.named_asked, 1);
    assert_eq!(desk.origin_asked, 0);
    desk.named = None;
    assert_eq!(detect_repo_from_git(&mut desk).unwrap(), ("o".to_string(), "r".to_string()));
    assert_eq!(desk.named_asked, 2);
    assert_eq!(desk.origin_asked, 1);
}

#[test]
fn pr_list_with_a_named_repository_does_not_ask_the_workspace() {
    let (storage, mut vault) = signed_in(None, None);
    let mut paper = Paper::default();
    let mut desk = Desk::default();
    gho::commands::pr::list(&storage, &mut vault, &mut paper, &mut desk, Some("o/r"), 9).unwrap();
    assert_eq!(desk.named_asked, 0);
    assert_eq!(desk.origin_asked, 0);
    assert_eq!(paper.asked, vec!["pulls tok o r 9"]);
    assert!(gho::commands::pr::list(&storage, &mut vault, &mut paper, &mut desk, Some("bad"), 9)
        .is_err());
    assert_eq!(paper.asked.len(), 1);
}

#[test]
fn pulls_listed_by_answer() {
    let outs = pulls_listed(Ok(vec![pull(5, "five", Some(true))])).unwrap();
    assert_eq!(outs.len(), 1);
    assert_eq!(outs[0].number, 5);
    assert_eq!(outs[0].ci_status, "unknown");
    match pulls_listed(Err(AppError::github_api("API error 404 Not Found: x"))) {
        Err(AppError::GitHubApi(detail)) => assert_eq!(detail, "API error 404 Not Found: x"),
        other => panic!("unexpected: {:?}", other),
    }
}

#[test]
fn memory_remote_answers_with_what_it_was_given() {
    let (storage, mut vault) = signed_in(None, Some("/src"));
    let mut remote = MemoryRemote::new(
        vec![repository("one"), repository("two")],
        vec![pull(2, "second", None), pull(1, "first", Some(false))],
    );
    let repos = gho::commands::repo::list(&storage, &mut vault, &mut remote, None, 0).unwrap();
    assert_eq!(repos.len(), 2);
    assert_eq!(repos[1].name, "two");
    assert_eq!(repos[1].ssh_url, "git@github.com:acme/two.git");
    let mut space = MemoryWorkspace::new();
    space.put(&PathBuf::from("/src").join("one"));
    let cloned =
        gho::commands::repo::clone_org(&storage, &mut vault, &mut remote, &mut space, "acme", 5)
            .unwrap();
    assert_eq!(cloned, vec!["two"]);
    let outs =
        gho::commands::pr::list(&storage, &mut vault, &mut remote, &mut space, Some("o/r"), 0)
            .unwrap();
    assert_eq!(outs.len(), 2);
    assert_eq!(outs[0].number, 2);
    assert_eq!(outs[1].title, "first");
    assert_eq!(outs[1].mergeable, Some(false));
}

#[test]
fn clone_org_goes_on_when_the_program_cannot_start() {
    let (storage, mut vault) = signed_in(None, None);
    let mut paper = Paper::default();
    let mut desk = Desk { unstartable: true, ..Desk::default() };
    let cloned = gho::commands::repo::clone_org(
        &storage, &mut vault, &mut paper, &mut desk, "acme", 10,
    )
    .unwrap();
    assert!(cloned.is_empty());
    assert_eq!(desk.lines.len(), 3);
}
