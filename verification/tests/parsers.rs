use gho::commands::pr::parse_remote_url;
use gho::commands::repo::{build_clone_url, parse_repo_spec};
use gho::keychain::{mask_token, token_override};
use gho::models::Protocol;

#[test]
fn parse_remote_url_ssh() {
    let (owner, repo) = parse_remote_url("git@github.com:octocat/hello-world.git").unwrap();
    assert_eq!(owner, "octocat");
    assert_eq!(repo, "hello-world");
}

#[test]
fn parse_remote_url_https() {
    let (owner, repo) = parse_remote_url("https://github.com/octocat/hello-world.git").unwrap();
    assert_eq!(owner, "octocat");
    assert_eq!(repo, "hello-world");
}

#[test]
fn parse_remote_url_https_no_git_suffix() {
    let (owner, repo) = parse_remote_url("https://github.com/octocat/hello-world").unwrap();
    assert_eq!(owner, "octocat");
    assert_eq!(repo, "hello-world");
}

#[test]
fn parse_repo_spec_valid() {
    let (owner, repo) = parse_repo_spec("octocat/hello-world").unwrap();
    assert_eq!(owner, "octocat");
    assert_eq!(repo, "hello-world");
}

#[test]
fn parse_repo_spec_invalid() {
    let result = parse_repo_spec("invalid");
    assert!(result.is_err());
}

#[test]
fn build_clone_url_ssh() {
    let url = build_clone_url("octocat", "hello-world", Protocol::Ssh);
    assert_eq!(url, "git@github.com:octocat/hello-world.git");
}

#[test]
fn build_clone_url_https() {
    let url = build_clone_url("octocat", "hello-world", Protocol::Https);
    assert_eq!(url, "https://github.com/octocat/hello-world.git");
}

#[test]
fn mask_token_hides_middle() {
    let masked = mask_token("ghp_1234567890abcdef");
    assert!(masked.starts_with("ghp_"));
    assert!(masked.contains("..."));
    assert!(masked.ends_with("cdef"));
}

#[test]
fn mask_token_short_string() {
    let masked = mask_token("short");
    assert_eq!(masked, "*****");
}

#[test]
fn parse_repo_spec_refuses_more_than_one_slash() {
    match parse_repo_spec("a/b/c") {
        Err(gho::error::AppError::InvalidInput(detail)) => {
            assert_eq!(detail, "invalid repository format 'a/b/c', expected owner/repo")
        }
        other => panic!("unexpected: {:?}", other),
    }
}

#[test]
fn parse_repo_spec_error_names_the_text() {
    match parse_repo_spec("invalid") {
        Err(gho::error::AppError::InvalidInput(detail)) => {
            assert_eq!(detail, "invalid repository format 'invalid', expected owner/repo")
        }
        other => panic!("unexpected: {:?}", other),
    }
    assert!(parse_repo_spec("").is_err());
}

#[test]
fn parse_repo_spec_accepts_empty_parts() {
    assert_eq!(parse_repo_spec("/").unwrap(), (String::new(), String::new()));
    assert_eq!(parse_repo_spec("a/").unwrap(), ("a".to_string(), String::new()));
    assert_eq!(parse_repo_spec("/b").unwrap(), (String::new(), "b".to_string()));
}

#[test]
fn parse_repo_spec_keeps_other_characters() {
    assert_eq!(
        parse_repo_spec("börg/repo.git ").unwrap(),
        ("börg".to_string(), "repo.git ".to_string())
    );
}

#[test]
fn parse_remote_url_takes_off_every_git_suffix() {
    let (owner, repo) = parse_remote_url("git@github.com:o/r.git.git").unwrap();
    assert_eq!(owner, "o");
    assert_eq!(repo, "r");
    let (_, repo) = parse_remote_url("https://github.com/o/r.git.gitx").unwrap();
    assert_eq!(repo, "r.git.gitx");
}

#[test]
fn parse_remote_url_refuses_other_hosts() {
    match parse_remote_url("https://gitlab.com/o/r.git") {
        Err(gho::error::AppError::Git(detail)) => {
            assert_eq!(detail, "unrecognized remote URL format: https://gitlab.com/o/r.git")
        }
        other => panic!("unexpected: {:?}", other),
    }
    assert!(matches!(parse_remote_url(""), Err(gho::error::AppError::Git(_))));
    assert!(matches!(parse_remote_url("git@github.com"), Err(gho::error::AppError::Git(_))));
}

#[test]
fn parse_remote_url_refuses_a_path_that_is_no_repo() {
    match parse_remote_url("https://github.com/only-owner.git") {
        Err(gho::error::AppError::InvalidInput(detail)) => {
            assert_eq!(detail, "invalid repository format 'only-owner', expected owner/repo")
        }
        other => panic!("unexpected: {:?}", other),
    }
    assert!(parse_remote_url("git@github.com:a/b/c").is_err());
    assert!(parse_remote_url("git@github.com:.git").is_err());
}

#[test]
fn build_clone_url_joins_as_given() {
    assert_eq!(build_clone_url("", "", Protocol::Ssh), "git@github.com:/.git");
    assert_eq!(build_clone_url("a b", "c/d", Protocol::Https), "https://github.com/a b/c/d.git");
}

#[test]
fn mask_token_exact_values() {
    assert_eq!(mask_token("ghp_1234567890abcdef"), "ghp_...cdef");
    assert_eq!(mask_token(""), "");
    assert_eq!(mask_token("12345678"), "********");
    assert_eq!(mask_token("123456789"), "1234...6789");
}

#[test]
fn mask_token_counts_bytes() {
    assert!(gho::keychain::can_mask("héllo"));
    assert_eq!(mask_token("héllo"), "******");
    assert!(gho::keychain::can_mask("abcdé-éfghi"));
    assert_eq!(mask_token("abcdé-éfghi"), "abcd...fghi");
    assert!(!gho::keychain::can_mask("abcé12345"));
    assert!(!gho::keychain::can_mask("12345éabc"));
}

#[test]
fn token_override_prefers_the_first() {
    assert_eq!(
        token_override(Some("gh".to_string()), Some("github".to_string())),
        Some("gh".to_string())
    );
    assert_eq!(token_override(None, Some("github".to_string())), Some("github".to_string()));
    assert_eq!(token_override(Some("gh".to_string()), None), Some("gh".to_string()));
    assert_eq!(token_override(None, None), None);
}

#[test]
fn clone_url_leads_back_to_the_repository() {
    for protocol in [Protocol::Ssh, Protocol::Https] {
        for (owner, repo) in [("octocat", "hello-world"), ("a", "b"), ("o.git", "r"), ("", "x")] {
            let url = build_clone_url(owner, repo, protocol);
            assert_eq!(parse_remote_url(&url).unwrap(), (owner.to_string(), repo.to_string()));
        }
    }
    let url = build_clone_url("o", "r.git", Protocol::Ssh);
    assert_eq!(parse_remote_url(&url).unwrap(), ("o".to_string(), "r".to_string()));
}
