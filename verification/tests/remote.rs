use gho::error::AppError;
use gho::github::{
    bearer, check_response, effective_limit, org_repos_url, pulls_url, repo_url, user_repos_url,
    DEFAULT_LIMIT, DEFAULT_TIMEOUT_SECS,
};
use gho::text::to_decimal;

#[test]
fn limit_of_zero_stands_for_the_default() {
    assert_eq!(DEFAULT_LIMIT, 30);
    assert_eq!(DEFAULT_TIMEOUT_SECS, 30);
    assert_eq!(effective_limit(0), 30);
    assert_eq!(effective_limit(1), 1);
    assert_eq!(effective_limit(100), 100);
    assert_eq!(effective_limit(usize::MAX), usize::MAX);
}

#[test]
fn listing_addresses() {
    assert_eq!(
        user_repos_url("octocat", 0),
        "https://api.github.com/users/octocat/repos?sort=pushed&direction=desc&per_page=30"
    );
    assert_eq!(
        user_repos_url("octocat", 5),
        "https://api.github.com/users/octocat/repos?sort=pushed&direction=desc&per_page=5"
    );
    assert_eq!(
        org_repos_url("acme", 100),
        "https://api.github.com/orgs/acme/repos?sort=pushed&direction=desc&per_page=100"
    );
    assert_eq!(repo_url("octocat", "hello-world"), "https://api.github.com/repos/octocat/hello-world");
    assert_eq!(
        pulls_url("octocat", "hello-world", 0),
        "https://api.github.com/repos/octocat/hello-world/pulls?state=open&sort=updated&direction=desc&per_page=30"
    );
    assert_eq!(
        pulls_url("o", "r", 7),
        "https://api.github.com/repos/o/r/pulls?state=open&sort=updated&direction=desc&per_page=7"
    );
}

#[test]
fn bearer_header() {
    assert_eq!(bearer("tok"), "Bearer tok");
    assert_eq!(bearer(""), "Bearer ");
}

#[test]
fn success_is_the_range_from_200_to_299() {
    assert_eq!(check_response(200, "200 OK", "[]".to_string()).unwrap(), "[]");
    assert_eq!(check_response(299, "299", "x".to_string()).unwrap(), "x");
    assert_eq!(check_response(204, "204 No Content", String::new()).unwrap(), "");
    assert!(check_response(199, "199", String::new()).is_err());
    assert!(check_response(300, "300 Multiple Choices", String::new()).is_err());
    assert!(check_response(0, "", String::new()).is_err());
}

#[test]
fn failure_carries_status_and_body() {
    match check_response(404, "404 Not Found", "{\"message\":\"Not Found\"}".to_string()) {
        Err(AppError::GitHubApi(detail)) => {
            assert_eq!(detail, "API error 404 Not Found: {\"message\":\"Not Found\"}")
        }
        other => panic!("unexpected: {:?}", other),
    }
    match check_response(500, "500 Internal Server Error", String::new()) {
        Err(e) => assert_eq!(
            e.message(),
            "GitHub API error: API error 500 Internal Server Error: "
        ),
        other => panic!("unexpected: {:?}", other),
    }
}

#[test]
fn decimal_writing() {
    assert_eq!(to_decimal(0), "0");
    assert_eq!(to_decimal(9), "9");
    assert_eq!(to_decimal(10), "10");
    assert_eq!(to_decimal(1234567890), "1234567890");
    assert_eq!(to_decimal(usize::MAX), format!("{}", usize::MAX));
    let mut n: usize = 1;
    while n < 100_000 {
        assert_eq!(to_decimal(n), format!("{}", n));
        n = n * 3 + 1;
    }
}
