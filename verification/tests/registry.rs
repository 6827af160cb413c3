use gho::models::{Account, AccountKind, AccountsFile, Protocol};

fn account(id: &str, kind: AccountKind, username: &str) -> Account {
    Account {
        id: id.to_string(),
        kind,
        username: username.to_string(),
        default_org: None,
        protocol: Protocol::Ssh,
        clone_dir: None,
    }
}

fn ids(accounts: &AccountsFile) -> Vec<String> {
    accounts.all_accounts().iter().map(|a| a.id.clone()).collect()
}

#[test]
fn default_registry_is_empty() {
    let accounts = AccountsFile::default();
    assert!(accounts.personal.is_empty());
    assert!(accounts.work.is_empty());
    assert!(accounts.active_account_id.is_none());
    assert!(accounts.all_accounts().is_empty());
    assert!(accounts.active_account().is_none());
}

#[test]
fn default_protocol_is_ssh() {
    assert_eq!(Protocol::default(), Protocol::Ssh);
}

#[test]
fn names_are_lower_case() {
    assert_eq!(Protocol::Ssh.name(), "ssh");
    assert_eq!(Protocol::Https.name(), "https");
    assert_eq!(AccountKind::Personal.name(), "personal");
    assert_eq!(AccountKind::Work.name(), "work");
}

#[test]
fn add_account_goes_to_partition_of_kind() {
    let mut accounts = AccountsFile::default();
    accounts.add_account(account("w", AccountKind::Work, "bob"));
    accounts.add_account(account("p", AccountKind::Personal, "alice"));
    assert_eq!(accounts.personal.len(), 1);
    assert_eq!(accounts.work.len(), 1);
    assert_eq!(accounts.personal[0].id, "p");
    assert_eq!(accounts.work[0].id, "w");
    assert!(accounts.active_account_id.is_none());
}

#[test]
fn add_account_makes_no_duplicate_check() {
    let mut accounts = AccountsFile::default();
    accounts.add_account(account("p", AccountKind::Personal, "alice"));
    accounts.add_account(account("p", AccountKind::Personal, "other"));
    assert_eq!(accounts.personal.len(), 2);
    assert_eq!(accounts.find_account("p").unwrap().username, "alice");
}

#[test]
fn all_accounts_lists_personal_first_in_insertion_order() {
    let mut accounts = AccountsFile::default();
    accounts.add_account(account("job", AccountKind::Work, "a"));
    accounts.add_account(account("home", AccountKind::Personal, "b"));
    accounts.add_account(account("gig", AccountKind::Work, "c"));
    accounts.add_account(account("side", AccountKind::Personal, "d"));
    assert_eq!(ids(&accounts), vec!["home", "side", "job", "gig"]);
}

#[test]
fn find_account_searches_both_partitions() {
    let mut accounts = AccountsFile::default();
    accounts.add_account(account("p", AccountKind::Personal, "alice"));
    accounts.add_account(account("w", AccountKind::Work, "bob"));
    assert_eq!(accounts.find_account("p").unwrap().username, "alice");
    assert_eq!(accounts.find_account("w").unwrap().username, "bob");
    assert!(accounts.find_account("x").is_none());
    assert!(accounts.find_account("").is_none());
    assert!(accounts.find_account("P").is_none());
}

#[test]
fn find_account_prefers_personal_over_work() {
    let mut accounts = AccountsFile::default();
    accounts.add_account(account("same", AccountKind::Work, "work-user"));
    accounts.add_account(account("same", AccountKind::Personal, "personal-user"));
    assert_eq!(accounts.find_account("same").unwrap().username, "personal-user");
}

#[test]
fn find_account_mut_updates_in_place() {
    let mut accounts = AccountsFile::default();
    accounts.add_account(account("p", AccountKind::Personal, "alice"));
    accounts.add_account(account("w", AccountKind::Work, "bob"));
    accounts.find_account_mut("w").unwrap().protocol = Protocol::Https;
    assert_eq!(accounts.work[0].protocol, Protocol::Https);
    assert_eq!(accounts.personal[0].protocol, Protocol::Ssh);
    assert!(accounts.find_account_mut("x").is_none());
}

#[test]
fn active_account_resolves_through_find() {
    let mut accounts = AccountsFile::default();
    accounts.add_account(account("p", AccountKind::Personal, "alice"));
    assert!(accounts.active_account().is_none());
    accounts.active_account_id = Some("p".to_string());
    assert_eq!(accounts.active_account().unwrap().username, "alice");
    accounts.active_account_id = Some("gone".to_string());
    assert!(accounts.active_account().is_none());
}

#[test]
fn remove_account_returns_the_record() {
    let mut accounts = AccountsFile::default();
    accounts.add_account(account("p", AccountKind::Personal, "alice"));
    accounts.add_account(account("w", AccountKind::Work, "bob"));
    let removed = accounts.remove_account("w").unwrap();
    assert_eq!(removed.id, "w");
    assert_eq!(removed.username, "bob");
    assert_eq!(ids(&accounts), vec!["p"]);
    assert!(accounts.remove_account("w").is_none());
    assert_eq!(ids(&accounts), vec!["p"]);
}

#[test]
fn remove_account_clears_active_only_if_it_was_active() {
    let mut accounts = AccountsFile::default();
    accounts.add_account(account("p", AccountKind::Personal, "alice"));
    accounts.add_account(account("w", AccountKind::Work, "bob"));
    accounts.active_account_id = Some("w".to_string());
    accounts.remove_account("p");
    assert_eq!(accounts.active_account_id, Some("w".to_string()));
    accounts.remove_account("w");
    assert_eq!(accounts.active_account_id, None);
}

#[test]
fn remove_account_of_absent_id_keeps_active() {
    let mut accounts = AccountsFile::default();
    accounts.add_account(account("p", AccountKind::Personal, "alice"));
    accounts.active_account_id = Some("p".to_string());
    assert!(accounts.remove_account("nobody").is_none());
    assert_eq!(accounts.active_account_id, Some("p".to_string()));
    assert_eq!(accounts.personal.len(), 1);
}

#[test]
fn remove_account_takes_first_match_only() {
    let mut accounts = AccountsFile::default();
    accounts.add_account(account("same", AccountKind::Work, "work-user"));
    accounts.add_account(account("same", AccountKind::Personal, "personal-user"));
    let removed = accounts.remove_account("same").unwrap();
    assert_eq!(removed.username, "personal-user");
    assert_eq!(accounts.find_account("same").unwrap().username, "work-user");
}

#[test]
fn clone_keeps_every_field() {
    let mut a = account("p", AccountKind::Personal, "alice");
    a.default_org = Some("org".to_string());
    a.clone_dir = Some("/src".to_string());
    a.protocol = Protocol::Https;
    let b = a.clone();
    assert_eq!(b.id, "p");
    assert_eq!(b.kind, AccountKind::Personal);
    assert_eq!(b.username, "alice");
    assert_eq!(b.default_org, Some("org".to_string()));
    assert_eq!(b.protocol, Protocol::Https);
    assert_eq!(b.clone_dir, Some("/src".to_string()));
    let mut accounts = AccountsFile::default();
    accounts.add_account(a);
    accounts.active_account_id = Some("p".to_string());
    let copy = accounts.clone();
    assert_eq!(ids(&copy), vec!["p"]);
    assert_eq!(copy.active_account_id, Some("p".to_string()));
}
