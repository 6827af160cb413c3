use gho::config::Config;
use gho::error::AppError;
use gho::storage::FilesystemStorage;
use std::path::PathBuf;

#[test]
fn with_path_keeps_the_path() {
    let config = Config::with_path(PathBuf::from("/tmp/x"));
    assert_eq!(config.config_path, PathBuf::from("/tmp/x"));
    assert_eq!(config.clone().config_path, PathBuf::from("/tmp/x"));
}

#[test]
fn documents_live_in_the_configuration_directory() {
    let config = Config::with_path(PathBuf::from("/tmp/x"));
    assert_eq!(config.accounts_path(), PathBuf::from("/tmp/x").join("accounts.json"));
    assert_eq!(config.state_path(), PathBuf::from("/tmp/x").join("state.json"));
    assert_ne!(config.accounts_path(), config.config_path);
    assert_ne!(config.state_path(), config.accounts_path());
    assert_eq!(config.accounts_path().file_name().unwrap(), "accounts.json");
    assert_eq!(config.state_path().parent().unwrap(), PathBuf::from("/tmp/x"));
}

#[test]
fn default_configuration_is_under_home() {
    let config = Config::new_default(Some("/home/u".to_string())).unwrap();
    assert_eq!(config.config_path, PathBuf::from("/home/u").join(".config").join("gho"));
    match Config::new_default(None) {
        Err(AppError::Config(detail)) => assert_eq!(detail, "HOME environment variable not set"),
        other => panic!("unexpected: {:?}", other),
    }
}

#[test]
fn filesystem_storage_names_its_files() {
    let config = Config::with_path(PathBuf::from("base").join(".config").join("gho"));
    let storage = FilesystemStorage::new(&config);
    assert_eq!(storage.config_dir(), config.config_path);
    assert_eq!(storage.accounts_path(), config.config_path.join("accounts.json"));
    assert_eq!(storage.state_path(), config.config_path.join("state.json"));
    let storage = FilesystemStorage::new_default(Some("/home/u".to_string())).unwrap();
    assert_eq!(
        storage.accounts_path(),
        PathBuf::from("/home/u").join(".config").join("gho").join("accounts.json")
    );
    assert!(matches!(FilesystemStorage::new_default(None), Err(AppError::Config(_))));
}
