use device_upgrade::config::{Config, ConfigStore};
use device_upgrade::error::ConfigError;

fn config(base_url: &str, token: &str, path: &str) -> Config {
    Config::new(base_url.to_string(), token.to_string(), path.to_string()).unwrap()
}

#[test]
fn config_keeps_its_three_fields() {
    let c = config("http://10.0.0.1", "secret", "/images/os.bin");
    assert_eq!(c.base_url(), "http://10.0.0.1");
    assert_eq!(c.token(), "secret");
    assert_eq!(c.os_file_path(), "/images/os.bin");
}

#[test]
fn config_with_empty_base_url_is_turned_down() {
    let made = Config::new(String::new(), "secret".to_string(), "/images/os.bin".to_string());
    assert_eq!(made, Err(ConfigError::EmptyBaseUrl));
}

#[test]
fn config_with_empty_token_and_path_is_accepted() {
    let c = config("h", "", "");
    assert_eq!(c.base_url(), "h");
    assert_eq!(c.token(), "");
    assert_eq!(c.os_file_path(), "");
}

#[test]
fn config_clone_is_equal_and_independent() {
    let c = config("http://10.0.0.1", "secret", "/images/os.bin");
    let copy = c.clone();
    drop(c);
    assert_eq!(copy, config("http://10.0.0.1", "secret", "/images/os.bin"));
}

#[test]
fn store_reads_back_what_it_was_made_with() {
    let store = ConfigStore::new(config("http://a", "t1", "/a.bin"));
    assert_eq!(store.read(), config("http://a", "t1", "/a.bin"));
}

#[test]
fn read_after_replace_returns_the_new_value_whole() {
    let mut store = ConfigStore::new(config("http://a", "t1", "/a.bin"));
    store.replace(config("http://b", "t2", "/b.bin"));
    let seen = store.read();
    assert_eq!(seen.base_url(), "http://b");
    assert_eq!(seen.token(), "t2");
    assert_eq!(seen.os_file_path(), "/b.bin");
    assert_eq!(seen, config("http://b", "t2", "/b.bin"));
}

#[test]
fn replace_of_one_field_leaves_no_old_field_behind() {
    let mut store = ConfigStore::new(config("http://a", "old-token", "/os.bin"));
    store.replace(config("http://a", "new-token", "/os.bin"));
    assert_eq!(store.read(), config("http://a", "new-token", "/os.bin"));
    assert_ne!(store.read(), config("http://a", "old-token", "/os.bin"));
}

#[test]
fn repeated_reads_agree() {
    let store = ConfigStore::new(config("http://a", "t1", "/a.bin"));
    let first = store.read();
    let second = store.read();
    assert_eq!(first, second);
}

#[test]
fn a_snapshot_does_not_follow_a_later_replace() {
    let mut store = ConfigStore::new(config("http://a", "t1", "/a.bin"));
    let snapshot = store.read();
    store.replace(config("http://b", "t2", "/b.bin"));
    assert_eq!(snapshot, config("http://a", "t1", "/a.bin"));
    assert_eq!(store.read(), config("http://b", "t2", "/b.bin"));
}

#[test]
fn last_replace_wins() {
    let mut store = ConfigStore::new(config("http://a", "t1", "/a.bin"));
    store.replace(config("http://b", "t2", "/b.bin"));
    store.replace(config("http://c", "t3", "/c.bin"));
    assert_eq!(store.read(), config("http://c", "t3", "/c.bin"));
}

#[test]
fn malformed_update_leaves_the_store_unchanged() {
    let mut store = ConfigStore::new(config("http://a", "t1", "/a.bin"));
    let outcome = store.reload(Err(ConfigError::Malformed));
    assert_eq!(outcome, Err(ConfigError::Malformed));
    assert_eq!(store.read(), config("http://a", "t1", "/a.bin"));
}

#[test]
fn update_with_empty_base_url_leaves_the_store_unchanged() {
    let mut store = ConfigStore::new(config("http://a", "t1", "/a.bin"));
    let update = Config::new(String::new(), "t2".to_string(), "/b.bin".to_string());
    let outcome = store.reload(update);
    assert_eq!(outcome, Err(ConfigError::EmptyBaseUrl));
    assert_eq!(store.read(), config("http://a", "t1", "/a.bin"));
}

#[test]
fn unreadable_source_leaves_the_store_unchanged() {
    let mut store = ConfigStore::new(config("http://a", "t1", "/a.bin"));
    let outcome = store.reload(Err(ConfigError::Unreadable));
    assert_eq!(outcome, Err(ConfigError::Unreadable));
    assert_eq!(store.read(), config("http://a", "t1", "/a.bin"));
}

#[test]
fn accepted_update_replaces_the_value() {
    let mut store = ConfigStore::new(config("http://a", "t1", "/a.bin"));
    let outcome = store.reload(Ok(config("http://b", "t2", "/b.bin")));
    assert_eq!(outcome, Ok(()));
    assert_eq!(store.read(), config("http://b", "t2", "/b.bin"));
}

#[test]
fn store_recovers_after_a_malformed_update() {
    let mut store = ConfigStore::new(config("http://a", "t1", "/a.bin"));
    assert!(store.reload(Err(ConfigError::Malformed)).is_err());
    assert!(store.reload(Ok(config("http://b", "t2", "/b.bin"))).is_ok());
    assert!(store.reload(Err(ConfigError::Malformed)).is_err());
    assert_eq!(store.read(), config("http://b", "t2", "/b.bin"));
}

#[test]
fn config_errors_describe_themselves() {
    assert_eq!(
        ConfigError::Unreadable.describe(),
        "configuration error: the source cannot be read"
    );
    assert_eq!(
        ConfigError::Malformed.describe(),
        "configuration error: the document is malformed"
    );
    assert_eq!(
        ConfigError::EmptyBaseUrl.describe(),
        "configuration error: base_url is empty"
    );
}
