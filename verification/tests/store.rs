use settings_store::SettingsStore;

#[test]
fn round_trip() {
    let mut store = SettingsStore::open_in_memory().unwrap();
    store.save("k", "v").unwrap();
    assert_eq!(store.load("k").unwrap(), Some("v".to_string()));
}

#[test]
fn overwrite_last_write_wins() {
    let mut store = SettingsStore::open_in_memory().unwrap();
    store.save("k", "v1").unwrap();
    store.save("k", "v2").unwrap();
    assert_eq!(store.load("k").unwrap(), Some("v2".to_string()));
}

#[test]
fn saving_same_pair_twice_is_idempotent() {
    let mut store = SettingsStore::open_in_memory().unwrap();
    store.save("k", "v").unwrap();
    store.save("k", "v").unwrap();
    assert_eq!(store.load("k").unwrap(), Some("v".to_string()));
}

#[test]
fn fresh_store_loads_none() {
    let store = SettingsStore::open_in_memory().unwrap();
    assert_eq!(store.load("unknown_key").unwrap(), None);
}

#[test]
fn empty_value_round_trips() {
    let mut store = SettingsStore::open_in_memory().unwrap();
    store.save("k", "").unwrap();
    assert_eq!(store.load("k").unwrap(), Some(String::new()));
}

#[test]
fn keys_are_isolated() {
    let mut store = SettingsStore::open_in_memory().unwrap();
    store.save("a", "1").unwrap();
    store.save("b", "2").unwrap();
    store.save("a", "3").unwrap();
    assert_eq!(store.load("b").unwrap(), Some("2".to_string()));
    assert_eq!(store.load("a").unwrap(), Some("3".to_string()));
}

#[test]
fn ensuring_schema_again_keeps_settings() {
    let mut store = SettingsStore::open_in_memory().unwrap();
    store.save("k", "v").unwrap();
    store.ensure_schema().unwrap();
    store.ensure_schema().unwrap();
    store.ensure_schema().unwrap();
    assert_eq!(store.load("k").unwrap(), Some("v".to_string()));
}

#[test]
fn reopening_the_same_file_keeps_settings() {
    let path = "/tmp/settings_store_reopen_test.sqlite";
    {
        let mut store = SettingsStore::open(path).unwrap();
        store.save("k", "persisted").unwrap();
    }
    for _ in 0..3 {
        let store = SettingsStore::open(path).unwrap();
        assert_eq!(store.load("k").unwrap(), Some("persisted".to_string()));
    }
}

#[test]
fn unopenable_path_is_storage_unavailable() {
    let r = SettingsStore::open("/nonexistent_dir_for_settings_store_test/sub/tmap.sqlite");
    let err = r.err().expect("opening under a missing directory must fail");
    assert!(err.message().starts_with("failed to open sqlite db"));
}
