use settings_store::SettingsStore;
use settings_store::load_clock_style;
use settings_store::save_clock_style;

#[test]
fn clock_style_scenario() {
    let mut store = SettingsStore::open_in_memory().unwrap();
    assert_eq!(load_clock_style(&store).unwrap(), None);
    save_clock_style(&mut store, "dark").unwrap();
    assert_eq!(load_clock_style(&store).unwrap(), Some("dark".to_string()));
    save_clock_style(&mut store, "light").unwrap();
    assert_eq!(load_clock_style(&store).unwrap(), Some("light".to_string()));
}

#[test]
fn clock_style_does_not_touch_other_keys() {
    let mut store = SettingsStore::open_in_memory().unwrap();
    store.save("other", "kept").unwrap();
    save_clock_style(&mut store, "dark").unwrap();
    assert_eq!(store.load("other").unwrap(), Some("kept".to_string()));
    assert_eq!(store.load("clock_style").unwrap(), Some("dark".to_string()));
}
