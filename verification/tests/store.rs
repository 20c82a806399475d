use settings_store::error::StoreError;
use settings_store::settings::UserSettings;
use settings_store::store::SettingsStore;

fn record(first: &str, last: &str, email: &str) -> UserSettings {
    UserSettings {
        first_name: first.to_string(),
        last_name: last.to_string(),
        email: email.to_string(),
    }
}

#[test]
fn initial_settings_are_empty() {
    let store = SettingsStore::new();
    assert_eq!(store.get_user_settings(), record("", "", ""));
}

#[test]
fn replace_then_get_round_trips() {
    let mut store = SettingsStore::new();
    let v = record("Grace", "Hopper", "grace@example.com");
    store.update_user_settings(v.clone());
    assert_eq!(store.get_user_settings(), v);
}

#[test]
fn second_replace_changes_nothing_more() {
    let mut store = SettingsStore::new();
    let v = record("Alan", "Turing", "alan@example.com");
    store.update_user_settings(v.clone());
    store.update_user_settings(v.clone());
    assert_eq!(store.get_user_settings(), v);
}

#[test]
fn replace_overwrites_every_field() {
    let mut store = SettingsStore::new();
    store.update_user_settings(record("A", "B", "c@d.com"));
    store.update_user_settings(record("X", "", ""));
    assert_eq!(store.get_user_settings(), record("X", "", ""));
}

#[test]
fn empty_record_is_accepted() {
    let mut store = SettingsStore::new();
    store.update_user_settings(record("Ada", "Lovelace", "ada@example.com"));
    store.update_user_settings(record("", "", ""));
    assert_eq!(store.get_user_settings(), record("", "", ""));
}

#[test]
fn last_of_many_distinct_replaces_wins() {
    let mut store = SettingsStore::new();
    for i in 0..8 {
        let v = record(
            &format!("first{}", i),
            &format!("last{}", i),
            &format!("user{}@example.com", i),
        );
        store.update_user_settings(v);
    }
    assert_eq!(
        store.get_user_settings(),
        record("first7", "last7", "user7@example.com")
    );
}

#[test]
fn get_hands_out_a_copy_not_a_reference() {
    let mut store = SettingsStore::new();
    let v = record("Edsger", "Dijkstra", "edsger@example.com");
    store.update_user_settings(v.clone());
    let copy = store.get_user_settings();
    store.update_user_settings(record("", "", ""));
    assert_eq!(copy, v);
}

#[test]
fn access_failure_message_names_the_broken_lock() {
    let m = StoreError::AccessFailure.message();
    assert_eq!(
        m,
        "cannot access the user settings: the lock guarding them is broken"
    );
}
