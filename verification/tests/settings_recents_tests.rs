use git_pulse::RecentItem;
use git_pulse::Recents;
use git_pulse::Settings;
use git_pulse::default_theme;
use git_pulse::merge_settings;
use git_pulse::settings_api_key;

fn item(id: &str, name: &str) -> RecentItem {
    RecentItem { id: id.to_string(), name: name.to_string() }
}

#[test]
fn defaults_match_the_stored_shape() {
    assert_eq!(default_theme(), "system");
    let s = Settings::default();
    assert_eq!(s.theme, "system");
    assert!(s.notifications);
    assert_eq!(s.font_size, "medium");
    assert_eq!(s.file_directory, "");
    assert!(!s.recently_viewed_option);
    assert_eq!(s.api_key, None);
}

#[test]
fn merge_keeps_current_values_for_empty_fields() {
    let current = Settings {
        theme: "dark".to_string(),
        notifications: true,
        font_size: "large".to_string(),
        file_directory: "/notes".to_string(),
        recently_viewed_option: true,
        api_key: Some("SECRET-REDACTED".to_string()),
    };
    let update = Settings {
        theme: "".to_string(),
        notifications: false,
        font_size: "".to_string(),
        file_directory: "".to_string(),
        recently_viewed_option: false,
        api_key: None,
    };
    let merged = merge_settings(update, current);
    assert_eq!(merged.theme, "dark");
    assert!(!merged.notifications);
    assert_eq!(merged.font_size, "large");
    assert_eq!(merged.file_directory, "/notes");
    assert!(!merged.recently_viewed_option);
    assert_eq!(merged.api_key, Some("SECRET-REDACTED".to_string()));
}

#[test]
fn merge_takes_new_values_when_present() {
    let current = Settings::default();
    let update = Settings {
        theme: "light".to_string(),
        notifications: false,
        font_size: "small".to_string(),
        file_directory: "/vault".to_string(),
        recently_viewed_option: true,
        api_key: Some("SECRET-REDACTED".to_string()),
    };
    let merged = merge_settings(update, current);
    assert_eq!(merged.theme, "light");
    assert_eq!(merged.font_size, "small");
    assert_eq!(merged.file_directory, "/vault");
    assert!(merged.recently_viewed_option);
    assert_eq!(merged.api_key, Some("SECRET-REDACTED".to_string()));
}

#[test]
fn api_key_lookup_reports_the_missing_key() {
    let mut s = Settings::default();
    assert_eq!(settings_api_key(s.clone()), Err("No API key found".to_string()));
    s.api_key = Some("SECRET-REDACTED".to_string());
    assert_eq!(settings_api_key(s), Ok("SECRET-REDACTED".to_string()));
}

#[test]
fn recents_put_the_new_item_in_front() {
    let mut r = Recents::default();
    r.add_item(item("1", "one"));
    r.add_item(item("2", "two"));
    let items = r.items();
    assert_eq!(items.len(), 2);
    assert_eq!(items[0].id, "2");
    assert_eq!(items[1].id, "1");
}

#[test]
fn recents_drop_the_old_entry_with_the_same_id() {
    let mut r = Recents::default();
    r.add_item(item("1", "one"));
    r.add_item(item("2", "two"));
    r.add_item(item("1", "one again"));
    let items = r.items();
    assert_eq!(items.len(), 2);
    assert_eq!(items[0].id, "1");
    assert_eq!(items[0].name, "one again");
    assert_eq!(items[1].id, "2");
}

#[test]
fn recents_grow_past_five_and_stop_at_ten() {
    let mut r = Recents::default();
    for i in 0..12 {
        r.add_item(item(&format!("{}", i), "x"));
    }
    let items = r.items();
    assert_eq!(items.len(), 10);
    // newest first
    assert_eq!(items[0].id, "11");
    assert_eq!(items[9].id, "2");
}
