use jellyfin_desktop::settings::{keys_in_section, section_entry_key, section_prefix, store_key};

#[test]
fn store_key_layout() {
    assert_eq!(store_key("main", "volume"), "settings.main.volume");
    assert_eq!(section_prefix("video"), "settings.video.");
}

#[test]
fn entry_key_strips_section_prefix() {
    assert_eq!(section_entry_key("settings.main.volume", "main"), Some("volume".to_string()));
    assert_eq!(section_entry_key("settings.mainx.volume", "main"), None);
    assert_eq!(section_entry_key("state.geometry.x", "main"), None);
    assert_eq!(section_entry_key("settings.main.", "main"), Some(String::new()));
}

#[test]
fn keys_of_one_section_in_order() {
    let keys: Vec<String> = [
        "settings.main.a",
        "server_url",
        "settings.video.b",
        "settings.main.c",
        "settings.main",
    ]
    .iter()
    .map(|s| s.to_string())
    .collect();
    assert_eq!(keys_in_section(&keys, "main"), vec!["settings.main.a".to_string(), "settings.main.c".to_string()]);
    assert!(keys_in_section(&keys, "audio").is_empty());
    assert!(keys_in_section(&Vec::new(), "main").is_empty());
}
