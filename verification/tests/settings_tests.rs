use codex_chatgpt_client::settings::{
    record_companion_position, replace_settings, reset_companion_position, toggle_external_links,
    AppSettings, CompanionSettings, HotkeyConfig, Preferences, SettingsManager, WindowPosition,
    WindowState,
};

fn temp_settings_path(dir: &tempfile::TempDir) -> String {
    dir.path().join("settings.json").to_str().unwrap().to_string()
}

#[test]
fn defaults_persist_and_roundtrip() {
    let dir = tempfile::tempdir().unwrap();
    let path = temp_settings_path(&dir);
    let mut manager = SettingsManager::from_path(path.clone(), None);

    let settings = manager.get();
    assert_eq!(settings.hotkey.accelerator, "Alt+Space");
    assert!(settings.preferences.open_links_in_browser);

    let written = manager.update(|mut s| {
        s.hotkey.accelerator = "Ctrl+Shift+Space".into();
        s.preferences.notifications_enabled = false;
        s
    });

    let manager2 = SettingsManager::from_path(path, Some(written));
    let reloaded = manager2.get();
    assert_eq!(reloaded.hotkey.accelerator, "Ctrl+Shift+Space");
    assert!(!reloaded.preferences.notifications_enabled);
}

#[test]
fn default_values_match_a_fresh_installation() {
    let s = AppSettings::default();
    assert_eq!(s.hotkey.accelerator, "Alt+Space");
    assert_eq!(f64::from_bits(s.companion.window.width), 420.0);
    assert_eq!(f64::from_bits(s.companion.window.height), 520.0);
    assert_eq!(f64::from_bits(s.companion.window.opacity), 1.0);
    assert!(s.companion.window.position.is_none());
    assert!(s.companion.window.always_on_top);
    assert!(s.companion.remember_position);
    assert!(s.preferences.open_links_in_browser);
    assert!(s.preferences.notifications_enabled);
    assert!(!s.preferences.launch_at_login);
    assert!(s.preferences.allow_voice);
    let p = WindowPosition::default();
    assert_eq!(f64::from_bits(p.x), 0.0);
    assert_eq!(f64::from_bits(p.y), 0.0);
    assert_eq!(HotkeyConfig::default().accelerator, "Alt+Space");
    assert!(WindowState::default().always_on_top);
    assert!(CompanionSettings::default().remember_position);
    assert!(!Preferences::default().launch_at_login);
}

#[test]
fn missing_file_loads_defaults_and_keeps_path() {
    let manager = SettingsManager::from_path("/tmp/x/settings.json".to_string(), None);
    assert_eq!(manager.path(), "/tmp/x/settings.json");
    assert_eq!(manager.get().hotkey.accelerator, "Alt+Space");
}

#[test]
fn stored_settings_are_loaded_as_they_are() {
    let mut stored = AppSettings::default();
    stored.hotkey.accelerator = "Super+K".to_string();
    stored.preferences.allow_voice = false;
    stored.companion.window.width = 300.0f64.to_bits();
    let manager = SettingsManager::from_path("settings.json".to_string(), Some(stored));
    let s = manager.get();
    assert_eq!(s.hotkey.accelerator, "Super+K");
    assert!(!s.preferences.allow_voice);
    assert_eq!(f64::from_bits(s.companion.window.width), 300.0);
}

#[test]
fn update_returns_and_keeps_what_the_updater_made() {
    let mut manager = SettingsManager::from_path("settings.json".to_string(), None);
    let r = manager.update(|mut s| {
        s.preferences.launch_at_login = true;
        s
    });
    assert!(r.preferences.launch_at_login);
    assert!(manager.get().preferences.launch_at_login);
    assert_eq!(manager.path(), "settings.json");
}

#[test]
fn clear_restores_defaults() {
    let mut manager = SettingsManager::from_path("settings.json".to_string(), None);
    manager.update(|mut s| {
        s.hotkey.accelerator = "Ctrl+Q".to_string();
        s.preferences.open_links_in_browser = false;
        s.companion.window.position = Some(WindowPosition { x: 5.0f64.to_bits(), y: 6.0f64.to_bits() });
        s
    });
    let r = manager.clear();
    assert_eq!(r.hotkey.accelerator, "Alt+Space");
    assert!(r.preferences.open_links_in_browser);
    assert!(r.companion.window.position.is_none());
    assert_eq!(manager.get().hotkey.accelerator, "Alt+Space");
}

#[test]
fn reset_companion_position_forgets_only_the_position() {
    let mut manager = SettingsManager::from_path("settings.json".to_string(), None);
    record_companion_position(&mut manager, WindowPosition { x: 10.0f64.to_bits(), y: 20.0f64.to_bits() });
    let moved = manager.get();
    let p = moved.companion.window.position.unwrap();
    assert_eq!(f64::from_bits(p.x), 10.0);
    assert_eq!(f64::from_bits(p.y), 20.0);
    let r = reset_companion_position(&mut manager);
    assert!(r.companion.window.position.is_none());
    assert_eq!(f64::from_bits(r.companion.window.width), 420.0);
    assert_eq!(r.hotkey.accelerator, "Alt+Space");
    let again = reset_companion_position(&mut manager);
    assert!(again.companion.window.position.is_none());
}

#[test]
fn toggling_links_twice_restores_the_preference() {
    let mut manager = SettingsManager::from_path("settings.json".to_string(), None);
    let once = toggle_external_links(&mut manager);
    assert!(!once.preferences.open_links_in_browser);
    assert!(once.preferences.notifications_enabled);
    let twice = toggle_external_links(&mut manager);
    assert!(twice.preferences.open_links_in_browser);
}

#[test]
fn replace_settings_stores_the_new_settings() {
    let mut manager = SettingsManager::from_path("settings.json".to_string(), None);
    let mut new_settings = AppSettings::default();
    new_settings.hotkey.accelerator = "Ctrl+Alt+C".to_string();
    new_settings.companion.window.always_on_top = false;
    let r = replace_settings(&mut manager, new_settings);
    assert_eq!(r.hotkey.accelerator, "Ctrl+Alt+C");
    assert!(!manager.get().companion.window.always_on_top);
}

#[test]
fn clone_keeps_every_field() {
    let mut s = AppSettings::default();
    s.hotkey.accelerator = "Alt+X".to_string();
    s.preferences.allow_voice = false;
    let c = s.clone();
    assert_eq!(c.hotkey.accelerator, "Alt+X");
    assert!(!c.preferences.allow_voice);
    assert_eq!(c.companion.window.width, s.companion.window.width);
}
