use dictation_hotkeys::hotkey::HotkeyConfig;
use dictation_hotkeys::settings::{
    hotkey_or_default, load_initial_settings, SettingsSnapshot, StoredHotkeys, StoredSettings,
};
use dictation_hotkeys::hotkey::Role;

fn custom() -> HotkeyConfig {
    HotkeyConfig { modifiers: vec!["shift".to_string()], key: "F9".to_string() }
}

#[test]
fn empty_store_gives_the_defaults() {
    let snapshot = SettingsSnapshot::from_stored(StoredSettings {
        sound_enabled: None,
        auto_mute_audio: None,
        toggle_hotkey: None,
        hold_hotkey: None,
        paste_last_hotkey: None,
    });
    assert!(snapshot.sound_enabled);
    assert!(!snapshot.auto_mute_audio);
    assert_eq!(snapshot.toggle_hotkey, HotkeyConfig::default_toggle());
    assert_eq!(snapshot.hold_hotkey, HotkeyConfig::default_hold());
    assert_eq!(snapshot.paste_last_hotkey, HotkeyConfig::default_paste_last());
}

#[test]
fn stored_values_are_taken() {
    let snapshot = SettingsSnapshot::from_stored(StoredSettings {
        sound_enabled: Some(false),
        auto_mute_audio: Some(true),
        toggle_hotkey: Some(custom()),
        hold_hotkey: None,
        paste_last_hotkey: Some(HotkeyConfig::default_toggle()),
    });
    assert!(!snapshot.sound_enabled);
    assert!(snapshot.auto_mute_audio);
    assert_eq!(snapshot.toggle_hotkey, custom());
    assert_eq!(snapshot.hold_hotkey, HotkeyConfig::default_hold());
    assert_eq!(snapshot.paste_last_hotkey, HotkeyConfig::default_toggle());
}

#[test]
fn missing_file_gives_the_default_shortcuts() {
    let initial = load_initial_settings(None);
    assert_eq!(initial.toggle_hotkey, HotkeyConfig::default_toggle());
    assert_eq!(initial.hold_hotkey, HotkeyConfig::default_hold());
    assert_eq!(initial.paste_last_hotkey, HotkeyConfig::default_paste_last());
}

#[test]
fn file_without_keys_gives_the_default_shortcuts() {
    let initial = load_initial_settings(Some(StoredHotkeys {
        toggle_hotkey: None,
        hold_hotkey: None,
        paste_last_hotkey: None,
    }));
    assert_eq!(initial.toggle_hotkey, HotkeyConfig::default_toggle());
    assert_eq!(initial.hold_hotkey, HotkeyConfig::default_hold());
    assert_eq!(initial.paste_last_hotkey, HotkeyConfig::default_paste_last());
}

#[test]
fn file_keys_are_taken_one_by_one() {
    let initial = load_initial_settings(Some(StoredHotkeys {
        toggle_hotkey: None,
        hold_hotkey: Some(custom()),
        paste_last_hotkey: None,
    }));
    assert_eq!(initial.toggle_hotkey, HotkeyConfig::default_toggle());
    assert_eq!(initial.hold_hotkey, custom());
    assert_eq!(initial.paste_last_hotkey, HotkeyConfig::default_paste_last());
}

#[test]
fn initial_settings_keep_a_shortcut_that_does_not_compile() {
    let broken = HotkeyConfig { modifiers: vec![], key: "NoSuchKey".to_string() };
    let initial = load_initial_settings(Some(StoredHotkeys {
        toggle_hotkey: Some(broken.clone()),
        hold_hotkey: None,
        paste_last_hotkey: None,
    }));
    assert_eq!(initial.toggle_hotkey, broken);
    assert_eq!(
        initial.toggle_hotkey.to_shortcut_or_default(Role::Toggle).unwrap(),
        HotkeyConfig::default_toggle().to_shortcut().unwrap()
    );
}

#[test]
fn hotkey_or_default_picks_by_role() {
    assert_eq!(hotkey_or_default(None, Role::PasteLast), HotkeyConfig::default_paste_last());
    assert_eq!(hotkey_or_default(Some(custom()), Role::PasteLast), custom());
}
