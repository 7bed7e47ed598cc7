use dictation_hotkeys::hotkey::{resolve_hotkey, Fallback, HotkeyConfig, ResolvedHotkey, Role};
use global_hotkey::hotkey::{Code, Modifiers};

fn config(modifiers: &[&str], key: &str) -> HotkeyConfig {
    HotkeyConfig {
        modifiers: modifiers.iter().map(|m| m.to_string()).collect(),
        key: key.to_string(),
    }
}

#[test]
fn defaults_are_ctrl_alt_combinations() {
    assert_eq!(HotkeyConfig::default_toggle(), config(&["ctrl", "alt"], "Space"));
    assert_eq!(HotkeyConfig::default_hold(), config(&["ctrl", "alt"], "Backquote"));
    assert_eq!(HotkeyConfig::default_paste_last(), config(&["ctrl", "alt"], "Period"));
}

#[test]
fn default_for_follows_the_role() {
    assert_eq!(HotkeyConfig::default_for(Role::Toggle), HotkeyConfig::default_toggle());
    assert_eq!(HotkeyConfig::default_for(Role::Hold), HotkeyConfig::default_hold());
    assert_eq!(HotkeyConfig::default_for(Role::PasteLast), HotkeyConfig::default_paste_last());
}

#[test]
fn shortcut_string_joins_with_plus() {
    assert_eq!(HotkeyConfig::default_toggle().to_shortcut_string(), "ctrl+alt+Space");
    assert_eq!(config(&[], "F5").to_shortcut_string(), "F5");
    assert_eq!(config(&["shift"], "KeyA").to_shortcut_string(), "shift+KeyA");
    assert_eq!(config(&["a", "", "b"], "").to_shortcut_string(), "a++b+");
}

#[test]
fn every_default_compiles() {
    for role in [Role::Toggle, Role::Hold, Role::PasteLast] {
        assert!(HotkeyConfig::default_for(role).to_shortcut().is_ok());
    }
}

#[test]
fn defaults_compile_to_the_expected_keys() {
    let toggle = HotkeyConfig::default_toggle().to_shortcut().unwrap();
    assert_eq!(toggle.mods, Modifiers::CONTROL | Modifiers::ALT);
    assert_eq!(toggle.key, Code::Space);
    let hold = HotkeyConfig::default_hold().to_shortcut().unwrap();
    assert_eq!(hold.key, Code::Backquote);
    let paste = HotkeyConfig::default_paste_last().to_shortcut().unwrap();
    assert_eq!(paste.key, Code::Period);
}

#[test]
fn unknown_key_does_not_compile() {
    let broken = config(&["ctrl"], "NoSuchKey");
    let error = broken.to_shortcut().unwrap_err();
    assert_eq!(error.shortcut, "ctrl+NoSuchKey");
}

#[test]
fn modifiers_alone_do_not_compile() {
    assert!(config(&["shift"], "ctrl").to_shortcut().is_err());
    assert!(config(&[], "").to_shortcut().is_err());
    assert!(config(&["ctrl", ""], "KeyA").to_shortcut().is_err());
}

#[test]
fn fallback_takes_the_role_default() {
    let broken = config(&["ctrl"], "NoSuchKey");
    let compiled = broken.to_shortcut_or_default(Role::Hold).unwrap();
    assert_eq!(compiled, HotkeyConfig::default_hold().to_shortcut().unwrap());
}

#[test]
fn fallback_is_not_taken_for_a_valid_shortcut() {
    let own = config(&["shift", "alt"], "KeyQ");
    let compiled = own.to_shortcut_or_default(Role::Toggle).unwrap();
    assert_eq!(compiled.mods, Modifiers::SHIFT | Modifiers::ALT);
    assert_eq!(compiled.key, Code::KeyQ);
}

#[test]
fn comparison_key_is_the_canonical_text() {
    assert_eq!(HotkeyConfig::default_toggle().comparison_key(Role::Toggle), "control+alt+space");
    assert_eq!(config(&["Cmd", "Shift"], "KeyK").comparison_key(Role::Hold), "super+shift+keyk");
}

#[test]
fn comparison_key_of_a_broken_shortcut_is_that_of_the_default() {
    let broken = config(&["ctrl"], "NoSuchKey");
    assert_eq!(broken.comparison_key(Role::Toggle), "control+alt+space");
    assert_eq!(broken.comparison_key(Role::Hold), "control+alt+backquote");
    assert_eq!(broken.comparison_key(Role::PasteLast), "control+alt+period");
}

#[test]
fn compiled_shortcut_prints_to_its_comparison_key() {
    for role in [Role::Toggle, Role::Hold, Role::PasteLast] {
        let default = HotkeyConfig::default_for(role);
        let printed = default.to_shortcut().unwrap().to_string();
        assert_eq!(
            dictation_hotkeys::normalize::normalize_shortcut_string(&printed),
            default.comparison_key(role)
        );
    }
}

#[test]
fn resolving_keeps_a_stored_shortcut_that_compiles() {
    let stored = config(&["Cmd", "shift"], "KeyK");
    assert_eq!(
        resolve_hotkey(Some(stored.clone()), Role::Toggle),
        ResolvedHotkey {
            config: stored,
            comparison_key: "super+shift+keyk".to_string(),
            fallback: None,
        }
    );
}

#[test]
fn resolving_nothing_gives_the_default() {
    assert_eq!(
        resolve_hotkey(None, Role::Hold),
        ResolvedHotkey {
            config: HotkeyConfig::default_hold(),
            comparison_key: "control+alt+backquote".to_string(),
            fallback: Some(Fallback::Missing),
        }
    );
}

#[test]
fn resolving_a_broken_shortcut_gives_the_default() {
    assert_eq!(
        resolve_hotkey(Some(config(&["ctrl", "KeyA"], "KeyB")), Role::PasteLast),
        ResolvedHotkey {
            config: HotkeyConfig::default_paste_last(),
            comparison_key: "control+alt+period".to_string(),
            fallback: Some(Fallback::Invalid),
        }
    );
}

#[test]
fn resolved_shortcuts_compile() {
    let candidates = [None, Some(config(&[], "")), Some(config(&["alt"], "F1"))];
    for stored in candidates {
        for role in [Role::Toggle, Role::Hold, Role::PasteLast] {
            let resolved = resolve_hotkey(stored.clone(), role);
            assert!(resolved.config.to_shortcut().is_ok());
            assert_eq!(resolved.comparison_key, resolved.config.comparison_key(role));
        }
    }
}
