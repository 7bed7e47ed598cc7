//! The settings that an event is handled under.
//!
//! Settings are kept by the host in a key/value store. Any key may be
//! missing or hold something unreadable; each then takes its default. The
//! snapshot is made anew for every event, so a change of the settings shows
//! with the next event.

use vstd::prelude::*;
use crate::effects::AudioOptions;
use crate::hotkey::{default_hotkey, HotkeyConfig, HotkeyView, Role};

verus! {

/// What the settings store holds, key by key; `None` for a key that is
/// missing or unreadable.
#[derive(Clone, Debug, PartialEq, Eq)]
pub struct StoredSettings {
    pub sound_enabled: Option<bool>,
    pub auto_mute_audio: Option<bool>,
    pub toggle_hotkey: Option<HotkeyConfig>,
    pub hold_hotkey: Option<HotkeyConfig>,
    pub paste_last_hotkey: Option<HotkeyConfig>,
}

/// The settings in force while one event is handled.
#[derive(Clone, Debug, PartialEq, Eq)]
pub struct SettingsSnapshot {
    pub sound_enabled: bool,
    pub auto_mute_audio: bool,
    pub toggle_hotkey: HotkeyConfig,
    pub hold_hotkey: HotkeyConfig,
    pub paste_last_hotkey: HotkeyConfig,
}

/// The three shortcuts as the settings file holds them; `None` for a key
/// that is missing or unreadable.
#[derive(Clone, Debug, PartialEq, Eq)]
pub struct StoredHotkeys {
    pub toggle_hotkey: Option<HotkeyConfig>,
    pub hold_hotkey: Option<HotkeyConfig>,
    pub paste_last_hotkey: Option<HotkeyConfig>,
}

/// The shortcuts to register when the program starts.
#[derive(Clone, Debug, PartialEq, Eq)]
pub struct InitialShortcutSettings {
    pub toggle_hotkey: HotkeyConfig,
    pub hold_hotkey: HotkeyConfig,
    pub paste_last_hotkey: HotkeyConfig,
}

/// The stored shortcut, or the default of `role` where none is stored.
pub open spec fn stored_or_default(stored: Option<HotkeyConfig>, role: Role) -> HotkeyView {
    match stored {
        Some(config) => config@,
        None => default_hotkey(role),
    }
}

/// The stored shortcut, or the default of `role` where none is stored.
pub fn hotkey_or_default(stored: Option<HotkeyConfig>, role: Role) -> (config: HotkeyConfig)
    ensures
        config@ == stored_or_default(stored, role),
{
    match stored {
        Some(config) => config,
        None => HotkeyConfig::default_for(role),
    }
}

impl SettingsSnapshot {
    /// The audio options of this snapshot on a platform where muting is
    /// available or not.
    pub open spec fn audio(&self, mute_available: bool) -> AudioOptions {
        AudioOptions {
            sound_enabled: self.sound_enabled,
            auto_mute_audio: self.auto_mute_audio,
            mute_available,
        }
    }

    /// The settings in force, given what the store holds. Cues default to
    /// on, muting to off, and each shortcut to the default of its role.
    pub fn from_stored(stored: StoredSettings) -> (snapshot: SettingsSnapshot)
        ensures
            snapshot.sound_enabled == match stored.sound_enabled {
                Some(enabled) => enabled,
                None => true,
            },
            snapshot.auto_mute_audio == match stored.auto_mute_audio {
                Some(enabled) => enabled,
                None => false,
            },
            snapshot.toggle_hotkey@ == stored_or_default(stored.toggle_hotkey, Role::Toggle),
            snapshot.hold_hotkey@ == stored_or_default(stored.hold_hotkey, Role::Hold),
            snapshot.paste_last_hotkey@ == stored_or_default(
                stored.paste_last_hotkey,
                Role::PasteLast,
            ),
    {
        SettingsSnapshot {
            sound_enabled: match stored.sound_enabled {
                Some(enabled) => enabled,
                None => true,
            },
            auto_mute_audio: match stored.auto_mute_audio {
                Some(enabled) => enabled,
                None => false,
            },
            toggle_hotkey: hotkey_or_default(stored.toggle_hotkey, Role::Toggle),
            hold_hotkey: hotkey_or_default(stored.hold_hotkey, Role::Hold),
            paste_last_hotkey: hotkey_or_default(stored.paste_last_hotkey, Role::PasteLast),
        }
    }
}

/// The shortcuts to register at start, given what was read from the
/// settings file: `None` where there is no file or it cannot be read as
/// settings, in which case every role takes its default.
pub fn load_initial_settings(stored: Option<StoredHotkeys>) -> (settings: InitialShortcutSettings)
    ensures
        settings.toggle_hotkey@ == match stored {
            Some(keys) => stored_or_default(keys.toggle_hotkey, Role::Toggle),
            None => default_hotkey(Role::Toggle),
        },
        settings.hold_hotkey@ == match stored {
            Some(keys) => stored_or_default(keys.hold_hotkey, Role::Hold),
            None => default_hotkey(Role::Hold),
        },
        settings.paste_last_hotkey@ == match stored {
            Some(keys) => stored_or_default(keys.paste_last_hotkey, Role::PasteLast),
            None => default_hotkey(Role::PasteLast),
        },
{
    match stored {
        Some(keys) => InitialShortcutSettings {
            toggle_hotkey: hotkey_or_default(keys.toggle_hotkey, Role::Toggle),
            hold_hotkey: hotkey_or_default(keys.hold_hotkey, Role::Hold),
            paste_last_hotkey: hotkey_or_default(keys.paste_last_hotkey, Role::PasteLast),
        },
        None => InitialShortcutSettings {
            toggle_hotkey: HotkeyConfig::default_toggle(),
            hold_hotkey: HotkeyConfig::default_hold(),
            paste_last_hotkey: HotkeyConfig::default_paste_last(),
        },
    }
}

} // verus!
