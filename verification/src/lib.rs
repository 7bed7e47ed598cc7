//! Hotkey-driven control of a voice-dictation recorder.
//!
//! The crate holds the decisions of the recorder: how a shortcut string is
//! brought to its canonical form, which of the three shortcut roles an event
//! belongs to, how press and release edges move the session flags, and in
//! which order the audible and system-level effects of a start or stop are
//! issued. Everything that touches the operating system is left to the host,
//! which feeds plain values in and carries the returned effects out.

pub use crate::effects::{
    start_recording, stop_recording, AudioOptions, Effect, Signal, SoundType,
};
pub use crate::hotkey::{resolve_hotkey, HotkeyConfig, ResolvedHotkey, Role};
pub use crate::machine::{
    dispatch, handle_shortcut_event, match_role, Action, Handled, ShortcutState,
};
pub use crate::normalize::{fold_synonyms, normalize_shortcut_string};
pub use crate::paste::{paste_last_transcription, HistoryEntry, PasteDecision};
pub use crate::settings::{load_initial_settings, InitialShortcutSettings, SettingsSnapshot};
pub use crate::state::AppState;

pub mod effects;
pub mod hotkey;
pub mod laws;
pub mod machine;
pub mod normalize;
pub mod paste;
pub mod settings;
pub mod state;
pub mod text;
