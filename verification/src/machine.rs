//! The recording state machine.
//!
//! Every shortcut event is a press or a release of a key. The event is
//! attributed to at most one role, by comparing its canonical text with the
//! canonical text configured for each role. Within a role only edges count:
//! a press while the key is already down and a release while it is up change
//! nothing. What an edge does depends on the role.
//!
//! * Toggle: the press arms, the release fires. The release starts a
//!   recording when none is running and stops the running one otherwise.
//! * Hold: the press starts a recording, the release stops it.
//! * Paste-last: the press arms, the release pastes the most recent
//!   transcription.

use vstd::prelude::*;
use crate::effects::{
    start_effects, start_recording, stop_effects, stop_recording, AudioOptions, Effect,
};
use crate::hotkey::{comparison_text, Role};
use crate::normalize::{normalize_shortcut_string, normalized};
use crate::settings::SettingsSnapshot;
use crate::state::AppState;

verus! {

/// Which way a key went.
#[derive(Clone, Copy, Debug, PartialEq, Eq, Structural)]
pub enum ShortcutState {
    Pressed,
    Released,
}

/// What an event sets off.
#[derive(Clone, Copy, Debug, PartialEq, Eq, Structural)]
pub enum Action {
    /// Nothing beyond the key flag.
    Nothing,
    StartRecording,
    StopRecording,
    PasteLast,
}

/// What became of one event.
#[derive(Clone, Debug, PartialEq, Eq)]
pub struct Handled {
    /// The role the event was attributed to; `None` for a shortcut that no
    /// role is configured with.
    pub role: Option<Role>,
    /// What the event set off.
    pub action: Action,
    /// What the host has to do now, in this order.
    pub effects: Vec<Effect>,
}

/// The role whose canonical text is `shortcut`. Where several roles share a
/// text, toggle goes before hold and hold before paste-last.
pub open spec fn matching_role(
    shortcut: Seq<char>,
    toggle: Seq<char>,
    hold: Seq<char>,
    paste_last: Seq<char>,
) -> Option<Role> {
    if shortcut == toggle {
        Some(Role::Toggle)
    } else if shortcut == hold {
        Some(Role::Hold)
    } else if shortcut == paste_last {
        Some(Role::PasteLast)
    } else {
        None
    }
}

/// What an event of `role` sets off in state `state`.
pub open spec fn action_of(state: AppState, role: Role, event: ShortcutState) -> Action {
    match (role, event) {
        (Role::Toggle, ShortcutState::Pressed) => Action::Nothing,
        (Role::Toggle, ShortcutState::Released) => if !state.toggle_key_held {
            Action::Nothing
        } else if state.is_recording {
            Action::StopRecording
        } else {
            Action::StartRecording
        },
        (Role::Hold, ShortcutState::Pressed) => if state.ptt_key_held {
            Action::Nothing
        } else {
            Action::StartRecording
        },
        (Role::Hold, ShortcutState::Released) => if state.ptt_key_held {
            Action::StopRecording
        } else {
            Action::Nothing
        },
        (Role::PasteLast, ShortcutState::Pressed) => Action::Nothing,
        (Role::PasteLast, ShortcutState::Released) => if state.paste_key_held {
            Action::PasteLast
        } else {
            Action::Nothing
        },
    }
}

/// The state after an event of `role`: the role's key flag follows the
/// event, and the recording flag follows the action.
pub open spec fn state_after(state: AppState, role: Role, event: ShortcutState) -> AppState {
    let keyed = state.with_key_held(role, event is Pressed);
    match action_of(state, role, event) {
        Action::StartRecording => keyed.with_recording(true),
        Action::StopRecording => keyed.with_recording(false),
        _ => keyed,
    }
}

/// The effects that carry out an action.
pub open spec fn effects_of(action: Action, audio: AudioOptions) -> Seq<Effect> {
    match action {
        Action::Nothing => Seq::<Effect>::empty(),
        Action::StartRecording => start_effects(audio),
        Action::StopRecording => stop_effects(audio),
        Action::PasteLast => seq![Effect::PasteLast],
    }
}

/// What an event sets off, where the event may belong to no role.
pub open spec fn action_for(state: AppState, role: Option<Role>, event: ShortcutState) -> Action {
    match role {
        Some(role) => action_of(state, role, event),
        None => Action::Nothing,
    }
}

/// The state after an event, where the event may belong to no role.
pub open spec fn state_for(state: AppState, role: Option<Role>, event: ShortcutState) -> AppState {
    match role {
        Some(role) => state_after(state, role, event),
        None => state,
    }
}

/// Attributes a canonical shortcut text to a role.
pub fn match_role(shortcut: &String, toggle: &String, hold: &String, paste_last: &String) -> (role:
    Option<Role>)
    ensures
        role == matching_role(shortcut@, toggle@, hold@, paste_last@),
{
    if *shortcut == *toggle {
        Some(Role::Toggle)
    } else if *shortcut == *hold {
        Some(Role::Hold)
    } else if *shortcut == *paste_last {
        Some(Role::PasteLast)
    } else {
        None
    }
}

/// Applies an event that has been attributed: moves the flags and plans
/// the effects. An event without a role changes nothing and plans nothing.
pub fn dispatch(
    state: &mut AppState,
    role: Option<Role>,
    event: ShortcutState,
    audio: AudioOptions,
) -> (handled: Handled)
    ensures
        handled.role == role,
        handled.action == action_for(*old(state), role, event),
        handled.effects@ == effects_of(handled.action, audio),
        *final(state) == state_for(*old(state), role, event),
{
    let mut action = Action::Nothing;
    let mut effects: Vec<Effect> = Vec::new();
    match role {
        Some(Role::Toggle) => match event {
            ShortcutState::Pressed => {
                state.swap_key_held(Role::Toggle, true);
            },
            ShortcutState::Released => {
                if state.swap_key_held(Role::Toggle, false) {
                    if state.is_recording {
                        action = Action::StopRecording;
                        effects = stop_recording(state, audio);
                    } else {
                        action = Action::StartRecording;
                        effects = start_recording(state, audio);
                    }
                }
            },
        },
        Some(Role::Hold) => match event {
            ShortcutState::Pressed => {
                if !state.swap_key_held(Role::Hold, true) {
                    action = Action::StartRecording;
                    effects = start_recording(state, audio);
                }
            },
            ShortcutState::Released => {
                if state.swap_key_held(Role::Hold, false) {
                    action = Action::StopRecording;
                    effects = stop_recording(state, audio);
                }
            },
        },
        Some(Role::PasteLast) => match event {
            ShortcutState::Pressed => {
                state.swap_key_held(Role::PasteLast, true);
            },
            ShortcutState::Released => {
                if state.swap_key_held(Role::PasteLast, false) {
                    action = Action::PasteLast;
                    effects.push(Effect::PasteLast);
                }
            },
        },
        None => {},
    }
    proof {
        assert(effects@ =~= effects_of(action, audio));
    }
    Handled { role, action, effects }
}

/// Handles one shortcut event under the settings in force at this moment.
///
/// The shortcut's text is brought to its canonical form and compared with
/// the canonical text of each role's configured shortcut, the role's
/// default standing in for a shortcut that does not parse. The event is
/// then applied as [`dispatch`] says. A shortcut that matches no role
/// leaves the state as it is.
pub fn handle_shortcut_event(
    state: &mut AppState,
    settings: &SettingsSnapshot,
    mute_available: bool,
    shortcut: &str,
    event: ShortcutState,
) -> (handled: Handled)
    ensures
        handled.role == matching_role(
            normalized(shortcut@),
            comparison_text(settings.toggle_hotkey@, Role::Toggle),
            comparison_text(settings.hold_hotkey@, Role::Hold),
            comparison_text(settings.paste_last_hotkey@, Role::PasteLast),
        ),
        handled.action == action_for(*old(state), handled.role, event),
        handled.effects@ == effects_of(handled.action, settings.audio(mute_available)),
        *final(state) == state_for(*old(state), handled.role, event),
{
    let audio = AudioOptions {
        sound_enabled: settings.sound_enabled,
        auto_mute_audio: settings.auto_mute_audio,
        mute_available,
    };
    let shortcut_str = normalize_shortcut_string(shortcut);
    let toggle_shortcut_str = settings.toggle_hotkey.comparison_key(Role::Toggle);
    let hold_shortcut_str = settings.hold_hotkey.comparison_key(Role::Hold);
    let paste_last_shortcut_str = settings.paste_last_hotkey.comparison_key(Role::PasteLast);
    let role = match_role(
        &shortcut_str,
        &toggle_shortcut_str,
        &hold_shortcut_str,
        &paste_last_shortcut_str,
    );
    dispatch(state, role, event, audio)
}

} // verus!
