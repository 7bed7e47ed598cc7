//! The flags of a recording session.

use vstd::prelude::*;
use crate::hotkey::Role;

verus! {

/// Whether each role's key is down, and whether a recording is running.
///
/// A key flag changes only on an event of its own role. `is_recording`
/// changes only when a recording is started or stopped.
#[derive(Clone, Copy, Debug, PartialEq, Eq, Structural)]
pub struct AppState {
    pub toggle_key_held: bool,
    pub ptt_key_held: bool,
    pub paste_key_held: bool,
    pub is_recording: bool,
}

impl Default for AppState {
    /// No key is down and nothing is being recorded.
    fn default() -> (state: AppState)
        ensures
            state == AppState::idle(),
    {
        AppState {
            toggle_key_held: false,
            ptt_key_held: false,
            paste_key_held: false,
            is_recording: false,
        }
    }
}

impl AppState {
    /// The state in which no key is down and nothing is being recorded.
    pub open spec fn idle() -> AppState {
        AppState {
            toggle_key_held: false,
            ptt_key_held: false,
            paste_key_held: false,
            is_recording: false,
        }
    }

    /// Whether the key of `role` is down.
    pub open spec fn key_held(self, role: Role) -> bool {
        match role {
            Role::Toggle => self.toggle_key_held,
            Role::Hold => self.ptt_key_held,
            Role::PasteLast => self.paste_key_held,
        }
    }

    /// This state with the key flag of `role` set to `held`.
    pub open spec fn with_key_held(self, role: Role, held: bool) -> AppState {
        match role {
            Role::Toggle => AppState { toggle_key_held: held, ..self },
            Role::Hold => AppState { ptt_key_held: held, ..self },
            Role::PasteLast => AppState { paste_key_held: held, ..self },
        }
    }

    /// This state with the recording flag set to `recording`.
    pub open spec fn with_recording(self, recording: bool) -> AppState {
        AppState { is_recording: recording, ..self }
    }

    /// Sets the key flag of `role` and returns what it was before.
    pub fn swap_key_held(&mut self, role: Role, held: bool) -> (previous: bool)
        ensures
            previous == old(self).key_held(role),
            *final(self) == old(self).with_key_held(role, held),
    {
        match role {
            Role::Toggle => {
                let previous = self.toggle_key_held;
                self.toggle_key_held = held;
                previous
            },
            Role::Hold => {
                let previous = self.ptt_key_held;
                self.ptt_key_held = held;
                previous
            },
            Role::PasteLast => {
                let previous = self.paste_key_held;
                self.paste_key_held = held;
                previous
            },
        }
    }
}

} // verus!
