//! What holds of the state machine over whole runs of events.
//!
//! A gesture is one or more presses of a role's key, as key-repeat sends
//! them, followed by the release. The laws below say that a gesture acts
//! once however often the press is repeated, that a release without a press
//! and a shortcut of no role act not at all, and that a running recording
//! ends on a release only.

use vstd::prelude::*;
use crate::hotkey::Role;
use crate::machine::{
    action_for, action_of, effects_of, matching_role, state_after, state_for, Action,
    ShortcutState,
};
use crate::effects::{
    lemma_notifications_push, lemma_one_notification, notifications, AudioOptions, Effect, Signal,
};
use crate::state::AppState;

verus! {

/// An event as the state machine sees it: the role it was attributed to,
/// if any, and which way the key went.
pub struct KeyEvent {
    pub role: Option<Role>,
    pub state: ShortcutState,
}

/// A press of the key of `role`.
pub open spec fn press(role: Role) -> KeyEvent {
    KeyEvent { role: Some(role), state: ShortcutState::Pressed }
}

/// A release of the key of `role`.
pub open spec fn release(role: Role) -> KeyEvent {
    KeyEvent { role: Some(role), state: ShortcutState::Released }
}

/// The state after a run of events.
pub open spec fn run_state(state: AppState, events: Seq<KeyEvent>) -> AppState
    decreases events.len(),
{
    if events.len() == 0 {
        state
    } else {
        run_state(state_for(state, events[0].role, events[0].state), events.skip(1))
    }
}

/// What a run of events sets off, in order; events that set off nothing
/// leave no trace.
pub open spec fn activations(state: AppState, events: Seq<KeyEvent>) -> Seq<Action>
    decreases events.len(),
{
    if events.len() == 0 {
        Seq::<Action>::empty()
    } else {
        let first = action_for(state, events[0].role, events[0].state);
        let rest = activations(
            state_for(state, events[0].role, events[0].state),
            events.skip(1),
        );
        if first is Nothing {
            rest
        } else {
            seq![first] + rest
        }
    }
}

/// `presses` presses of the key of `role`, then its release.
pub open spec fn gesture(role: Role, presses: nat) -> Seq<KeyEvent> {
    Seq::new(presses, |i: int| press(role)).push(release(role))
}

/// What a gesture of `role` sets off when it begins in `state`.
pub open spec fn gesture_actions(state: AppState, role: Role) -> Seq<Action> {
    match role {
        Role::Toggle => if state.is_recording {
            seq![Action::StopRecording]
        } else {
            seq![Action::StartRecording]
        },
        Role::Hold => seq![Action::StartRecording, Action::StopRecording],
        Role::PasteLast => seq![Action::PasteLast],
    }
}

/// The state in which a gesture of `role` ends when it begins in `state`.
pub open spec fn gesture_result(state: AppState, role: Role) -> AppState {
    match role {
        Role::Toggle => state.with_recording(!state.is_recording),
        Role::Hold => state.with_recording(false),
        Role::PasteLast => state,
    }
}

/// Whether an event can end a recording: a release of the toggle key or of
/// the hold key.
pub open spec fn may_stop(event: KeyEvent) -> bool {
    event.state is Released && (event.role == Some(Role::Toggle) || event.role == Some(Role::Hold))
}

/// A release of a key that is not down sets off nothing and changes
/// nothing.
pub proof fn lemma_spurious_release(state: AppState, role: Role)
    requires
        !state.key_held(role),
    ensures
        action_of(state, role, ShortcutState::Released) == Action::Nothing,
        state_after(state, role, ShortcutState::Released) == state,
        forall|audio: AudioOptions|
            #[trigger] effects_of(action_of(state, role, ShortcutState::Released), audio)
                == Seq::<Effect>::empty(),
{
}

/// An event of one role leaves the key flags of the other roles as they
/// are.
pub proof fn lemma_other_keys_untouched(
    state: AppState,
    role: Role,
    event: ShortcutState,
    other: Role,
)
    requires
        other != role,
    ensures
        state_after(state, role, event).key_held(other) == state.key_held(other),
        state_after(state, role, event).key_held(role) == (event is Pressed),
{
}

/// A press of a key that is already down sets off nothing and changes
/// nothing.
pub proof fn lemma_repeated_press(state: AppState, role: Role)
    requires
        state.key_held(role),
    ensures
        action_of(state, role, ShortcutState::Pressed) == Action::Nothing,
        state_after(state, role, ShortcutState::Pressed) == state,
{
}

/// A shortcut whose canonical text is that of no role is attributed to no
/// role, and such an event sets off nothing and changes no flag.
pub proof fn lemma_unknown_shortcut(
    state: AppState,
    shortcut: Seq<char>,
    toggle: Seq<char>,
    hold: Seq<char>,
    paste_last: Seq<char>,
    event: ShortcutState,
)
    requires
        shortcut != toggle,
        shortcut != hold,
        shortcut != paste_last,
    ensures
        matching_role(shortcut, toggle, hold, paste_last) is None,
        state_for(state, matching_role(shortcut, toggle, hold, paste_last), event) == state,
        action_for(state, matching_role(shortcut, toggle, hold, paste_last), event)
            == Action::Nothing,
{
}

/// Once the key is down, the rest of a gesture does what the release alone
/// does, however many repeated presses come before it.
proof fn lemma_held_gesture(state: AppState, role: Role, presses: nat)
    requires
        state.key_held(role),
    ensures
        activations(state, gesture(role, presses)) == activations(state, gesture(role, 0)),
        run_state(state, gesture(role, presses)) == run_state(state, gesture(role, 0)),
    decreases presses,
{
    if presses > 0 {
        let events = gesture(role, presses);
        assert(events[0] == press(role));
        assert(events.skip(1) =~= gesture(role, (presses - 1) as nat));
        lemma_held_gesture(state, role, (presses - 1) as nat);
    }
}

/// A gesture acts once. Begun while the role's key is up, it sets off the
/// same actions and ends in the same state whether the press came once or
/// was repeated: one start or one stop for the toggle role, one start and
/// one stop for the hold role, one paste for the paste-last role.
pub proof fn lemma_gesture_acts_once(state: AppState, role: Role, presses: nat)
    requires
        !state.key_held(role),
        presses >= 1,
    ensures
        activations(state, gesture(role, presses)) == gesture_actions(state, role),
        run_state(state, gesture(role, presses)) == gesture_result(state, role),
{
    let events = gesture(role, presses);
    let pressed = state_after(state, role, ShortcutState::Pressed);
    assert(events[0] == press(role));
    assert(events.skip(1) =~= gesture(role, (presses - 1) as nat));
    lemma_held_gesture(pressed, role, (presses - 1) as nat);
    let last = gesture(role, 0);
    assert(last[0] == release(role));
    assert(last.skip(1) =~= Seq::<KeyEvent>::empty());
    let released = state_after(pressed, role, ShortcutState::Released);
    assert(run_state(released, last.skip(1)) == released);
    assert(activations(released, last.skip(1)) == Seq::<Action>::empty());
    assert(run_state(pressed, last) == released);
    assert(released == gesture_result(state, role));
    assert(activations(state, events) =~= gesture_actions(state, role));
}

/// What an action sends out: a start sends the start notification once, a
/// stop the stop notification once, and nothing else sends any.
pub proof fn lemma_action_notifies_once(action: Action, audio: AudioOptions)
    ensures
        notifications(effects_of(action, audio)) == match action {
            Action::StartRecording => seq![Signal::RecordingStart],
            Action::StopRecording => seq![Signal::RecordingStop],
            _ => Seq::<Signal>::empty(),
        },
{
    lemma_one_notification(audio);
    if action is PasteLast {
        lemma_notifications_push(Seq::<Effect>::empty(), Effect::PasteLast);
        assert(effects_of(action, audio) == Seq::<Effect>::empty().push(Effect::PasteLast));
    }
}

/// Two toggle gestures in a row, begun while nothing is recorded, start
/// one recording and stop it again.
pub proof fn lemma_toggle_twice(state: AppState, first: nat, second: nat)
    requires
        !state.toggle_key_held,
        !state.is_recording,
        first >= 1,
        second >= 1,
    ensures
        activations(state, gesture(Role::Toggle, first)) == seq![Action::StartRecording],
        run_state(state, gesture(Role::Toggle, first)).is_recording,
        activations(
            run_state(state, gesture(Role::Toggle, first)),
            gesture(Role::Toggle, second),
        ) == seq![Action::StopRecording],
        run_state(run_state(state, gesture(Role::Toggle, first)), gesture(Role::Toggle, second))
            == state,
{
    lemma_gesture_acts_once(state, Role::Toggle, first);
    lemma_gesture_acts_once(gesture_result(state, Role::Toggle), Role::Toggle, second);
}

/// A first press of the hold key starts a recording at once.
pub proof fn lemma_hold_press_records(state: AppState)
    requires
        !state.ptt_key_held,
    ensures
        action_of(state, Role::Hold, ShortcutState::Pressed) == Action::StartRecording,
        state_after(state, Role::Hold, ShortcutState::Pressed).is_recording,
        state_after(state, Role::Hold, ShortcutState::Pressed).ptt_key_held,
{
}

/// A running recording ends on one kind of event only: the release of the
/// hold key or of the toggle key, while that key is down.
pub proof fn lemma_stops_only_on_release(state: AppState, event: KeyEvent)
    requires
        state.is_recording,
    ensures
        !state_for(state, event.role, event.state).is_recording <==> (event.state is Released && ((
        event.role == Some(Role::Hold) && state.ptt_key_held) || (event.role == Some(Role::Toggle)
            && state.toggle_key_held))),
{
}

/// A recording keeps running through every run of events that holds no
/// release of the hold key and none of the toggle key.
pub proof fn lemma_recording_lasts(state: AppState, events: Seq<KeyEvent>)
    requires
        state.is_recording,
        forall|i: int| 0 <= i < events.len() ==> !may_stop(#[trigger] events[i]),
    ensures
        run_state(state, events).is_recording,
    decreases events.len(),
{
    if events.len() > 0 {
        assert(!may_stop(events[0]));
        lemma_stops_only_on_release(state, events[0]);
        let next = state_for(state, events[0].role, events[0].state);
        assert forall|i: int| 0 <= i < events.skip(1).len() implies !may_stop(
            #[trigger] events.skip(1)[i],
        ) by {
            assert(events.skip(1)[i] == events[i + 1]);
        }
        lemma_recording_lasts(next, events.skip(1));
    }
}

} // verus!
