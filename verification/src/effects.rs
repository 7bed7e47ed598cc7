//! The effects around the start and the stop of a recording.
//!
//! Starting and stopping are planned here and carried out by the host. A
//! plan is a fixed list: it is complete before the first effect runs, so the
//! failure of one effect, muting above all, cannot hold back the ones that
//! follow it, and the recording flag is set whatever becomes of them.

use vstd::prelude::*;
use crate::state::AppState;

verus! {

/// How long the start cue is given, in milliseconds, before system audio
/// may be muted.
pub const CUE_LEAD_MILLIS: u64 = 150;

/// An audible cue.
#[derive(Clone, Copy, Debug, PartialEq, Eq, Structural)]
pub enum SoundType {
    RecordingStart,
    RecordingStop,
}

/// A notification to whoever listens, without payload.
#[derive(Clone, Copy, Debug, PartialEq, Eq, Structural)]
pub enum Signal {
    RecordingStart,
    RecordingStop,
}

/// One thing for the host to do.
#[derive(Clone, Copy, Debug, PartialEq, Eq, Structural)]
pub enum Effect {
    /// Start playing a cue, without waiting for its end.
    PlaySound(SoundType),
    /// Wait for the given number of milliseconds.
    Pause(u64),
    /// Mute system audio.
    Mute,
    /// Restore system audio.
    Unmute,
    /// Send a notification.
    Emit(Signal),
    /// Type the most recent transcription at the input focus.
    PasteLast,
}

/// What the user wants to hear and have muted, and what the platform can
/// do.
#[derive(Clone, Copy, Debug, PartialEq, Eq, Structural)]
pub struct AudioOptions {
    /// Cues are played.
    pub sound_enabled: bool,
    /// System audio is muted while recording.
    pub auto_mute_audio: bool,
    /// The platform offers muting at all.
    pub mute_available: bool,
}

impl AudioOptions {
    /// Whether system audio is muted for a recording: the user asked for
    /// it and the platform can do it.
    pub open spec fn mutes(self) -> bool {
        self.auto_mute_audio && self.mute_available
    }
}

/// The name under which a signal is emitted.
pub open spec fn signal_name(signal: Signal) -> Seq<char> {
    match signal {
        Signal::RecordingStart => "recording-start"@,
        Signal::RecordingStop => "recording-stop"@,
    }
}

impl Signal {
    /// The name under which the signal is emitted.
    pub fn name(&self) -> (name: &'static str)
        ensures
            name@ == signal_name(*self),
    {
        match self {
            Signal::RecordingStart => "recording-start",
            Signal::RecordingStop => "recording-stop",
        }
    }
}

/// The effects of a start, in order: the start cue and the pause that lets
/// it be heard, where cues are on; then muting, where it applies; then the
/// notification.
pub open spec fn start_effects(audio: AudioOptions) -> Seq<Effect> {
    (if audio.sound_enabled {
        seq![Effect::PlaySound(SoundType::RecordingStart), Effect::Pause(CUE_LEAD_MILLIS)]
    } else {
        Seq::<Effect>::empty()
    }) + (if audio.mutes() {
        seq![Effect::Mute]
    } else {
        Seq::<Effect>::empty()
    }) + seq![Effect::Emit(Signal::RecordingStart)]
}

/// The effects of a stop, in order: unmuting, where muting applies; then
/// the stop cue, where cues are on; then the notification.
pub open spec fn stop_effects(audio: AudioOptions) -> Seq<Effect> {
    (if audio.mutes() {
        seq![Effect::Unmute]
    } else {
        Seq::<Effect>::empty()
    }) + (if audio.sound_enabled {
        seq![Effect::PlaySound(SoundType::RecordingStop)]
    } else {
        Seq::<Effect>::empty()
    }) + seq![Effect::Emit(Signal::RecordingStop)]
}

/// `first` and `second` both occur in `effects`, and every `first` stands
/// before every `second`.
pub open spec fn precedes(effects: Seq<Effect>, first: Effect, second: Effect) -> bool {
    &&& effects.contains(first)
    &&& effects.contains(second)
    &&& forall|i: int, j: int|
        0 <= i < effects.len() && 0 <= j < effects.len() && effects[i] == first && effects[j]
            == second ==> i < j
}

/// Marks the recording as running and plans the effects of the start.
pub fn start_recording(state: &mut AppState, audio: AudioOptions) -> (effects: Vec<Effect>)
    ensures
        *final(state) == old(state).with_recording(true),
        effects@ == start_effects(audio),
{
    state.is_recording = true;
    let mut effects: Vec<Effect> = Vec::new();
    if audio.sound_enabled {
        effects.push(Effect::PlaySound(SoundType::RecordingStart));
        effects.push(Effect::Pause(CUE_LEAD_MILLIS));
    }
    if audio.auto_mute_audio && audio.mute_available {
        effects.push(Effect::Mute);
    }
    effects.push(Effect::Emit(Signal::RecordingStart));
    proof {
        assert(effects@ =~= start_effects(audio));
    }
    effects
}

/// Marks the recording as over and plans the effects of the stop.
pub fn stop_recording(state: &mut AppState, audio: AudioOptions) -> (effects: Vec<Effect>)
    ensures
        *final(state) == old(state).with_recording(false),
        effects@ == stop_effects(audio),
{
    state.is_recording = false;
    let mut effects: Vec<Effect> = Vec::new();
    if audio.auto_mute_audio && audio.mute_available {
        effects.push(Effect::Unmute);
    }
    if audio.sound_enabled {
        effects.push(Effect::PlaySound(SoundType::RecordingStop));
    }
    effects.push(Effect::Emit(Signal::RecordingStop));
    proof {
        assert(effects@ =~= stop_effects(audio));
    }
    effects
}

/// On a start with cues and muting both in force, the cue is started
/// before the pause, and the pause is over before audio is muted.
pub proof fn lemma_start_cue_before_mute(audio: AudioOptions)
    requires
        audio.sound_enabled,
        audio.mutes(),
    ensures
        precedes(
            start_effects(audio),
            Effect::PlaySound(SoundType::RecordingStart),
            Effect::Pause(CUE_LEAD_MILLIS),
        ),
        precedes(start_effects(audio), Effect::Pause(CUE_LEAD_MILLIS), Effect::Mute),
        precedes(start_effects(audio), Effect::PlaySound(SoundType::RecordingStart), Effect::Mute),
{
    let effects = start_effects(audio);
    assert(effects =~= seq![
        Effect::PlaySound(SoundType::RecordingStart),
        Effect::Pause(CUE_LEAD_MILLIS),
        Effect::Mute,
        Effect::Emit(Signal::RecordingStart),
    ]);
    assert(effects[0] == Effect::PlaySound(SoundType::RecordingStart));
    assert(effects[1] == Effect::Pause(CUE_LEAD_MILLIS));
    assert(effects[2] == Effect::Mute);
}

/// On a stop with cues and muting both in force, audio is restored before
/// the cue is started.
pub proof fn lemma_stop_unmute_before_cue(audio: AudioOptions)
    requires
        audio.sound_enabled,
        audio.mutes(),
    ensures
        precedes(stop_effects(audio), Effect::Unmute, Effect::PlaySound(SoundType::RecordingStop)),
{
    let effects = stop_effects(audio);
    assert(effects =~= seq![
        Effect::Unmute,
        Effect::PlaySound(SoundType::RecordingStop),
        Effect::Emit(Signal::RecordingStop),
    ]);
    assert(effects[0] == Effect::Unmute);
    assert(effects[1] == Effect::PlaySound(SoundType::RecordingStop));
}

/// The notifications that a list of effects sends, in order.
pub open spec fn notifications(effects: Seq<Effect>) -> Seq<Signal>
    decreases effects.len(),
{
    if effects.len() == 0 {
        Seq::<Signal>::empty()
    } else {
        let before = notifications(effects.drop_last());
        match effects.last() {
            Effect::Emit(signal) => before.push(signal),
            _ => before,
        }
    }
}

/// One more effect adds its notification, if it is one, behind those of the
/// effects before it.
pub proof fn lemma_notifications_push(effects: Seq<Effect>, effect: Effect)
    ensures
        notifications(effects.push(effect)) == match effect {
            Effect::Emit(signal) => notifications(effects).push(signal),
            _ => notifications(effects),
        },
{
    assert(effects.push(effect).drop_last() == effects);
}

/// A start sends one notification, that of the start, and sends it last;
/// a stop does the same with that of the stop.
pub proof fn lemma_one_notification(audio: AudioOptions)
    ensures
        notifications(start_effects(audio)) == seq![Signal::RecordingStart],
        start_effects(audio).last() == Effect::Emit(Signal::RecordingStart),
        notifications(stop_effects(audio)) == seq![Signal::RecordingStop],
        stop_effects(audio).last() == Effect::Emit(Signal::RecordingStop),
{
    let none = Seq::<Effect>::empty();
    let cue = Effect::PlaySound(SoundType::RecordingStart);
    let pause = Effect::Pause(CUE_LEAD_MILLIS);
    let start_cued = if audio.sound_enabled {
        none.push(cue).push(pause)
    } else {
        none
    };
    let start_muted = if audio.mutes() {
        start_cued.push(Effect::Mute)
    } else {
        start_cued
    };
    if audio.sound_enabled {
        lemma_notifications_push(none, cue);
        lemma_notifications_push(none.push(cue), pause);
    }
    lemma_notifications_push(start_cued, Effect::Mute);
    lemma_notifications_push(start_muted, Effect::Emit(Signal::RecordingStart));
    assert(start_effects(audio) =~= start_muted.push(Effect::Emit(Signal::RecordingStart)));
    assert(notifications(start_effects(audio)) =~= seq![Signal::RecordingStart]);

    let stop_cue = Effect::PlaySound(SoundType::RecordingStop);
    let stop_unmuted = if audio.mutes() {
        none.push(Effect::Unmute)
    } else {
        none
    };
    let stop_cued = if audio.sound_enabled {
        stop_unmuted.push(stop_cue)
    } else {
        stop_unmuted
    };
    lemma_notifications_push(none, Effect::Unmute);
    lemma_notifications_push(stop_unmuted, stop_cue);
    lemma_notifications_push(stop_cued, Effect::Emit(Signal::RecordingStop));
    assert(stop_effects(audio) =~= stop_cued.push(Effect::Emit(Signal::RecordingStop)));
    assert(notifications(stop_effects(audio)) =~= seq![Signal::RecordingStop]);
}

/// Muting is planned exactly when the user asked for it and the platform
/// offers it; a cue exactly when cues are on.
pub proof fn lemma_optional_effects(audio: AudioOptions)
    ensures
        start_effects(audio).contains(Effect::Mute) == audio.mutes(),
        stop_effects(audio).contains(Effect::Unmute) == audio.mutes(),
        start_effects(audio).contains(Effect::PlaySound(SoundType::RecordingStart))
            == audio.sound_enabled,
        stop_effects(audio).contains(Effect::PlaySound(SoundType::RecordingStop))
            == audio.sound_enabled,
{
    let start = start_effects(audio);
    let stop = stop_effects(audio);
    if audio.sound_enabled {
        assert(start[0] == Effect::PlaySound(SoundType::RecordingStart));
        if audio.mutes() {
            assert(start[2] == Effect::Mute);
            assert(stop[0] == Effect::Unmute);
            assert(stop[1] == Effect::PlaySound(SoundType::RecordingStop));
        } else {
            assert(stop[0] == Effect::PlaySound(SoundType::RecordingStop));
        }
    } else {
        if audio.mutes() {
            assert(start[0] == Effect::Mute);
            assert(stop[0] == Effect::Unmute);
        }
    }
}

} // verus!
