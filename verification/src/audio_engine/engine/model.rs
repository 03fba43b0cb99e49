//! The state machine of one entity, as a function.
//!
//! One tick takes the entity from one [`EntityView`] to the next. Everything
//! that the tick cannot know by itself (the time that passed, the values that
//! were drawn, what the backend reports) comes in as a [`TickInput`]; what the
//! backend is to be told goes out as a sequence of [`BackendOp`].

use vstd::prelude::*;

use crate::level::Level;
use crate::theme::SoundView;

verus! {

/// Where an entity stands in its lifecycle.
#[derive(PartialEq, Eq, Structural, Clone, Copy, Debug)]
pub enum AudioEntityState {
    /// The state of every new entity.
    Virgin,
    /// A preview was asked for.
    Preview,
    /// About to begin a loop iteration.
    PrepareRun,
    /// Counting down the delay before the next play.
    WaitingForStart,
    /// Waiting for an external trigger.
    WaitingForTrigger,
    /// About to hand the sample to the backend.
    Starting,
    /// The backend plays the sample.
    Playing,
    /// One play has ended; another may follow within this loop iteration.
    Repeat,
    /// One loop iteration has ended; another may follow.
    Loop,
    /// All repeats and loops are done.
    Finished,
    /// About to return to the initial state.
    Reset,
    /// Nothing will happen any more.
    Dead,
}

/// The name of `state`: that of its variant.
pub open spec fn state_name(state: AudioEntityState) -> Seq<char> {
    match state {
        AudioEntityState::Virgin => "Virgin"@,
        AudioEntityState::Preview => "Preview"@,
        AudioEntityState::PrepareRun => "PrepareRun"@,
        AudioEntityState::WaitingForStart => "WaitingForStart"@,
        AudioEntityState::WaitingForTrigger => "WaitingForTrigger"@,
        AudioEntityState::Starting => "Starting"@,
        AudioEntityState::Playing => "Playing"@,
        AudioEntityState::Repeat => "Repeat"@,
        AudioEntityState::Loop => "Loop"@,
        AudioEntityState::Finished => "Finished"@,
        AudioEntityState::Reset => "Reset"@,
        AudioEntityState::Dead => "Dead"@,
    }
}

impl AudioEntityState {
    /// The name of the state.
    pub fn name(&self) -> (name: &'static str)
        ensures
            name@ == state_name(*self),
    {
        match self {
            AudioEntityState::Virgin => "Virgin",
            AudioEntityState::Preview => "Preview",
            AudioEntityState::PrepareRun => "PrepareRun",
            AudioEntityState::WaitingForStart => "WaitingForStart",
            AudioEntityState::WaitingForTrigger => "WaitingForTrigger",
            AudioEntityState::Starting => "Starting",
            AudioEntityState::Playing => "Playing",
            AudioEntityState::Repeat => "Repeat",
            AudioEntityState::Loop => "Loop",
            AudioEntityState::Finished => "Finished",
            AudioEntityState::Reset => "Reset",
            AudioEntityState::Dead => "Dead",
        }
    }
}

/// The scheduling parameters of an entity.
#[derive(Clone, Copy, Debug)]
pub struct AudioEntityParameters {
    pub state: AudioEntityState,
    /// Milliseconds until the next play.
    pub next_play: u64,
    /// Repeats that are left in this loop iteration.
    pub repeats: u32,
    /// Loop iterations that are left after this one.
    pub loops: u32,
    /// Share of the sample over which the volume ramps up.
    pub fade_in: Level,
    /// Volume of the current play once it has faded in.
    pub max_volume: Level,
}

/// One instruction to the backend on behalf of an entity.
#[derive(PartialEq, Eq, Structural, Clone, Copy, Debug)]
pub enum BackendOp {
    Play,
    Stop,
    SetVolume(Level),
    SetPitch(Level),
    SetLowpass(Level),
    SetHighpass(Level),
    /// Select the reverb preset that the sound names.
    SetReverb,
}

/// What one tick of an entity depends on besides the entity itself.
///
/// A state reads only the fields it needs: `delay` and `count` where a delay
/// or a count is drawn, the five levels when a play starts, `position` and
/// `is_playing` while the sample plays.
#[derive(Clone, Copy, Debug)]
pub struct TickInput {
    /// Milliseconds since the previous tick.
    pub delta: u64,
    /// The delay drawn for this tick, in milliseconds.
    pub delay: u64,
    /// The count drawn for this tick.
    pub count: u32,
    pub volume: Level,
    pub pitch: Level,
    pub lowpass: Level,
    pub highpass: Level,
    pub fade_in: Level,
    /// The share of the sample that the backend reports as played.
    pub position: Level,
    /// Whether the backend reports the sample as sounding.
    pub is_playing: bool,
}

/// An entity without its backend handle.
pub struct EntityView {
    pub sound: SoundView,
    pub parameters: AudioEntityParameters,
    pub is_triggered: bool,
    pub is_preview: bool,
}

/// Tells whether `value` may be drawn from the inclusive range `range`: the
/// one value of a range that is a point, else any value from the lower bound
/// up to, but not including, the upper one.
pub open spec fn drawn_from(range: (int, int), value: int) -> bool {
    if range.0 == range.1 {
        value == range.0
    } else {
        range.0 <= value < range.1
    }
}

/// [`drawn_from`] for a range of levels or counts.
pub open spec fn drawn_from_u32(range: (u32, u32), value: u32) -> bool {
    drawn_from((range.0 as int, range.1 as int), value as int)
}

/// [`drawn_from`] for a range of delays.
pub open spec fn drawn_from_u64(range: (u64, u64), value: u64) -> bool {
    drawn_from((range.0 as int, range.1 as int), value as int)
}

/// The parameters of an entity that has not run yet.
pub open spec fn fresh_parameters() -> AudioEntityParameters {
    AudioEntityParameters {
        state: AudioEntityState::Virgin,
        next_play: 0,
        repeats: 0,
        loops: 1,
        fade_in: 0,
        max_volume: 1000,
    }
}

/// The entity that is made for `sound` when a theme is loaded.
pub open spec fn fresh_entity(sound: SoundView) -> EntityView {
    EntityView { sound, parameters: fresh_parameters(), is_triggered: false, is_preview: false }
}

/// The volume of a playing sample at `position`.
///
/// While the sample is within its fade-in, the volume is the share
/// `position / fade_in` of `max_volume`, rounded down; after that, or
/// without a fade-in, it is `max_volume`.
pub open spec fn envelope(
    fade_in_enabled: bool,
    fade_in: Level,
    max_volume: Level,
    position: Level,
) -> Level {
    if fade_in_enabled && position < fade_in {
        ((max_volume as int * position as int) / (fade_in as int)) as Level
    } else {
        max_volume
    }
}

/// What is left of a delay of `next_play` milliseconds after `delta` more.
pub open spec fn count_down(next_play: u64, delta: u64) -> u64 {
    if next_play > delta {
        (next_play - delta) as u64
    } else {
        0
    }
}

/// Tells whether the values that `input` carries for the state of `e` may
/// have been drawn from the ranges of its sound.
pub open spec fn admissible(e: EntityView, input: TickInput) -> bool {
    let s = e.sound;
    match e.parameters.state {
        AudioEntityState::Virgin => drawn_from_u64(s.loop_delay, input.delay) && drawn_from_u32(
            s.loop_count,
            input.count,
        ),
        AudioEntityState::PrepareRun => drawn_from_u32(s.repeat_count, input.count),
        AudioEntityState::Starting => {
            &&& drawn_from_u32(s.volume, input.volume)
            &&& s.pitch_enabled ==> drawn_from_u32(s.pitch, input.pitch)
            &&& s.lowpass_enabled ==> drawn_from_u32(s.lowpass, input.lowpass)
            &&& s.highpass_enabled ==> drawn_from_u32(s.highpass, input.highpass)
            &&& s.fade_in_enabled ==> drawn_from_u32(s.fade_in, input.fade_in)
        },
        AudioEntityState::Repeat => e.parameters.repeats > 0 ==> drawn_from_u64(
            s.repeat_delay,
            input.delay,
        ),
        AudioEntityState::Loop => (e.parameters.loops > 0 || s.loop_forever) ==> drawn_from_u64(
            s.loop_delay,
            input.delay,
        ),
        _ => true,
    }
}

/// `e` with other parameters.
pub open spec fn with_parameters(e: EntityView, parameters: AudioEntityParameters) -> EntityView {
    EntityView { parameters, ..e }
}

/// `e` in another state.
pub open spec fn in_state(e: EntityView, state: AudioEntityState) -> EntityView {
    with_parameters(e, AudioEntityParameters { state, ..e.parameters })
}

/// The entity after one tick.
pub open spec fn step(e: EntityView, input: TickInput) -> EntityView {
    let s = e.sound;
    let p = e.parameters;
    match p.state {
        AudioEntityState::Virgin => {
            let state = if s.triggered() && !e.is_preview {
                AudioEntityState::WaitingForTrigger
            } else {
                AudioEntityState::PrepareRun
            };
            with_parameters(
                e,
                AudioEntityParameters { state, next_play: input.delay, loops: input.count, ..p },
            )
        },
        AudioEntityState::Preview => in_state(e, AudioEntityState::Reset),
        AudioEntityState::Reset => in_state(e, AudioEntityState::Virgin),
        AudioEntityState::WaitingForTrigger => if e.is_triggered {
            EntityView { is_triggered: false, ..in_state(e, AudioEntityState::WaitingForStart) }
        } else {
            e
        },
        AudioEntityState::PrepareRun => {
            let state = if e.is_preview {
                AudioEntityState::Starting
            } else {
                AudioEntityState::WaitingForStart
            };
            with_parameters(e, AudioEntityParameters { state, repeats: input.count, ..p })
        },
        AudioEntityState::WaitingForStart => {
            let next_play = count_down(p.next_play, input.delta);
            let state = if next_play == 0 {
                AudioEntityState::Starting
            } else {
                AudioEntityState::WaitingForStart
            };
            with_parameters(e, AudioEntityParameters { state, next_play, ..p })
        },
        AudioEntityState::Starting => with_parameters(
            e,
            AudioEntityParameters {
                state: AudioEntityState::Playing,
                max_volume: input.volume,
                fade_in: if s.fade_in_enabled {
                    input.fade_in
                } else {
                    p.fade_in
                },
                ..p
            },
        ),
        AudioEntityState::Playing => if input.is_playing {
            e
        } else if s.triggered() && e.is_triggered {
            EntityView { is_triggered: false, ..in_state(e, AudioEntityState::Reset) }
        } else {
            in_state(e, AudioEntityState::Repeat)
        },
        AudioEntityState::Repeat => if p.repeats > 0 {
            with_parameters(
                e,
                AudioEntityParameters {
                    state: AudioEntityState::WaitingForStart,
                    repeats: (p.repeats - 1) as u32,
                    next_play: input.delay,
                    ..p
                },
            )
        } else if e.is_preview {
            EntityView { is_preview: false, ..in_state(e, AudioEntityState::Virgin) }
        } else {
            in_state(e, AudioEntityState::Loop)
        },
        AudioEntityState::Loop => if p.loops > 0 || s.loop_forever {
            with_parameters(
                e,
                AudioEntityParameters {
                    state: AudioEntityState::PrepareRun,
                    loops: if s.loop_forever {
                        p.loops
                    } else {
                        (p.loops - 1) as u32
                    },
                    next_play: input.delay,
                    ..p
                },
            )
        } else {
            in_state(e, AudioEntityState::Finished)
        },
        AudioEntityState::Finished => if s.triggered() {
            in_state(e, AudioEntityState::Reset)
        } else {
            in_state(e, AudioEntityState::Dead)
        },
        AudioEntityState::Dead => e,
    }
}

/// The one instruction `op`, if `enabled`, else none.
pub open spec fn op_if(enabled: bool, op: BackendOp) -> Seq<BackendOp> {
    if enabled {
        seq![op]
    } else {
        Seq::empty()
    }
}

/// What the backend is told when a play starts, in order.
pub open spec fn starting_ops(s: SoundView, input: TickInput) -> Seq<BackendOp> {
    seq![BackendOp::Play] + op_if(s.pitch_enabled, BackendOp::SetPitch(input.pitch)) + op_if(
        s.lowpass_enabled,
        BackendOp::SetLowpass(input.lowpass),
    ) + op_if(s.highpass_enabled, BackendOp::SetHighpass(input.highpass)) + seq![
        BackendOp::SetVolume(
            if s.fade_in_enabled {
                0
            } else {
                input.volume
            },
        ),
        BackendOp::SetReverb,
    ]
}

/// Tells whether this tick cancels the play at hand: the entity is in
/// `Playing`, its sound has a trigger that was pulled again, and the
/// backend reports the sample as no longer sounding.
pub open spec fn cancels(e: EntityView, input: TickInput) -> bool {
    &&& e.parameters.state == AudioEntityState::Playing
    &&& !input.is_playing
    &&& e.sound.triggered()
    &&& e.is_triggered
}

/// What the backend is told while the sample plays, in order: the volume
/// of the envelope, and a stop where the tick cancels the play.
pub open spec fn playing_ops(e: EntityView, input: TickInput) -> Seq<BackendOp> {
    let s = e.sound;
    let p = e.parameters;
    seq![
        BackendOp::SetVolume(envelope(s.fade_in_enabled, p.fade_in, p.max_volume, input.position)),
    ] + op_if(cancels(e, input), BackendOp::Stop)
}

/// What the backend is told during one tick, in order.
pub open spec fn backend_ops(e: EntityView, input: TickInput) -> Seq<BackendOp> {
    let s = e.sound;
    let p = e.parameters;
    match p.state {
        AudioEntityState::Reset => seq![BackendOp::Stop],
        AudioEntityState::Starting => starting_ops(s, input),
        AudioEntityState::Playing => playing_ops(e, input),
        AudioEntityState::Loop => seq![BackendOp::Stop],
        _ => Seq::empty(),
    }
}

} // verus!
