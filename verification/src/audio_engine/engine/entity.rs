//! One sound of the loaded theme at run time.

use vstd::prelude::*;

use crate::audio_engine::backends::base::AudioEntityData;
use crate::audio_engine::backends::error::AudioBackendError;
use crate::audio_engine::engine::error::AudioEngineError;
use crate::audio_engine::engine::model::{
    admissible, backend_ops, envelope, fresh_entity, fresh_parameters, starting_ops, step,
    AudioEntityParameters, AudioEntityState, BackendOp, EntityView, TickInput,
};
use crate::audio_engine::engine::random::{get_random_level, get_random_value};
use crate::level::Level;
use crate::theme::Sound;

verus! {

impl AudioEntityParameters {
    /// The parameters of an entity that has not run yet.
    pub fn new() -> (parameters: AudioEntityParameters)
        ensures
            parameters == fresh_parameters(),
    {
        AudioEntityParameters {
            state: AudioEntityState::Virgin,
            next_play: 0,
            repeats: 0,
            loops: 1,
            fade_in: 0,
            max_volume: 1000,
        }
    }
}

/// A sound together with its backend handle and its scheduling state.
pub struct AudioEntity<O> {
    pub sound: Sound,
    pub object: O,
    pub parameters: AudioEntityParameters,
    /// Set and cleared by the trigger command; cleared when acted upon.
    pub is_triggered: bool,
    /// Set while the entity runs as a preview.
    pub is_preview: bool,
}

impl<O> View for AudioEntity<O> {
    type V = EntityView;

    open spec fn view(&self) -> EntityView {
        EntityView {
            sound: self.sound@,
            parameters: self.parameters,
            is_triggered: self.is_triggered,
            is_preview: self.is_preview,
        }
    }
}

/// Computes [`envelope`].
pub fn volume_at(fade_in_enabled: bool, fade_in: Level, max_volume: Level, position: Level) -> (volume:
    Level)
    ensures
        volume == envelope(fade_in_enabled, fade_in, max_volume, position),
        volume <= max_volume,
{
    if fade_in_enabled && position < fade_in {
        assert(max_volume as int * position as int <= 0xffff_ffff * 0xffff_ffff) by (nonlinear_arith)
            requires
                0 <= max_volume as int <= 0xffff_ffff,
                0 <= position as int <= 0xffff_ffff,
        ;
        let scaled: u64 = max_volume as u64 * position as u64;
        let share: u64 = scaled / fade_in as u64;
        proof {
            let m = max_volume as int;
            let p = position as int;
            let f = fade_in as int;
            assert(m * p <= m * f) by (nonlinear_arith)
                requires
                    0 <= m,
                    0 <= p < f,
            ;
            assert((m * p) / f <= m) by (nonlinear_arith)
                requires
                    0 <= m * p <= m * f,
                    0 < f,
            ;
        }
        share as Level
    } else {
        max_volume
    }
}

impl<O: AudioEntityData> AudioEntity<O> {
    /// The entity of a sound that was just loaded.
    pub fn new(object: O, sound: Sound) -> (entity: Self)
        ensures
            entity@ == fresh_entity(sound@),
            entity.object == object,
    {
        AudioEntity {
            sound,
            object,
            parameters: AudioEntityParameters::new(),
            is_triggered: false,
            is_preview: false,
        }
    }

    /// Puts the entity into `state`.
    pub fn switch_state(&mut self, state: AudioEntityState)
        ensures
            final(self).parameters == (AudioEntityParameters { state, ..old(self).parameters }),
            final(self).sound == old(self).sound,
            final(self).object == old(self).object,
            final(self).is_triggered == old(self).is_triggered,
            final(self).is_preview == old(self).is_preview,
    {
        self.parameters.state = state;
    }

    /// Tells whether the entity is in `state`.
    pub fn is_in_state(&self, state: &AudioEntityState) -> (same: bool)
        ensures
            same == (self.parameters.state == *state),
    {
        self.parameters.state == *state
    }

    /// Pauses the source of the entity. The schedule of the entity is left
    /// as it is, whatever `_flag` says.
    pub fn pause(&mut self, _flag: bool)
        ensures
            final(self)@ == old(self)@,
    {
        self.object.pause();
    }

    /// Starts or resumes the sample on a source of `backend`.
    pub fn play(&mut self, backend: &mut O::Backend)
        ensures
            final(self)@ == old(self)@,
    {
        self.object.play(backend);
    }

    /// Silences the sample and hands its source back to `backend`.
    pub fn stop(&mut self, backend: &mut O::Backend) -> (result: Result<(), AudioBackendError>)
        ensures
            final(self)@ == old(self)@,
    {
        self.object.stop(backend)
    }

    /// Takes the schedule of the entity one tick further and says what the
    /// backend is to be told. The backend itself is not touched.
    pub fn advance(&mut self, input: &TickInput) -> (ops: Vec<BackendOp>)
        ensures
            final(self)@ == step(old(self)@, *input),
            ops@ == backend_ops(old(self)@, *input),
            final(self).object == old(self).object,
    {
        let mut ops: Vec<BackendOp> = Vec::new();
        match self.parameters.state {
            AudioEntityState::Virgin => {
                self.parameters.next_play = input.delay;
                self.parameters.loops = input.count;
                if self.sound.trigger.is_some() && !self.is_preview {
                    self.parameters.state = AudioEntityState::WaitingForTrigger;
                } else {
                    self.parameters.state = AudioEntityState::PrepareRun;
                }
            },
            AudioEntityState::Preview => {
                self.parameters.state = AudioEntityState::Reset;
            },
            AudioEntityState::Reset => {
                ops.push(BackendOp::Stop);
                self.parameters.state = AudioEntityState::Virgin;
            },
            AudioEntityState::WaitingForTrigger => {
                if self.is_triggered {
                    self.parameters.state = AudioEntityState::WaitingForStart;
                    self.is_triggered = false;
                }
            },
            AudioEntityState::PrepareRun => {
                self.parameters.repeats = input.count;
                if self.is_preview {
                    self.parameters.state = AudioEntityState::Starting;
                } else {
                    self.parameters.state = AudioEntityState::WaitingForStart;
                }
            },
            AudioEntityState::WaitingForStart => {
                if self.parameters.next_play > input.delta {
                    self.parameters.next_play = self.parameters.next_play - input.delta;
                } else {
                    self.parameters.next_play = 0;
                }
                if self.parameters.next_play == 0 {
                    self.parameters.state = AudioEntityState::Starting;
                }
            },
            AudioEntityState::Starting => {
                ops.push(BackendOp::Play);
                self.parameters.max_volume = input.volume;
                if self.sound.pitch_enabled {
                    ops.push(BackendOp::SetPitch(input.pitch));
                }
                if self.sound.lowpass_enabled {
                    ops.push(BackendOp::SetLowpass(input.lowpass));
                }
                if self.sound.highpass_enabled {
                    ops.push(BackendOp::SetHighpass(input.highpass));
                }
                if self.sound.fade_in_enabled {
                    self.parameters.fade_in = input.fade_in;
                    ops.push(BackendOp::SetVolume(0));
                } else {
                    ops.push(BackendOp::SetVolume(input.volume));
                }
                ops.push(BackendOp::SetReverb);
                self.parameters.state = AudioEntityState::Playing;
                assert(ops@ =~= starting_ops(old(self)@.sound, *input));
            },
            AudioEntityState::Playing => {
                let volume = volume_at(
                    self.sound.fade_in_enabled,
                    self.parameters.fade_in,
                    self.parameters.max_volume,
                    input.position,
                );
                ops.push(BackendOp::SetVolume(volume));
                if !input.is_playing {
                    if self.sound.trigger.is_some() && self.is_triggered {
                        ops.push(BackendOp::Stop);
                        self.parameters.state = AudioEntityState::Reset;
                        self.is_triggered = false;
                    } else {
                        self.parameters.state = AudioEntityState::Repeat;
                    }
                }
            },
            AudioEntityState::Repeat => {
                if self.parameters.repeats > 0 {
                    self.parameters.repeats = self.parameters.repeats - 1;
                    self.parameters.next_play = input.delay;
                    self.parameters.state = AudioEntityState::WaitingForStart;
                } else if self.is_preview {
                    self.is_preview = false;
                    self.parameters.state = AudioEntityState::Virgin;
                } else {
                    self.parameters.state = AudioEntityState::Loop;
                }
            },
            AudioEntityState::Loop => {
                ops.push(BackendOp::Stop);
                if self.parameters.loops > 0 || self.sound.loop_forever {
                    if !self.sound.loop_forever {
                        self.parameters.loops = self.parameters.loops - 1;
                    }
                    self.parameters.next_play = input.delay;
                    self.parameters.state = AudioEntityState::PrepareRun;
                } else {
                    self.parameters.state = AudioEntityState::Finished;
                }
            },
            AudioEntityState::Finished => {
                if self.sound.trigger.is_some() {
                    self.parameters.state = AudioEntityState::Reset;
                } else {
                    self.parameters.state = AudioEntityState::Dead;
                }
            },
            AudioEntityState::Dead => {},
        }
        assert(ops@ =~= backend_ops(old(self)@, *input));
        ops
    }

    /// Gathers what the next tick of the entity depends on: draws the values
    /// that its state calls for and, while the sample plays, asks the backend
    /// for its position and whether it still sounds.
    pub fn sense(&mut self, delta: u64) -> (input: TickInput)
        requires
            old(self)@.sound.wf(),
        ensures
            final(self)@ == old(self)@,
            input.delta == delta,
            admissible(old(self)@, input),
    {
        let mut input = TickInput {
            delta,
            delay: 0,
            count: 0,
            volume: 0,
            pitch: 0,
            lowpass: 0,
            highpass: 0,
            fade_in: 0,
            position: 0,
            is_playing: false,
        };
        match self.parameters.state {
            AudioEntityState::Virgin => {
                input.delay = get_random_value(self.sound.loop_delay);
                input.count = get_random_level(self.sound.loop_count);
            },
            AudioEntityState::PrepareRun => {
                input.count = get_random_level(self.sound.repeat_count);
            },
            AudioEntityState::Starting => {
                input.volume = get_random_level(self.sound.volume);
                if self.sound.pitch_enabled {
                    input.pitch = get_random_level(self.sound.pitch);
                }
                if self.sound.lowpass_enabled {
                    input.lowpass = get_random_level(self.sound.lowpass);
                }
                if self.sound.highpass_enabled {
                    input.highpass = get_random_level(self.sound.highpass);
                }
                if self.sound.fade_in_enabled {
                    input.fade_in = get_random_level(self.sound.fade_in);
                }
            },
            AudioEntityState::Playing => {
                input.position = self.object.get_position();
                input.is_playing = self.object.is_playing();
            },
            AudioEntityState::Repeat => {
                if self.parameters.repeats > 0 {
                    input.delay = get_random_value(self.sound.repeat_delay);
                }
            },
            AudioEntityState::Loop => {
                if self.parameters.loops > 0 || self.sound.loop_forever {
                    input.delay = get_random_value(self.sound.loop_delay);
                }
            },
            _ => {},
        }
        input
    }

    /// Tells the backend what `ops` says, in order, up to the first
    /// instruction that the backend refuses. The error of that instruction
    /// is returned.
    ///
    /// A backend cannot refuse to play, so instructions that are all `Play`,
    /// or none at all, are always carried out.
    pub fn perform(&mut self, ops: &Vec<BackendOp>, backend: &mut O::Backend) -> (result: Result<
        (),
        AudioEngineError,
    >)
        ensures
            final(self)@ == old(self)@,
            (forall|k: int| 0 <= k < ops@.len() ==> ops@[k] == BackendOp::Play) ==> result is Ok,
            result matches Err(e) ==> e is AudioBackendError,
    {
        let mut i: usize = 0;
        while i < ops.len()
            invariant
                i <= ops.len(),
                self@ == old(self)@,
            decreases ops.len() - i,
        {
            let outcome = match ops[i] {
                BackendOp::Play => {
                    self.object.play(backend);
                    Ok(())
                },
                BackendOp::Stop => self.object.stop(backend),
                BackendOp::SetVolume(volume) => self.object.set_volume(volume),
                BackendOp::SetPitch(pitch) => self.object.set_pitch(pitch),
                BackendOp::SetLowpass(amount) => self.object.set_lowpass(amount),
                BackendOp::SetHighpass(amount) => self.object.set_highpass(amount),
                BackendOp::SetReverb => self.object.set_reverb(self.sound.reverb.as_str()),
            };
            match outcome {
                Ok(()) => {},
                Err(e) => {
                    return Err(AudioEngineError::AudioBackendError(e));
                },
            }
            i += 1;
        }
        Ok(())
    }

    /// Runs one tick of the entity: `delta` milliseconds have passed since
    /// the previous one.
    ///
    /// The schedule moves on by exactly one [`step`], on an input whose
    /// values were drawn from the ranges of the sound. The backend is told
    /// what [`backend_ops`] says for that step, and those instructions are
    /// returned once the backend has taken them all. If it refuses one, the
    /// rest of them is skipped and the error is returned, and the schedule
    /// has moved on all the same.
    pub fn update(&mut self, backend: &mut O::Backend, delta: u64) -> (result: Result<
        Vec<BackendOp>,
        AudioEngineError,
    >)
        requires
            old(self)@.sound.wf(),
        ensures
            exists|input: TickInput|
                {
                    &&& input.delta == delta
                    &&& admissible(old(self)@, input)
                    &&& final(self)@ == #[trigger] step(old(self)@, input)
                    &&& result matches Ok(told) ==> told@ == backend_ops(old(self)@, input)
                    &&& backend_ops(old(self)@, input).len() == 0 ==> result is Ok
                },
            result matches Err(e) ==> e is AudioBackendError,
    {
        let input = self.sense(delta);
        let ops = self.advance(&input);
        let result = match self.perform(&ops, backend) {
            Ok(_) => Ok(ops),
            Err(e) => Err(e),
        };
        assert(self@ == step(old(self)@, input));
        result
    }
}

} // verus!
