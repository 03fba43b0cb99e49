//! The two traits through which the engine drives an audio library.
//!
//! A backend owns the output device and a pool of sources. An entity is one
//! loaded sample; it borrows a source from the pool of its backend while it
//! sounds and hands it back when it is stopped.

use vstd::prelude::*;

use crate::audio_engine::backends::error::AudioBackendError;
use crate::level::Level;
use crate::samplesdb::SamplePath;

verus! {

/// One loaded sample, as the engine sees it.
pub trait AudioEntityData: Sized {
    /// The backend whose sources the entity borrows.
    type Backend;

    /// Pauses the source of the entity, if it holds one.
    fn pause(&mut self);

    /// Starts or resumes the entity on a source of `backend`.
    fn play(&mut self, backend: &mut Self::Backend);

    /// Silences the entity and hands its source back to `backend`.
    fn stop(&mut self, backend: &mut Self::Backend) -> Result<(), AudioBackendError>;

    /// Tells whether the entity currently sounds.
    fn is_playing(&mut self) -> bool;

    fn set_volume(&mut self, volume: Level) -> Result<(), AudioBackendError>;

    fn set_pitch(&mut self, pitch: Level) -> Result<(), AudioBackendError>;

    fn set_lowpass(&mut self, amount: Level) -> Result<(), AudioBackendError>;

    fn set_highpass(&mut self, amount: Level) -> Result<(), AudioBackendError>;

    /// Selects a reverb preset by name; `"none"` switches reverb off.
    fn set_reverb(&mut self, reverb: &str) -> Result<(), AudioBackendError>;

    /// The share of the sample that has been played, one being its end.
    fn get_position(&mut self) -> Level;
}

/// An audio library with its output device.
pub trait AudioBackend: Sized {
    /// The entities that this backend loads.
    type EntityData: AudioEntityData<Backend = Self>;

    /// Opens the default output device.
    fn init() -> Self;

    /// Decodes the sample at `path` into an entity.
    fn load_file(&mut self, path: &SamplePath) -> Result<Self::EntityData, AudioBackendError>;

    /// Sets the master volume.
    fn set_volume(&mut self, volume: Level);

    /// The names of the output devices, in the order of the library.
    fn get_output_devices(&mut self) -> Vec<String>;

    fn get_current_output_device(&mut self) -> i32;

    fn set_current_output_device(&mut self, id: i32);
}

} // verus!
