//! What a loader of audio files offers.

use vstd::prelude::*;

use crate::audio_engine::loader::error::AudioFileLoaderError;

verus! {

/// A decoder of audio files.
pub trait AudioFileLoader {
    /// Decodes the file at `path` into mono samples and their rate in hertz.
    fn load(&mut self, path: &str) -> Result<(Vec<i16>, i32), AudioFileLoaderError>;
}

} // verus!
