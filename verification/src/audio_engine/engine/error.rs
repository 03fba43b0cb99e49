//! What can go wrong inside the engine.

use vstd::prelude::*;
use vstd::string::*;

use crate::audio_engine::backends::error::AudioBackendError;

verus! {

#[derive(Debug)]
pub enum AudioEngineError {
    /// The backend failed.
    AudioBackendError(AudioBackendError),
    /// A theme names a sample that the library does not hold.
    SampleNotFound(String),
}

impl AudioEngineError {
    /// Tells whether `text` may be the result of [`AudioEngineError::message`].
    pub open spec fn describes(self, text: Seq<char>) -> bool {
        match self {
            AudioEngineError::AudioBackendError(e) => exists|detail: Seq<char>|
                e.describes(detail) && text == "AudioEngine AudioBackend Error: "@ + detail,
            AudioEngineError::SampleNotFound(path) => text
                == "AudioEngine Sample not found at path "@ + path@,
        }
    }

    /// A description of the error for people.
    pub fn message(&self) -> (text: String)
        ensures
            self.describes(text@),
    {
        match self {
            AudioEngineError::AudioBackendError(e) => {
                let detail = e.message();
                let mut text = "AudioEngine AudioBackend Error: ".to_owned();
                text.append(detail.as_str());
                assert(e.describes(detail@) && text@ == "AudioEngine AudioBackend Error: "@
                    + detail@);
                text
            },
            AudioEngineError::SampleNotFound(path) => {
                let mut text = "AudioEngine Sample not found at path ".to_owned();
                text.append(path.as_str());
                text
            },
        }
    }
}

impl From<AudioBackendError> for AudioEngineError {
    fn from(e: AudioBackendError) -> (error: AudioEngineError) {
        AudioEngineError::AudioBackendError(e)
    }
}

impl vstd::std_specs::convert::FromSpecImpl<AudioBackendError> for AudioEngineError {
    open spec fn obeys_from_spec() -> bool {
        true
    }

    open spec fn from_spec(e: AudioBackendError) -> AudioEngineError {
        AudioEngineError::AudioBackendError(e)
    }
}

} // verus!
