//! What can go wrong inside an audio backend.

use vstd::prelude::*;
use vstd::string::*;

use crate::audio_engine::loader::error::AudioFileLoaderError;

verus! {

/// The error type of the OpenAL bindings. Nothing is known of a value of it.
#[verifier::external_type_specification]
#[verifier::external_body]
pub struct ExAltoError(alto::AltoError);

#[derive(Debug)]
pub enum AudioBackendError {
    /// The OpenAL library reported an error.
    AltoError(alto::AltoError),
    /// An operation was asked of an entity that holds no source.
    NoSource,
    /// The file of an entity could not be decoded.
    AudioFileLoaderError(AudioFileLoaderError),
}

/// Formats an `alto::AltoError` through its `Display` impl. The text depends
/// on the variant and, for an I/O failure, on the platform: nothing is
/// claimed of it.
#[verifier::external_body]
fn describe_alto_error(error: &alto::AltoError) -> (text: String) {
    format!("{}", error)
}

impl AudioBackendError {
    /// Tells whether `text` may be the result of [`AudioBackendError::message`].
    pub open spec fn describes(self, text: Seq<char>) -> bool {
        match self {
            AudioBackendError::AltoError(_) => exists|detail: Seq<char>|
                text == "AudioBackend AltoError: "@ + detail,
            AudioBackendError::NoSource => text == "AudioBackend Operation on empty source!"@,
            AudioBackendError::AudioFileLoaderError(e) => text
                == "AudioBackend FileLoader Error: "@ + e.message_text(),
        }
    }

    /// A description of the error for people.
    pub fn message(&self) -> (text: String)
        ensures
            self.describes(text@),
    {
        match self {
            AudioBackendError::AltoError(e) => {
                let detail = describe_alto_error(e);
                let mut text = "AudioBackend AltoError: ".to_owned();
                text.append(detail.as_str());
                assert(text@ == "AudioBackend AltoError: "@ + detail@);
                text
            },
            AudioBackendError::NoSource => "AudioBackend Operation on empty source!".to_owned(),
            AudioBackendError::AudioFileLoaderError(e) => {
                let detail = e.message();
                let mut text = "AudioBackend FileLoader Error: ".to_owned();
                text.append(detail.as_str());
                text
            },
        }
    }
}

impl From<alto::AltoError> for AudioBackendError {
    fn from(e: alto::AltoError) -> (error: AudioBackendError) {
        AudioBackendError::AltoError(e)
    }
}

impl vstd::std_specs::convert::FromSpecImpl<alto::AltoError> for AudioBackendError {
    open spec fn obeys_from_spec() -> bool {
        true
    }

    open spec fn from_spec(e: alto::AltoError) -> AudioBackendError {
        AudioBackendError::AltoError(e)
    }
}

impl From<AudioFileLoaderError> for AudioBackendError {
    fn from(e: AudioFileLoaderError) -> (error: AudioBackendError) {
        AudioBackendError::AudioFileLoaderError(e)
    }
}

impl vstd::std_specs::convert::FromSpecImpl<AudioFileLoaderError> for AudioBackendError {
    open spec fn obeys_from_spec() -> bool {
        true
    }

    open spec fn from_spec(e: AudioFileLoaderError) -> AudioBackendError {
        AudioBackendError::AudioFileLoaderError(e)
    }
}

} // verus!
