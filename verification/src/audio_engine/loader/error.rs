//! What can go wrong when an audio file is decoded.

use vstd::prelude::*;
use vstd::string::*;

verus! {

#[derive(Debug)]
pub enum AudioFileLoaderError {
    /// The file at the first path could not be read; the second string says
    /// why.
    FileLoadError(String, String),
    /// No loader handles the extension (first) of the file (second).
    UnsupportedFileFormat(String, String),
}

impl AudioFileLoaderError {
    /// The text of [`AudioFileLoaderError::message`].
    pub open spec fn message_text(self) -> Seq<char> {
        match self {
            AudioFileLoaderError::FileLoadError(path, reason) => "Failed to load file '"@ + path@
                + "': "@ + reason@,
            AudioFileLoaderError::UnsupportedFileFormat(extension, path) =>
                "Unsupported file format '"@ + extension@ + "' for file '"@ + path@ + "'"@,
        }
    }

    /// A description of the error for people.
    pub fn message(&self) -> (text: String)
        ensures
            text@ == self.message_text(),
    {
        match self {
            AudioFileLoaderError::FileLoadError(path, reason) => {
                let mut text = "Failed to load file '".to_owned();
                text.append(path.as_str());
                text.append("': ");
                text.append(reason.as_str());
                text
            },
            AudioFileLoaderError::UnsupportedFileFormat(extension, path) => {
                let mut text = "Unsupported file format '".to_owned();
                text.append(extension.as_str());
                text.append("' for file '");
                text.append(path.as_str());
                text.append("'");
                text
            },
        }
    }
}

} // verus!
