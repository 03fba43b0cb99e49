//! The commands that the engine takes and the responses it gives.

use std::collections::HashMap;
use vstd::prelude::*;

use crate::level::Level;
use crate::theme::Theme;

verus! {

/// What the engine reports of itself.
#[derive(Debug)]
pub struct Status {
    pub playing: bool,
    pub theme_loaded: bool,
    /// The name of the theme that was loaded last.
    pub theme: Option<String>,
    /// The sounds whose sample is playing.
    pub sounds_playing: Vec<String>,
    /// The sounds that wait for their start, each with the whole seconds
    /// that are left.
    pub sounds_playing_next: Vec<(String, u64)>,
    /// The sounds that run as a preview.
    pub previewing: Vec<String>,
}

/// The samples of the library, each with its path and the names of its tags.
#[derive(Debug)]
pub struct SoundLibrary {
    pub samples: Vec<(String, Vec<String>)>,
}

/// The answer to one command.
#[derive(Debug)]
pub enum Response {
    Error { message: String },
    Success,
    Status(Status),
    SoundLibrary(SoundLibrary),
    /// The output devices by their index.
    DriverList { drivers: HashMap<usize, String> },
    Driver { id: i32 },
}

/// What the engine can be asked to do.
#[derive(Debug)]
pub enum Command {
    Quit,
    Play,
    Pause,
    GetStatus,
    GetSoundLibrary,
    GetDriver,
    GetDriverList,
    SetDriver { id: i32 },
    SetVolume { value: Level },
    PreviewSound { sound: String },
    LoadTheme { theme: Theme },
    Trigger { sound: String },
}

/// Tells whether `response` is of a kind that answers `command`.
///
/// Commands that act answer with success or with an error; `SetVolume` and
/// `SetDriver` cannot fail; each query has a response of its own. Nothing
/// answers `Quit`.
pub open spec fn answers(command: Command, response: Response) -> bool {
    match command {
        Command::Quit => false,
        Command::Play | Command::Pause | Command::PreviewSound { .. } | Command::LoadTheme { .. }
        | Command::Trigger { .. } => response is Success || response is Error,
        Command::SetVolume { .. } | Command::SetDriver { .. } => response is Success,
        Command::GetStatus => response is Status,
        Command::GetSoundLibrary => response is SoundLibrary,
        Command::GetDriverList => response is DriverList,
        Command::GetDriver => response is Driver,
    }
}

/// The HTTP status with which a response is passed on: 400 for an error,
/// 200 for every other response.
pub fn http_status(response: &Response) -> (status: u16)
    ensures
        status == (if response is Error {
            400u16
        } else {
            200u16
        }),
{
    match response {
        Response::Error { .. } => 400,
        _ => 200,
    }
}

} // verus!
