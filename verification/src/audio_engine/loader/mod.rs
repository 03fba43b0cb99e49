//! Audio file loaders.

pub mod base;
pub mod error;
pub mod minimp3;
pub mod sndfile;

use vstd::prelude::*;

use crate::audio_engine::loader::error::AudioFileLoaderError;

verus! {

/// The loaders that there are.
#[derive(PartialEq, Eq, Structural, Clone, Copy, Debug)]
pub enum LoaderKind {
    MiniMP3,
    SndFile,
}

/// The loader for files with the extension `extension`.
pub open spec fn loader_for(extension: Seq<char>) -> Option<LoaderKind> {
    if extension == "mp3"@ {
        Some(LoaderKind::MiniMP3)
    } else if extension == "wav"@ || extension == "ogg"@ {
        Some(LoaderKind::SndFile)
    } else {
        None
    }
}

/// Tells whether `extension` may be the extension of a file name within
/// `path`: it holds no dot, and it stands in the path right after a dot.
pub open spec fn follows_a_dot(path: Seq<char>, extension: Seq<char>) -> bool {
    &&& !extension.contains('.')
    &&& exists|i: int|
        0 <= i && i + 1 + extension.len() <= path.len() && #[trigger] path[i] == '.'
            && path.subrange(i + 1, i + 1 + extension.len()) == extension
}

/// Tells whether `path` is nothing but a file name: it holds no separator
/// and no drive letter, and it is not the name of the parent directory.
pub open spec fn plain_name(path: Seq<char>) -> bool {
    &&& !path.contains('/')
    &&& !path.contains('\\')
    &&& !path.contains(':')
    &&& path != seq!['.', '.']
}

/// The place of the last dot in `name`.
pub open spec fn last_dot(name: Seq<char>) -> Option<int>
    decreases name.len(),
{
    if name.len() == 0 {
        None
    } else if name.last() == '.' {
        Some(name.len() - 1)
    } else {
        last_dot(name.drop_last())
    }
}

/// The extension of the file name `name`: what follows its last dot. A
/// name without a dot has no extension, and neither has a name whose only
/// dot is its first character.
pub open spec fn name_extension(name: Seq<char>) -> Option<Seq<char>> {
    match last_dot(name) {
        Some(i) => if i == 0 {
            None
        } else {
            Some(name.subrange(i + 1, name.len() as int))
        },
        None => None,
    }
}

/// The extension of the path `path`, as `std::path::Path::extension` tells
/// it: the part of the file name after its last dot; none where the file
/// name has no dot, or begins with its only dot, or where there is no file
/// name. The file name is a part of the path, so an extension stands in
/// the path right after a dot, and it holds no dot itself. Of a path that
/// is nothing but a file name the extension is that of the name. Which part
/// of any other path is its file name is up to the platform, and nothing
/// is claimed of it.
#[verifier::external_body]
fn extension_of(path: &str) -> (extension: Option<String>)
    ensures
        extension matches Some(e) ==> follows_a_dot(path@, e@),
        plain_name(path@) ==> (match extension {
            Some(e) => name_extension(path@) == Some(e@),
            None => name_extension(path@) is None,
        }),
{
    match std::path::Path::new(path).extension() {
        Some(extension) => Some(extension.to_string_lossy().into_owned()),
        None => None,
    }
}

/// Tells whether `loader` is what is picked for the file at `path` when
/// its extension is `extension`: the loader of the extension, or an error
/// that names the extension, the empty one where there is none, and the
/// path.
pub open spec fn picked(
    extension: Option<Seq<char>>,
    path: Seq<char>,
    loader: Result<LoaderKind, AudioFileLoaderError>,
) -> bool {
    match extension {
        Some(e) => match loader_for(e) {
            Some(kind) => loader == Ok::<LoaderKind, AudioFileLoaderError>(kind),
            None => loader matches Err(AudioFileLoaderError::UnsupportedFileFormat(ext, file))
                && ext@ == e && file@ == path,
        },
        None => loader matches Err(AudioFileLoaderError::UnsupportedFileFormat(ext, file))
            && ext@.len() == 0 && file@ == path,
    }
}

/// Picks the loader for a file by the extension of its path. `path` is the
/// path that the error names.
///
/// A file without an extension is turned down like one with an extension
/// that no loader handles; the error then names the empty extension.
pub fn loader_for_extension(extension: Option<String>, path: &str) -> (loader: Result<
    LoaderKind,
    AudioFileLoaderError,
>)
    ensures
        picked(
            match extension {
                Some(e) => Some(e@),
                None => None,
            },
            path@,
            loader,
        ),
{
    match extension {
        Some(e) => {
            if e == "mp3".to_owned() {
                Ok(LoaderKind::MiniMP3)
            } else if e == "wav".to_owned() || e == "ogg".to_owned() {
                Ok(LoaderKind::SndFile)
            } else {
                Err(AudioFileLoaderError::UnsupportedFileFormat(e, path.to_owned()))
            }
        },
        None => Err(AudioFileLoaderError::UnsupportedFileFormat(String::new(), path.to_owned())),
    }
}

/// Picks the loader for the file at `path`.
///
/// The loader is that of the extension of the path. For a path that is
/// nothing but a file name the result is fixed: the loader of what follows
/// the last dot of the name. For any other path a loader is only picked
/// where an extension of that loader follows a dot of the path. A path
/// whose extension no loader handles, or that has none, is turned down with
/// an error that names the path and that extension, the empty one where the
/// path has none.
pub fn get_loader_for_file(path: &str) -> (loader: Result<LoaderKind, AudioFileLoaderError>)
    ensures
        plain_name(path@) ==> picked(name_extension(path@), path@, loader),
        match loader {
            Ok(kind) => exists|extension: Seq<char>|
                follows_a_dot(path@, extension) && #[trigger] loader_for(extension) == Some(kind),
            Err(AudioFileLoaderError::UnsupportedFileFormat(extension, file)) => {
                &&& file@ == path@
                &&& loader_for(extension@) is None
                &&& extension@.len() == 0 || follows_a_dot(path@, extension@)
            },
            Err(_) => false,
        },
{
    proof {
        reveal_strlit("mp3");
        reveal_strlit("wav");
        reveal_strlit("ogg");
    }
    let extension = extension_of(path);
    let ghost found = extension;
    let loader = loader_for_extension(extension, path);
    proof {
        if let Some(e) = found {
            if let Ok(kind) = loader {
                assert(follows_a_dot(path@, e@) && loader_for(e@) == Some(kind));
            }
        }
    }
    loader
}

} // verus!
