//! The smaller parts: samples, loaders, the pool, authorization, errors.

use std::collections::HashMap;

use sinfonia::audio_engine::backends::alto::{
    filter_gain, needs_buffer, plan_filter, plan_reverb, reverb_name_to_ref, FilterPlan,
    OpenALBackend, OpenALSource, ReverbPlan, ReverbPreset, SourceSlot, SourceState, POOL_SIZE,
    REVERB_SEND,
};
use sinfonia::audio_engine::backends::error::AudioBackendError;
use sinfonia::audio_engine::engine::error::AudioEngineError;
use sinfonia::audio_engine::engine::messaging::{enumerate_drivers, list_samples};
use sinfonia::audio_engine::loader::error::AudioFileLoaderError;
use sinfonia::audio_engine::loader::minimp3::MiniMP3Loader;
use sinfonia::audio_engine::loader::sndfile::{SndFileLoader, SndInfo};
use sinfonia::audio_engine::loader::{get_loader_for_file, loader_for_extension, LoaderKind};
use sinfonia::audio_engine::messages::{http_status, Response, SoundLibrary, Status};
use sinfonia::authorization::TokenAuthorization;
use sinfonia::level::{FADE_STEP, LEVEL_ONE};
use sinfonia::samplesdb::{is_supported_audio_file, SamplesDB, Tag};
use sinfonia::utils::convert_to_mono;

#[test]
fn stereo_is_mixed_down_by_the_mean_toward_zero() {
    assert_eq!(convert_to_mono(vec![1, 3, -1, -2, 5]), vec![2, -1]);
    assert_eq!(convert_to_mono(vec![-3, 0, 3, 0]), vec![-1, 1]);
    assert_eq!(convert_to_mono(vec![i16::MAX, i16::MAX, i16::MIN, i16::MIN]), vec![i16::MAX, i16::MIN]);
    assert_eq!(convert_to_mono(vec![i16::MAX, i16::MIN]), vec![0]);
    assert_eq!(convert_to_mono(vec![]), Vec::<i16>::new());
    assert_eq!(convert_to_mono(vec![9]), Vec::<i16>::new());
}

#[test]
fn the_levels_count_thousandths() {
    assert_eq!(LEVEL_ONE, 1000);
    assert_eq!(FADE_STEP, 100);
}

#[test]
fn frames_are_collected_and_mixed_down() {
    let mut loader = MiniMP3Loader::new();
    loader.push_frame(vec![1, 3, 5, 7], 44100, 2);
    loader.push_frame(vec![10, 20], 22050, 1);
    loader.push_frame(vec![], 48000, 2);
    assert_eq!(loader.finish(), (vec![2, 6, 10, 20], 48000));
    assert_eq!(MiniMP3Loader::new().finish(), (vec![], 0));
}

fn info(frames: i64, channels: i32) -> SndInfo {
    SndInfo { frames, samplerate: 44100, channels, format: 0, sections: 1, seekable: 1 }
}

#[test]
fn a_sound_file_has_channels_times_frames_samples() {
    assert_eq!(info(10, 2).sample_count(), Some(20));
    assert_eq!(info(0, 2).sample_count(), Some(0));
    assert_eq!(info(10, 0).sample_count(), Some(0));
    assert_eq!(info(-10, -2).sample_count(), Some(20));
    assert_eq!(info(-10, 2).sample_count(), None);
    assert_eq!(info(10, -2).sample_count(), None);
    assert_eq!(info(i64::MAX, 3).sample_count(), None);
    assert_eq!(info(i64::MIN, -1).sample_count(), Some(1 << 63));
    assert_eq!(info(i64::MIN, -2).sample_count(), None);
}

#[test]
fn a_file_of_two_channels_is_mixed_down_after_the_read() {
    assert_eq!(SndFileLoader::finish(vec![2, 4, 6, 8], &info(2, 2)), (vec![3, 7], 44100));
    assert_eq!(SndFileLoader::finish(vec![2, 4, 6, 8], &info(4, 1)), (vec![2, 4, 6, 8], 44100));
    assert_eq!(SndFileLoader::finish(vec![2, 4, 6], &info(1, 3)), (vec![2, 4, 6], 44100));
}

#[test]
fn the_loader_goes_by_the_extension() {
    assert!(matches!(get_loader_for_file("/lib/rain.mp3"), Ok(LoaderKind::MiniMP3)));
    assert!(matches!(get_loader_for_file("rain.wav"), Ok(LoaderKind::SndFile)));
    assert!(matches!(get_loader_for_file("a.b/rain.tar.ogg"), Ok(LoaderKind::SndFile)));
    match get_loader_for_file("/lib/rain.flac") {
        Err(AudioFileLoaderError::UnsupportedFileFormat(extension, path)) => {
            assert_eq!(extension, "flac");
            assert_eq!(path, "/lib/rain.flac");
        }
        _ => panic!("flac has no loader"),
    }
    match get_loader_for_file("/lib.mp3/rain") {
        Err(AudioFileLoaderError::UnsupportedFileFormat(extension, path)) => {
            assert_eq!(extension, "");
            assert_eq!(path, "/lib.mp3/rain");
        }
        _ => panic!("a file without extension has no loader"),
    }
    assert!(matches!(get_loader_for_file("rain.MP3"), Err(_)));
}

#[test]
fn the_loader_of_an_extension() {
    assert!(matches!(loader_for_extension(Some("mp3".to_string()), "x"), Ok(LoaderKind::MiniMP3)));
    assert!(matches!(loader_for_extension(Some("wav".to_string()), "x"), Ok(LoaderKind::SndFile)));
    assert!(matches!(loader_for_extension(Some("ogg".to_string()), "x"), Ok(LoaderKind::SndFile)));
    assert!(matches!(
        loader_for_extension(Some("aiff".to_string()), "x"),
        Err(AudioFileLoaderError::UnsupportedFileFormat(_, _))
    ));
    assert!(matches!(
        loader_for_extension(None, "x"),
        Err(AudioFileLoaderError::UnsupportedFileFormat(_, _))
    ));
}

#[test]
fn the_reverb_presets_go_by_their_names() {
    assert_eq!(reverb_name_to_ref("none"), None);
    assert_eq!(reverb_name_to_ref("underwater"), Some(ReverbPreset::Underwater));
    assert_eq!(reverb_name_to_ref("forest"), Some(ReverbPreset::Forest));
    assert_eq!(reverb_name_to_ref("spacestation"), Some(ReverbPreset::SpacestationLongpassage));
    assert_eq!(
        reverb_name_to_ref("spacestation_smallroom"),
        Some(ReverbPreset::SpacestationSmallroom)
    );
    assert_eq!(
        reverb_name_to_ref("spacestation_mediumroom"),
        Some(ReverbPreset::SpacestationMediumroom)
    );
    assert_eq!(reverb_name_to_ref("chapel"), Some(ReverbPreset::Chapel));
    assert_eq!(reverb_name_to_ref("cathedral"), None);
    assert_eq!(reverb_name_to_ref("Chapel"), None);
    assert_eq!(reverb_name_to_ref(""), None);
}

#[test]
fn a_new_or_stopped_source_needs_its_buffer() {
    assert!(needs_buffer(SourceState::Initial));
    assert!(needs_buffer(SourceState::Stopped));
    assert!(!needs_buffer(SourceState::Paused));
    assert!(!needs_buffer(SourceState::Playing));
    assert!(!needs_buffer(SourceState::Unknown));
}

#[test]
fn a_filter_lets_through_one_less_its_amount() {
    assert_eq!(filter_gain(0), 1000);
    assert_eq!(filter_gain(250), 750);
    assert_eq!(filter_gain(1000), 0);
    assert_eq!(filter_gain(1500), 0);
    assert_eq!(filter_gain(u32::MAX), 0);
}

#[test]
fn the_pool_lends_each_source_once() {
    let mut pool = OpenALBackend::with_sources(vec!["x", "y", "z"]);
    assert_eq!(pool.available(), 3);
    let mut lent = Vec::new();
    for left in (0..3).rev() {
        let source = pool.get_source().expect("a source is free");
        assert!(!source.used);
        assert!(1 <= source.id && source.id <= 3);
        assert_eq!(source.handle, ["x", "y", "z"][source.id as usize - 1]);
        assert_eq!(pool.available(), left);
        lent.push(source);
    }
    let mut ids: Vec<u32> = lent.iter().map(|s| s.id).collect();
    ids.sort();
    assert_eq!(ids, vec![1, 2, 3]);
    assert!(pool.get_source().is_none());
    assert_eq!(pool.available(), 0);

    let back = lent.pop().expect("three were lent");
    let id = back.id;
    assert!(pool.free_source(back, Ok(())).is_ok());
    assert_eq!(pool.available(), 1);
    let again = pool.get_source().expect("the source is free again");
    assert_eq!(again.id, id);
}

#[test]
fn a_source_whose_reset_failed_is_not_put_back() {
    let mut pool = OpenALBackend::with_sources(vec!["x"]);
    let source = pool.get_source().expect("a source is free");
    assert!(matches!(
        pool.free_source(source, Err(AudioBackendError::NoSource)),
        Err(AudioBackendError::NoSource)
    ));
    assert_eq!(pool.available(), 0);
    assert!(pool.get_source().is_none());
}

#[test]
fn a_source_in_use_or_numbered_zero_is_not_lent() {
    let mut pool: OpenALBackend<&str> = OpenALBackend::with_sources(vec!["first"]);
    assert!(pool.get_source().is_some());
    assert!(pool.get_source().is_none());
    assert!(pool.free_source(OpenALSource { id: 5, used: true, handle: "busy" }, Ok(())).is_ok());
    assert!(pool.free_source(OpenALSource { id: 0, used: false, handle: "zero" }, Ok(())).is_ok());
    assert_eq!(pool.available(), 2);
    assert!(pool.get_source().is_none());
    assert!(pool.free_source(OpenALSource { id: 9, used: false, handle: "free" }, Ok(())).is_ok());
    let source = pool.get_source().expect("a source is free");
    assert_eq!(source.id, 9);
    assert_eq!(source.handle, "free");
}

#[test]
fn a_sample_entered_twice_is_there_once() {
    let mut db = SamplesDB::new("/lib".to_string());
    assert_eq!(db.base_path(), "/lib");
    db.add_sample(1, "a.wav");
    db.add_sample(2, "b.wav");
    db.add_sample(1, "a.wav");
    assert_eq!(db.samples().len(), 2);
    assert_eq!(db.samples()[0].id, 1);
    assert_eq!(db.samples()[0].path, "a.wav");
    assert!(db.samples()[0].tags.is_empty());
    assert_eq!(db.samples()[1].id, 2);
    db.add_sample(2, "c.wav");
    assert_eq!(db.samples().len(), 2);
    assert_eq!(db.samples()[1].path, "c.wav");
}

#[test]
fn samples_are_found_by_their_path() {
    let mut db = SamplesDB::new("/lib".to_string());
    db.add_sample(4, "a.wav");
    db.add_sample(9, "dir/b.wav");
    db.add_sample(7, "a.wav");
    assert_eq!(db.sample_id_by_path("a.wav"), Some(4));
    assert_eq!(db.sample_id_by_path("dir/b.wav"), Some(9));
    assert_eq!(db.sample_id_by_path("b.wav"), None);
    assert_eq!(db.sample_id_by_path(""), None);
    assert!(db.contains(4));
    assert!(db.contains(7));
    assert!(!db.contains(5));
}

#[test]
fn the_full_path_lies_below_the_base() {
    let mut db = SamplesDB::new("/lib".to_string());
    db.add_sample(4, "dir/a.wav");
    db.add_sample(5, "b.wav");
    let full = db.full_path_of_sample(4);
    assert_eq!(full.base, "/lib");
    assert_eq!(full.relative, "dir/a.wav");
    let other = db.full_path_of_sample(5);
    assert_eq!(other.base, "/lib");
    assert_eq!(other.relative, "b.wav");
}

#[test]
fn six_extensions_count_as_samples() {
    for extension in ["aiff", "flac", "midi", "ogg", "wav", "mp3"] {
        assert!(is_supported_audio_file(extension));
    }
    for extension in ["", "txt", "WAV", "mp4", "wave"] {
        assert!(!is_supported_audio_file(extension));
    }
}

#[test]
fn the_library_lists_paths_and_tag_names() {
    let mut db = SamplesDB::new("/lib".to_string());
    db.add_sample(1, "a.wav");
    db.add_sample(2, "b.wav");
    let SoundLibrary { samples } = list_samples(&db);
    assert_eq!(samples, vec![("a.wav".to_string(), vec![]), ("b.wav".to_string(), vec![])]);
    let tag = Tag { id: 3, name: "wet".to_string() };
    assert_eq!(tag.name, "wet");
}

#[test]
fn drivers_are_numbered_from_zero() {
    let drivers = enumerate_drivers(vec!["A".to_string(), "B".to_string(), "C".to_string()]);
    let mut expected = HashMap::new();
    expected.insert(0usize, "A".to_string());
    expected.insert(1usize, "B".to_string());
    expected.insert(2usize, "C".to_string());
    assert_eq!(drivers, expected);
    assert!(enumerate_drivers(vec![]).is_empty());
}

#[test]
fn only_errors_are_bad_requests() {
    assert_eq!(http_status(&Response::Success), 200);
    assert_eq!(http_status(&Response::Error { message: "no".to_string() }), 400);
    assert_eq!(http_status(&Response::Driver { id: 0 }), 200);
    assert_eq!(http_status(&Response::DriverList { drivers: HashMap::new() }), 200);
    assert_eq!(http_status(&Response::SoundLibrary(SoundLibrary { samples: vec![] })), 200);
    let status = Status {
        playing: false,
        theme_loaded: false,
        theme: None,
        sounds_playing: vec![],
        sounds_playing_next: vec![],
        previewing: vec![],
    };
    assert_eq!(http_status(&Response::Status(status)), 200);
}

#[test]
fn a_request_is_let_through_with_the_token_only() {
    let auth = TokenAuthorization::new("secret");
    assert!(auth.authorizes("GET", Some("Bearer secret")));
    assert!(auth.authorizes("POST", Some("Bearer secret")));
    assert!(!auth.authorizes("GET", None));
    assert!(!auth.authorizes("GET", Some("")));
    assert!(!auth.authorizes("GET", Some("secret")));
    assert!(!auth.authorizes("GET", Some("Bearer")));
    assert!(!auth.authorizes("GET", Some("Bearer ")));
    assert!(!auth.authorizes("GET", Some("Bearer  secret")));
    assert!(!auth.authorizes("GET", Some("Bearer secret ")));
    assert!(!auth.authorizes("GET", Some("bearer secret")));
    assert!(!auth.authorizes("GET", Some("Bearer secre")));
    assert!(!auth.authorizes("GET", Some("Bearer secret x")));
    assert!(!auth.authorizes("GET", Some("Basic secret")));
}

#[test]
fn options_requests_need_no_token() {
    let auth = TokenAuthorization::new("secret");
    assert!(auth.authorizes("OPTIONS", None));
    assert!(auth.authorizes("OPTIONS", Some("nonsense")));
    assert!(!auth.authorizes("options", None));
}

#[test]
fn a_token_with_a_space_lets_nothing_through() {
    let auth = TokenAuthorization::new("two words");
    assert!(!auth.authorizes("GET", Some("Bearer two words")));
    assert!(!auth.authorizes("GET", Some("Bearer two")));
    let empty = TokenAuthorization::new("");
    assert!(empty.authorizes("GET", Some("Bearer ")));
    assert!(!empty.authorizes("GET", Some("Bearer")));
}

#[test]
fn loader_errors_say_what_failed() {
    assert_eq!(
        AudioFileLoaderError::FileLoadError("a.wav".to_string(), "gone".to_string()).message(),
        "Failed to load file 'a.wav': gone"
    );
    assert_eq!(
        AudioFileLoaderError::UnsupportedFileFormat("txt".to_string(), "a.txt".to_string())
            .message(),
        "Unsupported file format 'txt' for file 'a.txt'"
    );
}

#[test]
fn backend_errors_say_what_failed() {
    assert_eq!(AudioBackendError::NoSource.message(), "AudioBackend Operation on empty source!");
    assert_eq!(
        AudioBackendError::AudioFileLoaderError(AudioFileLoaderError::FileLoadError(
            "a.wav".to_string(),
            "gone".to_string()
        ))
        .message(),
        "AudioBackend FileLoader Error: Failed to load file 'a.wav': gone"
    );
    let text = AudioBackendError::AltoError(alto::AltoError::InvalidValue).message();
    assert_eq!(text, format!("AudioBackend AltoError: {}", alto::AltoError::InvalidValue));
    assert!(text.len() > "AudioBackend AltoError: ".len());
    let other = AudioBackendError::AltoError(alto::AltoError::OutOfMemory).message();
    assert_ne!(text, other);
}

#[test]
fn engine_errors_say_what_failed() {
    assert_eq!(
        AudioEngineError::SampleNotFound("a.wav".to_string()).message(),
        "AudioEngine Sample not found at path a.wav"
    );
    assert_eq!(
        AudioEngineError::AudioBackendError(AudioBackendError::NoSource).message(),
        "AudioEngine AudioBackend Error: AudioBackend Operation on empty source!"
    );
}

#[test]
fn errors_convert_upward() {
    let loader = AudioFileLoaderError::FileLoadError("a".to_string(), "b".to_string());
    let backend = AudioBackendError::from(loader);
    assert!(matches!(backend, AudioBackendError::AudioFileLoaderError(_)));
    let engine = AudioEngineError::from(backend);
    assert!(matches!(
        engine,
        AudioEngineError::AudioBackendError(AudioBackendError::AudioFileLoaderError(_))
    ));
    let alto = AudioBackendError::from(alto::AltoError::InvalidName);
    assert!(matches!(alto, AudioBackendError::AltoError(alto::AltoError::InvalidName)));
}

#[test]
fn a_path_without_a_dot_has_no_loader() {
    for path in ["mp3", "/lib/mp3", "wav", ""] {
        match get_loader_for_file(path) {
            Err(AudioFileLoaderError::UnsupportedFileFormat(extension, file)) => {
                assert_eq!(extension, "");
                assert_eq!(file, path);
            }
            _ => panic!("a path without a dot has no loader"),
        }
    }
}

#[test]
fn a_pool_of_the_full_size_lends_every_source() {
    assert_eq!(POOL_SIZE, 32);
    let mut pool = OpenALBackend::with_sources((0..POOL_SIZE).collect::<Vec<usize>>());
    assert_eq!(pool.available(), 32);
    for _ in 0..32 {
        assert!(pool.get_source().is_some());
    }
    assert!(pool.get_source().is_none());
}

#[test]
fn an_entity_borrows_one_source_and_keeps_it() {
    let mut pool = OpenALBackend::with_sources(vec!["x", "y"]);
    let mut slot = SourceSlot::new();
    assert!(!slot.is_bound());
    assert!(matches!(slot.require(), Err(AudioBackendError::NoSource)));
    assert!(slot.acquire(&mut pool));
    assert!(slot.is_bound());
    assert!(slot.require().is_ok());
    assert_eq!(pool.available(), 1);
    let id = slot.source.as_ref().map(|s| s.id);
    assert!(slot.acquire(&mut pool));
    assert_eq!(slot.source.as_ref().map(|s| s.id), id);
    assert_eq!(pool.available(), 1);
}

#[test]
fn an_entity_stays_without_a_source_when_the_pool_is_empty() {
    let mut pool = OpenALBackend::with_sources(vec!["x"]);
    let mut first = SourceSlot::new();
    let mut second = SourceSlot::new();
    assert!(first.acquire(&mut pool));
    assert!(!second.acquire(&mut pool));
    assert!(!second.is_bound());
    assert!(matches!(second.require(), Err(AudioBackendError::NoSource)));
}

#[test]
fn a_second_stop_changes_nothing() {
    let mut pool = OpenALBackend::with_sources(vec!["x"]);
    let mut slot = SourceSlot::new();
    assert!(slot.acquire(&mut pool));
    let source = slot.release().expect("the source is handed out");
    assert!(!slot.is_bound());
    assert!(pool.free_source(source, Ok(())).is_ok());
    assert_eq!(pool.available(), 1);
    assert!(slot.release().is_none());
    assert!(!slot.is_bound());
    assert_eq!(pool.available(), 1);
}

#[test]
fn the_reverb_is_cleared_or_applied() {
    assert_eq!(REVERB_SEND, 0);
    assert_eq!(plan_reverb("none", true), ReverbPlan::Clear);
    assert_eq!(plan_reverb("none", false), ReverbPlan::Clear);
    assert_eq!(plan_reverb("cathedral", true), ReverbPlan::Clear);
    assert_eq!(
        plan_reverb("forest", false),
        ReverbPlan::Apply { preset: ReverbPreset::Forest, make: true }
    );
    assert_eq!(
        plan_reverb("chapel", true),
        ReverbPlan::Apply { preset: ReverbPreset::Chapel, make: false }
    );
}

#[test]
fn the_extension_of_a_plain_name_is_what_follows_its_last_dot() {
    assert!(matches!(get_loader_for_file("rain.mp3"), Ok(LoaderKind::MiniMP3)));
    assert!(matches!(get_loader_for_file("rain.wav.mp3"), Ok(LoaderKind::MiniMP3)));
    assert!(matches!(get_loader_for_file("rain.mp3.ogg"), Ok(LoaderKind::SndFile)));
    for (path, expected) in [
        ("rain.mp3.txt", "txt"),
        ("rain.", ""),
        (".mp3", ""),
        ("mp3", ""),
        ("..", ""),
        (".", ""),
        ("", ""),
        ("..mp3x", "mp3x"),
    ] {
        match get_loader_for_file(path) {
            Err(AudioFileLoaderError::UnsupportedFileFormat(extension, file)) => {
                assert_eq!(extension, expected);
                assert_eq!(file, path);
            }
            _ => panic!("the file has no loader"),
        }
    }
    assert!(matches!(get_loader_for_file(".a.mp3"), Ok(LoaderKind::MiniMP3)));
    assert!(matches!(get_loader_for_file("..mp3"), Ok(LoaderKind::MiniMP3)));
}

#[test]
fn one_filter_serves_low_pass_and_high_pass() {
    assert_eq!(plan_filter(250, false), FilterPlan { make: true, gain: 750 });
    assert_eq!(plan_filter(250, true), FilterPlan { make: false, gain: 750 });
    assert_eq!(plan_filter(1200, true), FilterPlan { make: false, gain: 0 });
}
