//! The state machine of one entity, tick by tick, on chosen inputs.

use sinfonia::audio_engine::backends::base::AudioEntityData;
use sinfonia::audio_engine::backends::error::AudioBackendError;
use sinfonia::audio_engine::engine::entity::{volume_at, AudioEntity};
use sinfonia::audio_engine::engine::error::AudioEngineError;
use sinfonia::audio_engine::engine::model::{
    AudioEntityParameters, AudioEntityState, BackendOp, TickInput,
};
use sinfonia::audio_engine::engine::random::{get_random_level, get_random_value};
use sinfonia::theme::Sound;

/// A handle that keeps a record and refuses what it is told to refuse.
#[derive(Default)]
struct Handle {
    calls: Vec<String>,
    refuse_volume: bool,
    position: u32,
    sounding: bool,
}

impl AudioEntityData for Handle {
    type Backend = Vec<String>;

    fn pause(&mut self) {
        self.calls.push("pause".to_string());
    }

    fn play(&mut self, backend: &mut Vec<String>) {
        backend.push("play".to_string());
        self.calls.push("play".to_string());
    }

    fn stop(&mut self, backend: &mut Vec<String>) -> Result<(), AudioBackendError> {
        backend.push("stop".to_string());
        self.calls.push("stop".to_string());
        Ok(())
    }

    fn is_playing(&mut self) -> bool {
        self.sounding
    }

    fn set_volume(&mut self, volume: u32) -> Result<(), AudioBackendError> {
        if self.refuse_volume {
            return Err(AudioBackendError::NoSource);
        }
        self.calls.push(format!("volume {}", volume));
        Ok(())
    }

    fn set_pitch(&mut self, pitch: u32) -> Result<(), AudioBackendError> {
        self.calls.push(format!("pitch {}", pitch));
        Ok(())
    }

    fn set_lowpass(&mut self, amount: u32) -> Result<(), AudioBackendError> {
        self.calls.push(format!("lowpass {}", amount));
        Ok(())
    }

    fn set_highpass(&mut self, amount: u32) -> Result<(), AudioBackendError> {
        self.calls.push(format!("highpass {}", amount));
        Ok(())
    }

    fn set_reverb(&mut self, reverb: &str) -> Result<(), AudioBackendError> {
        self.calls.push(format!("reverb {}", reverb));
        Ok(())
    }

    fn get_position(&mut self) -> u32 {
        self.position
    }
}

fn entity() -> AudioEntity<Handle> {
    AudioEntity::new(Handle::default(), Sound::new("s".to_string(), "s.wav".to_string(), (700, 700)))
}

fn entity_in(state: AudioEntityState) -> AudioEntity<Handle> {
    let mut e = entity();
    e.switch_state(state);
    e
}

fn input() -> TickInput {
    TickInput {
        delta: 50,
        delay: 0,
        count: 0,
        volume: 0,
        pitch: 0,
        lowpass: 0,
        highpass: 0,
        fade_in: 0,
        position: 0,
        is_playing: false,
    }
}

#[test]
fn a_new_entity_is_virgin_with_one_loop() {
    let e = entity();
    assert_eq!(e.parameters.state, AudioEntityState::Virgin);
    assert_eq!(e.parameters.next_play, 0);
    assert_eq!(e.parameters.repeats, 0);
    assert_eq!(e.parameters.loops, 1);
    assert_eq!(e.parameters.fade_in, 0);
    assert_eq!(e.parameters.max_volume, 1000);
    assert!(!e.is_triggered);
    assert!(!e.is_preview);
    let p = AudioEntityParameters::new();
    assert_eq!(p.state, AudioEntityState::Virgin);
    assert_eq!(p.loops, 1);
}

#[test]
fn switch_state_changes_the_state_only() {
    let mut e = entity();
    e.switch_state(AudioEntityState::Loop);
    assert!(e.is_in_state(&AudioEntityState::Loop));
    assert!(!e.is_in_state(&AudioEntityState::Virgin));
    assert_eq!(e.parameters.loops, 1);
    assert_eq!(e.sound.name, "s");
}

#[test]
fn virgin_takes_its_delay_and_loops_from_the_draw() {
    let mut e = entity();
    let ops = e.advance(&TickInput { delay: 1200, count: 3, ..input() });
    assert!(ops.is_empty());
    assert_eq!(e.parameters.state, AudioEntityState::PrepareRun);
    assert_eq!(e.parameters.next_play, 1200);
    assert_eq!(e.parameters.loops, 3);
}

#[test]
fn virgin_with_a_trigger_waits_unless_previewed() {
    let mut e = entity();
    e.sound.trigger = Some("s".to_string());
    e.advance(&input());
    assert_eq!(e.parameters.state, AudioEntityState::WaitingForTrigger);

    let mut p = entity();
    p.sound.trigger = Some("s".to_string());
    p.is_preview = true;
    p.advance(&input());
    assert_eq!(p.parameters.state, AudioEntityState::PrepareRun);
}

#[test]
fn waiting_for_trigger_stays_until_triggered() {
    let mut e = entity_in(AudioEntityState::WaitingForTrigger);
    assert!(e.advance(&input()).is_empty());
    assert_eq!(e.parameters.state, AudioEntityState::WaitingForTrigger);
    e.toggle_trigger();
    assert!(e.is_triggered);
    assert!(e.advance(&input()).is_empty());
    assert_eq!(e.parameters.state, AudioEntityState::WaitingForStart);
    assert!(!e.is_triggered);
}

#[test]
fn prepare_run_takes_its_repeats_from_the_draw() {
    let mut e = entity_in(AudioEntityState::PrepareRun);
    e.advance(&TickInput { count: 4, ..input() });
    assert_eq!(e.parameters.repeats, 4);
    assert_eq!(e.parameters.state, AudioEntityState::WaitingForStart);

    let mut p = entity_in(AudioEntityState::PrepareRun);
    p.is_preview = true;
    p.advance(&TickInput { count: 4, ..input() });
    assert_eq!(p.parameters.state, AudioEntityState::Starting);
}

#[test]
fn waiting_for_start_counts_the_delay_down_to_zero() {
    let mut e = entity_in(AudioEntityState::WaitingForStart);
    e.parameters.next_play = 120;
    e.advance(&input());
    assert_eq!(e.parameters.next_play, 70);
    assert_eq!(e.parameters.state, AudioEntityState::WaitingForStart);
    e.advance(&input());
    assert_eq!(e.parameters.next_play, 20);
    assert_eq!(e.parameters.state, AudioEntityState::WaitingForStart);
    e.advance(&input());
    assert_eq!(e.parameters.next_play, 0);
    assert_eq!(e.parameters.state, AudioEntityState::Starting);
}

#[test]
fn waiting_for_start_with_the_exact_delta_starts() {
    let mut e = entity_in(AudioEntityState::WaitingForStart);
    e.parameters.next_play = 50;
    e.advance(&input());
    assert_eq!(e.parameters.next_play, 0);
    assert_eq!(e.parameters.state, AudioEntityState::Starting);
}

#[test]
fn starting_without_extras_plays_at_the_drawn_volume() {
    let mut e = entity_in(AudioEntityState::Starting);
    let ops = e.advance(&TickInput { volume: 640, pitch: 9, fade_in: 9, ..input() });
    assert_eq!(ops, vec![BackendOp::Play, BackendOp::SetVolume(640), BackendOp::SetReverb]);
    assert_eq!(e.parameters.state, AudioEntityState::Playing);
    assert_eq!(e.parameters.max_volume, 640);
    assert_eq!(e.parameters.fade_in, 0);
}

#[test]
fn starting_with_every_extra_sets_them_in_order_and_starts_silent() {
    let mut e = entity_in(AudioEntityState::Starting);
    e.sound.pitch_enabled = true;
    e.sound.lowpass_enabled = true;
    e.sound.highpass_enabled = true;
    e.sound.fade_in_enabled = true;
    let ops = e.advance(&TickInput {
        volume: 640,
        pitch: 1100,
        lowpass: 200,
        highpass: 300,
        fade_in: 400,
        ..input()
    });
    assert_eq!(
        ops,
        vec![
            BackendOp::Play,
            BackendOp::SetPitch(1100),
            BackendOp::SetLowpass(200),
            BackendOp::SetHighpass(300),
            BackendOp::SetVolume(0),
            BackendOp::SetReverb,
        ]
    );
    assert_eq!(e.parameters.max_volume, 640);
    assert_eq!(e.parameters.fade_in, 400);
}

#[test]
fn playing_sets_the_envelope_and_stays_while_the_sample_sounds() {
    let mut e = entity_in(AudioEntityState::Playing);
    e.sound.fade_in_enabled = true;
    e.parameters.fade_in = 500;
    e.parameters.max_volume = 800;
    let ops = e.advance(&TickInput { position: 250, is_playing: true, ..input() });
    assert_eq!(ops, vec![BackendOp::SetVolume(400)]);
    assert_eq!(e.parameters.state, AudioEntityState::Playing);
    let ops = e.advance(&TickInput { position: 500, is_playing: false, ..input() });
    assert_eq!(ops, vec![BackendOp::SetVolume(800)]);
    assert_eq!(e.parameters.state, AudioEntityState::Repeat);
}

#[test]
fn playing_with_a_pending_trigger_resets_once_the_sample_is_silent() {
    let mut e = entity_in(AudioEntityState::Playing);
    e.sound.trigger = Some("s".to_string());
    e.is_triggered = true;
    e.advance(&TickInput { is_playing: true, ..input() });
    assert_eq!(e.parameters.state, AudioEntityState::Playing);
    assert!(e.is_triggered);
    let ops = e.advance(&TickInput { is_playing: false, ..input() });
    assert_eq!(ops, vec![BackendOp::SetVolume(1000), BackendOp::Stop]);
    assert_eq!(e.parameters.state, AudioEntityState::Reset);
    assert!(!e.is_triggered);
    assert_eq!(e.advance(&input()), vec![BackendOp::Stop]);
    assert_eq!(e.parameters.state, AudioEntityState::Virgin);
    assert!(e.advance(&input()).is_empty());
    assert_eq!(e.parameters.state, AudioEntityState::WaitingForTrigger);
}

#[test]
fn a_trigger_on_a_sound_without_trigger_does_not_cancel() {
    let mut e = entity_in(AudioEntityState::Playing);
    e.is_triggered = true;
    e.advance(&input());
    assert_eq!(e.parameters.state, AudioEntityState::Repeat);
    assert!(e.is_triggered);
}

#[test]
fn repeat_counts_down_and_draws_a_delay() {
    let mut e = entity_in(AudioEntityState::Repeat);
    e.parameters.repeats = 2;
    assert!(e.advance(&TickInput { delay: 300, ..input() }).is_empty());
    assert_eq!(e.parameters.repeats, 1);
    assert_eq!(e.parameters.next_play, 300);
    assert_eq!(e.parameters.state, AudioEntityState::WaitingForStart);
}

#[test]
fn repeat_without_repeats_goes_to_loop_or_ends_the_preview() {
    let mut e = entity_in(AudioEntityState::Repeat);
    e.advance(&TickInput { delay: 300, ..input() });
    assert_eq!(e.parameters.state, AudioEntityState::Loop);
    assert_eq!(e.parameters.next_play, 0);

    let mut p = entity_in(AudioEntityState::Repeat);
    p.is_preview = true;
    p.advance(&input());
    assert_eq!(p.parameters.state, AudioEntityState::Virgin);
    assert!(!p.is_preview);
}

#[test]
fn loop_stops_the_sample_and_counts_down() {
    let mut e = entity_in(AudioEntityState::Loop);
    e.parameters.loops = 1;
    assert_eq!(e.advance(&TickInput { delay: 900, ..input() }), vec![BackendOp::Stop]);
    assert_eq!(e.parameters.loops, 0);
    assert_eq!(e.parameters.next_play, 900);
    assert_eq!(e.parameters.state, AudioEntityState::PrepareRun);
    e.switch_state(AudioEntityState::Loop);
    assert_eq!(e.advance(&TickInput { delay: 900, ..input() }), vec![BackendOp::Stop]);
    assert_eq!(e.parameters.state, AudioEntityState::Finished);
}

#[test]
fn a_sound_that_loops_forever_keeps_its_loops() {
    let mut e = entity_in(AudioEntityState::Loop);
    e.sound.loop_forever = true;
    e.parameters.loops = 0;
    for _ in 0..5 {
        e.switch_state(AudioEntityState::Loop);
        e.advance(&input());
        assert_eq!(e.parameters.state, AudioEntityState::PrepareRun);
        assert_eq!(e.parameters.loops, 0);
    }
}

#[test]
fn finished_dies_or_resets_for_a_trigger() {
    let mut e = entity_in(AudioEntityState::Finished);
    assert!(e.advance(&input()).is_empty());
    assert_eq!(e.parameters.state, AudioEntityState::Dead);
    assert!(e.advance(&input()).is_empty());
    assert_eq!(e.parameters.state, AudioEntityState::Dead);

    let mut t = entity_in(AudioEntityState::Finished);
    t.sound.trigger = Some("s".to_string());
    t.advance(&input());
    assert_eq!(t.parameters.state, AudioEntityState::Reset);
}

#[test]
fn preview_goes_through_reset() {
    let mut e = entity();
    e.start_preview();
    assert!(e.is_preview);
    assert_eq!(e.parameters.state, AudioEntityState::Preview);
    assert!(e.advance(&input()).is_empty());
    assert_eq!(e.parameters.state, AudioEntityState::Reset);
}

#[test]
fn the_envelope_is_the_share_of_the_fade_that_has_passed() {
    assert_eq!(volume_at(true, 500, 800, 250), 400);
    assert_eq!(volume_at(true, 500, 800, 0), 0);
    assert_eq!(volume_at(true, 500, 800, 499), 798);
    assert_eq!(volume_at(true, 500, 800, 500), 800);
    assert_eq!(volume_at(true, 500, 800, 900), 800);
    assert_eq!(volume_at(true, 3, 1000, 1), 333);
    assert_eq!(volume_at(false, 500, 800, 250), 800);
    assert_eq!(volume_at(true, 0, 800, 0), 800);
    assert_eq!(volume_at(true, u32::MAX, u32::MAX, u32::MAX - 1), u32::MAX - 1);
}

#[test]
fn a_point_is_drawn_as_it_is() {
    for _ in 0..50 {
        assert_eq!(get_random_value((5, 5)), 5);
        assert_eq!(get_random_value((0, 0)), 0);
        assert_eq!(get_random_value((u64::MAX, u64::MAX)), u64::MAX);
        assert_eq!(get_random_level((1000, 1000)), 1000);
    }
}

#[test]
fn a_range_is_drawn_from_below_its_upper_bound() {
    let mut seen = std::collections::HashSet::new();
    for _ in 0..500 {
        let v = get_random_value((10, 1_000_000));
        assert!(10 <= v && v < 1_000_000);
        seen.insert(v);
    }
    assert!(seen.len() > 1);
    for _ in 0..200 {
        assert_eq!(get_random_value((7, 8)), 7);
        let l = get_random_level((250, 750));
        assert!(250 <= l && l < 750);
    }
}

#[test]
fn update_draws_from_the_ranges_of_the_sound() {
    let mut e = entity();
    e.sound.loop_delay = (100, 200);
    e.sound.loop_count = (2, 5);
    let mut backend = Vec::new();
    assert!(e.update(&mut backend, 50).is_ok());
    assert_eq!(e.parameters.state, AudioEntityState::PrepareRun);
    assert!(100 <= e.parameters.next_play && e.parameters.next_play < 200);
    assert!(2 <= e.parameters.loops && e.parameters.loops < 5);
}

#[test]
fn update_runs_a_whole_schedule_against_the_backend() {
    let mut e = entity();
    e.sound.repeat_count = (1, 1);
    let mut backend = Vec::new();
    let mut states = Vec::new();
    for _ in 0..12 {
        assert!(e.update(&mut backend, 50).is_ok());
        states.push(e.parameters.state);
    }
    assert_eq!(
        states,
        vec![
            AudioEntityState::PrepareRun,
            AudioEntityState::WaitingForStart,
            AudioEntityState::Starting,
            AudioEntityState::Playing,
            AudioEntityState::Repeat,
            AudioEntityState::WaitingForStart,
            AudioEntityState::Starting,
            AudioEntityState::Playing,
            AudioEntityState::Repeat,
            AudioEntityState::Loop,
            AudioEntityState::Finished,
            AudioEntityState::Dead,
        ]
    );
    assert_eq!(backend, vec!["play", "play", "stop"]);
    assert_eq!(
        e.object.calls,
        vec![
            "play", "volume 700", "reverb none", "volume 700", "play", "volume 700", "reverb none",
            "volume 700", "stop"
        ]
    );
}

#[test]
fn update_reads_position_and_sounding_from_the_backend() {
    let mut e = entity_in(AudioEntityState::Playing);
    e.sound.fade_in_enabled = true;
    e.parameters.fade_in = 400;
    e.parameters.max_volume = 1000;
    e.object.position = 100;
    e.object.sounding = true;
    let mut backend = Vec::new();
    assert!(e.update(&mut backend, 50).is_ok());
    assert_eq!(e.object.calls, vec!["volume 250"]);
    assert_eq!(e.parameters.state, AudioEntityState::Playing);
}

#[test]
fn update_hands_on_what_the_backend_refuses_and_moves_on_all_the_same() {
    let mut e = entity_in(AudioEntityState::Starting);
    e.object.refuse_volume = true;
    let mut backend = Vec::new();
    match e.update(&mut backend, 50) {
        Err(AudioEngineError::AudioBackendError(AudioBackendError::NoSource)) => {}
        _ => panic!("the refusal is handed on"),
    }
    assert_eq!(e.parameters.state, AudioEntityState::Playing);
    // What follows the refused instruction is left out.
    assert_eq!(e.object.calls, vec!["play"]);
    match e.update(&mut backend, 50) {
        Err(AudioEngineError::AudioBackendError(AudioBackendError::NoSource)) => {}
        _ => panic!("the refusal is handed on"),
    }
    assert_eq!(e.parameters.state, AudioEntityState::Repeat);
}

#[test]
fn pause_play_and_stop_reach_the_handle() {
    let mut e = entity();
    let mut backend = Vec::new();
    e.pause(true);
    e.pause(false);
    e.play(&mut backend);
    assert!(e.stop(&mut backend).is_ok());
    assert_eq!(e.object.calls, vec!["pause", "pause", "play", "stop"]);
    assert_eq!(backend, vec!["play", "stop"]);
    assert_eq!(e.parameters.state, AudioEntityState::Virgin);
}

#[test]
fn perform_tells_the_backend_in_order() {
    let mut e = entity();
    e.sound.reverb = "chapel".to_string();
    let mut backend = Vec::new();
    let ops = vec![
        BackendOp::Play,
        BackendOp::SetPitch(1),
        BackendOp::SetLowpass(2),
        BackendOp::SetHighpass(3),
        BackendOp::SetVolume(4),
        BackendOp::SetReverb,
        BackendOp::Stop,
    ];
    assert!(e.perform(&ops, &mut backend).is_ok());
    assert_eq!(
        e.object.calls,
        vec!["play", "pitch 1", "lowpass 2", "highpass 3", "volume 4", "reverb chapel", "stop"]
    );
    assert!(e.perform(&Vec::new(), &mut backend).is_ok());
}

#[test]
fn every_state_has_its_name() {
    assert_eq!(AudioEntityState::Virgin.name(), "Virgin");
    assert_eq!(AudioEntityState::Preview.name(), "Preview");
    assert_eq!(AudioEntityState::PrepareRun.name(), "PrepareRun");
    assert_eq!(AudioEntityState::WaitingForStart.name(), "WaitingForStart");
    assert_eq!(AudioEntityState::WaitingForTrigger.name(), "WaitingForTrigger");
    assert_eq!(AudioEntityState::Starting.name(), "Starting");
    assert_eq!(AudioEntityState::Playing.name(), "Playing");
    assert_eq!(AudioEntityState::Repeat.name(), "Repeat");
    assert_eq!(AudioEntityState::Loop.name(), "Loop");
    assert_eq!(AudioEntityState::Finished.name(), "Finished");
    assert_eq!(AudioEntityState::Reset.name(), "Reset");
    assert_eq!(AudioEntityState::Dead.name(), "Dead");
}

#[test]
fn the_states_follow_from_delays_counts_and_the_backend_alone() {
    let mut a = entity();
    let mut b = entity();
    b.sound.volume = (0, 1000);
    b.sound.pitch_enabled = true;
    b.sound.fade_in_enabled = true;
    b.sound.reverb = "forest".to_string();
    b.is_triggered = true;
    let sounding = [false, false, false, false, true, true, false, false, false, true, false];
    for (i, playing) in sounding.iter().cycle().take(60).enumerate() {
        let shared = TickInput {
            delta: 40,
            delay: (i as u64 % 3) * 50,
            count: (i as u32 + 1) % 3,
            is_playing: *playing,
            ..input()
        };
        a.advance(&TickInput { volume: 700, position: 10, ..shared });
        b.advance(&TickInput { volume: 300, pitch: 1200, fade_in: 500, position: 900, ..shared });
        assert_eq!(a.parameters.state, b.parameters.state);
        assert_eq!(a.parameters.next_play, b.parameters.next_play);
        assert_eq!(a.parameters.repeats, b.parameters.repeats);
        assert_eq!(a.parameters.loops, b.parameters.loops);
    }
    assert_eq!(a.parameters.state, AudioEntityState::Dead);
}

#[test]
fn each_loop_iteration_starts_one_play_more_than_its_repeats() {
    let mut e = entity();
    e.sound.loop_count = (1, 1);
    e.sound.repeat_count = (2, 2);
    let mut backend = Vec::new();
    let mut plays_at_each_loop = Vec::new();
    for _ in 0..60 {
        if e.parameters.state == AudioEntityState::Loop {
            plays_at_each_loop.push(backend.iter().filter(|call| *call == "play").count());
        }
        assert!(e.update(&mut backend, 50).is_ok());
    }
    assert_eq!(e.parameters.state, AudioEntityState::Dead);
    assert_eq!(plays_at_each_loop, vec![3, 6]);
    assert_eq!(backend.iter().filter(|call| *call == "stop").count(), 2);
}

#[test]
fn a_sound_that_loops_forever_is_never_finished() {
    let mut e = entity();
    e.sound.loop_forever = true;
    let mut backend = Vec::new();
    for _ in 0..300 {
        assert!(e.update(&mut backend, 50).is_ok());
        assert_ne!(e.parameters.state, AudioEntityState::Finished);
        assert_ne!(e.parameters.state, AudioEntityState::Dead);
    }
    assert!(backend.iter().filter(|call| *call == "play").count() > 30);
}

#[test]
fn a_new_entity_is_told_to_play_before_anything_else() {
    let mut e = entity();
    e.sound.trigger = Some("s".to_string());
    e.sound.pitch_enabled = true;
    let mut told = Vec::new();
    for i in 0..10 {
        if i == 3 {
            e.toggle_trigger();
        }
        told.extend(e.advance(&TickInput { delay: 60, ..input() }));
    }
    assert_eq!(told[0], BackendOp::Play);
    assert_eq!(told[1], BackendOp::SetPitch(0));
}

#[test]
fn plays_are_never_refused() {
    let mut e = entity();
    e.object.refuse_volume = true;
    let mut backend = Vec::new();
    assert!(e.perform(&vec![BackendOp::Play, BackendOp::Play], &mut backend).is_ok());
    assert_eq!(backend, vec!["play", "play"]);
    assert!(e.perform(&vec![BackendOp::Play, BackendOp::SetVolume(1)], &mut backend).is_err());
}

#[test]
fn update_cancels_a_play_with_a_stop_in_the_same_tick() {
    let mut e = entity_in(AudioEntityState::Playing);
    e.sound.trigger = Some("s".to_string());
    e.is_triggered = true;
    e.object.sounding = false;
    let mut backend = Vec::new();
    match e.update(&mut backend, 50) {
        Ok(told) => assert_eq!(told, vec![BackendOp::SetVolume(1000), BackendOp::Stop]),
        Err(_) => panic!("nothing is refused"),
    }
    assert_eq!(e.object.calls, vec!["volume 1000", "stop"]);
    assert_eq!(backend, vec!["stop"]);
    assert_eq!(e.parameters.state, AudioEntityState::Reset);
    assert!(!e.is_triggered);
}

#[test]
fn update_returns_what_the_backend_was_told() {
    let mut e = entity_in(AudioEntityState::Starting);
    let mut backend = Vec::new();
    match e.update(&mut backend, 50) {
        Ok(told) => assert_eq!(
            told,
            vec![BackendOp::Play, BackendOp::SetVolume(700), BackendOp::SetReverb]
        ),
        Err(_) => panic!("nothing is refused"),
    }
    let mut idle = entity_in(AudioEntityState::Dead);
    match idle.update(&mut backend, 50) {
        Ok(told) => assert!(told.is_empty()),
        Err(_) => panic!("nothing is refused"),
    }
}

#[test]
fn a_sound_without_a_pending_trigger_is_not_stopped_when_it_ends() {
    let mut e = entity_in(AudioEntityState::Playing);
    e.sound.trigger = Some("s".to_string());
    assert_eq!(e.advance(&input()), vec![BackendOp::SetVolume(1000)]);
    assert_eq!(e.parameters.state, AudioEntityState::Repeat);
    let mut playing = entity_in(AudioEntityState::Playing);
    playing.sound.trigger = Some("s".to_string());
    playing.is_triggered = true;
    let ops = playing.advance(&TickInput { is_playing: true, ..input() });
    assert_eq!(ops, vec![BackendOp::SetVolume(1000)]);
    assert_eq!(playing.parameters.state, AudioEntityState::Playing);
}
