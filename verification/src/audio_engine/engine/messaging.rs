//! How the controller answers commands.

use std::collections::HashMap;
use vstd::prelude::*;
use vstd::string::*;

use crate::audio_engine::backends::base::AudioBackend;
use crate::audio_engine::backends::error::AudioBackendError;
use crate::audio_engine::engine::error::AudioEngineError;
use crate::audio_engine::engine::{
    distinct_names, entered, find_entity, lemma_position, lemma_same_sounds, loaded, position_of,
    sounds_wf, all_fresh, views, AudioController, ControllerView, FadeState,
};
use crate::audio_engine::engine::entity::AudioEntity;
use crate::audio_engine::engine::model::{
    fresh_entity, in_state, AudioEntityState, EntityView,
};
use crate::audio_engine::messages::{answers, Command, Response, SoundLibrary, Status};
use crate::level::Level;
use crate::samplesdb::{Sample, SamplesDB, Tag};
use crate::theme::{SoundView, Theme, ThemeView};

verus! {

/// `e` as a preview that is about to begin.
pub open spec fn previewed(e: EntityView) -> EntityView {
    EntityView { is_preview: true, ..in_state(e, AudioEntityState::Preview) }
}

/// `e` with its trigger toggled.
pub open spec fn toggled(e: EntityView) -> EntityView {
    EntityView { is_triggered: !e.is_triggered, ..e }
}

/// The smaller of two levels.
pub open spec fn lower(a: Level, b: Level) -> Level {
    if a <= b {
        a
    } else {
        b
    }
}

/// Tells whether the controller does what `command` asks. Of the commands
/// that act, playing and pausing need a theme, previewing and triggering
/// need a sound of the given name. Loading a theme is not decided here.
pub open spec fn accepts(c: ControllerView, command: Command) -> bool {
    match command {
        Command::Play | Command::Pause => c.theme_loaded,
        Command::PreviewSound { sound } => position_of(c.entities, sound@) is Some,
        Command::Trigger { sound } => position_of(c.entities, sound@) is Some,
        _ => true,
    }
}

/// The message with which a command is turned down.
pub open spec fn refusal(command: Command) -> Seq<char> {
    match command {
        Command::PreviewSound { sound } => no_such_sound(sound@),
        Command::Trigger { sound } => "Unknown sound '"@ + sound@ + "'!"@,
        _ => "No theme loaded!"@,
    }
}

/// The controller after a command that it accepts.
pub open spec fn carried_out(c: ControllerView, command: Command) -> ControllerView {
    match command {
        Command::Play => ControllerView { playing: true, ..c },
        Command::Pause => ControllerView { playing: false, ..c },
        Command::PreviewSound { sound } => {
            let i = position_of(c.entities, sound@)->0;
            c.with_entities(c.entities.update(i, previewed(c.entities[i])))
        },
        Command::Trigger { sound } => {
            let i = position_of(c.entities, sound@)->0;
            c.with_entities(c.entities.update(i, toggled(c.entities[i])))
        },
        Command::SetVolume { value } => ControllerView {
            master_volume: value,
            fade: FadeState { current: lower(c.fade.current, value), ..c.fade },
            ..c
        },
        Command::LoadTheme { theme } => ControllerView {
            pending: Some(loaded(theme@.sounds)),
            theme_name: Some(theme@.name),
            theme_loaded: true,
            ..c
        },
        _ => c,
    }
}

/// The names of the sounds of those of `entities` that are in `state`.
pub open spec fn names_in_state(entities: Seq<EntityView>, state: AudioEntityState) -> Seq<
    Seq<char>,
>
    decreases entities.len(),
{
    if entities.len() == 0 {
        Seq::empty()
    } else {
        let before = names_in_state(entities.drop_last(), state);
        if entities.last().parameters.state == state {
            before.push(entities.last().sound.name)
        } else {
            before
        }
    }
}

/// The names of the sounds of those of `entities` that run as a preview.
pub open spec fn names_previewing(entities: Seq<EntityView>) -> Seq<Seq<char>>
    decreases entities.len(),
{
    if entities.len() == 0 {
        Seq::empty()
    } else {
        let before = names_previewing(entities.drop_last());
        if entities.last().is_preview {
            before.push(entities.last().sound.name)
        } else {
            before
        }
    }
}

/// Those of `entities` that wait for their start, each by the name of its
/// sound and the whole seconds that are left.
pub open spec fn names_upcoming(entities: Seq<EntityView>) -> Seq<(Seq<char>, u64)>
    decreases entities.len(),
{
    if entities.len() == 0 {
        Seq::empty()
    } else {
        let before = names_upcoming(entities.drop_last());
        if entities.last().parameters.state == AudioEntityState::WaitingForStart {
            before.push((entities.last().sound.name, entities.last().parameters.next_play / 1000))
        } else {
            before
        }
    }
}

/// The strings of `names` as sequences of characters.
pub open spec fn texts(names: Seq<String>) -> Seq<Seq<char>> {
    Seq::new(names.len(), |i: int| names[i]@)
}

/// The pairs of `pairs` with their strings as sequences of characters.
pub open spec fn keyed_texts(pairs: Seq<(String, u64)>) -> Seq<(Seq<char>, u64)> {
    Seq::new(pairs.len(), |i: int| (pairs[i].0@, pairs[i].1))
}

/// Tells whether `status` is the status of a controller at `c`.
pub open spec fn reports(c: ControllerView, status: Status) -> bool {
    &&& status.playing == c.playing
    &&& status.theme_loaded == c.theme_loaded
    &&& match status.theme {
        Some(name) => c.theme_name == Some(name@),
        None => c.theme_name is None,
    }
    &&& texts(status.sounds_playing@) == names_in_state(c.entities, AudioEntityState::Playing)
    &&& keyed_texts(status.sounds_playing_next@) == names_upcoming(c.entities)
    &&& texts(status.previewing@) == names_previewing(c.entities)
}

/// The names of `tags`.
pub open spec fn tag_names(tags: Seq<Tag>) -> Seq<Seq<char>> {
    Seq::new(tags.len(), |i: int| tags[i].name@)
}

/// Tells whether `library` lists the samples of `samples`, each by its path
/// and the names of its tags, in their order.
pub open spec fn lists(samples: Seq<Sample>, library: SoundLibrary) -> bool {
    &&& library.samples@.len() == samples.len()
    &&& forall|i: int|
        0 <= i < samples.len() ==> {
            &&& (#[trigger] library.samples@[i]).0@ == samples[i].path@
            &&& texts(library.samples@[i].1@) == tag_names(samples[i].tags@)
        }
}

/// Tells whether `drivers` numbers `names` from zero in their order.
pub open spec fn numbers(names: Seq<String>, drivers: Map<usize, String>) -> bool {
    &&& forall|i: usize| drivers.dom().contains(i) <==> i < names.len()
    &&& forall|i: usize| i < names.len() ==> (#[trigger] drivers[i])@ == names[i as int]@
}

/// Tells whether `response` is a list of drivers that numbers some names
/// from zero in their order.
pub open spec fn lists_drivers(response: Response) -> bool {
    response matches Response::DriverList { drivers } && exists|names: Seq<String>| #[trigger]
        numbers(names, drivers@)
}

/// The message that tells that there is no sound or sample called `name`.
pub open spec fn no_such_sound(name: Seq<char>) -> Seq<char> {
    "No such sound "@ + name
}

/// Tells whether the library holds the sample of each of the first `n` of
/// `sounds`.
pub open spec fn holds_samples(db: SamplesDB, sounds: Seq<SoundView>, n: int) -> bool {
    forall|j: int| 0 <= j < n ==> db.id_of((#[trigger] sounds[j]).file) is Some
}

/// Tells whether `i` is the first of `sounds` whose sample the library
/// lacks.
pub open spec fn first_missing(db: SamplesDB, sounds: Seq<SoundView>, i: int) -> bool {
    &&& 0 <= i < sounds.len()
    &&& holds_samples(db, sounds, i)
    &&& db.id_of(sounds[i].file) is None
}

/// Tells whether the backend may have been asked to load the sample of one
/// of `sounds`, and have refused: the library holds the sample of that
/// sound and of every sound before it.
pub open spec fn may_be_refused(db: SamplesDB, sounds: Seq<SoundView>) -> bool {
    exists|i: int| 0 <= i < sounds.len() && #[trigger] holds_samples(db, sounds, i + 1)
}

/// The message with which a theme that has an inverted range is turned
/// down.
pub open spec fn invalid_theme() -> Seq<char> {
    "Invalid theme: a range is inverted"@
}

/// Tells whether `message` may be the message with which the theme is turned
/// down. A theme with an inverted range is turned down as invalid. For any
/// other theme the message names the sample of the first sound whose sample
/// the library lacks, or it is that of a backend which could not load the
/// sample of a sound up to which the library holds every sample.
pub open spec fn turns_down(db: SamplesDB, theme: ThemeView, message: Seq<char>) -> bool {
    if !theme.wf() {
        message == invalid_theme()
    } else {
        ||| exists|i: int| #[trigger]
            first_missing(db, theme.sounds, i) && message == no_such_sound(theme.sounds[i].file)
        ||| may_be_refused(db, theme.sounds) && exists|e: AudioBackendError| #[trigger]
            e.describes(message)
    }
}

/// Numbers the names of the output devices from zero.
pub fn enumerate_drivers(names: Vec<String>) -> (drivers: HashMap<usize, String>)
    ensures
        numbers(names@, drivers@),
{
    broadcast use vstd::std_specs::hash::group_hash_axioms;

    let mut drivers: HashMap<usize, String> = HashMap::new();
    let mut i: usize = 0;
    while i < names.len()
        invariant
            i <= names.len(),
            forall|k: usize| drivers@.dom().contains(k) <==> k < i,
            forall|k: usize| k < i ==> (#[trigger] drivers@[k])@ == names@[k as int]@,
        decreases names.len() - i,
    {
        drivers.insert(i, names[i].clone());
        i += 1;
    }
    drivers
}

/// Lists the samples of `db`, each by its path and the names of its tags.
pub fn list_samples(db: &SamplesDB) -> (library: SoundLibrary)
    ensures
        lists(db@, library),
{
    let samples = db.samples();
    let mut listed: Vec<(String, Vec<String>)> = Vec::new();
    let mut i: usize = 0;
    while i < samples.len()
        invariant
            i <= samples.len(),
            samples@ == db@,
            listed@.len() == i,
            forall|k: int|
                0 <= k < i ==> {
                    &&& (#[trigger] listed@[k]).0@ == samples@[k].path@
                    &&& texts(listed@[k].1@) == tag_names(samples@[k].tags@)
                },
        decreases samples.len() - i,
    {
        let sample = &samples[i];
        let mut names: Vec<String> = Vec::new();
        let mut j: usize = 0;
        while j < sample.tags.len()
            invariant
                j <= sample.tags.len(),
                names@.len() == j,
                forall|k: int| 0 <= k < j ==> (#[trigger] names@[k])@ == sample.tags@[k].name@,
            decreases sample.tags.len() - j,
        {
            names.push(sample.tags[j].name.clone());
            j += 1;
        }
        assert(texts(names@) =~= tag_names(sample.tags@));
        listed.push((sample.path.clone(), names));
        i += 1;
    }
    SoundLibrary { samples: listed }
}

impl<O> AudioEntity<O> {
    /// Marks the entity for a preview: it will reset and then run once,
    /// whatever its trigger says.
    pub fn start_preview(&mut self)
        ensures
            final(self)@ == previewed(old(self)@),
            final(self).object == old(self).object,
    {
        self.is_preview = true;
        self.parameters.state = AudioEntityState::Preview;
    }

    /// Toggles the trigger of the entity.
    pub fn toggle_trigger(&mut self)
        ensures
            final(self)@ == toggled(old(self)@),
            final(self).object == old(self).object,
    {
        self.is_triggered = !self.is_triggered;
    }
}

/// Enters `entity` into `handles` under the name of its sound: in the place
/// of the entity of that name, if there is one, else at the end.
pub fn enter_entity<O>(handles: &mut Vec<AudioEntity<O>>, entity: AudioEntity<O>)
    ensures
        views(final(handles)@) == entered(views(old(handles)@), entity@),
{
    match find_entity(handles, &entity.sound.name) {
        Some(i) => {
            handles.set(i, entity);
            assert(views(handles@) =~= views(old(handles)@).update(i as int, entity@));
        },
        None => {
            handles.push(entity);
            assert(views(handles@) =~= views(old(handles)@).push(entity@));
        },
    }
}

/// Entering a fresh entity of a well-formed sound keeps names distinct,
/// sounds well formed and entities fresh.
pub proof fn lemma_entered(entities: Seq<EntityView>, e: EntityView)
    requires
        distinct_names(entities),
        sounds_wf(entities),
        all_fresh(entities),
        e.sound.wf(),
        e == fresh_entity(e.sound),
    ensures
        distinct_names(entered(entities, e)),
        sounds_wf(entered(entities, e)),
        all_fresh(entered(entities, e)),
{
    lemma_position(entities, e.sound.name);
    let after = entered(entities, e);
    assert forall|i: int, j: int| 0 <= i < j < after.len() implies (#[trigger] after[i]).sound.name
        != (#[trigger] after[j]).sound.name by {
        match position_of(entities, e.sound.name) {
            Some(k) => {
                if i != k && j != k {
                    assert(entities[i].sound.name != entities[j].sound.name);
                } else if i == k {
                    assert(entities[i].sound.name != entities[j].sound.name);
                } else {
                    assert(entities[i].sound.name != entities[j].sound.name);
                }
            },
            None => {
                if j < entities.len() {
                    assert(entities[i].sound.name != entities[j].sound.name);
                } else {
                    assert(entities[i].sound.name != e.sound.name);
                }
            },
        }
    }
    assert forall|i: int| 0 <= i < after.len() implies (#[trigger] after[i]).sound.wf() && after[i]
        == fresh_entity(after[i].sound) by {
        match position_of(entities, e.sound.name) {
            Some(k) => {
                if i != k {
                    assert(entities[i].sound.wf());
                }
            },
            None => {
                if i < entities.len() {
                    assert(entities[i].sound.wf());
                }
            },
        }
    }
}

impl<T: AudioBackend> AudioController<T> {
    /// Pauses the samples that are playing and holds the schedule.
    pub fn handle_pause(&mut self) -> (response: Response)
        requires
            old(self).wf(),
        ensures
            final(self).wf(),
            final(self).library() == old(self).library(),
            outcome(old(self)@, Command::Pause, final(self)@, response),
    {
        if self.theme_loaded {
            self.pause_playing(true);
            self.playing = false;
            Response::Success
        } else {
            Response::Error { message: "No theme loaded!".to_owned() }
        }
    }

    /// Lets the schedule run.
    pub fn handle_play(&mut self) -> (response: Response)
        requires
            old(self).wf(),
        ensures
            final(self).wf(),
            final(self).library() == old(self).library(),
            outcome(old(self)@, Command::Play, final(self)@, response),
    {
        if self.theme_loaded {
            self.pause_playing(false);
            self.playing = true;
            Response::Success
        } else {
            Response::Error { message: "No theme loaded!".to_owned() }
        }
    }

    /// Calls `pause` on every entity that is in `Playing`.
    fn pause_playing(&mut self, flag: bool)
        ensures
            final(self)@ == old(self)@,
            final(self).library() == old(self).library(),
    {
        let mut i: usize = 0;
        while i < self.sound_handles.len()
            invariant
                self@ == old(self)@,
                self.library() == old(self).library(),
            decreases self.sound_handles.len() - i,
        {
            let ghost before = self@.entities;
            if self.sound_handles[i].is_in_state(&AudioEntityState::Playing) {
                self.sound_handles[i].pause(flag);
            }
            assert(self@.entities =~= before);
            i += 1;
        }
    }

    /// Starts a preview of the sound called `sound`.
    pub fn handle_preview_sound(&mut self, sound: String) -> (response: Response)
        requires
            old(self).wf(),
        ensures
            final(self).wf(),
            final(self).library() == old(self).library(),
            outcome(old(self)@, Command::PreviewSound { sound }, final(self)@, response),
    {
        match find_entity(&self.sound_handles, &sound) {
            Some(i) => {
                self.sound_handles[i].start_preview();
                proof {
                    let before = old(self)@.entities;
                    assert(self@.entities =~= before.update(i as int, previewed(before[i as int])));
                    lemma_same_sounds(before, self@.entities);
                }
                Response::Success
            },
            None => {
                let mut message = "No such sound ".to_owned();
                message.append(sound.as_str());
                Response::Error { message }
            },
        }
    }

    /// Toggles the trigger of the sound called `sound`.
    pub fn handle_trigger(&mut self, sound: String) -> (response: Response)
        requires
            old(self).wf(),
        ensures
            final(self).wf(),
            final(self).library() == old(self).library(),
            outcome(old(self)@, Command::Trigger { sound }, final(self)@, response),
    {
        match find_entity(&self.sound_handles, &sound) {
            Some(i) => {
                self.sound_handles[i].toggle_trigger();
                proof {
                    let before = old(self)@.entities;
                    assert(self@.entities =~= before.update(i as int, toggled(before[i as int])));
                    lemma_same_sounds(before, self@.entities);
                }
                Response::Success
            },
            None => {
                let mut message = "Unknown sound '".to_owned();
                message.append(sound.as_str());
                message.append("'!");
                Response::Error { message }
            },
        }
    }

    /// Sets the master volume. A cross-fade that is under way rises up to
    /// the new volume, and is brought down to it where it is above.
    pub fn handle_volume(&mut self, value: Level) -> (response: Response)
        requires
            old(self).wf(),
        ensures
            final(self).wf(),
            final(self).library() == old(self).library(),
            outcome(old(self)@, Command::SetVolume { value }, final(self)@, response),
    {
        self.backend.set_volume(value);
        self.master_volume = value;
        if self.fade_volume > value {
            self.fade_volume = value;
        }
        Response::Success
    }

    /// Answers with the output devices of the backend, numbered from zero.
    pub fn handle_get_driver_list(&mut self) -> (response: Response)
        ensures
            final(self)@ == old(self)@,
            final(self).library() == old(self).library(),
            lists_drivers(response),
    {
        let names = self.backend.get_output_devices();
        let ghost reported = names@;
        let drivers = enumerate_drivers(names);
        let response = Response::DriverList { drivers };
        assert(response matches Response::DriverList { drivers: numbered } && numbers(
            reported,
            numbered@,
        ));
        response
    }

    /// Answers with the output device that the backend uses.
    pub fn handle_get_driver(&mut self) -> (response: Response)
        ensures
            final(self)@ == old(self)@,
            final(self).library() == old(self).library(),
            response is Driver,
    {
        let id = self.backend.get_current_output_device();
        Response::Driver { id }
    }

    /// Asks the backend to use the output device `id`.
    pub fn handle_set_driver(&mut self, id: i32) -> (response: Response)
        ensures
            final(self)@ == old(self)@,
            final(self).library() == old(self).library(),
            response is Success,
    {
        self.backend.set_current_output_device(id);
        Response::Success
    }

    /// Answers with the status of the controller.
    pub fn handle_get_status(&self) -> (response: Response)
        ensures
            response matches Response::Status(status) && reports(self@, status),
    {
        let mut playing: Vec<String> = Vec::new();
        let mut playing_next: Vec<(String, u64)> = Vec::new();
        let mut previewing: Vec<String> = Vec::new();
        let ghost all = self@.entities;
        let mut i: usize = 0;
        assert(all.take(0) =~= Seq::empty());
        while i < self.sound_handles.len()
            invariant
                i <= self.sound_handles.len(),
                all == self@.entities,
                all.len() == self.sound_handles.len(),
                texts(playing@) == names_in_state(all.take(i as int), AudioEntityState::Playing),
                keyed_texts(playing_next@) == names_upcoming(all.take(i as int)),
                texts(previewing@) == names_previewing(all.take(i as int)),
            decreases self.sound_handles.len() - i,
        {
            let handle = &self.sound_handles[i];
            proof {
                assert(all.take(i + 1).drop_last() =~= all.take(i as int));
                assert(all.take(i + 1).last() == handle@);
            }
            let ghost old_playing = playing@;
            let ghost old_next = playing_next@;
            let ghost old_previewing = previewing@;
            if handle.is_in_state(&AudioEntityState::Playing) {
                playing.push(handle.sound.name.clone());
                assert(texts(playing@) =~= texts(old_playing).push(handle@.sound.name));
            } else if handle.is_in_state(&AudioEntityState::WaitingForStart) {
                playing_next.push((handle.sound.name.clone(), handle.parameters.next_play / 1000));
                assert(keyed_texts(playing_next@) =~= keyed_texts(old_next).push(
                    (handle@.sound.name, (handle@.parameters.next_play / 1000) as u64),
                ));
            }
            if handle.is_preview {
                previewing.push(handle.sound.name.clone());
                assert(texts(previewing@) =~= texts(old_previewing).push(handle@.sound.name));
            }
            i += 1;
        }
        assert(all.take(all.len() as int) =~= all);
        let theme = match &self.theme {
            Some(name) => Some(name.clone()),
            None => None,
        };
        Response::Status(
            Status {
                playing: self.playing,
                theme_loaded: self.theme_loaded,
                theme,
                sounds_playing: playing,
                sounds_playing_next: playing_next,
                previewing,
            },
        )
    }

    /// Answers with the samples of the library.
    pub fn handle_get_sound_library(&self) -> (response: Response)
        ensures
            response matches Response::SoundLibrary(library) && lists(self.library()@, library),
    {
        Response::SoundLibrary(list_samples(&self.samplesdb))
    }

    /// Loads the samples of the well-formed theme `theme` and keeps the
    /// entities made for them until the cross-fade installs them.
    ///
    /// The sounds are taken in their order. The first whose sample the
    /// library lacks, or the backend cannot load, ends the loading with its
    /// error, and the controller is then as it was. A theme without sounds
    /// is always loaded.
    pub fn load_theme(&mut self, theme: Theme) -> (result: Result<(), AudioEngineError>)
        requires
            old(self).wf(),
            theme@.wf(),
        ensures
            final(self).wf(),
            final(self).library() == old(self).library(),
            load_result(old(self)@, old(self).library(), theme, final(self)@, result),
    {
        let mut handles: Vec<AudioEntity<T::EntityData>> = Vec::new();
        let mut i: usize = 0;
        assert(theme@.sounds.take(0) =~= Seq::empty());
        assert(views(handles@) =~= Seq::empty());
        while i < theme.sounds.len()
            invariant
                i <= theme.sounds.len(),
                theme@.wf(),
                theme@.sounds.len() == theme.sounds.len(),
                self@ == old(self)@,
                self.library() == old(self).library(),
                old(self).wf(),
                views(handles@) == loaded(theme@.sounds.take(i as int)),
                distinct_names(views(handles@)),
                sounds_wf(views(handles@)),
                all_fresh(views(handles@)),
                forall|j: int|
                    0 <= j < i ==> self.library().id_of((#[trigger] theme@.sounds[j]).file) is Some,
            decreases theme.sounds.len() - i,
        {
            let sound = theme.sounds[i].duplicate();
            assert(sound@ == theme@.sounds[i as int]);
            let sample_id = match self.samplesdb.sample_id_by_path(sound.file.as_str()) {
                Some(id) => id,
                None => {
                    assert(first_missing(self.library(), theme@.sounds, i as int));
                    return Err(AudioEngineError::SampleNotFound(sound.file));
                },
            };
            let full_path = self.samplesdb.full_path_of_sample(sample_id);
            let object = match self.backend.load_file(&full_path) {
                Ok(object) => object,
                Err(e) => {
                    assert(holds_samples(self.library(), theme@.sounds, i + 1));
                    return Err(AudioEngineError::AudioBackendError(e));
                },
            };
            let entity = AudioEntity::<T::EntityData>::new(object, sound);
            proof {
                let sounds = theme@.sounds;
                assert(sounds.take(i + 1).drop_last() =~= sounds.take(i as int));
                assert(sounds.take(i + 1).last() == sounds[i as int]);
                assert(sounds[i as int].wf());
                lemma_entered(views(handles@), entity@);
            }
            enter_entity(&mut handles, entity);
            i += 1;
        }
        proof {
            assert(theme@.sounds.take(theme@.sounds.len() as int) =~= theme@.sounds);
            assert(holds_samples(self.library(), theme@.sounds, theme@.sounds.len() as int));
        }
        self.next_sound_handles = Some(handles);
        self.theme = Some(theme.name);
        self.theme_loaded = true;
        Ok(())
    }

    /// Loads `theme`, see [`AudioController::load_theme`], and answers with
    /// success or with the reason for which the theme is turned down.
    ///
    /// A theme with an inverted range is turned down before anything is
    /// loaded.
    pub fn handle_load_theme(&mut self, theme: Theme) -> (response: Response)
        requires
            old(self).wf(),
        ensures
            final(self).wf(),
            final(self).library() == old(self).library(),
            load_outcome(old(self)@, old(self).library(), theme, final(self)@, response),
    {
        if !theme.is_valid() {
            return Response::Error { message: "Invalid theme: a range is inverted".to_owned() };
        }
        match self.load_theme(theme) {
            Ok(_) => Response::Success,
            Err(AudioEngineError::SampleNotFound(file)) => {
                let mut message = "No such sound ".to_owned();
                message.append(file.as_str());
                Response::Error { message }
            },
            Err(AudioEngineError::AudioBackendError(e)) => {
                let message = e.message();
                assert(e.describes(message@));
                Response::Error { message }
            },
        }
    }

    /// Handles the command that has arrived, if any, and says whether the
    /// controller is to stop and what is to be answered.
    ///
    /// `Quit` stops the controller and is not answered. Every other command
    /// gets exactly one response, of a kind that answers it.
    pub fn run_message_queue(&mut self, msg: Option<Command>) -> (result: (bool, Option<Response>))
        requires
            old(self).wf(),
        ensures
            final(self).wf(),
            final(self).library() == old(self).library(),
            match msg {
                None => !result.0 && result.1 is None && final(self)@ == old(self)@,
                Some(Command::Quit) => result.0 && result.1 is None && final(self)@ == old(self)@,
                Some(command) => {
                    &&& !result.0
                    &&& result.1 matches Some(response)
                    &&& answers(command, response)
                    &&& handled(old(self)@, old(self).library(), command, final(self)@, response)
                },
            },
    {
        match msg {
            None => (false, None),
            Some(command) => match command {
                Command::Quit => (true, None),
                Command::Pause => (false, Some(self.handle_pause())),
                Command::Play => (false, Some(self.handle_play())),
                Command::PreviewSound { sound } => (false, Some(self.handle_preview_sound(sound))),
                Command::LoadTheme { theme } => (false, Some(self.handle_load_theme(theme))),
                Command::Trigger { sound } => (false, Some(self.handle_trigger(sound))),
                Command::GetStatus => (false, Some(self.handle_get_status())),
                Command::GetSoundLibrary => (false, Some(self.handle_get_sound_library())),
                Command::SetVolume { value } => (false, Some(self.handle_volume(value))),
                Command::GetDriverList => (false, Some(self.handle_get_driver_list())),
                Command::GetDriver => (false, Some(self.handle_get_driver())),
                Command::SetDriver { id } => (false, Some(self.handle_set_driver(id))),
            },
        }
    }
}

/// Tells whether a controller at `before`, over the library `db`, may end
/// the loading of the well-formed theme `theme` with `result` and be at
/// `after` then.
///
/// When the theme is loaded, the library holds each of its samples, and
/// the entities of its sounds wait to be installed. Otherwise the controller
/// is as it was. The sample that is reported as not found is that of the
/// first sound whose sample the library lacks; the backend can only have
/// refused the sample of a sound up to which the library holds every
/// sample. So a theme whose first sound has no sample in the library is
/// always answered with that sample as not found, and a theme without sounds
/// is always loaded.
pub open spec fn load_result(
    before: ControllerView,
    db: SamplesDB,
    theme: Theme,
    after: ControllerView,
    result: Result<(), AudioEngineError>,
) -> bool {
    let sounds = theme@.sounds;
    &&& match result {
        Ok(_) => {
            &&& holds_samples(db, sounds, sounds.len() as int)
            &&& after == carried_out(before, Command::LoadTheme { theme })
        },
        Err(AudioEngineError::SampleNotFound(file)) => {
            &&& after == before
            &&& exists|i: int| #[trigger] first_missing(db, sounds, i) && file@ == sounds[i].file
        },
        Err(AudioEngineError::AudioBackendError(_)) => after == before && may_be_refused(
            db,
            sounds,
        ),
    }
    &&& sounds.len() == 0 ==> result is Ok
    &&& sounds.len() > 0 && db.id_of(sounds[0].file) is None ==> (result matches Err(
        AudioEngineError::SampleNotFound(file),
    ) && file@ == sounds[0].file)
}

/// Tells whether a controller at `before`, over the library `db`, may answer
/// the request to load `theme` with `response` and be at `after` then.
///
/// With success, the theme is well formed, the library holds each of its
/// samples, and the entities of its sounds wait to be installed. With an
/// error, the controller is as it was, and the message says why, see
/// [`turns_down`]. A theme with an inverted range is always turned down as
/// invalid; a well-formed theme whose first sound has no sample in the
/// library is always turned down with the name of that sample; a
/// well-formed theme without sounds is always accepted.
pub open spec fn load_outcome(
    before: ControllerView,
    db: SamplesDB,
    theme: Theme,
    after: ControllerView,
    response: Response,
) -> bool {
    let sounds = theme@.sounds;
    &&& match response {
        Response::Success => {
            &&& theme@.wf()
            &&& holds_samples(db, sounds, sounds.len() as int)
            &&& after == carried_out(before, Command::LoadTheme { theme })
        },
        Response::Error { message } => after == before && turns_down(db, theme@, message@),
        _ => false,
    }
    &&& !theme@.wf() ==> (response matches Response::Error { message } && message@
        == invalid_theme())
    &&& theme@.wf() && sounds.len() == 0 ==> response is Success
    &&& theme@.wf() && sounds.len() > 0 && db.id_of(sounds[0].file) is None ==> (
    response matches Response::Error { message } && message@ == no_such_sound(sounds[0].file))
}

/// Tells whether a controller at `before`, over the library `db`, may answer
/// `command` with `response` and be at `after` then.
pub open spec fn handled(
    before: ControllerView,
    db: SamplesDB,
    command: Command,
    after: ControllerView,
    response: Response,
) -> bool {
    match command {
        Command::Quit => false,
        Command::LoadTheme { theme } => load_outcome(before, db, theme, after, response),
        Command::GetStatus => after == before && (response matches Response::Status(status)
            && reports(before, status)),
        Command::GetSoundLibrary => after == before && (response matches Response::SoundLibrary(
            library,
        ) && lists(db@, library)),
        Command::GetDriver => after == before && response is Driver,
        Command::GetDriverList => after == before && lists_drivers(response),
        _ => outcome(before, command, after, response),
    }
}

/// Tells whether a controller at `before` may answer `command` with
/// `response` and be at `after` then.
///
/// A command that the controller accepts is carried out and answered with
/// success; one that it turns down changes nothing and is answered with the
/// reason.
pub open spec fn outcome(
    before: ControllerView,
    command: Command,
    after: ControllerView,
    response: Response,
) -> bool {
    if accepts(before, command) {
        response is Success && after == carried_out(before, command)
    } else {
        &&& after == before
        &&& response matches Response::Error { message }
        &&& message@ == refusal(command)
    }
}

} // verus!
