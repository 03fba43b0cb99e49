//! The audio scheduling engine.
//!
//! Its heart is the controller: owner of the backend and of every entity.
//! The controller is driven from outside, one iteration at a time: a command,
//! if one has arrived, goes to `run_message_queue`, and then `tick` moves every
//! entity and the cross-fade on by the time that has passed.

pub mod entity;
pub mod error;
pub mod laws;
pub mod messaging;
pub mod model;
pub mod random;

use vstd::prelude::*;

use crate::audio_engine::backends::base::AudioBackend;
use crate::audio_engine::engine::entity::AudioEntity;
use crate::audio_engine::engine::error::AudioEngineError;
use crate::audio_engine::engine::model::{
    admissible, fresh_entity, step, AudioEntityState, BackendOp, EntityView, TickInput,
};
use crate::level::{Level, FADE_STEP};
use crate::samplesdb::SamplesDB;
use crate::theme::SoundView;

verus! {

/// The direction of a cross-fade.
#[derive(PartialEq, Eq, Structural, Clone, Copy, Debug)]
pub enum FadeDirection {
    /// The theme that is playing gets quieter.
    Out,
    /// The theme that was installed gets louder.
    In,
}

/// Where the cross-fade between two themes stands.
pub struct FadeState {
    pub active: bool,
    pub direction: FadeDirection,
    /// The master volume that the backend was told last during the fade.
    pub current: Level,
}

/// The controller without its backend and its sample library.
pub struct ControllerView {
    /// The entities of the theme that is installed. No two have sounds of
    /// the same name.
    pub entities: Seq<EntityView>,
    /// The entities of a theme that was loaded and waits to be installed.
    pub pending: Option<Seq<EntityView>>,
    pub playing: bool,
    pub theme_loaded: bool,
    pub theme_name: Option<Seq<char>>,
    pub master_volume: Level,
    pub fade: FadeState,
}

/// The position of the first of `entities` whose sound is called `name`.
pub open spec fn position_of(entities: Seq<EntityView>, name: Seq<char>) -> Option<int>
    decreases entities.len(),
{
    if entities.len() == 0 {
        None
    } else {
        match position_of(entities.drop_last(), name) {
            Some(i) => Some(i),
            None => if entities.last().sound.name == name {
                Some(entities.len() - 1)
            } else {
                None
            },
        }
    }
}

/// No two of `entities` have sounds of the same name.
pub open spec fn distinct_names(entities: Seq<EntityView>) -> bool {
    forall|i: int, j: int|
        0 <= i < j < entities.len() ==> (#[trigger] entities[i]).sound.name != (
        #[trigger] entities[j]).sound.name
}

/// The sound of each of `entities` is well formed.
pub open spec fn sounds_wf(entities: Seq<EntityView>) -> bool {
    forall|i: int| 0 <= i < entities.len() ==> (#[trigger] entities[i]).sound.wf()
}

/// Each of `entities` is as it was made.
pub open spec fn all_fresh(entities: Seq<EntityView>) -> bool {
    forall|i: int|
        0 <= i < entities.len() ==> #[trigger] entities[i] == fresh_entity(entities[i].sound)
}

/// `entities` with `e` entered under the name of its sound: in the place of
/// the entity of that name, if there is one, else at the end.
pub open spec fn entered(entities: Seq<EntityView>, e: EntityView) -> Seq<EntityView> {
    match position_of(entities, e.sound.name) {
        Some(i) => entities.update(i, e),
        None => entities.push(e),
    }
}

/// The entities that are made for the sounds of a theme. Of two sounds of
/// the same name the later one stands, in the place of the earlier.
pub open spec fn loaded(sounds: Seq<SoundView>) -> Seq<EntityView>
    decreases sounds.len(),
{
    if sounds.len() == 0 {
        Seq::empty()
    } else {
        entered(loaded(sounds.drop_last()), fresh_entity(sounds.last()))
    }
}

/// Tells whether the controller runs this entity on a tick: a preview
/// always, any other only while the theme plays and the sound is enabled.
pub open spec fn runs(e: EntityView, playing: bool) -> bool {
    e.is_preview || (playing && e.sound.enabled)
}

/// Tells whether `after` may be what one tick of `delta` milliseconds makes
/// of `before`: an entity that the controller runs has taken one step on an
/// input drawn from the ranges of its sound, any other is left as it was.
pub open spec fn ticked(before: EntityView, playing: bool, delta: u64, after: EntityView) -> bool {
    if runs(before, playing) {
        exists|input: TickInput|
            input.delta == delta && admissible(before, input) && after == #[trigger] step(
                before,
                input,
            )
    } else {
        after == before
    }
}

/// [`ticked`], of each entity.
pub open spec fn all_ticked(
    before: Seq<EntityView>,
    playing: bool,
    delta: u64,
    after: Seq<EntityView>,
) -> bool {
    &&& after.len() == before.len()
    &&& forall|i: int|
        0 <= i < before.len() ==> ticked(before[i], playing, delta, #[trigger] after[i])
}

impl ControllerView {
    /// What holds of a controller at all times.
    pub open spec fn wf(self) -> bool {
        &&& distinct_names(self.entities)
        &&& sounds_wf(self.entities)
        &&& match self.pending {
            Some(pending) => distinct_names(pending) && sounds_wf(pending) && all_fresh(pending),
            None => true,
        }
        &&& self.fade.current <= self.master_volume
        &&& (self.fade.active && self.fade.direction == FadeDirection::Out) ==> self.pending is Some
    }

    /// The controller before the first command.
    pub open spec fn initial() -> ControllerView {
        ControllerView {
            entities: Seq::empty(),
            pending: None,
            playing: false,
            theme_loaded: false,
            theme_name: None,
            master_volume: 1000,
            fade: FadeState { active: false, direction: FadeDirection::Out, current: 0 },
        }
    }

    /// The controller with other entities installed.
    pub open spec fn with_entities(self, entities: Seq<EntityView>) -> ControllerView {
        ControllerView { entities, ..self }
    }

    /// A cross-fade is under way or due.
    pub open spec fn fading(self) -> bool {
        self.pending is Some || self.fade.active
    }

    /// The fade as the next fade step finds it: a fade that is due starts
    /// outward from the master volume.
    pub open spec fn fade_at_hand(self) -> FadeState {
        if self.fade.active {
            self.fade
        } else {
            FadeState { active: true, direction: FadeDirection::Out, current: self.master_volume }
        }
    }

    /// The next fade step takes the installed theme away and installs the
    /// pending one.
    pub open spec fn swaps(self) -> bool {
        &&& self.fading()
        &&& self.fade_at_hand().direction == FadeDirection::Out
        &&& self.fade_at_hand().current <= FADE_STEP
    }

    /// The controller after one fade step.
    ///
    /// Outward the volume falls by [`FADE_STEP`]; when it would reach zero,
    /// it is zero, the pending theme is installed and the fade turns inward.
    /// Inward it rises by [`FADE_STEP`], up to the master volume, where the
    /// fade ends.
    pub open spec fn fade_step(self) -> ControllerView {
        if !self.fading() {
            self
        } else {
            let fade = self.fade_at_hand();
            match fade.direction {
                FadeDirection::Out => if fade.current <= FADE_STEP {
                    ControllerView {
                        entities: self.pending->0,
                        pending: None,
                        fade: FadeState {
                            active: true,
                            direction: FadeDirection::In,
                            current: 0,
                        },
                        ..self
                    }
                } else {
                    ControllerView {
                        fade: FadeState {
                            active: true,
                            direction: FadeDirection::Out,
                            current: (fade.current - FADE_STEP) as Level,
                        },
                        ..self
                    }
                },
                FadeDirection::In => if fade.current + FADE_STEP >= self.master_volume {
                    ControllerView {
                        fade: FadeState {
                            active: false,
                            direction: FadeDirection::In,
                            current: self.master_volume,
                        },
                        ..self
                    }
                } else {
                    ControllerView {
                        fade: FadeState {
                            active: true,
                            direction: FadeDirection::In,
                            current: (fade.current + FADE_STEP) as Level,
                        },
                        ..self
                    }
                },
            }
        }
    }

    /// The master volume that the backend is told at the end of a fade step,
    /// if it is told one.
    pub open spec fn fade_volume(self) -> Option<Level> {
        if self.fading() {
            Some(self.fade_step().fade.current)
        } else {
            None
        }
    }

    /// The entities that the next fade step takes away.
    pub open spec fn retired(self) -> Seq<EntityView> {
        if self.swaps() {
            self.entities
        } else {
            Seq::empty()
        }
    }
}

/// The controller after `n` fade steps.
pub open spec fn fade_steps(c: ControllerView, n: nat) -> ControllerView
    decreases n,
{
    if n == 0 {
        c
    } else {
        fade_steps(c, (n - 1) as nat).fade_step()
    }
}

/// The fade steps that it takes to fade out from `volume`.
pub open spec fn steps_out(volume: Level) -> nat
    decreases volume,
{
    if volume <= FADE_STEP {
        1
    } else {
        1 + steps_out((volume - FADE_STEP) as Level)
    }
}

/// The fade steps that it takes to fade in from `current` to `master`.
pub open spec fn steps_in(master: Level, current: Level) -> nat
    decreases master - current,
{
    if current + FADE_STEP >= master {
        1
    } else {
        1 + steps_in(master, (current + FADE_STEP) as Level)
    }
}

/// The fade steps that a whole cross-fade takes at the master volume
/// `master`: out from it and in to it again.
pub open spec fn fade_length(master: Level) -> nat {
    steps_out(master) + steps_in(master, 0)
}

/// Fade steps can be counted from the first as well as from the last.
pub proof fn lemma_fade_steps_split(c: ControllerView, n: nat)
    ensures
        fade_steps(c, n + 1) == fade_steps(c.fade_step(), n),
    decreases n,
{
    if n > 0 {
        lemma_fade_steps_split(c, (n - 1) as nat);
    } else {
        assert(fade_steps(c, 1) == fade_steps(c, 0).fade_step());
    }
}

proof fn lemma_fades_out(c: ControllerView)
    requires
        c.wf(),
        c.fading(),
        c.fade_at_hand().direction == FadeDirection::Out,
    ensures
        fade_steps(c, steps_out(c.fade_at_hand().current)) == (ControllerView {
            entities: c.pending->0,
            pending: None,
            fade: FadeState { active: true, direction: FadeDirection::In, current: 0 },
            ..c
        }),
        steps_out(c.fade_at_hand().current) <= c.fade_at_hand().current / FADE_STEP + 1,
    decreases c.fade_at_hand().current,
{
    let volume = c.fade_at_hand().current;
    if volume <= FADE_STEP {
        assert(fade_steps(c, 1) == fade_steps(c, 0).fade_step());
    } else {
        let next = c.fade_step();
        lemma_fades_out(next);
        lemma_fade_steps_split(c, steps_out(next.fade_at_hand().current));
    }
}

proof fn lemma_fades_in(c: ControllerView)
    requires
        c.wf(),
        c.fade.active,
        c.fade.direction == FadeDirection::In,
    ensures
        fade_steps(c, steps_in(c.master_volume, c.fade.current)) == (ControllerView {
            fade: FadeState {
                active: false,
                direction: FadeDirection::In,
                current: c.master_volume,
            },
            ..c
        }),
        steps_in(c.master_volume, c.fade.current) <= (c.master_volume - c.fade.current)
            / FADE_STEP as int + 1,
    decreases c.master_volume - c.fade.current,
{
    if c.fade.current + FADE_STEP >= c.master_volume {
        assert(fade_steps(c, 1) == fade_steps(c, 0).fade_step());
    } else {
        let next = c.fade_step();
        lemma_fades_in(next);
        lemma_fade_steps_split(c, steps_in(next.master_volume, next.fade.current));
    }
}

/// Fade steps add up.
pub proof fn lemma_fade_steps_add(c: ControllerView, m: nat, n: nat)
    ensures
        fade_steps(c, m + n) == fade_steps(fade_steps(c, m), n),
    decreases n,
{
    if n > 0 {
        lemma_fade_steps_add(c, m, (n - 1) as nat);
    }
}

/// A theme that was loaded is installed and faded in after a number of fade
/// steps that depends on the master volume alone: as long as no other theme
/// is loaded and the volume is not set, the master volume falls to zero, the
/// loaded theme takes the place of the installed one, the volume rises to
/// the master volume again, and there the fade ends.
pub proof fn law_fade_runs_its_course(c: ControllerView)
    requires
        c.wf(),
        c.pending is Some,
        !c.fade.active,
    ensures
        fade_steps(c, fade_length(c.master_volume)) == (ControllerView {
            entities: c.pending->0,
            pending: None,
            fade: FadeState {
                active: false,
                direction: FadeDirection::In,
                current: c.master_volume,
            },
            ..c
        }),
        fade_length(c.master_volume) <= 2 * (c.master_volume / FADE_STEP + 1),
{
    lemma_fades_out(c);
    let installed = fade_steps(c, steps_out(c.master_volume));
    lemma_fades_in(installed);
    lemma_fade_steps_add(c, steps_out(c.master_volume), steps_in(c.master_volume, 0));
}

/// The tick after a theme was loaded begins to fade out the theme that is
/// installed, unless a fade is under way already: the master volume falls
/// by one step, or, where it is no more than one step, the loaded theme is
/// installed at once.
pub proof fn law_loading_begins_the_fade(c: ControllerView, loaded: Seq<EntityView>)
    requires
        c.wf(),
        !c.fade.active,
    ensures
        ({
            let d = ControllerView { pending: Some(loaded), ..c };
            &&& d.fading()
            &&& d.fade_step().fade.active
            &&& if c.master_volume <= FADE_STEP {
                d.fade_step().entities == loaded && d.fade_volume() == Some(0u32)
            } else {
                d.fade_step().fade.direction == FadeDirection::Out && d.fade_volume() == Some(
                    (c.master_volume - FADE_STEP) as u32,
                )
            }
        }),
{
}

/// A sound that is not enabled rests unless it is previewed: a tick leaves
/// its entity as it is, and so the backend is told nothing on its behalf.
pub proof fn law_disabled_sound_rests(e: EntityView, playing: bool, delta: u64, after: EntityView)
    requires
        !e.sound.enabled,
        !e.is_preview,
        ticked(e, playing, delta, after),
    ensures
        after == e,
{
}

/// A cross-fade moves the master volume one way at a time: outward it
/// falls, inward it does not fall, and it never leaves the range from zero
/// to the master volume.
pub proof fn law_fade_is_monotonic(c: ControllerView)
    requires
        c.wf(),
        c.fading(),
    ensures
        c.fade_step().wf(),
        c.fade_at_hand().direction == FadeDirection::Out ==> c.fade_step().fade.current
            < c.fade_at_hand().current || c.fade_step().fade.current == 0,
        c.fade_at_hand().direction == FadeDirection::In ==> c.fade_step().fade.current
            >= c.fade_at_hand().current,
        c.fade_step().fade.current <= c.master_volume,
{
}

/// The fade step that takes the installed theme away tells the backend a master volume of zero, and installs entities that are
/// as they were made. So whatever happens then, the first thing that the
/// backend is told on behalf of any of them is to play it.
pub proof fn law_crossfade_is_atomic(c: ControllerView, i: int, inputs: Seq<TickInput>)
    requires
        c.wf(),
        c.swaps(),
        0 <= i < c.fade_step().entities.len(),
    ensures
        c.retired() == c.entities,
        c.fade_volume() == Some(0u32),
        c.pending == Some(c.fade_step().entities),
        c.fade_step().entities[i] == fresh_entity(c.fade_step().entities[i].sound),
        laws::run_ops(c.fade_step().entities[i], inputs).len() > 0 ==> laws::run_ops(
            c.fade_step().entities[i],
            inputs,
        )[0] == BackendOp::Play,
{
    let installed = c.fade_step().entities;
    assert(installed[i] == fresh_entity(installed[i].sound));
    laws::law_first_op_is_play(installed[i].sound, inputs);
}

/// The views of `entities`.
pub open spec fn views<O>(entities: Seq<AudioEntity<O>>) -> Seq<EntityView> {
    Seq::new(entities.len(), |i: int| entities[i]@)
}

/// What one fade step asks of the backend.
pub struct FadeAction<O> {
    /// The entities that were taken away; each is to be stopped.
    pub retired: Vec<AudioEntity<O>>,
    /// The master volume to set, if any.
    pub volume: Option<Level>,
}

/// What one tick of the controller did besides moving the entities.
pub struct TickReport {
    /// What the backend refused during the tick.
    pub errors: Vec<AudioEngineError>,
    /// The master volume that the backend was told, if the tick told one.
    pub master_volume: Option<Level>,
    /// The number of entities that the cross-fade took away and that were
    /// stopped.
    pub retired: usize,
}

/// The scheduler of a theme.
pub struct AudioController<T: AudioBackend> {
    backend: T,
    sound_handles: Vec<AudioEntity<T::EntityData>>,
    next_sound_handles: Option<Vec<AudioEntity<T::EntityData>>>,
    fade_status: bool,
    fade_volume: Level,
    fade_direction: FadeDirection,
    master_volume: Level,
    playing: bool,
    theme_loaded: bool,
    theme: Option<String>,
    samplesdb: SamplesDB,
}

impl<T: AudioBackend> View for AudioController<T> {
    type V = ControllerView;

    closed spec fn view(&self) -> ControllerView {
        ControllerView {
            entities: views(self.sound_handles@),
            pending: match self.next_sound_handles {
                Some(handles) => Some(views(handles@)),
                None => None,
            },
            playing: self.playing,
            theme_loaded: self.theme_loaded,
            theme_name: match self.theme {
                Some(name) => Some(name@),
                None => None,
            },
            master_volume: self.master_volume,
            fade: FadeState {
                active: self.fade_status,
                direction: self.fade_direction,
                current: self.fade_volume,
            },
        }
    }
}

impl<T: AudioBackend> AudioController<T> {
    /// The backend of the controller.
    pub closed spec fn spec_backend(&self) -> T {
        self.backend
    }

    /// The sample library of the controller.
    pub closed spec fn library(&self) -> SamplesDB {
        self.samplesdb
    }

    /// What holds of a controller at all times.
    pub open spec fn wf(&self) -> bool {
        self@.wf()
    }

    /// A controller over a newly opened backend, with no theme.
    pub fn new(samplesdb: SamplesDB) -> (controller: Result<Self, AudioEngineError>)
        ensures
            controller matches Ok(c) && c@ == ControllerView::initial() && c.wf() && c.library()
                == samplesdb,
    {
        let backend = T::init();
        let controller = AudioController {
            backend,
            sound_handles: Vec::new(),
            next_sound_handles: None,
            fade_status: false,
            fade_volume: 0,
            fade_direction: FadeDirection::Out,
            master_volume: 1000,
            playing: false,
            theme_loaded: false,
            theme: None,
            samplesdb,
        };
        assert(controller@.entities =~= Seq::empty());
        Ok(controller)
    }

    /// Tells whether the controller is well formed. One that was made by
    /// [`AudioController::new`] and changed by nothing but its own methods
    /// always is.
    pub fn is_well_formed(&self) -> (yes: bool)
        ensures
            yes == self.wf(),
    {
        let pending = match &self.next_sound_handles {
            Some(handles) => names_are_distinct(handles) && sounds_are_valid(handles)
                && all_are_fresh(handles),
            None => true,
        };
        names_are_distinct(&self.sound_handles) && sounds_are_valid(&self.sound_handles) && pending
            && self.fade_volume <= self.master_volume && (!(self.fade_status
            && self.fade_direction == FadeDirection::Out) || self.next_sound_handles.is_some())
    }

    /// The backend of the controller.
    pub fn backend(&self) -> (backend: &T)
        ensures
            *backend == self.spec_backend(),
    {
        &self.backend
    }

    /// The entities of the theme that is installed.
    pub fn sound_handles(&self) -> (handles: &Vec<AudioEntity<T::EntityData>>)
        ensures
            views(handles@) == self@.entities,
    {
        &self.sound_handles
    }

    /// The master volume outside of a cross-fade.
    pub fn master_volume(&self) -> (volume: Level)
        ensures
            volume == self@.master_volume,
    {
        self.master_volume
    }

    /// The position of the entity whose sound is called `name`.
    pub fn find(&self, name: &String) -> (found: Option<usize>)
        ensures
            match found {
                Some(i) => position_of(self@.entities, name@) == Some(i as int) && i
                    < self@.entities.len() && self@.entities[i as int].sound.name == name@,
                None => position_of(self@.entities, name@) is None,
            },
    {
        find_entity(&self.sound_handles, name)
    }

    /// Runs every entity that is due by one tick of `delta` milliseconds.
    /// What the backend refuses is collected and returned; no entity is kept
    /// from its tick by the failure of another.
    pub fn update_entities(&mut self, delta: u64) -> (errors: Vec<AudioEngineError>)
        requires
            old(self).wf(),
        ensures
            final(self).wf(),
            final(self).library() == old(self).library(),
            all_ticked(old(self)@.entities, old(self)@.playing, delta, final(self)@.entities),
            final(self)@ == old(self)@.with_entities(final(self)@.entities),
    {
        let mut errors: Vec<AudioEngineError> = Vec::new();
        let mut i: usize = 0;
        while i < self.sound_handles.len()
            invariant
                i <= self.sound_handles.len(),
                self.sound_handles.len() == old(self).sound_handles.len(),
                self.library() == old(self).library(),
                self@ == old(self)@.with_entities(self@.entities),
                old(self).wf(),
                forall|j: int|
                    0 <= j < i ==> ticked(
                        old(self)@.entities[j],
                        old(self)@.playing,
                        delta,
                        #[trigger] self@.entities[j],
                    ),
                forall|j: int|
                    i <= j < self.sound_handles.len() ==> #[trigger] self@.entities[j] == old(
                        self,
                    )@.entities[j],
                forall|j: int|
                    0 <= j < self.sound_handles.len() ==> (#[trigger] self@.entities[j]).sound
                        == old(self)@.entities[j].sound,
            decreases self.sound_handles.len() - i,
        {
            let ghost before = self@.entities;
            if self.sound_handles[i].is_preview || (self.playing && self.sound_handles[i].sound.enabled) {
                assert(before[i as int].sound.wf());
                match self.sound_handles[i].update(&mut self.backend, delta) {
                    Ok(_) => {},
                    Err(e) => {
                        errors.push(e);
                    },
                }
            }
            proof {
                let after = self@.entities;
                assert forall|j: int| 0 <= j < after.len() && j != i implies after[j]
                    == before[j] by {}
            }
            i += 1;
        }
        proof {
            lemma_same_sounds(old(self)@.entities, self@.entities);
        }
        errors
    }

    /// Takes the cross-fade one step further and says what the backend is to
    /// be told. The backend itself is not touched.
    pub fn fade(&mut self) -> (action: FadeAction<T::EntityData>)
        requires
            old(self).wf(),
        ensures
            final(self).wf(),
            final(self).library() == old(self).library(),
            final(self)@ == old(self)@.fade_step(),
            action.volume == old(self)@.fade_volume(),
            views(action.retired@) == old(self)@.retired(),
    {
        let mut retired: Vec<AudioEntity<T::EntityData>> = Vec::new();
        let mut volume: Option<Level> = None;
        if self.next_sound_handles.is_some() || self.fade_status {
            if !self.fade_status {
                self.fade_status = true;
                self.fade_direction = FadeDirection::Out;
                self.fade_volume = self.master_volume;
            }
            match self.fade_direction {
                FadeDirection::Out => {
                    if self.fade_volume <= FADE_STEP {
                        self.fade_direction = FadeDirection::In;
                        self.fade_volume = 0;
                        let installed = self.next_sound_handles.take();
                        match installed {
                            Some(mut handles) => {
                                core::mem::swap(&mut self.sound_handles, &mut handles);
                                retired = handles;
                            },
                            None => {},
                        }
                    } else {
                        self.fade_volume = self.fade_volume - FADE_STEP;
                    }
                },
                FadeDirection::In => {
                    if self.master_volume - self.fade_volume <= FADE_STEP {
                        self.fade_volume = self.master_volume;
                        self.fade_status = false;
                    } else {
                        self.fade_volume = self.fade_volume + FADE_STEP;
                    }
                },
            }
            volume = Some(self.fade_volume);
        }
        assert(views(retired@) =~= old(self)@.retired());
        FadeAction { retired, volume }
    }

    /// One iteration of the controller after the command, if any, was
    /// handled: `delta` milliseconds have passed since the previous one.
    ///
    /// First every entity that is due takes its tick. Then the cross-fade
    /// takes its step: the entities that it retires are stopped on the
    /// backend, and the backend is told the master volume of the fade. The
    /// report says how many entities were stopped and which master volume
    /// was set, and holds what the backend refused on the way; nothing of
    /// that stops the tick.
    pub fn tick(&mut self, delta: u64) -> (report: TickReport)
        requires
            old(self).wf(),
        ensures
            final(self).wf(),
            final(self).library() == old(self).library(),
            exists|entities: Seq<EntityView>|
                {
                    &&& all_ticked(old(self)@.entities, old(self)@.playing, delta, entities)
                    &&& final(self)@ == (#[trigger] old(self)@.with_entities(entities)).fade_step()
                    &&& report.master_volume == old(self)@.with_entities(entities).fade_volume()
                    &&& report.retired == old(self)@.with_entities(entities).retired().len()
                },
    {
        let mut errors = self.update_entities(delta);
        let ghost ticked_view = self@;
        let action = self.fade();
        let volume = action.volume;
        let mut retired = action.retired;
        assert(views(retired@).len() == retired@.len());
        let mut i: usize = 0;
        while i < retired.len()
            invariant
                i <= retired.len(),
                retired.len() == ticked_view.retired().len(),
                volume == ticked_view.fade_volume(),
                self@ == ticked_view.fade_step(),
                self.wf(),
                self.library() == old(self).library(),
            decreases retired.len() - i,
        {
            match retired[i].stop(&mut self.backend) {
                Ok(()) => {},
                Err(e) => {
                    errors.push(AudioEngineError::AudioBackendError(e));
                },
            }
            i += 1;
        }
        match volume {
            Some(level) => {
                self.backend.set_volume(level);
            },
            None => {},
        }
        assert(ticked_view == old(self)@.with_entities(ticked_view.entities));
        TickReport { errors, master_volume: volume, retired: retired.len() }
    }
}

/// Tells whether no two of `handles` have sounds of the same name.
pub fn names_are_distinct<O>(handles: &Vec<AudioEntity<O>>) -> (yes: bool)
    ensures
        yes == distinct_names(views(handles@)),
{
    let ghost all = views(handles@);
    let mut j: usize = 0;
    while j < handles.len()
        invariant
            j <= handles.len(),
            all == views(handles@),
            forall|a: int, b: int|
                0 <= a < b < j ==> (#[trigger] all[a]).sound.name != (#[trigger] all[b]).sound.name,
        decreases handles.len() - j,
    {
        let mut i: usize = 0;
        while i < j
            invariant
                i <= j < handles.len(),
                all == views(handles@),
                forall|a: int| 0 <= a < i ==> (#[trigger] all[a]).sound.name != all[j as int].sound.name,
            decreases j - i,
        {
            if handles[i].sound.name == handles[j].sound.name {
                assert(all[i as int].sound.name == all[j as int].sound.name);
                return false;
            }
            i += 1;
        }
        j += 1;
    }
    true
}

/// Tells whether the sound of each of `handles` is free of inverted ranges.
pub fn sounds_are_valid<O>(handles: &Vec<AudioEntity<O>>) -> (yes: bool)
    ensures
        yes == sounds_wf(views(handles@)),
{
    let ghost all = views(handles@);
    let mut i: usize = 0;
    while i < handles.len()
        invariant
            i <= handles.len(),
            all == views(handles@),
            forall|a: int| 0 <= a < i ==> (#[trigger] all[a]).sound.wf(),
        decreases handles.len() - i,
    {
        if !handles[i].sound.is_valid() {
            assert(!all[i as int].sound.wf());
            return false;
        }
        i += 1;
    }
    true
}

/// Tells whether each of `handles` is as it was made.
pub fn all_are_fresh<O>(handles: &Vec<AudioEntity<O>>) -> (yes: bool)
    ensures
        yes == all_fresh(views(handles@)),
{
    let ghost all = views(handles@);
    let mut i: usize = 0;
    while i < handles.len()
        invariant
            i <= handles.len(),
            all == views(handles@),
            forall|a: int| 0 <= a < i ==> #[trigger] all[a] == fresh_entity(all[a].sound),
        decreases handles.len() - i,
    {
        let e = &handles[i];
        let p = &e.parameters;
        let fresh = p.state == AudioEntityState::Virgin && p.next_play == 0 && p.repeats == 0
            && p.loops == 1 && p.fade_in == 0 && p.max_volume == 1000 && !e.is_triggered
            && !e.is_preview;
        if !fresh {
            assert(all[i as int] != fresh_entity(all[i as int].sound));
            return false;
        }
        assert(all[i as int] == fresh_entity(all[i as int].sound));
        i += 1;
    }
    true
}

/// The position of the entity of `handles` whose sound is called `name`.
pub fn find_entity<O>(handles: &Vec<AudioEntity<O>>, name: &String) -> (found: Option<usize>)
    ensures
        match found {
            Some(i) => position_of(views(handles@), name@) == Some(i as int) && i < handles@.len()
                && handles@[i as int]@.sound.name == name@,
            None => position_of(views(handles@), name@) is None,
        },
{
    let mut i: usize = 0;
    assert(views(handles@).take(0) =~= Seq::empty());
    while i < handles.len()
        invariant
            i <= handles.len(),
            position_of(views(handles@).take(i as int), name@) is None,
        decreases handles.len() - i,
    {
        proof {
            let all = views(handles@);
            assert(all.take(i + 1).drop_last() =~= all.take(i as int));
            assert(all.take(i + 1).last() == handles@[i as int]@);
        }
        if handles[i].sound.name == *name {
            proof {
                lemma_position_prefix(views(handles@), name@, i as int + 1);
            }
            return Some(i);
        }
        i += 1;
    }
    assert(views(handles@).take(handles@.len() as int) =~= views(handles@));
    None
}

/// A name that has a position among the first `n` entities has the same
/// position among all of them.
pub proof fn lemma_position_prefix(entities: Seq<EntityView>, name: Seq<char>, n: int)
    requires
        0 <= n <= entities.len(),
        position_of(entities.take(n), name) is Some,
    ensures
        position_of(entities, name) == position_of(entities.take(n), name),
    decreases entities.len() - n,
{
    if n < entities.len() {
        assert(entities.take(n + 1).drop_last() =~= entities.take(n));
        lemma_position_prefix(entities, name, n + 1);
    } else {
        assert(entities.take(n) =~= entities);
    }
}

/// A name has a position among entities exactly if one of them has it, and
/// the position is that of an entity with that name.
pub proof fn lemma_position(entities: Seq<EntityView>, name: Seq<char>)
    ensures
        match position_of(entities, name) {
            Some(i) => 0 <= i < entities.len() && entities[i].sound.name == name,
            None => forall|j: int|
                0 <= j < entities.len() ==> (#[trigger] entities[j]).sound.name != name,
        },
    decreases entities.len(),
{
    if entities.len() > 0 {
        lemma_position(entities.drop_last(), name);
        if position_of(entities.drop_last(), name) is None {
            assert forall|j: int| 0 <= j < entities.len() - 1 implies (
            #[trigger] entities[j]).sound.name != name by {
                assert(entities[j] == entities.drop_last()[j]);
            }
        }
    }
}

/// Entities that keep their sounds keep what holds of their sounds.
pub proof fn lemma_same_sounds(before: Seq<EntityView>, after: Seq<EntityView>)
    requires
        before.len() == after.len(),
        forall|j: int| 0 <= j < before.len() ==> (#[trigger] after[j]).sound == before[j].sound,
        distinct_names(before),
        sounds_wf(before),
    ensures
        distinct_names(after),
        sounds_wf(after),
{
    assert forall|i: int, j: int| 0 <= i < j < after.len() implies (#[trigger] after[i]).sound.name
        != (#[trigger] after[j]).sound.name by {
        assert(before[i].sound.name != before[j].sound.name);
    }
    assert forall|i: int| 0 <= i < after.len() implies (#[trigger] after[i]).sound.wf() by {
        assert(before[i].sound.wf());
    }
}

} // verus!
