//! The bookkeeping of a backend over OpenAL: which reverb presets there are,
//! when a source needs its buffer, what a filter amount means, and the pool
//! from which entities borrow their sources.
//!
//! The handles of the OpenAL library are not looked into here; the pool is
//! generic in the type of a source handle.

use std::collections::HashMap;
use vstd::prelude::*;

use crate::audio_engine::backends::error::AudioBackendError;
use crate::level::{Level, LEVEL_ONE};

verus! {

/// The reverb presets that a sound can name.
#[derive(PartialEq, Eq, Structural, Clone, Copy, Debug)]
pub enum ReverbPreset {
    Underwater,
    Forest,
    SpacestationLongpassage,
    SpacestationSmallroom,
    SpacestationMediumroom,
    Chapel,
}

/// The preset that goes by `reverb`, if any. `"none"` is the name of no
/// preset, and so is every name that is not listed here.
pub open spec fn preset_named(reverb: Seq<char>) -> Option<ReverbPreset> {
    if reverb == "underwater"@ {
        Some(ReverbPreset::Underwater)
    } else if reverb == "forest"@ {
        Some(ReverbPreset::Forest)
    } else if reverb == "spacestation"@ {
        Some(ReverbPreset::SpacestationLongpassage)
    } else if reverb == "spacestation_smallroom"@ {
        Some(ReverbPreset::SpacestationSmallroom)
    } else if reverb == "spacestation_mediumroom"@ {
        Some(ReverbPreset::SpacestationMediumroom)
    } else if reverb == "chapel"@ {
        Some(ReverbPreset::Chapel)
    } else {
        None
    }
}

/// Looks a reverb preset up by its name. An unknown name is treated like
/// `"none"`: no preset.
pub fn reverb_name_to_ref(reverb: &str) -> (preset: Option<ReverbPreset>)
    ensures
        preset == preset_named(reverb@),
{
    let name = reverb.to_owned();
    if name == "underwater".to_owned() {
        Some(ReverbPreset::Underwater)
    } else if name == "forest".to_owned() {
        Some(ReverbPreset::Forest)
    } else if name == "spacestation".to_owned() {
        Some(ReverbPreset::SpacestationLongpassage)
    } else if name == "spacestation_smallroom".to_owned() {
        Some(ReverbPreset::SpacestationSmallroom)
    } else if name == "spacestation_mediumroom".to_owned() {
        Some(ReverbPreset::SpacestationMediumroom)
    } else if name == "chapel".to_owned() {
        Some(ReverbPreset::Chapel)
    } else {
        None
    }
}

/// The state of a source, as OpenAL reports it.
#[derive(PartialEq, Eq, Structural, Clone, Copy, Debug)]
pub enum SourceState {
    Initial,
    Playing,
    Paused,
    Stopped,
    Unknown,
}

/// Tells whether a source in `state` must be given its buffer before it is
/// played: a new or a stopped one must, a paused one keeps its buffer and
/// resumes where it was.
pub fn needs_buffer(state: SourceState) -> (needed: bool)
    ensures
        needed == (state == SourceState::Initial || state == SourceState::Stopped),
{
    match state {
        SourceState::Initial | SourceState::Stopped => true,
        _ => false,
    }
}

/// The gain that a band-pass filter lets through at the side that a low-pass
/// or high-pass of `amount` cuts: one less `amount`, and nothing once the
/// amount is one or more.
pub open spec fn gain_left(amount: Level) -> Level {
    if amount >= LEVEL_ONE {
        0
    } else {
        (LEVEL_ONE - amount) as Level
    }
}

/// Computes [`gain_left`].
pub fn filter_gain(amount: Level) -> (gain: Level)
    ensures
        gain == gain_left(amount),
        gain <= LEVEL_ONE,
{
    if amount >= LEVEL_ONE {
        0
    } else {
        LEVEL_ONE - amount
    }
}

/// The number of sources that a backend tries to create for its pool.
pub const POOL_SIZE: usize = 32;

/// What is to be done about the band-pass filter of a source when a
/// low-pass or a high-pass is set.
#[derive(PartialEq, Eq, Structural, Clone, Copy, Debug)]
pub struct FilterPlan {
    /// The entity has no filter yet, and one is to be made; the filter that
    /// an entity has serves low-pass and high-pass alike.
    pub make: bool,
    /// The gain to set at the side that is cut.
    pub gain: Level,
}

/// Decides what is to be done about the band-pass filter of a source when
/// a low-pass or a high-pass of `amount` is set.
pub fn plan_filter(amount: Level, has_filter: bool) -> (plan: FilterPlan)
    ensures
        plan == (FilterPlan { make: !has_filter, gain: gain_left(amount) }),
{
    FilterPlan { make: !has_filter, gain: filter_gain(amount) }
}

/// The auxiliary send of a source that carries its reverb.
pub const REVERB_SEND: i32 = 0;

/// What is to be done about the reverb of a source.
#[derive(PartialEq, Eq, Structural, Clone, Copy, Debug)]
pub enum ReverbPlan {
    /// Give up the effect slot and the effect, and clear the send.
    Clear,
    /// Set `preset` on the effect and send the source to the effect slot;
    /// where `make` is set, the slot and the effect are to be made first.
    Apply { preset: ReverbPreset, make: bool },
}

/// Decides what is to be done about the reverb of a source when the preset
/// called `reverb` is asked for: a name that is no preset clears the reverb,
/// a preset is applied, on the effect slot that the entity has if it has
/// one.
pub fn plan_reverb(reverb: &str, has_slot: bool) -> (plan: ReverbPlan)
    ensures
        plan == (match preset_named(reverb@) {
            Some(preset) => ReverbPlan::Apply { preset, make: !has_slot },
            None => ReverbPlan::Clear,
        }),
{
    match reverb_name_to_ref(reverb) {
        Some(preset) => ReverbPlan::Apply { preset, make: !has_slot },
        None => ReverbPlan::Clear,
    }
}

/// A source of the pool.
#[derive(Debug)]
pub struct OpenALSource<H> {
    /// The number of the source; the pool counts from one.
    pub id: u32,
    pub used: bool,
    pub handle: H,
}

/// The pool of sources of a backend.
pub struct OpenALBackend<H> {
    sources: HashMap<u32, OpenALSource<H>>,
    /// No source of the pool has a number above this one.
    limit: u32,
}

impl<H> OpenALBackend<H> {
    /// The sources that are in the pool, by their number.
    pub closed spec fn view(&self) -> Map<u32, OpenALSource<H>> {
        self.sources@
    }

    /// Every source is filed under its own number, and none above the limit.
    #[verifier::type_invariant]
    pub closed spec fn wf(&self) -> bool {
        forall|id: u32| #[trigger]
            self.sources@.contains_key(id) ==> self.sources@[id].id == id && id <= self.limit
    }

    /// Tells whether the pool holds a source that can be borrowed.
    pub open spec fn has_free(&self) -> bool {
        exists|id: u32| id > 0 && #[trigger] self@.contains_key(id) && !self@[id].used
    }

    /// A pool of the sources behind `handles`, numbered from one in their
    /// order, none of them in use. A pool has at least one source and no
    /// more than [`POOL_SIZE`].
    pub fn with_sources(handles: Vec<H>) -> (pool: Self)
        requires
            1 <= handles@.len() <= POOL_SIZE,
        ensures
            forall|id: u32| #[trigger] pool@.contains_key(id) <==> 1 <= id <= handles@.len(),
            forall|id: u32|
                1 <= id <= handles@.len() ==> (#[trigger] pool@[id]).handle == handles@[id - 1]
                    && !pool@[id].used,
    {
        broadcast use vstd::std_specs::hash::group_hash_axioms;

        let mut handles = handles;
        let ghost all = handles@;
        let mut sources: HashMap<u32, OpenALSource<H>> = HashMap::new();
        let limit: u32 = handles.len() as u32;
        let mut n: u32 = limit;
        while n > 0
            invariant
                n <= all.len() <= POOL_SIZE,
                limit == all.len(),
                handles@ == all.take(n as int),
                forall|id: u32| #[trigger] sources@.contains_key(id) <==> n < id <= all.len(),
                forall|id: u32|
                    n < id <= all.len() ==> (#[trigger] sources@[id]).handle == all[id - 1]
                        && !sources@[id].used && sources@[id].id == id,
            decreases n,
        {
            let handle = handles.pop().unwrap();
            sources.insert(n, OpenALSource { id: n, used: false, handle });
            n -= 1;
            assert(handles@ =~= all.take(n as int));
        }
        OpenALBackend { sources, limit }
    }

    /// The number of sources in the pool.
    pub fn available(&self) -> (n: usize)
        ensures
            n == self@.len(),
    {
        self.sources.len()
    }

    /// Takes a source that is not in use out of the pool. `None` is
    /// returned, and the pool left as it is, exactly if there is none.
    pub fn get_source(&mut self) -> (source: Option<OpenALSource<H>>)
        ensures
            match source {
                Some(s) => {
                    &&& s.id > 0
                    &&& !s.used
                    &&& old(self)@.contains_key(s.id)
                    &&& old(self)@[s.id] == s
                    &&& final(self)@ == old(self)@.remove(s.id)
                },
                None => final(self)@ == old(self)@ && !old(self).has_free(),
            },
    {
        broadcast use vstd::std_specs::hash::group_hash_axioms;

        proof {
            use_type_invariant(&*self);
        }
        let limit = self.limit;
        let mut sources: HashMap<u32, OpenALSource<H>> = HashMap::new();
        core::mem::swap(&mut self.sources, &mut sources);
        let mut found: Option<OpenALSource<H>> = None;
        let mut id: u32 = 0;
        while id < limit && found.is_none()
            invariant
                id <= limit,
                forall|k: u32| #[trigger]
                    old(self)@.contains_key(k) ==> old(self)@[k].id == k && k <= limit,
                match found {
                    Some(s) => {
                        &&& s.id > 0
                        &&& !s.used
                        &&& old(self)@.contains_key(s.id)
                        &&& old(self)@[s.id] == s
                        &&& sources@ == old(self)@.remove(s.id)
                    },
                    None => {
                        &&& sources@ == old(self)@
                        &&& forall|k: u32|
                            0 < k <= id && #[trigger] sources@.contains_key(k) ==> sources@[k].used
                    },
                },
            decreases limit - id + (if found is None { 1int } else { 0int }),
        {
            id += 1;
            let free = match sources.get(&id) {
                Some(source) => !source.used,
                None => false,
            };
            if free {
                found = sources.remove(&id);
            }
        }
        self.sources = sources;
        found
    }

    /// Puts `source` back into the pool, once it has been reset. Where the
    /// reset has failed, its error is handed on and the source is not put
    /// back.
    pub fn free_source(&mut self, source: OpenALSource<H>, reset: Result<(), AudioBackendError>) -> (result:
        Result<(), AudioBackendError>)
        ensures
            match reset {
                Ok(_) => result is Ok && final(self)@ == old(self)@.insert(source.id, source),
                Err(e) => result == Err::<(), AudioBackendError>(e) && final(self)@ == old(self)@,
            },
    {
        broadcast use vstd::std_specs::hash::group_hash_axioms;

        proof {
            use_type_invariant(&*self);
        }
        match reset {
            Ok(_) => {
                if source.id > self.limit {
                    self.limit = source.id;
                }
                let ghost id = source.id;
                let mut sources: HashMap<u32, OpenALSource<H>> = HashMap::new();
                core::mem::swap(&mut self.sources, &mut sources);
                sources.insert(source.id, source);
                assert forall|k: u32| #[trigger] sources@.contains_key(k) implies sources@[k].id
                    == k && k <= self.limit by {
                    if k != id {
                        assert(old(self)@.contains_key(k));
                    }
                }
                self.sources = sources;
                Ok(())
            },
            Err(e) => Err(e),
        }
    }
}

/// The source that an entity holds while it sounds.
pub struct SourceSlot<H> {
    pub source: Option<OpenALSource<H>>,
}

impl<H> SourceSlot<H> {
    /// The slot of an entity that holds no source.
    pub fn new() -> (slot: Self)
        ensures
            slot.source is None,
    {
        SourceSlot { source: None }
    }

    /// Tells whether the entity holds a source.
    pub fn is_bound(&self) -> (bound: bool)
        ensures
            bound == (self.source is Some),
    {
        self.source.is_some()
    }

    /// Says whether an operation on the source can go ahead: without a
    /// source it fails with [`AudioBackendError::NoSource`].
    pub fn require(&self) -> (result: Result<(), AudioBackendError>)
        ensures
            self.source is Some ==> result is Ok,
            self.source is None ==> (result matches Err(e) && e is NoSource),
    {
        if self.source.is_some() {
            Ok(())
        } else {
            Err(AudioBackendError::NoSource)
        }
    }

    /// Makes sure that the entity holds a source, for a play: an entity
    /// that holds one keeps it, and the pool is left alone; any other
    /// borrows one from `pool`. With an empty pool the entity stays without
    /// a source.
    pub fn acquire(&mut self, pool: &mut OpenALBackend<H>) -> (bound: bool)
        ensures
            bound == (final(self).source is Some),
            match old(self).source {
                Some(_) => final(self).source == old(self).source && final(pool)@ == old(pool)@,
                None => match final(self).source {
                    Some(s) => {
                        &&& s.id > 0
                        &&& !s.used
                        &&& old(pool)@.contains_key(s.id)
                        &&& old(pool)@[s.id] == s
                        &&& final(pool)@ == old(pool)@.remove(s.id)
                    },
                    None => final(pool)@ == old(pool)@ && !old(pool).has_free(),
                },
            },
    {
        if self.source.is_none() {
            self.source = pool.get_source();
        }
        self.source.is_some()
    }

    /// Takes the source out of the slot, for a stop. An entity without a
    /// source hands out none and stays as it is, so that a second stop
    /// changes nothing.
    pub fn release(&mut self) -> (source: Option<OpenALSource<H>>)
        ensures
            source == old(self).source,
            final(self).source is None,
    {
        self.source.take()
    }
}

} // verus!
