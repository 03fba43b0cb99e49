//! The index of the sample library.
//!
//! The index knows each sample by a number and by its path below the base
//! directory of the library. Where the numbers come from, and how the
//! directory is walked, is the business of whoever fills the index.

use vstd::prelude::*;

verus! {

/// A label on samples.
#[derive(Debug)]
pub struct Tag {
    pub id: i64,
    pub name: String,
}

/// One audio file of the library.
#[derive(Debug)]
pub struct Sample {
    pub id: i64,
    /// Path below the base directory of the library.
    pub path: String,
    pub tags: Vec<Tag>,
}

/// The index of a sample library.
pub struct SamplesDB {
    samples: Vec<Sample>,
    base_path: String,
}

/// The position of the first of `samples` with the number `id`, if any.
pub open spec fn position_of_id(samples: Seq<Sample>, id: i64) -> Option<int>
    decreases samples.len(),
{
    if samples.len() == 0 {
        None
    } else if samples[0].id == id {
        Some(0)
    } else {
        match position_of_id(samples.subrange(1, samples.len() as int), id) {
            Some(i) => Some(i + 1),
            None => None,
        }
    }
}

/// The position of the first of `samples` at `path`, if any.
pub open spec fn position_of_path(samples: Seq<Sample>, path: Seq<char>) -> Option<int>
    decreases samples.len(),
{
    if samples.len() == 0 {
        None
    } else if samples[0].path@ == path {
        Some(0)
    } else {
        match position_of_path(samples.subrange(1, samples.len() as int), path) {
            Some(i) => Some(i + 1),
            None => None,
        }
    }
}

/// The place of a sample on disk: the directory of its library and the
/// path of the sample below that directory.
#[derive(Debug)]
pub struct SamplePath {
    /// The directory below which the samples of the library lie.
    pub base: String,
    /// The path of the sample below `base`.
    pub relative: String,
}

/// Tells whether files with this extension count as samples.
pub open spec fn supported(extension: Seq<char>) -> bool {
    extension == "aiff"@ || extension == "flac"@ || extension == "midi"@ || extension == "ogg"@
        || extension == "wav"@ || extension == "mp3"@
}

/// Tells whether files with this extension count as samples.
pub fn is_supported_audio_file(extension: &str) -> (yes: bool)
    ensures
        yes == supported(extension@),
{
    let extension = extension.to_owned();
    extension == "aiff".to_owned() || extension == "flac".to_owned() || extension
        == "midi".to_owned() || extension == "ogg".to_owned() || extension == "wav".to_owned()
        || extension == "mp3".to_owned()
}

impl SamplesDB {
    /// The samples of the index, in the order in which they were added.
    pub closed spec fn view(&self) -> Seq<Sample> {
        self.samples@
    }

    /// The directory below which the samples lie.
    pub closed spec fn base(&self) -> Seq<char> {
        self.base_path@
    }

    /// No two samples share a number.
    #[verifier::type_invariant]
    pub closed spec fn wf(&self) -> bool {
        forall|i: int, j: int|
            0 <= i < j < self.samples@.len() ==> (#[trigger] self.samples@[i]).id != (
            #[trigger] self.samples@[j]).id
    }

    /// The number of the sample at `path`, if the index holds one.
    pub open spec fn id_of(&self, path: Seq<char>) -> Option<i64> {
        match position_of_path(self@, path) {
            Some(i) => Some(self@[i].id),
            None => None,
        }
    }

    /// An empty index for the library below `base_path`.
    pub fn new(base_path: String) -> (db: SamplesDB)
        ensures
            db@.len() == 0,
            db.base() == base_path@,
    {
        SamplesDB { samples: Vec::new(), base_path }
    }

    fn find_id(&self, id: i64) -> (found: Option<usize>)
        ensures
            match found {
                Some(i) => position_of_id(self@, id) == Some(i as int) && i < self@.len()
                    && self@[i as int].id == id,
                None => position_of_id(self@, id) is None && forall|j: int|
                    0 <= j < self@.len() ==> (#[trigger] self@[j]).id != id,
            },
    {
        let mut i: usize = 0;
        while i < self.samples.len()
            invariant
                i <= self.samples.len(),
                forall|j: int| 0 <= j < i ==> (#[trigger] self@[j]).id != id,
            decreases self.samples.len() - i,
        {
            if self.samples[i].id == id {
                proof {
                    lemma_first_id(self@, id, i as int);
                }
                return Some(i);
            }
            i += 1;
        }
        proof {
            lemma_no_id(self@, id);
        }
        None
    }

    /// Enters the sample with the number `id` at `path`, without tags. A
    /// sample that the index already holds under this number is replaced, so
    /// that entering a sample twice is the same as entering it once.
    pub fn add_sample(&mut self, id: i64, path: &str)
        ensures
            final(self).base() == old(self).base(),
            match position_of_id(old(self)@, id) {
                Some(i) => final(self)@.len() == old(self)@.len() && forall|j: int|
                    0 <= j < old(self)@.len() && j != i ==> final(self)@[j] == old(self)@[j],
                None => final(self)@.len() == old(self)@.len() + 1 && forall|j: int|
                    0 <= j < old(self)@.len() ==> final(self)@[j] == old(self)@[j],
            },
            position_of_id(final(self)@, id) matches Some(i) && final(self)@[i].id == id
                && final(self)@[i].path@ == path@ && final(self)@[i].tags@.len() == 0,
    {
        proof {
            use_type_invariant(&*self);
        }
        let sample = Sample { id, path: path.to_owned(), tags: Vec::new() };
        let found = self.find_id(id);
        let mut samples: Vec<Sample> = Vec::new();
        core::mem::swap(&mut self.samples, &mut samples);
        match found {
            Some(i) => {
                samples.set(i, sample);
                proof {
                    lemma_first_id(samples@, id, i as int);
                }
            },
            None => {
                samples.push(sample);
                proof {
                    lemma_first_id(samples@, id, samples@.len() - 1);
                }
            },
        }
        self.samples = samples;
    }

    /// The directory below which the samples lie.
    pub fn base_path(&self) -> (base_path: &String)
        ensures
            base_path@ == self.base(),
    {
        &self.base_path
    }

    /// The samples of the index, in the order in which they were added. No
    /// two of them share a number.
    pub fn samples(&self) -> (samples: &Vec<Sample>)
        ensures
            samples@ == self@,
            forall|i: int, j: int|
                0 <= i < j < samples@.len() ==> (#[trigger] samples@[i]).id != (
                #[trigger] samples@[j]).id,
    {
        proof {
            use_type_invariant(self);
        }
        &self.samples
    }

    /// The number of the sample at `path`, if the index holds one.
    pub fn sample_id_by_path(&self, path: &str) -> (id: Option<i64>)
        ensures
            id == self.id_of(path@),
            id matches Some(n) ==> position_of_id(self@, n) is Some,
    {
        let wanted = path.to_owned();
        let mut i: usize = 0;
        while i < self.samples.len()
            invariant
                i <= self.samples.len(),
                wanted@ == path@,
                forall|j: int| 0 <= j < i ==> (#[trigger] self@[j]).path@ != path@,
            decreases self.samples.len() - i,
        {
            if self.samples[i].path == wanted {
                proof {
                    lemma_first_path(self@, path@, i as int);
                    lemma_id_present(self@, self@[i as int].id, i as int);
                }
                return Some(self.samples[i].id);
            }
            i += 1;
        }
        proof {
            lemma_no_path(self@, path@);
        }
        None
    }

    /// Tells whether the index holds a sample with the number `sample_id`.
    pub fn contains(&self, sample_id: i64) -> (yes: bool)
        ensures
            yes == (position_of_id(self@, sample_id) is Some),
    {
        self.find_id(sample_id).is_some()
    }

    /// The path below the base directory of the first sample with the
    /// number `sample_id`.
    pub open spec fn path_of(&self, sample_id: i64) -> Seq<char> {
        self@[position_of_id(self@, sample_id)->0].path@
    }

    /// The place on disk of the sample with the number `sample_id`: the base
    /// directory of the library and the path of the sample below it.
    pub fn full_path_of_sample(&self, sample_id: i64) -> (path: SamplePath)
        requires
            position_of_id(self@, sample_id) is Some,
        ensures
            path.base@ == self.base(),
            path.relative@ == self.path_of(sample_id),
    {
        match self.find_id(sample_id) {
            Some(i) => SamplePath {
                base: self.base_path.clone(),
                relative: self.samples[i].path.clone(),
            },
            None => SamplePath { base: self.base_path.clone(), relative: String::new() },
        }
    }
}

/// When no sample before position `i` has the number `id` and the one at `i`
/// has it, `i` is the first position of `id`.
pub proof fn lemma_first_id(samples: Seq<Sample>, id: i64, i: int)
    requires
        0 <= i < samples.len(),
        samples[i].id == id,
        forall|j: int| 0 <= j < i ==> (#[trigger] samples[j]).id != id,
    ensures
        position_of_id(samples, id) == Some(i),
    decreases i,
{
    if i > 0 {
        let tail = samples.subrange(1, samples.len() as int);
        assert forall|j: int| 0 <= j < i - 1 implies (#[trigger] tail[j]).id != id by {
            assert(tail[j] == samples[j + 1]);
        }
        lemma_first_id(tail, id, i - 1);
    }
}

/// The number of a sample of the index has a position.
pub proof fn lemma_id_present(samples: Seq<Sample>, id: i64, i: int)
    requires
        0 <= i < samples.len(),
        samples[i].id == id,
    ensures
        position_of_id(samples, id) is Some,
    decreases i,
{
    if samples[0].id != id {
        let tail = samples.subrange(1, samples.len() as int);
        assert(tail[i - 1] == samples[i]);
        lemma_id_present(tail, id, i - 1);
    }
}

/// When no sample has the number `id`, `id` has no position.
pub proof fn lemma_no_id(samples: Seq<Sample>, id: i64)
    requires
        forall|j: int| 0 <= j < samples.len() ==> (#[trigger] samples[j]).id != id,
    ensures
        position_of_id(samples, id) is None,
    decreases samples.len(),
{
    if samples.len() > 0 {
        let tail = samples.subrange(1, samples.len() as int);
        assert forall|j: int| 0 <= j < tail.len() implies (#[trigger] tail[j]).id != id by {
            assert(tail[j] == samples[j + 1]);
        }
        lemma_no_id(tail, id);
    }
}

/// When no sample before position `i` lies at `path` and the one at `i`
/// does, `i` is the first position of `path`.
pub proof fn lemma_first_path(samples: Seq<Sample>, path: Seq<char>, i: int)
    requires
        0 <= i < samples.len(),
        samples[i].path@ == path,
        forall|j: int| 0 <= j < i ==> (#[trigger] samples[j]).path@ != path,
    ensures
        position_of_path(samples, path) == Some(i),
    decreases i,
{
    if i > 0 {
        let tail = samples.subrange(1, samples.len() as int);
        assert forall|j: int| 0 <= j < i - 1 implies (#[trigger] tail[j]).path@ != path by {
            assert(tail[j] == samples[j + 1]);
        }
        lemma_first_path(tail, path, i - 1);
    }
}

/// When no sample lies at `path`, `path` has no position.
pub proof fn lemma_no_path(samples: Seq<Sample>, path: Seq<char>)
    requires
        forall|j: int| 0 <= j < samples.len() ==> (#[trigger] samples[j]).path@ != path,
    ensures
        position_of_path(samples, path) is None,
    decreases samples.len(),
{
    if samples.len() > 0 {
        let tail = samples.subrange(1, samples.len() as int);
        assert forall|j: int| 0 <= j < tail.len() implies (#[trigger] tail[j]).path@ != path by {
            assert(tail[j] == samples[j + 1]);
        }
        lemma_no_path(tail, path);
    }
}

} // verus!
