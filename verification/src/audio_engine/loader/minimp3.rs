//! Collecting the frames of an MP3 stream.

use vstd::prelude::*;

use crate::utils::{convert_to_mono, mono_of};

verus! {

/// The samples of the frames of an MP3 stream, mixed down to mono, and the
/// sample rate of the frame that came last.
pub struct MiniMP3Loader {
    samples: Vec<i16>,
    sample_rate: i32,
}

/// The mono samples of one frame: a frame of two channels is mixed down, any
/// other is taken as it is.
pub open spec fn frame_samples(data: Seq<i16>, channels: usize) -> Seq<i16> {
    if channels == 2 {
        mono_of(data)
    } else {
        data
    }
}

impl MiniMP3Loader {
    /// The samples collected so far.
    pub closed spec fn samples(&self) -> Seq<i16> {
        self.samples@
    }

    /// The sample rate of the last frame, zero before the first.
    pub closed spec fn sample_rate(&self) -> i32 {
        self.sample_rate
    }

    /// A loader that has seen no frame.
    pub fn new() -> (loader: MiniMP3Loader)
        ensures
            loader.samples() == Seq::<i16>::empty(),
            loader.sample_rate() == 0,
    {
        MiniMP3Loader { samples: Vec::new(), sample_rate: 0 }
    }

    /// Takes in the next frame of the stream.
    pub fn push_frame(&mut self, data: Vec<i16>, sample_rate: i32, channels: usize)
        ensures
            final(self).samples() == old(self).samples() + frame_samples(data@, channels),
            final(self).sample_rate() == sample_rate,
    {
        self.sample_rate = sample_rate;
        if channels == 2 {
            let mut mono = convert_to_mono(data);
            self.samples.append(&mut mono);
        } else {
            let mut data = data;
            self.samples.append(&mut data);
        }
    }

    /// The samples of all frames and the sample rate, once the stream has
    /// ended.
    pub fn finish(self) -> (loaded: (Vec<i16>, i32))
        ensures
            loaded.0@ == self.samples(),
            loaded.1 == self.sample_rate(),
    {
        (self.samples, self.sample_rate)
    }
}

} // verus!
