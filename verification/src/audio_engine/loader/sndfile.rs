//! What is done around a read of a whole sound file.

use vstd::prelude::*;

use crate::utils::{convert_to_mono, mono_of};

verus! {

/// What a sound file says of itself when it is opened.
#[derive(Clone, Copy, Debug)]
pub struct SndInfo {
    /// The number of frames; a frame holds one sample of each channel.
    pub frames: i64,
    pub samplerate: i32,
    pub channels: i32,
    pub format: i32,
    pub sections: i32,
    pub seekable: i32,
}

impl SndInfo {
    /// The number of samples in the file, all channels together.
    pub open spec fn samples(self) -> int {
        self.channels as int * self.frames as int
    }

    /// The number of samples to read from the file, unless it is negative or
    /// beyond what can be addressed.
    pub fn sample_count(&self) -> (count: Option<usize>)
        ensures
            count is Some <==> 0 <= self.samples() <= usize::MAX,
            count matches Some(n) ==> n == self.samples(),
    {
        if self.channels == 0 || self.frames == 0 {
            assert(self.samples() == 0) by (nonlinear_arith)
                requires
                    self.channels == 0 || self.frames == 0,
            ;
            return Some(0);
        }
        if (self.channels < 0) != (self.frames < 0) {
            assert(self.samples() < 0) by (nonlinear_arith)
                requires
                    (self.channels < 0 && self.frames > 0) || (self.channels > 0 && self.frames
                        < 0),
            ;
            return None;
        }
        let channels: u64 = if self.channels < 0 {
            (-(self.channels as i64)) as u64
        } else {
            self.channels as u64
        };
        let frames: u64 = if self.frames < 0 {
            (-(self.frames + 1)) as u64 + 1
        } else {
            self.frames as u64
        };
        assert(self.samples() == channels as int * frames as int) by (nonlinear_arith)
            requires
                (channels == self.channels && frames == self.frames) || (channels
                    == -self.channels && frames == -self.frames),
        ;
        match channels.checked_mul(frames) {
            Some(product) => {
                if product <= usize::MAX as u64 {
                    Some(product as usize)
                } else {
                    None
                }
            },
            None => None,
        }
    }
}

/// The loader of the formats that are read as a whole.
pub struct SndFileLoader;

impl SndFileLoader {
    /// The mono samples and the sample rate of a file whose samples, all
    /// channels interleaved, are `samples`: a file of two channels is mixed
    /// down, any other is taken as it is.
    pub fn finish(samples: Vec<i16>, info: &SndInfo) -> (loaded: (Vec<i16>, i32))
        ensures
            loaded.0@ == (if info.channels == 2 {
                mono_of(samples@)
            } else {
                samples@
            }),
            loaded.1 == info.samplerate,
    {
        if info.channels == 2 {
            (convert_to_mono(samples), info.samplerate)
        } else {
            (samples, info.samplerate)
        }
    }
}

} // verus!
