//! Helpers on raw sample data.

use vstd::prelude::*;

verus! {

/// The mean of a left and a right sample, rounded toward zero.
pub open spec fn mix(left: i16, right: i16) -> int {
    let sum = left as int + right as int;
    if sum >= 0 {
        sum / 2
    } else {
        -((-sum) / 2)
    }
}

/// The mono signal of an interleaved stereo signal: frame `i` of the input
/// is the pair of samples `2 * i` and `2 * i + 1`. A trailing sample without
/// a partner is dropped.
pub open spec fn mono_of(samples: Seq<i16>) -> Seq<i16> {
    Seq::new(samples.len() / 2, |i: int| mix(samples[2 * i], samples[2 * i + 1]) as i16)
}

/// Mixes interleaved stereo samples down to mono.
pub fn convert_to_mono(samples: Vec<i16>) -> (mono_samples: Vec<i16>)
    ensures
        mono_samples@ == mono_of(samples@),
{
    let frames: usize = samples.len() / 2;
    let mut mono_samples: Vec<i16> = Vec::with_capacity(frames);
    let mut i: usize = 0;
    while i < frames
        invariant
            frames == samples.len() / 2,
            i <= frames,
            mono_samples.len() == i,
            forall|j: int| 0 <= j < i ==> mono_samples[j] == mono_of(samples@)[j],
        decreases frames - i,
    {
        let sum: i32 = samples[i * 2] as i32 + samples[i * 2 + 1] as i32;
        mono_samples.push((sum / 2) as i16);
        i += 1;
    }
    assert(mono_samples@ =~= mono_of(samples@));
    mono_samples
}

} // verus!
