use vstd::prelude::*;
use crate::resample::{lemma_scaled_index_in_bounds, resample_to_16khz, resampled, resampled_len};

verus! {

/// Minimum usable segment length after normalization: 0.5 s at 16 kHz.
/// Shorter segments are discarded by the driver, not transcribed.
pub const MIN_SEGMENT_SAMPLES: usize = 8000;

/// Mono reduction of an interleaved multi-channel sequence: the first
/// channel of each complete sample group.
pub open spec fn mono_mix(data: Seq<i16>, channels: int) -> Seq<i16> {
    Seq::new((data.len() as int / channels) as nat, |i: int| data[i * channels])
}

/// Down-mix device-native interleaved audio to mono by selecting one
/// channel per sample group (a policy choice, not averaging).
pub fn downmix_to_mono(data: &[i16], channels: u16) -> (r: Vec<i16>)
    requires
        channels >= 1,
    ensures
        r@ == mono_mix(data@, channels as int),
        r@.len() == data@.len() as int / channels as int,
{
    let n = data.len();
    let step = channels as usize;
    let groups = n / step;
    let mut out: Vec<i16> = Vec::new();
    let mut i: usize = 0;
    while i < groups
        invariant
            n == data@.len(),
            step == channels as usize,
            step >= 1,
            groups == n as int / step as int,
            i <= groups,
            out@.len() == i,
            forall|j: int| 0 <= j < i ==> out@[j] == data@[j * step],
        decreases groups - i,
    {
        proof {
            lemma_scaled_index_in_bounds(i as int, n as int, 1, step as int);
            assert(n as int * 1 == n as int) by (nonlinear_arith);
            assert(i as int * step as int / 1 == i as int * step as int);
        }
        out.push(data[i * step]);
        i = i + 1;
    }
    proof {
        assert(out@ =~= mono_mix(data@, channels as int));
    }
    out
}

/// Normalize a finished segment and apply the driver's minimum-length
/// policy: the segment is converted to 16 kHz and returned only when the
/// normalized result exceeds 0.5 s; shorter segments yield `None`.
pub fn prepare_segment(samples: &[i16], sample_rate: u32) -> (r: Option<Vec<i16>>)
    requires
        sample_rate >= 1,
        resampled_len(samples@.len() as int, sample_rate as int) <= usize::MAX,
    ensures
        match r {
            Some(v) => {
                &&& v@ == resampled(samples@, sample_rate as int)
                &&& v@.len() > MIN_SEGMENT_SAMPLES
            },
            None => resampled(samples@, sample_rate as int).len() <= MIN_SEGMENT_SAMPLES,
        },
{
    let resampled_audio = resample_to_16khz(samples, sample_rate);
    if resampled_audio.len() > MIN_SEGMENT_SAMPLES {
        Some(resampled_audio)
    } else {
        None
    }
}

} // verus!
