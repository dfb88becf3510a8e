use vstd::prelude::*;
use vstd::arithmetic::div_mod::{
    lemma_div_multiples_vanish, lemma_div_pos_is_pos, lemma_fundamental_div_mod,
    lemma_multiply_divide_lt,
};
use vstd::arithmetic::mul::{lemma_mul_inequality, lemma_mul_nonnegative};

verus! {

/// Fixed sample rate required by the transcription engine, in Hz.
pub const TARGET_SAMPLE_RATE: u32 = 16000;

/// Length of a sequence of `len` samples captured at `rate` after
/// conversion to the 16 kHz target: `floor(len / (rate / 16000))`.
pub open spec fn resampled_len(len: int, rate: int) -> int {
    len * 16000 / rate
}

/// Source index selected for output index `i`: the nearest previous input
/// sample under the rate ratio (zero-order hold).
pub open spec fn source_index(i: int, rate: int) -> int {
    i * rate / 16000
}

/// Zero-order-hold conversion of `s` from `rate` to the 16 kHz target:
/// output index `i` carries the input sample at `floor(i * rate / 16000)`.
/// Deliberately not band-limited resampling: adequate for a robust
/// recognition engine, at the cost of minor high-frequency aliasing.
pub open spec fn resampled(s: Seq<i16>, rate: int) -> Seq<i16> {
    Seq::new(resampled_len(s.len() as int, rate) as nat, |i: int| s[source_index(i, rate)])
}

/// For any output index `i` below `len * num / den`, the scaled-back index
/// `i * den / num` lands strictly inside the input: the converter never
/// reads past the input bounds.
pub proof fn lemma_scaled_index_in_bounds(i: int, len: int, num: int, den: int)
    requires
        num >= 1,
        den >= 1,
        0 <= i,
        i < len * num / den,
    ensures
        0 <= i * den / num,
        i * den / num < len,
{
    let q = len * num / den;
    lemma_mul_nonnegative(i, den);
    lemma_div_pos_is_pos(i * den, num);
    assert(i * den < len * num) by {
        lemma_fundamental_div_mod(len * num, den);
        lemma_mul_inequality(i, q - 1, den);
        assert((q - 1) * den == q * den - den) by (nonlinear_arith);
        assert(q * den == den * q) by (nonlinear_arith);
        assert(0 <= (len * num) % den);
    };
    assert(len * num == num * len) by (nonlinear_arith);
    lemma_multiply_divide_lt(i * den, num, len);
}

/// Normalizing a sequence already at the target rate returns it unchanged.
pub proof fn lemma_resample_identity(s: Seq<i16>)
    ensures
        resampled(s, 16000) == s,
{
    lemma_div_multiples_vanish(s.len() as int, 16000);
    assert forall|i: int| 0 <= i < s.len() implies s[source_index(i, 16000)] == s[i] by {
        lemma_div_multiples_vanish(i, 16000);
        assert(i * 16000 == 16000 * i) by (nonlinear_arith);
    }
    assert(resampled(s, 16000) =~= s);
}

/// Convert a sample sequence captured at `input_sample_rate` to the fixed
/// 16 kHz target by zero-order hold, handling upsampling and downsampling
/// uniformly. When the input is already at the target rate it is returned
/// unchanged without resampling work.
pub fn resample_to_16khz(input: &[i16], input_sample_rate: u32) -> (r: Vec<i16>)
    requires
        input_sample_rate >= 1,
        resampled_len(input@.len() as int, input_sample_rate as int) <= usize::MAX,
    ensures
        r@ == resampled(input@, input_sample_rate as int),
        input_sample_rate == 16000 ==> r@ == input@,
{
    let n = input.len();
    if input_sample_rate == 16000 {
        let mut out: Vec<i16> = Vec::new();
        let mut i: usize = 0;
        while i < n
            invariant
                n == input@.len(),
                i <= n,
                out@ == input@.take(i as int),
            decreases n - i,
        {
            out.push(input[i]);
            proof {
                assert(input@.take(i + 1) =~= input@.take(i as int).push(input@[i as int]));
            }
            i = i + 1;
        }
        proof {
            assert(input@.take(n as int) =~= input@);
            lemma_resample_identity(input@);
        }
        return out;
    }

    let rate = input_sample_rate;
    let out_len_wide: u128 = (n as u128) * 16000 / (rate as u128);
    proof {
        assert(out_len_wide == resampled_len(n as int, rate as int));
    }
    let out_len = out_len_wide as usize;
    let mut out: Vec<i16> = Vec::new();
    let mut i: usize = 0;
    while i < out_len
        invariant
            n == input@.len(),
            rate >= 1,
            out_len == resampled_len(n as int, rate as int),
            i <= out_len,
            out@.len() == i,
            forall|j: int| 0 <= j < i ==> out@[j] == input@[source_index(j, rate as int)],
        decreases out_len - i,
    {
        proof {
            lemma_scaled_index_in_bounds(i as int, n as int, 16000, rate as int);
        }
        let src_wide: u128 = (i as u128) * (rate as u128) / 16000;
        let src = src_wide as usize;
        out.push(input[src]);
        i = i + 1;
    }
    proof {
        assert(out@ =~= resampled(input@, rate as int));
    }
    out
}

} // verus!
