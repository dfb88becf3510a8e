use vstd::prelude::*;

verus! {

/// Classification of one audio frame by the voice-activity detector.
#[derive(Clone, Copy, Debug, PartialEq, Eq, Structural)]
pub enum VadResult {
    /// No speech is active and this frame did not change that.
    Silence,
    /// Speech is active (emitted for every frame of an ongoing utterance).
    Speech,
    /// This frame completed the onset streak: speech has just begun.
    SpeechStart,
    /// This frame completed the offset streak: speech has just ended.
    SpeechEnd,
}

/// Default loudness threshold on mean-square energy. Samples are signed
/// 16-bit fixed point with full scale 32768, so energy is measured in units
/// of `(1/32768)^2` of full scale; this value is about `5e-4` of full scale,
/// a low threshold tuned for sensitivity.
pub const DEFAULT_ENERGY_THRESHOLD: u64 = 536871;

/// Default onset streak: about 100 ms at 48 kHz with 1024-sample frames.
pub const DEFAULT_MIN_SPEECH_FRAMES: usize = 5;

/// Default offset streak: about one second of sustained quiet.
pub const DEFAULT_MIN_SILENCE_FRAMES: usize = 50;

/// Sum of the squares of the samples of a frame.
pub open spec fn sum_squares(s: Seq<i16>) -> int
    decreases s.len(),
{
    if s.len() == 0 {
        0
    } else {
        sum_squares(s.drop_last()) + s.last() * s.last()
    }
}

/// Mean squared amplitude of a frame (floor division by the frame length).
pub open spec fn frame_energy(s: Seq<i16>) -> int
    recommends
        s.len() > 0,
{
    sum_squares(s) / (s.len() as int)
}

/// Energy-based voice-activity detector with hysteresis: separate streak
/// lengths are required to enter and to leave speech, and onset evidence is
/// only discarded after quiet has lasted more than half the offset streak,
/// so brief pauses inside a sentence do not reset it.
pub struct VoiceActivityDetector {
    /// A frame is loud when its energy strictly exceeds this.
    pub energy_threshold: u64,
    /// Consecutive (hysteresis-tolerant) loud-frame count.
    pub speech_frames: usize,
    /// Consecutive quiet-frame count.
    pub silence_frames: usize,
    /// Loud streak needed to enter speech.
    pub min_speech_frames: usize,
    /// Quiet streak needed to leave speech.
    pub min_silence_frames: usize,
    /// Whether the machine is currently in its speech phase.
    pub is_speech_active: bool,
}

/// Counter increment that sticks at the top of `usize` instead of wrapping.
pub open spec fn sat_inc(n: usize) -> usize {
    if n == usize::MAX {
        n
    } else {
        (n + 1) as usize
    }
}

/// Whether a frame counts as loud for this detector.
pub open spec fn frame_loud(v: VoiceActivityDetector, s: Seq<i16>) -> bool {
    frame_energy(s) > v.energy_threshold
}

/// The detector state after consuming one frame of the given loudness.
pub open spec fn vad_next(v: VoiceActivityDetector, loud: bool) -> VoiceActivityDetector {
    if loud {
        VoiceActivityDetector {
            speech_frames: sat_inc(v.speech_frames),
            silence_frames: 0,
            is_speech_active: v.is_speech_active || sat_inc(v.speech_frames) >= v.min_speech_frames,
            ..v
        }
    } else {
        VoiceActivityDetector {
            speech_frames: if sat_inc(v.silence_frames) > v.min_silence_frames / 2 {
                0
            } else {
                v.speech_frames
            },
            silence_frames: sat_inc(v.silence_frames),
            is_speech_active: v.is_speech_active && sat_inc(v.silence_frames) < v.min_silence_frames,
            ..v
        }
    }
}

/// The classification emitted for one frame of the given loudness.
pub open spec fn vad_emit(v: VoiceActivityDetector, loud: bool) -> VadResult {
    if loud {
        if !v.is_speech_active && sat_inc(v.speech_frames) >= v.min_speech_frames {
            VadResult::SpeechStart
        } else if v.is_speech_active {
            VadResult::Speech
        } else {
            VadResult::Silence
        }
    } else {
        if v.is_speech_active && sat_inc(v.silence_frames) >= v.min_silence_frames {
            VadResult::SpeechEnd
        } else if v.is_speech_active {
            VadResult::Speech
        } else {
            VadResult::Silence
        }
    }
}

/// A detector in its initial state with the default tuning.
pub open spec fn default_detector() -> VoiceActivityDetector {
    VoiceActivityDetector {
        energy_threshold: DEFAULT_ENERGY_THRESHOLD,
        speech_frames: 0,
        silence_frames: 0,
        min_speech_frames: DEFAULT_MIN_SPEECH_FRAMES,
        min_silence_frames: DEFAULT_MIN_SILENCE_FRAMES,
        is_speech_active: false,
    }
}

proof fn lemma_square_bound(x: int)
    requires
        -0x8000 <= x <= 0x7fff,
    ensures
        0 <= x * x <= 0x4000_0000,
{
    assert(0 <= x * x <= 0x4000_0000) by (nonlinear_arith)
        requires
            -0x8000 <= x <= 0x7fff,
    ;
}

impl VoiceActivityDetector {
    /// A detector with the default tuning, initially in silence.
    pub fn new() -> (v: Self)
        ensures
            v == default_detector(),
    {
        VoiceActivityDetector {
            energy_threshold: DEFAULT_ENERGY_THRESHOLD,
            speech_frames: 0,
            silence_frames: 0,
            min_speech_frames: DEFAULT_MIN_SPEECH_FRAMES,
            min_silence_frames: DEFAULT_MIN_SILENCE_FRAMES,
            is_speech_active: false,
        }
    }

    /// A detector with explicit tuning, initially in silence. The thresholds
    /// are configuration, not constants: callers pick them to match their
    /// frame size and capture rate.
    pub fn with_config(energy_threshold: u64, min_speech_frames: usize, min_silence_frames: usize) -> (v: Self)
        ensures
            v == (VoiceActivityDetector {
                energy_threshold,
                speech_frames: 0,
                silence_frames: 0,
                min_speech_frames,
                min_silence_frames,
                is_speech_active: false,
            }),
    {
        VoiceActivityDetector {
            energy_threshold,
            speech_frames: 0,
            silence_frames: 0,
            min_speech_frames,
            min_silence_frames,
            is_speech_active: false,
        }
    }

    /// Mean squared amplitude of a frame. A zero-length frame is a caller
    /// error (a misconfigured frame size upstream) and is ruled out here.
    pub fn calculate_energy(&self, samples: &[i16]) -> (r: u64)
        requires
            samples@.len() > 0,
        ensures
            r == frame_energy(samples@),
    {
        let n = samples.len();
        let mut sum: u128 = 0;
        let mut i: usize = 0;
        while i < n
            invariant
                n == samples@.len(),
                i <= n,
                sum == sum_squares(samples@.take(i as int)),
                sum <= i * 0x4000_0000,
            decreases n - i,
        {
            let s = samples[i];
            proof {
                lemma_square_bound(s as int);
                assert(samples@.take(i + 1).drop_last() =~= samples@.take(i as int));
                assert(samples@.take(i + 1).last() == s);
            }
            let sq: i32 = (s as i32) * (s as i32);
            sum = sum + (sq as u128);
            i = i + 1;
        }
        proof {
            assert(samples@.take(n as int) =~= samples@);
            assert(sum / (n as u128) <= 0x4000_0000) by (nonlinear_arith)
                requires
                    sum <= n * 0x4000_0000,
                    n >= 1,
            ;
        }
        let mean: u128 = sum / (n as u128);
        mean as u64
    }

    /// Consume one frame: update the hysteresis counters and phase, and
    /// return the frame's classification. The state moves to
    /// `vad_next(old, loud)` and the result is `vad_emit(old, loud)`, where
    /// `loud` compares the frame's mean-square energy with the threshold.
    pub fn process_frame(&mut self, samples: &[i16]) -> (r: VadResult)
        requires
            samples@.len() > 0,
        ensures
            *final(self) == vad_next(*old(self), frame_loud(*old(self), samples@)),
            r == vad_emit(*old(self), frame_loud(*old(self), samples@)),
    {
        let energy = self.calculate_energy(samples);

        if energy > self.energy_threshold {
            self.speech_frames = if self.speech_frames == usize::MAX {
                self.speech_frames
            } else {
                self.speech_frames + 1
            };
            self.silence_frames = 0;

            if !self.is_speech_active && self.speech_frames >= self.min_speech_frames {
                self.is_speech_active = true;
                return VadResult::SpeechStart;
            }
        } else {
            self.silence_frames = if self.silence_frames == usize::MAX {
                self.silence_frames
            } else {
                self.silence_frames + 1
            };
            // Keep onset evidence through brief pauses: only discard it once
            // quiet has lasted more than half the offset streak.
            if self.silence_frames > self.min_silence_frames / 2 {
                self.speech_frames = 0;
            }

            if self.is_speech_active && self.silence_frames >= self.min_silence_frames {
                self.is_speech_active = false;
                return VadResult::SpeechEnd;
            }
        }

        if self.is_speech_active {
            VadResult::Speech
        } else {
            VadResult::Silence
        }
    }
}

/// The detector state after consuming a whole run of frames, given only
/// each frame's loudness.
pub open spec fn vad_run(v: VoiceActivityDetector, louds: Seq<bool>) -> VoiceActivityDetector
    decreases louds.len(),
{
    if louds.len() == 0 {
        v
    } else {
        vad_run(vad_next(v, louds.first()), louds.drop_first())
    }
}

/// The classifications emitted along a run of frames.
pub open spec fn vad_emits(v: VoiceActivityDetector, louds: Seq<bool>) -> Seq<VadResult>
    decreases louds.len(),
{
    if louds.len() == 0 {
        Seq::empty()
    } else {
        seq![vad_emit(v, louds.first())] + vad_emits(vad_next(v, louds.first()), louds.drop_first())
    }
}

/// Number of loud frames in a run.
pub open spec fn count_loud(louds: Seq<bool>) -> int
    decreases louds.len(),
{
    if louds.len() == 0 {
        0
    } else {
        (if louds.first() {
            1int
        } else {
            0int
        }) + count_loud(louds.drop_first())
    }
}

proof fn lemma_count_loud_bounds(louds: Seq<bool>)
    ensures
        0 <= count_loud(louds) <= louds.len(),
    decreases louds.len(),
{
    if louds.len() > 0 {
        lemma_count_loud_bounds(louds.drop_first());
    }
}

/// Sustained quiet while inactive keeps the machine in silence: every
/// frame of an all-quiet run from an inactive state is classified
/// `Silence` — in particular, no `SpeechStart` is ever emitted — and the
/// machine is still inactive afterwards. Quiet runs of any length are
/// covered, runs of `min_silence_frames` and longer included.
pub proof fn lemma_quiet_run_stays_silent(v: VoiceActivityDetector, louds: Seq<bool>)
    requires
        !v.is_speech_active,
        forall|i: int| 0 <= i < louds.len() ==> !louds[i],
    ensures
        !vad_run(v, louds).is_speech_active,
        vad_emits(v, louds).len() == louds.len(),
        forall|i: int| 0 <= i < louds.len() ==> vad_emits(v, louds)[i] == VadResult::Silence,
    decreases louds.len(),
{
    if louds.len() > 0 {
        assert(!louds[0]);
        let v1 = vad_next(v, louds.first());
        assert(!v1.is_speech_active);
        lemma_quiet_run_stays_silent(v1, louds.drop_first());
        assert forall|i: int| 0 <= i < louds.len() implies vad_emits(v, louds)[i]
            == VadResult::Silence by {
            if i > 0 {
                assert(!louds.drop_first()[i - 1]);
                assert(vad_emits(v, louds)[i] == vad_emits(v1, louds.drop_first())[i - 1]);
            }
        }
    }
}

/// No onset from too little loud evidence: from an inactive state, any
/// input whose loud frames number fewer than what the onset streak still
/// needs — quiet frames interspersed freely — never produces
/// `SpeechStart`, and leaves the machine inactive.
pub proof fn lemma_too_few_loud_frames_no_onset(v: VoiceActivityDetector, louds: Seq<bool>)
    requires
        !v.is_speech_active,
        v.speech_frames + count_loud(louds) < v.min_speech_frames,
    ensures
        !vad_run(v, louds).is_speech_active,
        vad_emits(v, louds).len() == louds.len(),
        forall|i: int| 0 <= i < louds.len() ==> vad_emits(v, louds)[i] == VadResult::Silence,
    decreases louds.len(),
{
    if louds.len() > 0 {
        lemma_count_loud_bounds(louds.drop_first());
        let v1 = vad_next(v, louds.first());
        assert(vad_emit(v, louds.first()) == VadResult::Silence);
        assert(!v1.is_speech_active);
        assert(v1.speech_frames + count_loud(louds.drop_first()) < v1.min_speech_frames);
        lemma_too_few_loud_frames_no_onset(v1, louds.drop_first());
        assert forall|i: int| 0 <= i < louds.len() implies vad_emits(v, louds)[i]
            == VadResult::Silence by {
            if i > 0 {
                assert(vad_emits(v, louds)[i] == vad_emits(v1, louds.drop_first())[i - 1]);
            }
        }
    }
}

/// Every loud frame while the machine is already active is classified
/// `Speech`, and the machine stays active.
pub proof fn lemma_loud_run_while_active(v: VoiceActivityDetector, louds: Seq<bool>)
    requires
        v.is_speech_active,
        forall|i: int| 0 <= i < louds.len() ==> louds[i],
    ensures
        vad_run(v, louds).is_speech_active,
        vad_emits(v, louds).len() == louds.len(),
        forall|i: int| 0 <= i < louds.len() ==> vad_emits(v, louds)[i] == VadResult::Speech,
    decreases louds.len(),
{
    if louds.len() > 0 {
        assert(louds[0]);
        let v1 = vad_next(v, louds.first());
        lemma_loud_run_while_active(v1, louds.drop_first());
        assert forall|i: int| 0 <= i < louds.len() implies vad_emits(v, louds)[i]
            == VadResult::Speech by {
            if i > 0 {
                assert(louds.drop_first()[i - 1]);
                assert(vad_emits(v, louds)[i] == vad_emits(v1, louds.drop_first())[i - 1]);
            }
        }
    }
}

/// Exactly one onset on a sustained loud run: from an inactive state that
/// still needs `k = min_speech_frames - speech_frames` loud frames, an
/// all-loud run emits `Silence` while evidence accumulates, `SpeechStart`
/// exactly at the frame completing the streak, and `Speech` at every loud
/// frame after it. From a fresh detector, `k` is `min_speech_frames`.
pub proof fn lemma_loud_run_single_onset(v: VoiceActivityDetector, louds: Seq<bool>)
    requires
        !v.is_speech_active,
        v.speech_frames < v.min_speech_frames,
        louds.len() >= v.min_speech_frames - v.speech_frames,
        forall|i: int| 0 <= i < louds.len() ==> louds[i],
    ensures
        vad_run(v, louds).is_speech_active,
        vad_emits(v, louds).len() == louds.len(),
        forall|i: int|
            0 <= i < v.min_speech_frames - v.speech_frames - 1 ==> vad_emits(v, louds)[i]
                == VadResult::Silence,
        vad_emits(v, louds)[v.min_speech_frames - v.speech_frames - 1] == VadResult::SpeechStart,
        forall|i: int|
            v.min_speech_frames - v.speech_frames <= i < louds.len() ==> vad_emits(v, louds)[i]
                == VadResult::Speech,
    decreases louds.len(),
{
    let k = v.min_speech_frames - v.speech_frames;
    assert(louds[0]);
    let v1 = vad_next(v, louds.first());
    if k == 1 {
        assert(vad_emit(v, louds.first()) == VadResult::SpeechStart);
        assert(v1.is_speech_active);
        lemma_loud_run_while_active(v1, louds.drop_first());
        assert forall|i: int| 1 <= i < louds.len() implies vad_emits(v, louds)[i]
            == VadResult::Speech by {
            assert(louds.drop_first()[i - 1]);
            assert(vad_emits(v, louds)[i] == vad_emits(v1, louds.drop_first())[i - 1]);
        }
    } else {
        assert(vad_emit(v, louds.first()) == VadResult::Silence);
        assert(!v1.is_speech_active);
        assert(v1.speech_frames == v.speech_frames + 1);
        lemma_loud_run_single_onset(v1, louds.drop_first());
        assert forall|i: int| 1 <= i < louds.len() implies vad_emits(v, louds)[i] == vad_emits(
            v1,
            louds.drop_first(),
        )[i - 1] by {
            assert(louds.drop_first()[i - 1]);
        }
        assert(vad_emits(v, louds)[k - 1] == vad_emits(v1, louds.drop_first())[k - 2]);
    }
}

} // verus!
