use vstd::prelude::*;
use crate::history::{last_cap, HistoryBuffer};
use crate::vad::{default_detector, frame_loud, vad_emit, vad_next, VadResult, VoiceActivityDetector};

verus! {

/// Shape of the audio delivered by the capture device.
#[derive(Clone, Copy, Debug, PartialEq, Eq, Structural)]
pub struct AudioConfig {
    /// Capture sample rate in Hz.
    pub sample_rate: u32,
    /// Channels in the device-native layout.
    pub channels: u16,
    /// Samples per frame handed to the assembler.
    pub chunk_size: usize,
}

/// Seconds of history retained for pre-roll recovery and of audio a segment
/// may span before it is force-closed.
pub const HISTORY_SECONDS: usize = 30;

/// Maximum segment duration in seconds before a forced hand-off.
pub const MAX_SPEECH_SECONDS: usize = 10;

/// Pre-roll recovered from history at onset: 0.3 s at the given rate.
pub open spec fn pre_roll_len(rate: int) -> int {
    rate * 3 / 10
}

/// Owns the detector and the history buffer; per frame it rolls the frame
/// into history, classifies it, seeds a new segment with pre-roll at onset,
/// grows the open segment, and hands a finished segment off on silence or
/// on a maximum-duration breach. Elapsed time is counted in samples at the
/// capture rate, so ten seconds is `10 * sample_rate` appended samples.
pub struct ContinuousRecorder {
    /// Rolling store of the most recent raw samples (30 s at capture rate).
    pub audio_buffer: HistoryBuffer,
    /// The open speech segment, empty when none is open.
    pub speech_buffer: Vec<i16>,
    /// The voice-activity state machine.
    pub vad: VoiceActivityDetector,
    /// Capture configuration.
    pub config: AudioConfig,
    /// Whether a segment is currently open.
    pub recording_speech: bool,
    /// Samples appended to the open segment after its seeding; stands in
    /// for the elapsed time since onset.
    pub speech_elapsed_samples: usize,
    /// Cap on `speech_elapsed_samples`: 10 s at the capture rate.
    pub max_speech_samples: usize,
}

/// The segment-assembly fields are untouched by this frame.
pub open spec fn segment_untouched(pre: ContinuousRecorder, post: ContinuousRecorder) -> bool {
    &&& post.speech_buffer@ == pre.speech_buffer@
    &&& post.recording_speech == pre.recording_speech
    &&& post.speech_elapsed_samples == pre.speech_elapsed_samples
}

/// Configuration never changes while frames are processed.
pub open spec fn config_unchanged(pre: ContinuousRecorder, post: ContinuousRecorder) -> bool {
    &&& post.config == pre.config
    &&& post.max_speech_samples == pre.max_speech_samples
    &&& post.audio_buffer.cap == pre.audio_buffer.cap
}

/// Full behaviour of one `process_audio_chunk` call: `pre` and `post` are
/// the assembler before and after, `samples` the frame, `out` the hand-off.
/// History always rolls forward and the detector always steps; what happens
/// to the open segment follows the frame's classification.
pub open spec fn chunk_post(
    pre: ContinuousRecorder,
    post: ContinuousRecorder,
    samples: Seq<i16>,
    out: Option<Seq<i16>>,
) -> bool {
    let loud = frame_loud(pre.vad, samples);
    let hist = last_cap(pre.audio_buffer@ + samples, pre.audio_buffer.cap as int);
    &&& config_unchanged(pre, post)
    &&& post.audio_buffer@ == hist
    &&& post.vad == vad_next(pre.vad, loud)
    &&& match vad_emit(pre.vad, loud) {
        VadResult::SpeechStart => {
            let pre_n = if pre_roll_len(pre.config.sample_rate as int) <= hist.len() {
                pre_roll_len(pre.config.sample_rate as int)
            } else {
                hist.len() as int
            };
            &&& out is None
            &&& post.recording_speech
            &&& post.speech_elapsed_samples == 0
            &&& post.speech_buffer@ == hist.subrange(hist.len() - pre_n, hist.len() as int)
        },
        VadResult::Speech => {
            if pre.recording_speech {
                let grown = pre.speech_buffer@ + samples;
                if pre.speech_elapsed_samples + samples.len() > pre.max_speech_samples {
                    &&& out == Some(grown)
                    &&& !post.recording_speech
                    &&& post.speech_elapsed_samples == 0
                    &&& post.speech_buffer@.len() == 0
                } else {
                    &&& out is None
                    &&& post.recording_speech
                    &&& post.speech_elapsed_samples == pre.speech_elapsed_samples + samples.len()
                    &&& post.speech_buffer@ == grown
                }
            } else {
                &&& segment_untouched(pre, post)
                &&& out is None
            }
        },
        VadResult::SpeechEnd => {
            if pre.recording_speech {
                &&& out == (if pre.speech_buffer@.len() > 0 {
                    Some(pre.speech_buffer@)
                } else {
                    None::<Seq<i16>>
                })
                &&& !post.recording_speech
                &&& post.speech_elapsed_samples == 0
                &&& post.speech_buffer@.len() == 0
            } else {
                &&& segment_untouched(pre, post)
                &&& out is None
            }
        },
        VadResult::Silence => {
            &&& segment_untouched(pre, post)
            &&& out is None
        },
    }
}

fn append_slice(dst: &mut Vec<i16>, src: &[i16])
    ensures
        final(dst)@ == old(dst)@ + src@,
{
    let n = src.len();
    let mut i: usize = 0;
    proof {
        assert(old(dst)@ + src@.take(0) =~= old(dst)@);
    }
    while i < n
        invariant
            n == src@.len(),
            i <= n,
            dst@ == old(dst)@ + src@.take(i as int),
        decreases n - i,
    {
        dst.push(src[i]);
        proof {
            assert(old(dst)@ + src@.take(i + 1)
                =~= (old(dst)@ + src@.take(i as int)).push(src@[i as int]));
        }
        i = i + 1;
    }
    proof {
        assert(src@.take(n as int) =~= src@);
    }
}

impl ContinuousRecorder {
    /// Structural invariant tying the buffer capacity and the duration cap
    /// to the capture rate, and bounding an open segment's elapsed count.
    pub open spec fn wf(&self) -> bool {
        &&& self.audio_buffer.wf()
        &&& self.audio_buffer.cap == self.config.sample_rate as int * HISTORY_SECONDS
        &&& self.max_speech_samples == self.config.sample_rate as int * MAX_SPEECH_SECONDS
        &&& self.config.sample_rate >= 1
        &&& self.config.sample_rate as int * HISTORY_SECONDS <= usize::MAX
        &&& (self.recording_speech ==> self.speech_elapsed_samples <= self.max_speech_samples)
        &&& (self.recording_speech ==> self.vad.is_speech_active)
    }

    /// A fresh assembler for one capture session: empty history sized to
    /// 30 s at the capture rate, no open segment, default detector tuning.
    pub fn new(config: AudioConfig) -> (r: Self)
        requires
            config.sample_rate >= 1,
            config.sample_rate as int * HISTORY_SECONDS <= usize::MAX,
        ensures
            r.wf(),
            r.config == config,
            r.audio_buffer@ == Seq::<i16>::empty(),
            r.speech_buffer@ == Seq::<i16>::empty(),
            r.vad == default_detector(),
            !r.recording_speech,
            r.speech_elapsed_samples == 0,
    {
        let max_buffer_size = (config.sample_rate as usize) * HISTORY_SECONDS;
        ContinuousRecorder {
            audio_buffer: HistoryBuffer::new(max_buffer_size),
            speech_buffer: Vec::new(),
            vad: VoiceActivityDetector::new(),
            config,
            recording_speech: false,
            speech_elapsed_samples: 0,
            max_speech_samples: (config.sample_rate as usize) * MAX_SPEECH_SECONDS,
        }
    }

    /// Process one frame: roll it into history, classify it, and react.
    /// At onset the new segment is seeded with up to 0.3 s of trailing
    /// history; while open, the segment grows by the frame and is
    /// force-closed past the duration cap; on detected silence it is closed
    /// and handed off. The hand-off, when any, is the return value; there
    /// is at most one per frame and never an empty one.
    pub fn process_audio_chunk(&mut self, samples: &[i16]) -> (r: Option<Vec<i16>>)
        requires
            old(self).wf(),
            samples@.len() > 0,
        ensures
            final(self).wf(),
            match r {
                Some(v) => chunk_post(*old(self), *final(self), samples@, Some(v@)) && v@.len() > 0,
                None => chunk_post(*old(self), *final(self), samples@, None::<Seq<i16>>),
            },
    {
        self.audio_buffer.push_frame(samples);

        let vad_result = self.vad.process_frame(samples);

        match vad_result {
            VadResult::SpeechStart => {
                self.recording_speech = true;
                self.speech_elapsed_samples = 0;

                // Seed the segment with pre-roll audio recovered from
                // history, so the first syllable clipped by detector
                // latency is not lost.
                let pre_speech_samples = (self.config.sample_rate as usize) * 3 / 10;
                let hist_len = self.audio_buffer.len();
                let take_n = if pre_speech_samples <= hist_len {
                    pre_speech_samples
                } else {
                    hist_len
                };
                self.speech_buffer = self.audio_buffer.tail(take_n);
                None
            },
            VadResult::Speech => {
                if self.recording_speech {
                    append_slice(&mut self.speech_buffer, samples);

                    if samples.len() > self.max_speech_samples - self.speech_elapsed_samples {
                        // Maximum segment duration breached: force-close.
                        self.recording_speech = false;
                        self.speech_elapsed_samples = 0;
                        let mut speech_audio: Vec<i16> = Vec::new();
                        core::mem::swap(&mut speech_audio, &mut self.speech_buffer);
                        Some(speech_audio)
                    } else {
                        self.speech_elapsed_samples = self.speech_elapsed_samples + samples.len();
                        None
                    }
                } else {
                    None
                }
            },
            VadResult::SpeechEnd => {
                if self.recording_speech {
                    self.recording_speech = false;
                    self.speech_elapsed_samples = 0;

                    if self.speech_buffer.len() > 0 {
                        let mut speech_audio: Vec<i16> = Vec::new();
                        core::mem::swap(&mut speech_audio, &mut self.speech_buffer);
                        Some(speech_audio)
                    } else {
                        None
                    }
                } else {
                    None
                }
            },
            VadResult::Silence => None,
        }
    }
}

/// A maximum-duration breach while a segment is open forces exactly one
/// hand-off: the call returns the whole accumulated segment including the
/// breaching frame, the emitted classification is `Speech` (no `SpeechEnd`),
/// the detector stays in its speech phase, and the assembler's segment
/// state is fully reset, ready to open a new segment at the next onset.
pub proof fn lemma_cutoff_forces_single_handoff(
    pre: ContinuousRecorder,
    post: ContinuousRecorder,
    samples: Seq<i16>,
    out: Option<Seq<i16>>,
)
    requires
        chunk_post(pre, post, samples, out),
        pre.recording_speech,
        pre.vad.is_speech_active,
        frame_loud(pre.vad, samples),
        pre.speech_elapsed_samples + samples.len() > pre.max_speech_samples,
    ensures
        out == Some(pre.speech_buffer@ + samples),
        vad_emit(pre.vad, frame_loud(pre.vad, samples)) == VadResult::Speech,
        post.vad.is_speech_active,
        !post.recording_speech,
        post.speech_buffer@.len() == 0,
        post.speech_elapsed_samples == 0,
{
}

/// Pre-roll inclusion at onset: when the history (with the onset frame
/// already rolled in) holds at least `0.3 s * sample_rate` samples, the
/// freshly seeded segment is exactly that trailing slice of history.
pub proof fn lemma_pre_roll_seeds_segment(
    pre: ContinuousRecorder,
    post: ContinuousRecorder,
    samples: Seq<i16>,
    out: Option<Seq<i16>>,
)
    requires
        chunk_post(pre, post, samples, out),
        vad_emit(pre.vad, frame_loud(pre.vad, samples)) == VadResult::SpeechStart,
        last_cap(pre.audio_buffer@ + samples, pre.audio_buffer.cap as int).len()
            >= pre_roll_len(pre.config.sample_rate as int),
    ensures
        ({
            let hist = last_cap(pre.audio_buffer@ + samples, pre.audio_buffer.cap as int);
            post.speech_buffer@ == hist.subrange(
                hist.len() - pre_roll_len(pre.config.sample_rate as int),
                hist.len() as int,
            )
        }),
        out is None,
{
}

/// While a segment stays open, appending a frame preserves everything
/// already accumulated: the pre-roll seeded at onset stays at the
/// segment's head, sample for sample, until the segment is handed off.
pub proof fn lemma_append_preserves_prefix(
    pre: ContinuousRecorder,
    post: ContinuousRecorder,
    samples: Seq<i16>,
    out: Option<Seq<i16>>,
    k: int,
)
    requires
        chunk_post(pre, post, samples, out),
        pre.recording_speech,
        vad_emit(pre.vad, frame_loud(pre.vad, samples)) == VadResult::Speech,
        pre.speech_elapsed_samples + samples.len() <= pre.max_speech_samples,
        0 <= k <= pre.speech_buffer@.len(),
    ensures
        post.speech_buffer@.take(k) == pre.speech_buffer@.take(k),
{
    assert((pre.speech_buffer@ + samples).take(k) =~= pre.speech_buffer@.take(k));
}

} // verus!
