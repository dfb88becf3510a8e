//! Real-time speech segmentation for a live audio stream.
//!
//! The crate decides, frame by frame, where speech begins and ends inside an
//! unbounded stream of audio: an energy-based voice-activity detector with
//! hysteresis, a bounded FIFO history buffer that recovers pre-roll audio from
//! just before a detected onset, a segment assembler with a maximum-duration
//! cutoff, and a zero-order-hold rate normalizer that converts finished
//! segments to the fixed sample rate a transcription engine expects.
//!
//! Samples are signed 16-bit fixed point (full scale 32768); frame energy is
//! the mean of squared samples, so it ranges over `0 ..= 32768 * 32768`.

pub mod history;
pub mod pipeline;
pub mod recorder;
pub mod resample;
pub mod vad;
