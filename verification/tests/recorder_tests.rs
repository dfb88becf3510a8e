use sawt::recorder::{AudioConfig, ContinuousRecorder};

fn frame(value: i16, n: usize) -> Vec<i16> {
    vec![value; n]
}

const LOUD: i16 = 3277; // energy 10738729, well above the default threshold

#[test]
fn end_to_end_segment_assembly() {
    // Capture at 48 kHz, mono, 1024-sample frames.
    let config = AudioConfig { sample_rate: 48000, channels: 1, chunk_size: 1024 };
    let mut rec = ContinuousRecorder::new(config);

    // Five loud frames: onset lands exactly on the fifth.
    for _ in 0..4 {
        assert_eq!(rec.process_audio_chunk(&frame(LOUD, 1024)), None);
        assert!(!rec.recording_speech);
    }
    assert_eq!(rec.process_audio_chunk(&frame(LOUD, 1024)), None);
    assert!(rec.recording_speech);
    // History holds 5120 samples, less than the 14400-sample pre-roll, so
    // the seeded segment is the whole history.
    assert_eq!(rec.speech_buffer.len(), 5120);

    // Fifty more loud frames: speech each time, segment grows by 1024.
    for k in 1..=50 {
        assert_eq!(rec.process_audio_chunk(&frame(LOUD, 1024)), None);
        assert!(rec.recording_speech);
        assert_eq!(rec.speech_buffer.len(), 5120 + 1024 * k);
    }

    // Fifty quiet frames: the offset streak completes on the fiftieth,
    // closing the segment with pre-roll plus everything accumulated.
    for _ in 0..49 {
        assert_eq!(rec.process_audio_chunk(&frame(0, 1024)), None);
        assert!(rec.recording_speech);
    }
    let handoff = rec
        .process_audio_chunk(&frame(0, 1024))
        .expect("segment closes on the fiftieth quiet frame");
    assert_eq!(handoff.len(), 5120 + 50 * 1024 + 49 * 1024);
    assert!(!rec.recording_speech);
    assert!(rec.speech_buffer.is_empty());
}

#[test]
fn pre_roll_is_exact_trailing_history() {
    let config = AudioConfig { sample_rate: 48000, channels: 1, chunk_size: 1024 };
    let mut rec = ContinuousRecorder::new(config);

    // Quiet frames with distinct values fill history beyond the 14400
    // pre-roll samples without starting speech.
    for i in 0..20i16 {
        assert_eq!(rec.process_audio_chunk(&frame(i % 3, 1024)), None);
    }
    // Mirror of the history the recorder has seen.
    let mut history: Vec<i16> = Vec::new();
    for i in 0..20i16 {
        history.extend(frame(i % 3, 1024));
    }

    // Onset: five loud frames with distinct values.
    for i in 0..5i16 {
        assert_eq!(rec.process_audio_chunk(&frame(1000 + i, 1024)), None);
        history.extend(frame(1000 + i, 1024));
    }
    assert!(rec.recording_speech);
    // The segment is seeded with exactly the trailing 14400 history
    // samples, sample for sample.
    assert_eq!(rec.speech_buffer.len(), 14400);
    assert_eq!(rec.speech_buffer[..], history[history.len() - 14400..]);

    // The seed stays at the segment's head through later appends and into
    // the hand-off.
    let seed = rec.speech_buffer.clone();
    for _ in 0..49 {
        assert_eq!(rec.process_audio_chunk(&frame(0, 1024)), None);
    }
    let handoff = rec.process_audio_chunk(&frame(0, 1024)).expect("offset streak complete");
    assert_eq!(handoff[..14400], seed[..]);
}

#[test]
fn max_duration_breach_forces_single_handoff() {
    // A small rate makes the ten-second cap (1000 samples) quick to hit.
    let config = AudioConfig { sample_rate: 100, channels: 1, chunk_size: 100 };
    let mut rec = ContinuousRecorder::new(config);

    for _ in 0..5 {
        assert_eq!(rec.process_audio_chunk(&frame(LOUD, 100)), None);
    }
    assert!(rec.recording_speech);
    // Pre-roll is 30 samples at this rate.
    assert_eq!(rec.speech_buffer.len(), 30);

    // Ten appended frames bring the elapsed count to the 1000-sample cap
    // without breaching it.
    for k in 1..=10 {
        assert_eq!(rec.process_audio_chunk(&frame(LOUD, 100)), None);
        assert_eq!(rec.speech_elapsed_samples, 100 * k);
    }

    // The eleventh loud frame breaches the cap: exactly one hand-off, the
    // breaching frame included, and no SpeechEnd (the detector stays in
    // speech).
    let handoff = rec.process_audio_chunk(&frame(LOUD, 100)).expect("forced hand-off");
    assert_eq!(handoff.len(), 30 + 11 * 100);
    assert!(!rec.recording_speech);
    assert!(rec.vad.is_speech_active);
    assert!(rec.speech_buffer.is_empty());
    assert_eq!(rec.speech_elapsed_samples, 0);

    // Continued loud audio after the cutoff yields no further hand-off and
    // opens no segment until the machine passes through silence again.
    for _ in 0..5 {
        assert_eq!(rec.process_audio_chunk(&frame(LOUD, 100)), None);
        assert!(!rec.recording_speech);
    }

    // After a silence streak and a fresh onset streak, a new segment opens.
    for _ in 0..50 {
        assert_eq!(rec.process_audio_chunk(&frame(0, 100)), None);
    }
    assert!(!rec.vad.is_speech_active);
    for _ in 0..5 {
        rec.process_audio_chunk(&frame(LOUD, 100));
    }
    assert!(rec.recording_speech);
}

#[test]
fn history_rolls_even_while_silent() {
    let config = AudioConfig { sample_rate: 100, channels: 1, chunk_size: 100 };
    let mut rec = ContinuousRecorder::new(config);
    // Capacity is 30 s * 100 Hz = 3000 samples.
    for _ in 0..100 {
        assert_eq!(rec.process_audio_chunk(&frame(1, 100)), None);
        assert!(rec.audio_buffer.len() <= 3000);
    }
    assert_eq!(rec.audio_buffer.len(), 3000);
}

#[test]
fn fresh_recorder_is_idle() {
    let config = AudioConfig { sample_rate: 48000, channels: 2, chunk_size: 1024 };
    let rec = ContinuousRecorder::new(config);
    assert!(!rec.recording_speech);
    assert!(rec.speech_buffer.is_empty());
    assert_eq!(rec.audio_buffer.len(), 0);
    assert_eq!(rec.max_speech_samples, 480000);
    assert_eq!(rec.config, config);
}
