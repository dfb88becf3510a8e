use sawt::vad::{VadResult, VoiceActivityDetector};

fn frame(value: i16, n: usize) -> Vec<i16> {
    vec![value; n]
}

#[test]
fn energy_is_mean_of_squares() {
    let v = VoiceActivityDetector::new();
    assert_eq!(v.calculate_energy(&[3, 4]), 12); // (9 + 16) / 2
    assert_eq!(v.calculate_energy(&[0, 0, 0, 0]), 0);
    assert_eq!(v.calculate_energy(&[-3, 4]), 12);
    assert_eq!(v.calculate_energy(&[7]), 49);
}

#[test]
fn energy_extremes_do_not_overflow() {
    let v = VoiceActivityDetector::new();
    assert_eq!(v.calculate_energy(&[-32768]), 1073741824);
    assert_eq!(v.calculate_energy(&[32767]), 1073676289);
    assert_eq!(v.calculate_energy(&frame(-32768, 4096)), 1073741824);
}

#[test]
fn energy_division_floors() {
    let v = VoiceActivityDetector::new();
    // (1 + 4 + 4) / 3 = 3
    assert_eq!(v.calculate_energy(&[1, 2, -2]), 3);
}

#[test]
fn threshold_is_strict() {
    // A frame whose energy equals the threshold exactly is not loud.
    let mut v = VoiceActivityDetector::with_config(25, 1, 50);
    assert_eq!(v.process_frame(&[5]), VadResult::Silence); // energy 25, not > 25
    assert!(!v.is_speech_active);
    assert_eq!(v.process_frame(&[6]), VadResult::SpeechStart); // energy 36 > 25
    assert!(v.is_speech_active);
}

#[test]
fn quiet_input_never_starts_speech() {
    let mut v = VoiceActivityDetector::new();
    for _ in 0..100 {
        assert_eq!(v.process_frame(&frame(0, 1024)), VadResult::Silence);
        assert!(!v.is_speech_active);
    }
}

#[test]
fn short_loud_burst_never_starts_speech() {
    let mut v = VoiceActivityDetector::new();
    for _ in 0..4 {
        assert_eq!(v.process_frame(&frame(3277, 1024)), VadResult::Silence);
        assert!(!v.is_speech_active);
    }
}

#[test]
fn onset_exactly_at_streak_completion() {
    let mut v = VoiceActivityDetector::new();
    for _ in 0..4 {
        assert_eq!(v.process_frame(&frame(3277, 1024)), VadResult::Silence);
    }
    assert_eq!(v.process_frame(&frame(3277, 1024)), VadResult::SpeechStart);
    assert!(v.is_speech_active);
    for _ in 0..20 {
        assert_eq!(v.process_frame(&frame(3277, 1024)), VadResult::Speech);
        assert!(v.is_speech_active);
    }
}

#[test]
fn brief_pause_keeps_onset_evidence() {
    // Quiet lasting no more than half of min_silence_frames must not
    // discard accumulated loud-frame evidence.
    let mut v = VoiceActivityDetector::new(); // min_speech 5, min_silence 50
    for _ in 0..3 {
        v.process_frame(&frame(3277, 1024));
    }
    assert_eq!(v.speech_frames, 3);
    for _ in 0..25 {
        v.process_frame(&frame(0, 1024)); // silence_frames up to 25, not > 25
    }
    assert_eq!(v.speech_frames, 3);
    assert_eq!(v.process_frame(&frame(3277, 1024)), VadResult::Silence); // 4th
    assert_eq!(v.process_frame(&frame(3277, 1024)), VadResult::SpeechStart); // 5th
}

#[test]
fn long_pause_discards_onset_evidence() {
    let mut v = VoiceActivityDetector::new();
    for _ in 0..3 {
        v.process_frame(&frame(3277, 1024));
    }
    for _ in 0..26 {
        v.process_frame(&frame(0, 1024)); // 26th quiet frame exceeds 25
    }
    assert_eq!(v.speech_frames, 0);
    // A full fresh streak is needed again.
    for _ in 0..4 {
        assert_eq!(v.process_frame(&frame(3277, 1024)), VadResult::Silence);
    }
    assert_eq!(v.process_frame(&frame(3277, 1024)), VadResult::SpeechStart);
}

#[test]
fn offset_exactly_at_silence_streak() {
    let mut v = VoiceActivityDetector::new();
    for _ in 0..5 {
        v.process_frame(&frame(3277, 1024));
    }
    assert!(v.is_speech_active);
    for _ in 0..49 {
        assert_eq!(v.process_frame(&frame(0, 1024)), VadResult::Speech);
        assert!(v.is_speech_active);
    }
    assert_eq!(v.process_frame(&frame(0, 1024)), VadResult::SpeechEnd);
    assert!(!v.is_speech_active);
}

#[test]
fn with_config_exposes_tuning() {
    let v = VoiceActivityDetector::with_config(123, 7, 9);
    assert_eq!(v.energy_threshold, 123);
    assert_eq!(v.min_speech_frames, 7);
    assert_eq!(v.min_silence_frames, 9);
    assert_eq!(v.speech_frames, 0);
    assert_eq!(v.silence_frames, 0);
    assert!(!v.is_speech_active);
}
