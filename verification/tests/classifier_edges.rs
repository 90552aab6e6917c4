//! Edge hysteresis and frame normalisation, including the real detector.

use lumina_vad::classifier::{normalize_frame, VadEvent, VadProcessor};

#[test]
fn speech_start_fires_on_the_second_voiced_frame() {
    let mut p = VadProcessor::new();
    assert_eq!(p.apply_verdict(true), VadEvent::Processing);
    assert_eq!(p.apply_verdict(true), VadEvent::SpeechStart);
    assert!(p.is_speaking);
    assert_eq!(p.apply_verdict(true), VadEvent::Processing);
}

#[test]
fn speech_start_needs_consecutive_voiced_frames() {
    let mut p = VadProcessor::new();
    assert_eq!(p.apply_verdict(true), VadEvent::Processing);
    assert_eq!(p.apply_verdict(false), VadEvent::Processing);
    assert_eq!(p.apply_verdict(true), VadEvent::Processing);
    assert_eq!(p.apply_verdict(true), VadEvent::SpeechStart);
}

#[test]
fn speech_end_fires_on_the_hundredth_unvoiced_frame() {
    let mut p = VadProcessor::new();
    p.apply_verdict(true);
    p.apply_verdict(true);
    assert!(p.is_speaking);
    for _ in 0..99 {
        assert_eq!(p.apply_verdict(false), VadEvent::Processing);
    }
    assert_eq!(p.apply_verdict(false), VadEvent::SpeechEnd);
    assert!(!p.is_speaking);
    assert_eq!(p.apply_verdict(false), VadEvent::Processing);
}

#[test]
fn a_voiced_frame_resets_the_unvoiced_run() {
    let mut p = VadProcessor::new();
    p.apply_verdict(true);
    p.apply_verdict(true);
    for _ in 0..99 {
        p.apply_verdict(false);
    }
    p.apply_verdict(true);
    for _ in 0..99 {
        assert_eq!(p.apply_verdict(false), VadEvent::Processing);
    }
    assert_eq!(p.apply_verdict(false), VadEvent::SpeechEnd);
}

#[test]
fn no_speech_end_without_the_latch() {
    let mut p = VadProcessor::new();
    for _ in 0..200 {
        assert_eq!(p.apply_verdict(false), VadEvent::Processing);
    }
}

#[test]
fn normalize_keeps_allowed_sizes() {
    for n in [160usize, 320, 480] {
        let frame: Vec<i16> = vec![5; n];
        assert_eq!(normalize_frame(&frame), frame);
    }
}

#[test]
fn normalize_pads_short_frames_with_zeros() {
    let frame: Vec<i16> = vec![3; 100];
    let out = normalize_frame(&frame);
    assert_eq!(out.len(), 320);
    assert_eq!(&out[0..100], &frame[..]);
    assert!(out[100..].iter().all(|&s| s == 0));
}

#[test]
fn normalize_truncates_long_frames() {
    let mut frame: Vec<i16> = vec![2; 400];
    frame[319] = 9;
    let out = normalize_frame(&frame);
    assert_eq!(out.len(), 320);
    assert_eq!(out[319], 9);
    assert_eq!(out[0], 2);
}

#[test]
fn real_detector_classifies_a_silent_frame() {
    let mut p = VadProcessor::new();
    let silent: Vec<i16> = vec![0; 320];
    let (event, voiced) = p.process_frame(&silent).expect("valid frame");
    assert_eq!(event, VadEvent::Processing);
    assert!(!voiced);
}

#[test]
fn real_detector_rejects_only_the_empty_frame() {
    let mut p = VadProcessor::new();
    assert!(p.process_frame(&Vec::new()).is_none());
    let odd: Vec<i16> = vec![0; 7];
    assert!(p.process_frame(&odd).is_some());
}
