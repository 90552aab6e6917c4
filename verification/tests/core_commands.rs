//! The remaining host commands: state queries, segment playback, control
//! dispatch, resets, and the reconnect and heartbeat helpers.

use lumina_vad::machine::VadState;
use lumina_vad::session::{
    make_silence_report, should_attempt_reconnect, ControlError, ProcessFrameError, VadCore,
};

#[test]
fn too_short_frames_are_rejected_without_a_state_change() {
    let mut core = VadCore::new();
    let short: Vec<i16> = vec![1; 9];
    let r = core.process_audio_frame(&short, 0);
    assert_eq!(r.unwrap_err(), ProcessFrameError::InputTooShort);
    assert_eq!(core.get_vad_state(), "Initial");
    assert!(core.get_speech_segments().is_empty());
}

#[test]
fn ten_samples_are_enough_for_the_real_detector() {
    let mut core = VadCore::new();
    let short: Vec<i16> = vec![0; 10];
    let out = core.process_audio_frame(&short, 0).expect("accepted");
    assert!(!out.voiced, "a padded zero frame is unvoiced");
}

#[test]
fn visible_state_is_never_the_quarantine_state() {
    let mut core = VadCore::new();
    assert_eq!(core.get_vad_state(), "Initial");
    let mut now: u64 = 0;
    core.process_classified_frame(&vec![1; 320], true, now);
    assert_eq!(core.machine.get_current_state(), VadState::TransitionBuffer);
    for _ in 0..10 {
        now += 20;
        core.process_classified_frame(&vec![1; 320], true, now);
        assert_ne!(core.get_vad_state(), "TransitionBuffer");
        assert_eq!(core.get_vad_state(), "Initial");
    }
}

#[test]
fn mirror_keeps_only_the_newest_fifty_segments() {
    let mut core = VadCore::new();
    for v in 0..55i16 {
        core.record_send_outcome(vec![v; 4], true);
    }
    let segs = core.get_speech_segments();
    assert_eq!(segs.len(), 50);
    assert_eq!(segs[0].samples, vec![5i16; 4]);
    assert_eq!(segs[49].samples, vec![54i16; 4]);
    assert!(segs.iter().all(|s| s.sample_rate == 16000));
}

#[test]
fn failed_writes_do_not_reach_the_mirror() {
    let mut core = VadCore::new();
    core.record_send_outcome(vec![1; 4], true);
    core.record_send_outcome(vec![2; 4], false);
    core.record_send_outcome(vec![3; 4], true);
    let mirrored: Vec<Vec<i16>> = core
        .get_speech_segments()
        .into_iter()
        .map(|s| s.samples)
        .collect();
    assert_eq!(mirrored, vec![vec![1i16; 4], vec![3i16; 4]]);
    assert_eq!(core.take_retry_segments(), vec![vec![2i16; 4]]);
}

#[test]
fn diagnostic_segment_shows_up_for_playback() {
    let mut core = VadCore::new();
    let tone: Vec<i16> = (0..16000).map(|i| ((i % 100) - 50) as i16).collect();
    core.insert_diagnostic_segment(tone.clone());
    let segs = core.get_speech_segments();
    assert_eq!(segs.len(), 1);
    assert_eq!(segs[0].samples, tone);
    assert_eq!(segs[0].sample_rate, 16000);
}

#[test]
fn combined_segment_concatenates_the_mirror_in_order() {
    let mut core = VadCore::new();
    assert!(core.get_combined_speech_segment().is_err());
    core.record_send_outcome(vec![1, 2], true);
    core.record_send_outcome(vec![3], true);
    core.record_send_outcome(vec![4, 5], true);
    let combined = core.get_combined_speech_segment().expect("non-empty");
    assert_eq!(combined.samples, vec![1, 2, 3, 4, 5]);
    assert_eq!(combined.sample_rate, 16000);
}

#[test]
fn clearing_the_mirror_empties_playback() {
    let mut core = VadCore::new();
    core.record_send_outcome(vec![1, 2], true);
    core.clear_speech_segments();
    assert!(core.get_speech_segments().is_empty());
    assert!(core.get_combined_speech_segment().is_err());
}

#[test]
fn backend_control_dispatches_known_actions() {
    let mut core = VadCore::new();
    core.process_classified_frame(&vec![1; 320], true, 0);
    core.on_stt_message(&b"{\"text\":\"x\",\"is_final\":false}".to_vec(), 10);
    assert_eq!(core.get_vad_state(), "Speaking");
    core.handle_backend_control(&"end_session".to_string(), 20)
        .expect("known action");
    assert_eq!(core.get_vad_state(), "Initial");

    core.process_classified_frame(&vec![1; 320], true, 30);
    core.on_stt_message(&b"{\"text\":\"x\",\"is_final\":false}".to_vec(), 40);
    core.handle_backend_control(&"reset_to_initial".to_string(), 50)
        .expect("known action");
    assert_eq!(core.get_vad_state(), "Initial");
}

#[test]
fn unknown_control_actions_are_rejected() {
    let mut core = VadCore::new();
    let r = core.handle_backend_control(&"self_destruct".to_string(), 0);
    assert_eq!(r.unwrap_err(), ControlError::UnknownAction);
    assert_eq!(core.get_vad_state(), "Initial");
}

#[test]
fn reset_vad_state_zeroes_the_classifier_and_machine() {
    let mut core = VadCore::new();
    core.process_classified_frame(&vec![1; 320], true, 0);
    core.process_classified_frame(&vec![1; 320], true, 20);
    assert!(core.classifier.is_speaking);
    core.reset_vad_state();
    assert!(!core.classifier.is_speaking);
    assert_eq!(core.classifier.speech_frames, 0);
    assert_eq!(core.classifier.silence_frames, 0);
    assert_eq!(core.get_vad_state(), "Initial");
}

#[test]
fn stop_vad_processing_flushes_and_resets() {
    let mut core = VadCore::new();
    core.process_classified_frame(&vec![1; 320], true, 0);
    core.on_stt_message(&b"{\"text\":\"x\",\"is_final\":false}".to_vec(), 10);
    core.pipeline.start_buffering();
    let samples: Vec<i16> = vec![7; 64];
    core.pipeline.add_audio_samples(&samples);
    let batches = core.stop_vad_processing();
    assert_eq!(batches, vec![samples]);
    assert!(!core.classifier.is_speaking);
    assert!(!core.pipeline.is_buffering);
    assert_eq!(core.get_vad_state(), "Initial");
}

#[test]
fn voice_collector_closes_segments_after_five_silent_frames() {
    let mut core = VadCore::new();
    // below the keep threshold: dropped
    core.pipeline.add_voice_frame(&vec![1; 300], true);
    for _ in 0..5 {
        core.pipeline.add_voice_frame(&vec![0; 4], false);
    }
    assert!(core.pipeline.get_complete_speech_segments().is_empty());
    // above it: kept, with the first two silent frames as its tail
    core.pipeline.add_voice_frame(&vec![2; 400], true);
    for _ in 0..5 {
        core.pipeline.add_voice_frame(&vec![0; 4], false);
    }
    let segs = core.pipeline.get_complete_speech_segments();
    assert_eq!(segs.len(), 1);
    assert_eq!(segs[0].len(), 400 + 4 + 4);
    core.pipeline.clear_complete_speech_segments();
    assert!(core.pipeline.get_complete_speech_segments().is_empty());
}

#[test]
fn reconnects_are_rate_limited_to_the_interval() {
    assert!(!should_attempt_reconnect(1000, 1000));
    assert!(!should_attempt_reconnect(1000, 1499));
    assert!(should_attempt_reconnect(1000, 1500));
    assert!(should_attempt_reconnect(1000, 9000));
    assert!(!should_attempt_reconnect(2000, 1000));
}

#[test]
fn silence_reports_carry_elapsed_ms_and_the_control_frame() {
    let (event, bytes) = make_silence_report(100, 1100);
    assert_eq!(event.silence_ms, 1000);
    assert_eq!(
        bytes,
        vec![0xFF, 0xFF, 0xFF, 0xFF, 0x01, 0xE8, 0x03, 0, 0, 0, 0, 0, 0]
    );
}

#[test]
fn pre_context_holds_the_last_five_frames_in_order() {
    let mut core = VadCore::new();
    for v in 1..=3i16 {
        core.process_classified_frame(&vec![v; 320], false, 0);
    }
    let window = core.pipeline.send_pre_context_frames();
    assert_eq!(window, vec![vec![1i16; 320], vec![2i16; 320], vec![3i16; 320]]);
    for v in 4..=8i16 {
        core.process_classified_frame(&vec![v; 320], false, 0);
    }
    let window = core.pipeline.send_pre_context_frames();
    let expected: Vec<Vec<i16>> = (4..=8i16).map(|v| vec![v; 320]).collect();
    assert_eq!(window, expected);
}

#[test]
fn all_allowed_frame_sizes_reach_the_detector() {
    let mut core = VadCore::new();
    for n in [160usize, 320, 480] {
        let frame: Vec<i16> = vec![0; n];
        assert!(core.process_audio_frame(&frame, 0).is_ok());
    }
}
