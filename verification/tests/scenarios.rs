//! End-to-end scenarios driven through the command surface, with the host's
//! socket writes mocked by recording each outcome.

use lumina_vad::machine::{HeartbeatAction, VadState};
use lumina_vad::classifier::VadEvent;
use lumina_vad::session::{make_silence_report, VadCore};

fn frame(val: i16) -> Vec<i16> {
    vec![val; 320]
}

/// Write every segment of the outcome "upstream" successfully and collect it.
fn commit_all(core: &mut VadCore, to_send: Vec<Vec<i16>>, log: &mut Vec<Vec<i16>>) {
    for seg in to_send {
        log.push(seg.clone());
        core.record_send_outcome(seg, true);
    }
}

#[test]
fn silent_idle_stays_initial_and_sends_nothing() {
    let mut core = VadCore::new();
    let mut now: u64 = 0;
    for _ in 0..50 {
        let out = core.process_classified_frame(&frame(0), false, now);
        assert_eq!(out.event, VadEvent::Processing);
        assert!(out.to_send.is_empty());
        assert!(out.step.ui_transition.is_none());
        assert_eq!(out.step.heartbeat, HeartbeatAction::Keep);
        now += 20;
    }
    assert_eq!(core.get_vad_state(), "Initial");
    assert!(core.get_speech_segments().is_empty());
}

#[test]
fn clean_utterance_start_confirm_speak_then_wait() {
    let mut core = VadCore::new();
    let mut sent: Vec<Vec<i16>> = Vec::new();
    let mut now: u64 = 0;

    // two voiced frames: hidden wake-up, SpeechStart on the second
    let out = core.process_classified_frame(&frame(1), true, now);
    assert_eq!(out.event, VadEvent::Processing);
    assert!(out.step.forward);
    assert_eq!(core.get_vad_state(), "Initial");
    commit_all(&mut core, out.to_send, &mut sent);
    now += 20;
    let out = core.process_classified_frame(&frame(2), true, now);
    assert_eq!(out.event, VadEvent::SpeechStart);
    assert_eq!(core.get_vad_state(), "Initial");
    commit_all(&mut core, out.to_send, &mut sent);
    now += 20;

    // the recogniser confirms within the window
    let (msg, step) = core.on_stt_message(&b"{\"text\":\"hi\",\"is_final\":false}".to_vec(), now);
    let msg = msg.expect("well-formed message");
    assert_eq!(msg.text, "hi");
    assert!(!msg.is_final);
    let step = step.expect("non-empty text steps the machine");
    assert_eq!(step.ui_transition, Some(VadState::Speaking));
    assert_eq!(core.get_vad_state(), "Speaking");

    // thirty more voiced frames, all forwarded
    for v in 0..30 {
        let out = core.process_classified_frame(&frame(v), true, now);
        assert!(out.step.forward);
        commit_all(&mut core, out.to_send, &mut sent);
        now += 20;
    }

    // unvoiced frames: four still forwarded, the fifth collapses to Waiting
    for i in 0..4 {
        let out = core.process_classified_frame(&frame(0), false, now);
        assert!(out.step.forward, "silence frame {} keeps context", i);
        assert_eq!(core.get_vad_state(), "Speaking");
        commit_all(&mut core, out.to_send, &mut sent);
        now += 20;
    }
    let out = core.process_classified_frame(&frame(0), false, now);
    assert!(!out.step.forward);
    assert!(out.to_send.is_empty());
    assert_eq!(out.step.heartbeat, HeartbeatAction::Start);
    assert_eq!(core.get_vad_state(), "Waiting");

    // every forwarded frame was mirrored, in order
    assert_eq!(sent.len(), 2 + 30 + 4);
    let mirrored: Vec<Vec<i16>> = core
        .get_speech_segments()
        .into_iter()
        .map(|s| s.samples)
        .collect();
    assert_eq!(mirrored, sent);

    // the heartbeat reports strictly growing silence durations
    let start = now;
    let (e1, _) = make_silence_report(start, start + 20);
    let (e2, _) = make_silence_report(start, start + 40);
    let (e3, _) = make_silence_report(start, start + 60);
    assert!(e1.silence_ms < e2.silence_ms && e2.silence_ms < e3.silence_ms);
}

#[test]
fn false_start_times_out_silently_back_to_initial() {
    let mut core = VadCore::new();
    let mut sent: Vec<Vec<i16>> = Vec::new();
    let mut now: u64 = 0;
    let mut any_ui = false;

    for v in 1..=3 {
        let out = core.process_classified_frame(&frame(v), true, now);
        assert!(out.step.forward);
        assert!(!out.step.send_pre_context, "Initial entry does not pre-roll");
        any_ui |= out.step.ui_transition.is_some();
        commit_all(&mut core, out.to_send, &mut sent);
        now += 20;
    }
    assert_eq!(core.get_vad_state(), "Initial");

    let mut reverted = false;
    for _ in 0..50 {
        let out = core.process_classified_frame(&frame(0), false, now);
        any_ui |= out.step.ui_transition.is_some();
        if !reverted && out.to_send.is_empty() {
            reverted = true;
            assert!(now > 500, "forwarding stops only after the window");
        }
        if reverted {
            assert!(out.to_send.is_empty(), "nothing forwarded past the revert");
        } else {
            commit_all(&mut core, out.to_send, &mut sent);
        }
        assert_eq!(core.get_vad_state(), "Initial");
        now += 20;
    }
    assert!(reverted);
    assert!(!any_ui, "no state-change event during a false start");

    // the mirror holds exactly what was forwarded during the transition
    let mirrored: Vec<Vec<i16>> = core
        .get_speech_segments()
        .into_iter()
        .map(|s| s.samples)
        .collect();
    assert_eq!(mirrored, sent);
}

#[test]
fn barge_in_on_playback_replays_pre_context_first() {
    let mut core = VadCore::new();
    let step = core.audio_playback_started(0);
    assert_eq!(step.ui_transition, Some(VadState::Listening));
    assert_eq!(core.get_vad_state(), "Listening");

    // five silent frames fill the pre-roll window; none is forwarded
    let mut now: u64 = 20;
    for v in 1..=5 {
        let out = core.process_classified_frame(&frame(v), false, now);
        assert!(out.to_send.is_empty());
        now += 20;
    }

    // the barge-in frame replays the window before itself
    let out = core.process_classified_frame(&frame(10), true, now);
    assert!(out.step.send_pre_context);
    let expected: Vec<Vec<i16>> = vec![
        frame(2),
        frame(3),
        frame(4),
        frame(5),
        frame(10),
        frame(10),
    ];
    assert_eq!(out.to_send, expected);
    assert_eq!(core.get_vad_state(), "Listening");

    // recogniser text makes the barge-in visible
    let (_, step) = core.on_stt_message(&b"{\"text\":\"stop\",\"is_final\":true}".to_vec(), now + 20);
    assert_eq!(step.expect("stepped").ui_transition, Some(VadState::Speaking));
    assert_eq!(core.get_vad_state(), "Speaking");
}

#[test]
fn reconnect_drains_the_retry_queue_in_order() {
    let mut core = VadCore::new();
    let mut now: u64 = 0;
    let mut failed: Vec<Vec<i16>> = Vec::new();

    // the upstream socket is down: every write fails and is queued
    for v in [21, 22] {
        let out = core.process_classified_frame(&frame(v), true, now);
        for seg in out.to_send {
            failed.push(seg.clone());
            core.record_send_outcome(seg, false);
        }
        now += 20;
    }
    core.on_stt_message(&b"{\"text\":\"go\",\"is_final\":false}".to_vec(), now);
    let out = core.process_classified_frame(&frame(23), true, now);
    for seg in out.to_send {
        failed.push(seg.clone());
        core.record_send_outcome(seg, false);
    }
    assert!(core.get_speech_segments().is_empty(), "nothing committed yet");

    // the server is back: the retry driver drains the queue in order
    let queued = core.take_retry_segments();
    assert_eq!(queued, failed);
    for seg in queued {
        core.record_send_outcome(seg, true);
    }
    let mirrored: Vec<Vec<i16>> = core
        .get_speech_segments()
        .into_iter()
        .map(|s| s.samples)
        .collect();
    assert_eq!(mirrored, failed, "no segment lost, order preserved");
    assert!(core.take_retry_segments().is_empty());
}

#[test]
fn session_reset_flushes_buffering_and_returns_to_initial() {
    let mut core = VadCore::new();
    let mut now: u64 = 0;
    core.process_classified_frame(&frame(1), true, now);
    now += 20;
    core.on_stt_message(&b"{\"text\":\"y\",\"is_final\":false}".to_vec(), now);
    assert_eq!(core.get_vad_state(), "Speaking");

    core.pipeline.start_buffering();
    let pending: Vec<i16> = vec![4; 100];
    assert!(core.pipeline.add_audio_samples(&pending).is_none());

    let (step, batches) = core.reset_vad_session(now + 20);
    assert_eq!(core.get_vad_state(), "Initial");
    assert_eq!(step.ui_transition, Some(VadState::Initial));
    assert_eq!(batches, vec![pending]);
    assert!(!core.classifier.is_speaking);
    assert_eq!(core.classifier.speech_frames, 0);
    assert_eq!(core.classifier.silence_frames, 0);
    assert!(!core.pipeline.is_buffering);
}

#[test]
fn buffering_emits_the_accumulated_tail_at_the_threshold() {
    let mut core = VadCore::new();
    core.pipeline.start_buffering();
    let chunk: Vec<i16> = vec![1; 1600];
    assert!(core.pipeline.add_audio_samples(&chunk).is_none());
    let mut second: Vec<i16> = vec![2; 1600];
    let emitted = core
        .pipeline
        .add_audio_samples(&second)
        .expect("threshold reached");
    let mut expected = chunk.clone();
    expected.append(&mut second);
    assert_eq!(emitted, expected);
    // below the threshold again, nothing is emitted until the session closes
    let tail: Vec<i16> = vec![3; 100];
    assert!(core.pipeline.add_audio_samples(&tail).is_none());
    let batches = core.pipeline.stop_buffering();
    assert_eq!(batches, vec![tail]);
}
