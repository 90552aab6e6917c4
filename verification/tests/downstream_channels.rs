//! The recogniser line stream and the synthesised-audio payloads, with the
//! real JSON and base64 codecs linked.

use lumina_vad::downstream::{LineAccumulator, tts_chunk_event};
use lumina_vad::machine::VadState;
use lumina_vad::session::VadCore;

#[test]
fn line_accumulator_splits_on_newlines_across_feeds() {
    let mut acc = LineAccumulator::new();
    let first = acc.push_bytes(&b"{\"a\":1}\n{\"b\"".to_vec());
    assert_eq!(first, vec![b"{\"a\":1}".to_vec()]);
    let second = acc.push_bytes(&b":2}\n\n".to_vec());
    assert_eq!(second, vec![b"{\"b\":2}".to_vec(), b"".to_vec()]);
    let third = acc.push_bytes(&b"tail".to_vec());
    assert!(third.is_empty());
}

#[test]
fn well_formed_message_is_parsed_and_extra_fields_ignored() {
    let mut core = VadCore::new();
    let line = b"{\"text\":\"hello\",\"is_final\":true,\"extra\":42}".to_vec();
    let (msg, step) = core.on_stt_message(&line, 0);
    let msg = msg.expect("parsed");
    assert_eq!(msg.text, "hello");
    assert!(msg.is_final);
    // non-empty text in Initial is ignored by the machine
    assert!(step.is_some());
    assert_eq!(core.get_vad_state(), "Initial");
}

#[test]
fn empty_text_does_not_step_the_machine() {
    let mut core = VadCore::new();
    core.process_classified_frame(&vec![1; 320], true, 0);
    assert_eq!(core.machine.get_current_state(), VadState::TransitionBuffer);
    let (msg, step) = core.on_stt_message(&b"{\"text\":\"\",\"is_final\":false}".to_vec(), 20);
    assert!(msg.is_some());
    assert!(step.is_none());
    assert_eq!(core.machine.get_current_state(), VadState::TransitionBuffer);
}

#[test]
fn malformed_lines_are_skipped() {
    let mut core = VadCore::new();
    core.process_classified_frame(&vec![1; 320], true, 0);
    for line in [
        &b"not json"[..],
        &b"{\"text\":5,\"is_final\":true}"[..],
        &b"{\"is_final\":true}"[..],
        &b"{\"text\":\"x\"}"[..],
    ] {
        let (msg, step) = core.on_stt_message(&line.to_vec(), 20);
        assert!(msg.is_none(), "line {:?} must not parse", line);
        assert!(step.is_none());
    }
    assert_eq!(core.machine.get_current_state(), VadState::TransitionBuffer);
}

#[test]
fn confirmation_arrives_through_the_json_parser() {
    let mut core = VadCore::new();
    core.process_classified_frame(&vec![1; 320], true, 0);
    let (_, step) = core.on_stt_message(&b"{\"is_final\":false,\"text\":\"ok\"}".to_vec(), 100);
    assert!(step.is_some());
    assert_eq!(core.machine.get_current_state(), VadState::Speaking);
}

#[test]
fn tts_chunk_is_base64_encoded_pcm() {
    let e = tts_chunk_event(&b"hello".to_vec());
    assert_eq!(e.data, "aGVsbG8=");
    assert_eq!(e.format, "pcm");
}

#[test]
fn tts_padding_follows_the_standard_alphabet() {
    assert_eq!(tts_chunk_event(&b"h".to_vec()).data, "aA==");
    assert_eq!(tts_chunk_event(&vec![0u8, 255u8]).data, "AP8=");
}

#[test]
fn empty_tts_chunk_encodes_to_an_empty_payload() {
    let e = tts_chunk_event(&Vec::new());
    assert_eq!(e.data, "");
    assert_eq!(e.format, "pcm");
}
