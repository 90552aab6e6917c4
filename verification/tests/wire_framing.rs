//! Wire framing: segment and control encodings, and the chunk stream parser.

use lumina_vad::wire::{encode_segment, encode_silence_event, ChunkAccumulator};

#[test]
fn segment_bytes_are_length_then_le_samples() {
    let samples: Vec<i16> = vec![1, -2];
    let bytes = encode_segment(&samples);
    assert_eq!(bytes, vec![2, 0, 0, 0, 1, 0, 0xFE, 0xFF]);
}

#[test]
fn empty_segment_is_a_zero_length_prefix() {
    let samples: Vec<i16> = Vec::new();
    assert_eq!(encode_segment(&samples), vec![0, 0, 0, 0]);
}

#[test]
fn segment_bytes_of_a_frame_have_frame_length() {
    let samples: Vec<i16> = vec![7; 320];
    let bytes = encode_segment(&samples);
    assert_eq!(bytes.len(), 4 + 640);
    assert_eq!(&bytes[0..4], &[0x40, 0x01, 0, 0]);
    assert_eq!(&bytes[4..6], &[7, 0]);
}

#[test]
fn silence_event_bytes_are_sentinel_type_and_le_ms() {
    let bytes = encode_silence_event(1000);
    assert_eq!(
        bytes,
        vec![0xFF, 0xFF, 0xFF, 0xFF, 0x01, 0xE8, 0x03, 0, 0, 0, 0, 0, 0]
    );
}

#[test]
fn chunk_accumulator_reassembles_split_chunks() {
    let mut acc = ChunkAccumulator::new();
    let first = acc.push_bytes(&vec![3, 0, 0, 0, b'a']);
    assert!(first.is_empty());
    let second = acc.push_bytes(&vec![b'b', b'c', 2, 0, 0, 0, b'x']);
    assert_eq!(second, vec![b"abc".to_vec()]);
    let third = acc.push_bytes(&vec![b'y']);
    assert_eq!(third, vec![b"xy".to_vec()]);
}

#[test]
fn chunk_accumulator_returns_several_complete_chunks_at_once() {
    let mut acc = ChunkAccumulator::new();
    let mut stream = Vec::new();
    stream.extend_from_slice(&[1, 0, 0, 0, 9]);
    stream.extend_from_slice(&[0, 0, 0, 0]);
    stream.extend_from_slice(&[2, 0, 0, 0, 5, 6]);
    let chunks = acc.push_bytes(&stream);
    assert_eq!(chunks, vec![vec![9u8], vec![], vec![5u8, 6u8]]);
}

/// What a mock upstream server reads back: the sample count from the
/// 4-byte prefix, then that many little-endian sample pairs.
fn mock_server_read(bytes: &[u8]) -> Vec<i16> {
    let n = u32::from_le_bytes([bytes[0], bytes[1], bytes[2], bytes[3]]) as usize;
    assert_ne!(n, 0xFFFF_FFFF, "not a control frame");
    assert_eq!(bytes.len(), 4 + 2 * n, "one atomic segment, no interleaving");
    bytes[4..]
        .chunks(2)
        .map(|p| i16::from_le_bytes([p[0], p[1]]))
        .collect()
}

#[test]
fn segment_round_trips_through_a_mock_server() {
    let samples: Vec<i16> = vec![100, -100, 0, 32767, -32768];
    let bytes = encode_segment(&samples);
    assert_eq!(mock_server_read(&bytes), samples);
}

#[test]
fn consecutive_segments_arrive_unmixed() {
    let a: Vec<i16> = vec![1, 2, 3];
    let b: Vec<i16> = vec![-4, -5];
    let mut stream = encode_segment(&a);
    let b_bytes = encode_segment(&b);
    stream.extend_from_slice(&b_bytes);
    let first_len = 4 + 2 * a.len();
    assert_eq!(mock_server_read(&stream[..first_len]), a);
    assert_eq!(mock_server_read(&stream[first_len..]), b);
}
