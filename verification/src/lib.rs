//! Core of a voice-activity-driven audio capture and dialog orchestration
//! front-end.
//!
//! The library decides, frame by frame, whether the user is speaking and
//! drives a dialog state machine that governs which audio is forwarded to a
//! speech-to-text backend, when silence signalling is emitted, and how false
//! starts are recovered.  It also supplies the length-prefixed wire framing
//! shared with the backend and the parsers for the two downstream channels
//! (recogniser text and synthesised audio).
//!
//! All I/O — sockets, timers, the UI event bus — lives outside this crate.
//! The host performs each socket write or read and hands the outcome back to
//! the library, which updates its state and says what to do next.

use vstd::prelude::*;

pub mod downstream;
pub mod pipeline;
pub mod seqs;
pub mod session;
pub mod classifier;
pub mod machine;
pub mod wire;

verus! {

/// Audio sample rate in Hz.
pub const SAMPLE_RATE: u32 = 16000;

/// Minimum delay between reconnect attempts on the upstream socket.
pub const RECONNECT_INTERVAL_MS: u64 = 500;

/// Sample count at which a buffering session emits an intermediate segment
/// (200 ms of audio at 16 kHz).
pub const SEND_BUFFER_THRESHOLD: usize = 3200;

/// Cadence of the silence heartbeat while the machine is Waiting.
pub const SILENCE_REPORT_INTERVAL_MS: u64 = 20;

/// How long the machine stays in the quarantine state waiting for the
/// recogniser to confirm speech.
pub const TRANSITION_BUFFER_TIMEOUT_MS: u64 = 500;

/// Number of recent frames kept as pre-roll context.
pub const PRE_CONTEXT_FRAMES: usize = 5;

/// Cap on the mirror of segments successfully written upstream.
pub const SENT_MIRROR_CAP: usize = 50;

/// Cap on the list of collected complete speech segments.
pub const COMPLETE_SEGMENTS_CAP: usize = 50;

/// Consecutive voiced frames needed for a SpeechStart edge.
pub const SPEECH_START_FRAMES: u64 = 2;

/// Consecutive unvoiced frames needed for a SpeechEnd edge (about 2 s).
pub const SPEECH_END_FRAMES: u64 = 100;

/// Consecutive unvoiced frames that collapse Speaking into Waiting.
pub const SILENCE_FRAMES_TO_WAITING: u64 = 5;

/// Consecutive unvoiced frames that close a collected voice segment.
pub const VOICE_SEGMENT_CLOSE_FRAMES: u64 = 5;

/// Unvoiced frames still appended to a voice segment for continuity.
pub const VOICE_SEGMENT_TAIL_FRAMES: u64 = 3;

/// Minimum sample count for a collected voice segment to be kept.
pub const VOICE_SEGMENT_MIN_SAMPLES: usize = 320;

} // verus!
