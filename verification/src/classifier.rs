//! The frame classifier: frame-size normalisation, the third-party voice
//! detector, and the debounced SpeechStart / SpeechEnd edge hysteresis.

use crate::SPEECH_END_FRAMES;
use crate::SPEECH_START_FRAMES;
use vstd::prelude::*;
use webrtc_vad::{SampleRate, Vad, VadMode};

verus! {

/// The debounced high-level edge derived from a run of per-frame verdicts.
#[derive(Clone, Copy, Debug, PartialEq, Eq, Structural)]
pub enum VadEvent {
    /// Enough consecutive voiced frames while not yet speaking.
    SpeechStart,
    /// Enough consecutive unvoiced frames while speaking.
    SpeechEnd,
    /// Neither edge fired on this frame.
    Processing,
}

#[verifier::external_type_specification]
#[verifier::external_body]
pub struct ExVad(Vad);

/// The third-party voice detector, fixed to 16 kHz input in its most
/// restrictive mode.  Every instance is built by [`VadEngine::new`], so the
/// contract of [`VadEngine::classify`] holds of every reachable value.
pub struct VadEngine {
    vad: Vad,
}

impl VadEngine {
    /// Relies on `webrtc_vad::Vad::new_with_rate_and_mode`: allocates a
    /// detector configured for 16 kHz input in VeryAggressive mode.
    #[verifier::external_body]
    pub(crate) fn new() -> (r: Self) {
        VadEngine { vad: Vad::new_with_rate_and_mode(SampleRate::Rate16kHz, VadMode::VeryAggressive) }
    }

    /// Relies on `webrtc_vad::Vad::is_voice_segment` over libfvad's
    /// `fvad_process`: at 16 kHz a frame of exactly 10, 20 or 30 ms — 160,
    /// 320 or 480 samples — is classified as voiced or unvoiced, and every
    /// other length is rejected with `Err`.  The verdict itself depends on
    /// the detector's internal state, so nothing is said about it.
    #[verifier::external_body]
    pub(crate) fn classify(&mut self, frame: &Vec<i16>) -> (r: Result<bool, ()>)
        requires
            frame@.len() > 0,
        ensures
            r is Ok <==> (frame@.len() == 160 || frame@.len() == 320 || frame@.len() == 480),
    {
        self.vad.is_voice_segment(frame.as_slice())
    }
}

/// Frame sizes the detector accepts at 16 kHz.
pub open spec fn spec_valid_frame_len(n: nat) -> bool {
    n == 160 || n == 320 || n == 480
}

/// A frame whose size is not in the allow-list is truncated or zero-padded
/// to 320 samples (20 ms).
pub open spec fn spec_normalize_frame(s: Seq<i16>) -> Seq<i16> {
    if spec_valid_frame_len(s.len()) {
        s
    } else if s.len() >= 320 {
        s.subrange(0, 320)
    } else {
        s + Seq::new((320 - s.len()) as nat, |i: int| 0i16)
    }
}

/// Normalise a frame for classification.
pub fn normalize_frame(samples: &Vec<i16>) -> (r: Vec<i16>)
    ensures
        r@ == spec_normalize_frame(samples@),
        spec_valid_frame_len(r@.len()),
{
    let n = samples.len();
    if n == 160 || n == 320 || n == 480 {
        copy_samples(samples)
    } else {
        let mut out: Vec<i16> = Vec::new();
        let take = if n > 320 {
            320
        } else {
            n
        };
        let mut i: usize = 0;
        while i < take
            invariant
                i <= take,
                take <= samples@.len(),
                out@ == samples@.subrange(0, i as int),
            decreases take - i,
        {
            out.push(samples[i]);
            proof {
                assert(out@ =~= samples@.subrange(0, i as int + 1));
            }
            i = i + 1;
        }
        proof {
            assert(forall|k: int| 0 <= k < take ==> out@[k] == samples@[k]);
        }
        while out.len() < 320
            invariant
                out@.len() <= 320,
                take <= out@.len(),
                forall|k: int| 0 <= k < take ==> out@[k] == samples@[k],
                forall|k: int| take <= k < out@.len() ==> out@[k] == 0i16,
            decreases 320 - out@.len(),
        {
            out.push(0i16);
        }
        proof {
            if samples@.len() >= 320 {
                assert(out@ =~= samples@.subrange(0, 320));
            } else {
                assert(out@ =~= samples@ + Seq::new(
                    (320 - samples@.len()) as nat,
                    |i: int| 0i16,
                ));
            }
        }
        out
    }
}

/// Element-for-element copy of a sample vector.
pub fn copy_samples(src: &Vec<i16>) -> (r: Vec<i16>)
    ensures
        r@ == src@,
{
    let mut out: Vec<i16> = Vec::new();
    let mut i: usize = 0;
    while i < src.len()
        invariant
            i <= src@.len(),
            out@ == src@.subrange(0, i as int),
        decreases src@.len() - i,
    {
        out.push(src[i]);
        proof {
            assert(out@ =~= src@.subrange(0, i as int + 1));
        }
        i = i + 1;
    }
    proof {
        assert(out@ =~= src@);
    }
    out
}

/// One hysteresis step: from the latch and the exact run lengths, the edge,
/// the new latch, and the new run lengths after one more verdict `v`.
pub open spec fn spec_verdict_step(speaking: bool, vrun: nat, urun: nat, v: bool) -> (
    VadEvent,
    bool,
    nat,
    nat,
) {
    if v {
        if !speaking && vrun + 1 >= SPEECH_START_FRAMES {
            (VadEvent::SpeechStart, true, vrun + 1, 0)
        } else {
            (VadEvent::Processing, speaking, vrun + 1, 0)
        }
    } else {
        if speaking && urun + 1 >= SPEECH_END_FRAMES {
            (VadEvent::SpeechEnd, false, 0, urun + 1)
        } else {
            (VadEvent::Processing, speaking, 0, urun + 1)
        }
    }
}

/// Saturation of a run length at a threshold.
pub open spec fn spec_sat(run: nat, cap: u64) -> u64 {
    if run >= cap {
        cap
    } else {
        run as u64
    }
}

/// The frame classifier: wraps the voice detector and debounces its per-
/// frame verdicts into SpeechStart / SpeechEnd edges.
///
/// The exact run lengths are carried as ghost state; the stored counters are
/// those runs saturated at their thresholds, which the edge conditions
/// cannot tell apart.
pub struct VadProcessor {
    pub vad: VadEngine,
    pub is_speaking: bool,
    pub silence_frames: u64,
    pub speech_frames: u64,
    /// Consecutive voiced verdicts since the last unvoiced one (or reset).
    pub voiced_run: Ghost<nat>,
    /// Consecutive unvoiced verdicts since the last voiced one (or reset).
    pub unvoiced_run: Ghost<nat>,
}

impl VadProcessor {
    /// The stored counters are the ghost runs saturated at the thresholds.
    pub open spec fn wf(self) -> bool {
        &&& self.speech_frames == spec_sat(self.voiced_run@, SPEECH_START_FRAMES)
        &&& self.silence_frames == spec_sat(self.unvoiced_run@, SPEECH_END_FRAMES)
    }

    pub fn new() -> (r: Self)
        ensures
            r.wf(),
            !r.is_speaking,
            r.voiced_run@ == 0,
            r.unvoiced_run@ == 0,
    {
        VadProcessor {
            vad: VadEngine::new(),
            is_speaking: false,
            silence_frames: 0,
            speech_frames: 0,
            voiced_run: Ghost(0),
            unvoiced_run: Ghost(0),
        }
    }

    /// Zero the hysteresis state, keeping the detector instance.
    pub fn reset_counters(&mut self)
        ensures
            final(self).wf(),
            !final(self).is_speaking,
            final(self).voiced_run@ == 0,
            final(self).unvoiced_run@ == 0,
            final(self).speech_frames == 0,
            final(self).silence_frames == 0,
    {
        self.is_speaking = false;
        self.speech_frames = 0;
        self.silence_frames = 0;
        proof {
            self.voiced_run@ = 0nat;
            self.unvoiced_run@ = 0nat;
        }
    }

    /// Fold one per-frame verdict into the hysteresis state and return the
    /// edge.  A SpeechStart edge fires exactly when the voiced run reaches
    /// its threshold while not yet speaking; a SpeechEnd edge exactly when
    /// the unvoiced run reaches its threshold while speaking.
    pub fn apply_verdict(&mut self, is_voice: bool) -> (event: VadEvent)
        requires
            old(self).wf(),
        ensures
            final(self).wf(),
            (event, final(self).is_speaking, final(self).voiced_run@, final(self).unvoiced_run@)
                == spec_verdict_step(
                old(self).is_speaking,
                old(self).voiced_run@,
                old(self).unvoiced_run@,
                is_voice,
            ),
            event is SpeechStart <==> (is_voice && !old(self).is_speaking && old(self).voiced_run@
                + 1 >= SPEECH_START_FRAMES),
            event is SpeechEnd <==> (!is_voice && old(self).is_speaking && old(self).unvoiced_run@
                + 1 >= SPEECH_END_FRAMES),
    {
        let mut event = VadEvent::Processing;
        if is_voice {
            self.speech_frames = if self.speech_frames < SPEECH_START_FRAMES {
                self.speech_frames + 1
            } else {
                self.speech_frames
            };
            self.silence_frames = 0;
            proof {
                self.voiced_run@ = self.voiced_run@ + 1;
                self.unvoiced_run@ = 0;
            }
            if self.speech_frames >= SPEECH_START_FRAMES && !self.is_speaking {
                self.is_speaking = true;
                event = VadEvent::SpeechStart;
            }
        } else {
            self.silence_frames = if self.silence_frames < SPEECH_END_FRAMES {
                self.silence_frames + 1
            } else {
                self.silence_frames
            };
            self.speech_frames = 0;
            proof {
                self.unvoiced_run@ = self.unvoiced_run@ + 1;
                self.voiced_run@ = 0;
            }
            if self.silence_frames >= SPEECH_END_FRAMES && self.is_speaking {
                self.is_speaking = false;
                event = VadEvent::SpeechEnd;
            }
        }
        event
    }

    /// Classify one frame: reject an empty one, normalise the size, ask the
    /// detector, and fold the verdict into the hysteresis.  Returns the edge
    /// and the verdict, or `None` for an empty frame.
    pub fn process_frame(&mut self, samples: &Vec<i16>) -> (r: Option<(VadEvent, bool)>)
        requires
            old(self).wf(),
        ensures
            final(self).wf(),
            r is Some <==> samples@.len() > 0,
            r is None ==> *final(self) == *old(self),
            r matches Some((event, voiced)) ==> {
                &&& (
                    event,
                    final(self).is_speaking,
                    final(self).voiced_run@,
                    final(self).unvoiced_run@,
                ) == spec_verdict_step(
                    old(self).is_speaking,
                    old(self).voiced_run@,
                    old(self).unvoiced_run@,
                    voiced,
                )
            },
    {
        if samples.len() == 0 {
            return None;
        }
        let frame = normalize_frame(samples);
        match self.vad.classify(&frame) {
            Ok(is_voice) => {
                let event = self.apply_verdict(is_voice);
                Some((event, is_voice))
            },
            Err(_) => None,
        }
    }
}

} // verus!
