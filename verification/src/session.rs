//! The command surface: one [`VadCore`] owns the classifier, the dialog
//! machine and the audio pipeline, and exposes the operations a host calls.
//!
//! Every operation is synchronous and time-free: the host passes a monotonic
//! millisecond clock reading where one is needed, performs the upstream
//! writes a call hands back, and reports each write's outcome through
//! [`VadCore::record_send_outcome`].

use crate::classifier::{
    copy_samples, normalize_frame, spec_verdict_step, VadEvent, VadProcessor,
};
use crate::downstream::{parse_stt_bytes, spec_parse_stt, SttResult};
use crate::machine::{
    spec_heartbeat_action, spec_step, spec_ui_transition, spec_visible, StepResult, VadState,
    VadStateMachine, VadStateMachineEvent,
};
use crate::pipeline::{spec_voice_step, AudioPipeline};
use crate::seqs::{concat_all, last_n};
use crate::wire::{encode_silence_event, spec_silence_bytes};
use crate::PRE_CONTEXT_FRAMES;
use crate::RECONNECT_INTERVAL_MS;
use crate::SAMPLE_RATE;
use vstd::prelude::*;

verus! {

/// One mirrored audio segment with its sample rate, as handed to the host
/// for playback.
#[derive(Clone, Debug)]
pub struct AudioSegment {
    pub samples: Vec<i16>,
    pub sample_rate: u32,
}

/// One silence heartbeat event for the UI.
#[derive(Clone, Copy, Debug, PartialEq, Eq, Structural)]
pub struct SilenceEvent {
    pub silence_ms: u64,
}

/// Why a microphone frame was rejected.
#[derive(Clone, Copy, Debug, PartialEq, Eq, Structural)]
pub enum ProcessFrameError {
    /// Fewer than the minimum accepted number of samples.
    InputTooShort,
    /// The voice detector failed on the frame.
    ClassifierFailure,
}

/// Why a backend control message was rejected.
#[derive(Clone, Copy, Debug, PartialEq, Eq, Structural)]
pub enum ControlError {
    UnknownAction,
}

/// Why no combined segment could be produced.
#[derive(Clone, Copy, Debug, PartialEq, Eq, Structural)]
pub enum SegmentError {
    /// The mirror holds no samples.
    Empty,
}

/// The outcome of ingesting one microphone frame.
#[derive(Debug)]
pub struct FrameOutcome {
    /// The debounced edge to surface as a UI event.
    pub event: VadEvent,
    /// The per-frame verdict the machine was driven with.
    pub voiced: bool,
    /// Segments to write upstream now, in order: the pre-roll frames when
    /// the machine asked for them, then the current frame when it is
    /// forwarded.
    pub to_send: Vec<Vec<i16>>,
    /// The machine step: heartbeat action and UI transition.
    pub step: StepResult,
}

/// Smallest frame the command surface accepts.
pub const MIN_FRAME_SAMPLES: usize = 10;

/// The upstream segments one frame gives rise to: the pre-roll window when
/// it is replayed, then the frame itself when it is forwarded.
pub open spec fn spec_frame_sends(
    window: Seq<Seq<i16>>,
    frame: Seq<i16>,
    forward: bool,
    send_pre: bool,
) -> Seq<Seq<i16>> {
    (if send_pre {
        window
    } else {
        Seq::empty()
    }) + (if forward {
        seq![frame]
    } else {
        Seq::empty()
    })
}

/// The human-readable name of a state.
pub open spec fn spec_state_name(s: VadState) -> Seq<char> {
    match s {
        VadState::Initial => "Initial"@,
        VadState::Speaking => "Speaking"@,
        VadState::Waiting => "Waiting"@,
        VadState::Listening => "Listening"@,
        VadState::TransitionBuffer => "TransitionBuffer"@,
    }
}

/// The name of a state, for the UI.
pub fn state_name(s: VadState) -> (r: String)
    ensures
        r@ == spec_state_name(s),
{
    match s {
        VadState::Initial => "Initial".to_owned(),
        VadState::Speaking => "Speaking".to_owned(),
        VadState::Waiting => "Waiting".to_owned(),
        VadState::Listening => "Listening".to_owned(),
        VadState::TransitionBuffer => "TransitionBuffer".to_owned(),
    }
}

/// The long-lived core: classifier, dialog machine and audio pipeline.
pub struct VadCore {
    pub classifier: VadProcessor,
    pub machine: VadStateMachine,
    pub pipeline: AudioPipeline,
}

impl VadCore {
    pub open spec fn wf(self) -> bool {
        &&& self.classifier.wf()
        &&& self.machine.wf()
        &&& self.pipeline.wf()
    }

    pub fn new() -> (r: Self)
        ensures
            r.wf(),
            r.machine.current_state is Initial,
            !r.classifier.is_speaking,
            r.pipeline.observed@ == Seq::<Seq<i16>>::empty(),
            r.pipeline.committed@ == Seq::<Seq<i16>>::empty(),
    {
        VadCore {
            classifier: VadProcessor::new(),
            machine: VadStateMachine::new(),
            pipeline: AudioPipeline::new(),
        }
    }

    /// Ingest one frame whose verdict is already known: record it in the
    /// pre-roll context and the voice collector, fold the verdict into the
    /// edge hysteresis, step the machine, and hand back what to write
    /// upstream.
    pub fn process_classified_frame(
        &mut self,
        samples: &Vec<i16>,
        is_voice: bool,
        now_ms: u64,
    ) -> (r: FrameOutcome)
        requires
            old(self).wf(),
        ensures
            final(self).wf(),
            r.voiced == is_voice,
            final(self).pipeline.observed@ == old(self).pipeline.observed@.push(samples@),
            (
                r.event,
                final(self).classifier.is_speaking,
                final(self).classifier.voiced_run@,
                final(self).classifier.unvoiced_run@,
            ) == spec_verdict_step(
                old(self).classifier.is_speaking,
                old(self).classifier.voiced_run@,
                old(self).classifier.unvoiced_run@,
                is_voice,
            ),
            ({
                let ev = if is_voice {
                    VadStateMachineEvent::VoiceFrame
                } else {
                    VadStateMachineEvent::SilenceFrame
                };
                &&& (final(self).machine, r.step.forward, r.step.send_pre_context) == spec_step(
                    old(self).machine,
                    ev,
                    now_ms,
                )
                &&& r.step.heartbeat == spec_heartbeat_action(
                    old(self).machine,
                    final(self).machine,
                )
                &&& r.step.ui_transition == spec_ui_transition(
                    old(self).machine,
                    final(self).machine,
                )
            }),
            (
                final(self).pipeline.current_voice_segment@,
                final(self).pipeline.frames_without_voice,
                final(self).pipeline.complete_speech_segments.deep_view(),
            ) == spec_voice_step(
                old(self).pipeline.current_voice_segment@,
                old(self).pipeline.frames_without_voice,
                old(self).pipeline.complete_speech_segments.deep_view(),
                samples@,
                is_voice,
            ),
            r.to_send.deep_view() == spec_frame_sends(
                last_n(final(self).pipeline.observed@, PRE_CONTEXT_FRAMES as int),
                samples@,
                r.step.forward,
                r.step.send_pre_context,
            ),
            final(self).pipeline.speech_segments == old(self).pipeline.speech_segments,
            final(self).pipeline.sent_to_python_segments == old(
                self,
            ).pipeline.sent_to_python_segments,
            final(self).pipeline.committed@ == old(self).pipeline.committed@,
            final(self).pipeline.buffer == old(self).pipeline.buffer,
            final(self).pipeline.is_buffering == old(self).pipeline.is_buffering,
            final(self).pipeline.samples_since_last_send == old(
                self,
            ).pipeline.samples_since_last_send,
    {
        self.pipeline.add_to_pre_context(samples);
        self.pipeline.add_voice_frame(samples, is_voice);
        let event = self.classifier.apply_verdict(is_voice);
        let sm_event = if is_voice {
            VadStateMachineEvent::VoiceFrame
        } else {
            VadStateMachineEvent::SilenceFrame
        };
        let step = self.machine.process_event(sm_event, now_ms);
        let mut to_send: Vec<Vec<i16>> = if step.send_pre_context {
            self.pipeline.send_pre_context_frames()
        } else {
            Vec::new()
        };
        let ghost before_frame = to_send.deep_view();
        if step.forward {
            let frame = copy_samples(samples);
            to_send.push(frame);
            proof {
                assert(to_send.deep_view() =~~= before_frame.push(samples@));
            }
        }
        proof {
            assert(to_send.deep_view() =~~= spec_frame_sends(
                last_n(self.pipeline.observed@, PRE_CONTEXT_FRAMES as int),
                samples@,
                step.forward,
                step.send_pre_context,
            ));
        }
        FrameOutcome { event, voiced: is_voice, to_send, step }
    }

    /// Ingest one raw microphone frame: reject a too-short one, normalise
    /// it, ask the voice detector for a verdict, and proceed as
    /// [`VadCore::process_classified_frame`].  Every frame of at least the
    /// minimum size is accepted.
    pub fn process_audio_frame(&mut self, samples: &Vec<i16>, now_ms: u64) -> (r: Result<
        FrameOutcome,
        ProcessFrameError,
    >)
        requires
            old(self).wf(),
        ensures
            final(self).wf(),
            samples@.len() < MIN_FRAME_SAMPLES ==> r == Err::<FrameOutcome, ProcessFrameError>(
                ProcessFrameError::InputTooShort,
            ) && *final(self) == *old(self),
            samples@.len() >= MIN_FRAME_SAMPLES ==> r is Ok,
            r matches Ok(out) ==> {
                &&& final(self).pipeline.observed@ == old(self).pipeline.observed@.push(samples@)
                &&& (
                    out.event,
                    final(self).classifier.is_speaking,
                    final(self).classifier.voiced_run@,
                    final(self).classifier.unvoiced_run@,
                ) == spec_verdict_step(
                    old(self).classifier.is_speaking,
                    old(self).classifier.voiced_run@,
                    old(self).classifier.unvoiced_run@,
                    out.voiced,
                )
                &&& {
                    let ev = if out.voiced {
                        VadStateMachineEvent::VoiceFrame
                    } else {
                        VadStateMachineEvent::SilenceFrame
                    };
                    &&& (final(self).machine, out.step.forward, out.step.send_pre_context)
                        == spec_step(old(self).machine, ev, now_ms)
                    &&& out.step.heartbeat == spec_heartbeat_action(
                        old(self).machine,
                        final(self).machine,
                    )
                    &&& out.step.ui_transition == spec_ui_transition(
                        old(self).machine,
                        final(self).machine,
                    )
                }
                &&& out.to_send.deep_view() == spec_frame_sends(
                    last_n(final(self).pipeline.observed@, PRE_CONTEXT_FRAMES as int),
                    samples@,
                    out.step.forward,
                    out.step.send_pre_context,
                )
                &&& final(self).pipeline.sent_to_python_segments == old(
                    self,
                ).pipeline.sent_to_python_segments
                &&& final(self).pipeline.committed@ == old(self).pipeline.committed@
                &&& final(self).pipeline.speech_segments == old(self).pipeline.speech_segments
            },
    {
        if samples.len() < MIN_FRAME_SAMPLES {
            return Err(ProcessFrameError::InputTooShort);
        }
        let frame = normalize_frame(samples);
        match self.classifier.vad.classify(&frame) {
            Ok(is_voice) => Ok(self.process_classified_frame(samples, is_voice, now_ms)),
            Err(_) => Err(ProcessFrameError::ClassifierFailure),
        }
    }

    /// Record the outcome of one attempted upstream write.
    pub fn record_send_outcome(&mut self, segment: Vec<i16>, ok: bool)
        requires
            old(self).wf(),
        ensures
            final(self).wf(),
            ok && segment@.len() > 0 ==> {
                &&& final(self).pipeline.committed@ == old(self).pipeline.committed@.push(
                    segment@,
                )
                &&& final(self).pipeline.speech_segments == old(self).pipeline.speech_segments
            },
            ok && segment@.len() == 0 ==> *final(self) == *old(self),
            !ok ==> final(self).pipeline.speech_segments.deep_view() == old(
                self,
            ).pipeline.speech_segments.deep_view().push(segment@) && final(self).pipeline.committed@
                == old(self).pipeline.committed@,
            final(self).machine == old(self).machine,
            final(self).classifier == old(self).classifier,
            final(self).pipeline.observed@ == old(self).pipeline.observed@,
    {
        self.pipeline.record_send_outcome(segment, ok);
    }

    /// Hand back the retry queue for a best-effort drain, in order.
    pub fn take_retry_segments(&mut self) -> (segs: Vec<Vec<i16>>)
        requires
            old(self).wf(),
        ensures
            final(self).wf(),
            segs == old(self).pipeline.speech_segments,
            final(self).pipeline.speech_segments@.len() == 0,
            final(self).machine == old(self).machine,
            final(self).classifier == old(self).classifier,
            final(self).pipeline.committed@ == old(self).pipeline.committed@,
            final(self).pipeline.observed@ == old(self).pipeline.observed@,
            final(self).pipeline.sent_to_python_segments == old(
                self,
            ).pipeline.sent_to_python_segments,
    {
        self.pipeline.take_retry_segments()
    }

    /// Feed one recogniser line.  A well-formed message is returned for the
    /// UI; a non-empty text additionally confirms the quarantine state, so
    /// the machine is stepped with the confirmation event.
    pub fn on_stt_message(&mut self, line: &Vec<u8>, now_ms: u64) -> (r: (
        Option<SttResult>,
        Option<StepResult>,
    ))
        requires
            old(self).wf(),
        ensures
            final(self).wf(),
            r.0 matches Some(res) ==> spec_parse_stt(line@) == Some((res.text@, res.is_final)),
            r.0 is None ==> spec_parse_stt(line@) is None && *final(self) == *old(self),
            r.1 is Some <==> (r.0 matches Some(res) && res.text@.len() > 0),
            r.1 matches Some(step) ==> {
                &&& (final(self).machine, step.forward, step.send_pre_context) == spec_step(
                    old(self).machine,
                    VadStateMachineEvent::BackendReturnText,
                    now_ms,
                )
                &&& step.heartbeat == spec_heartbeat_action(old(self).machine, final(self).machine)
                &&& step.ui_transition == spec_ui_transition(
                    old(self).machine,
                    final(self).machine,
                )
            },
            r.1 is None ==> final(self).machine == old(self).machine,
            final(self).classifier == old(self).classifier,
            final(self).pipeline == old(self).pipeline,
    {
        match parse_stt_bytes(line) {
            Some(res) => {
                if res.text == String::new() {
                    proof {
                        assert(res.text@ == Seq::<char>::empty());
                    }
                    (Some(res), None)
                } else {
                    proof {
                        assert(res.text@.len() > 0) by {
                            if res.text@.len() == 0 {
                                assert(res.text@ =~= Seq::<char>::empty());
                            }
                        }
                    }
                    let step = self.machine.process_event(
                        VadStateMachineEvent::BackendReturnText,
                        now_ms,
                    );
                    (Some(res), Some(step))
                }
            },
            None => (None, None),
        }
    }

    /// Step the machine with a playback-started event.
    pub fn audio_playback_started(&mut self, now_ms: u64) -> (r: StepResult)
        requires
            old(self).wf(),
        ensures
            final(self).wf(),
            (final(self).machine, r.forward, r.send_pre_context) == spec_step(
                old(self).machine,
                VadStateMachineEvent::AudioPlaybackStart,
                now_ms,
            ),
            r.heartbeat == spec_heartbeat_action(old(self).machine, final(self).machine),
            r.ui_transition == spec_ui_transition(old(self).machine, final(self).machine),
            final(self).classifier == old(self).classifier,
            final(self).pipeline == old(self).pipeline,
    {
        self.machine.process_event(VadStateMachineEvent::AudioPlaybackStart, now_ms)
    }

    /// Step the machine with a playback-ended event.
    pub fn audio_playback_ended(&mut self, now_ms: u64) -> (r: StepResult)
        requires
            old(self).wf(),
        ensures
            final(self).wf(),
            (final(self).machine, r.forward, r.send_pre_context) == spec_step(
                old(self).machine,
                VadStateMachineEvent::AudioPlaybackEnd,
                now_ms,
            ),
            r.heartbeat == spec_heartbeat_action(old(self).machine, final(self).machine),
            r.ui_transition == spec_ui_transition(old(self).machine, final(self).machine),
            final(self).classifier == old(self).classifier,
            final(self).pipeline == old(self).pipeline,
    {
        self.machine.process_event(VadStateMachineEvent::AudioPlaybackEnd, now_ms)
    }

    /// Step the machine with the quarantine-timeout event.
    pub fn transition_timeout(&mut self, now_ms: u64) -> (r: StepResult)
        requires
            old(self).wf(),
        ensures
            final(self).wf(),
            (final(self).machine, r.forward, r.send_pre_context) == spec_step(
                old(self).machine,
                VadStateMachineEvent::TransitionTimeout,
                now_ms,
            ),
            r.heartbeat == spec_heartbeat_action(old(self).machine, final(self).machine),
            r.ui_transition == spec_ui_transition(old(self).machine, final(self).machine),
            final(self).classifier == old(self).classifier,
            final(self).pipeline == old(self).pipeline,
    {
        self.machine.process_event(VadStateMachineEvent::TransitionTimeout, now_ms)
    }

    /// Dispatch one backend control message by its action string.
    pub fn handle_backend_control(&mut self, action: &String, now_ms: u64) -> (r: Result<
        StepResult,
        ControlError,
    >)
        requires
            old(self).wf(),
        ensures
            final(self).wf(),
            r is Ok <==> (action@ == "reset_to_initial"@ || action@ == "end_session"@),
            r is Err ==> *final(self) == *old(self),
            r matches Ok(step) ==> {
                let ev = if action@ == "reset_to_initial"@ {
                    VadStateMachineEvent::BackendResetToInitial
                } else {
                    VadStateMachineEvent::BackendEndSession
                };
                &&& (final(self).machine, step.forward, step.send_pre_context) == spec_step(
                    old(self).machine,
                    ev,
                    now_ms,
                )
                &&& step.heartbeat == spec_heartbeat_action(old(self).machine, final(self).machine)
                &&& step.ui_transition == spec_ui_transition(
                    old(self).machine,
                    final(self).machine,
                )
            },
            final(self).classifier == old(self).classifier,
            final(self).pipeline == old(self).pipeline,
    {
        if *action == "reset_to_initial".to_owned() {
            Ok(self.machine.process_event(VadStateMachineEvent::BackendResetToInitial, now_ms))
        } else if *action == "end_session".to_owned() {
            Ok(self.machine.process_event(VadStateMachineEvent::BackendEndSession, now_ms))
        } else {
            Err(ControlError::UnknownAction)
        }
    }

    /// End the session from the host side: any open buffering session is
    /// closed first — its remaining samples come back as batches to write
    /// upstream — the classifier's counters are zeroed, and the machine
    /// takes the backend end-of-session event.
    pub fn reset_vad_session(&mut self, now_ms: u64) -> (r: (StepResult, Vec<Vec<i16>>))
        requires
            old(self).wf(),
        ensures
            final(self).wf(),
            (final(self).machine, r.0.forward, r.0.send_pre_context) == spec_step(
                old(self).machine,
                VadStateMachineEvent::BackendEndSession,
                now_ms,
            ),
            r.0.heartbeat == spec_heartbeat_action(old(self).machine, final(self).machine),
            r.0.ui_transition == spec_ui_transition(old(self).machine, final(self).machine),
            !final(self).classifier.is_speaking,
            final(self).classifier.voiced_run@ == 0,
            final(self).classifier.unvoiced_run@ == 0,
            !final(self).pipeline.is_buffering,
            old(self).pipeline.is_buffering ==> concat_all(r.1.deep_view()) == old(
                self,
            ).pipeline.buffer@.subrange(
                old(self).pipeline.buffer@.len() - old(self).pipeline.samples_since_last_send,
                old(self).pipeline.buffer@.len() as int,
            ),
            !old(self).pipeline.is_buffering ==> r.1@.len() == 0,
            final(self).pipeline.sent_to_python_segments == old(
                self,
            ).pipeline.sent_to_python_segments,
            final(self).pipeline.committed@ == old(self).pipeline.committed@,
            final(self).pipeline.observed@ == old(self).pipeline.observed@,
            final(self).pipeline.speech_segments == old(self).pipeline.speech_segments,
    {
        let batches = self.pipeline.stop_buffering();
        self.classifier.reset_counters();
        let step = self.machine.process_event(VadStateMachineEvent::BackendEndSession, now_ms);
        (step, batches)
    }

    /// Reset the classifier to a fresh detector and drive the machine back
    /// to Initial.
    pub fn reset_vad_state(&mut self)
        requires
            old(self).wf(),
        ensures
            final(self).wf(),
            !final(self).classifier.is_speaking,
            final(self).classifier.voiced_run@ == 0,
            final(self).classifier.unvoiced_run@ == 0,
            final(self).machine == crate::machine::spec_reset(old(self).machine),
            final(self).pipeline == old(self).pipeline,
    {
        self.classifier = VadProcessor::new();
        self.machine.reset_to_initial();
    }

    /// Stop all processing: force the classifier out of speech, close the
    /// buffering session, and drive the machine back to Initial.  The
    /// session's remaining samples come back as batches to write upstream.
    pub fn stop_vad_processing(&mut self) -> (batches: Vec<Vec<i16>>)
        requires
            old(self).wf(),
        ensures
            final(self).wf(),
            !final(self).classifier.is_speaking,
            final(self).classifier.voiced_run@ == 0,
            final(self).classifier.unvoiced_run@ == 0,
            final(self).machine == crate::machine::spec_reset(old(self).machine),
            !final(self).pipeline.is_buffering,
            old(self).pipeline.is_buffering ==> concat_all(batches.deep_view()) == old(
                self,
            ).pipeline.buffer@.subrange(
                old(self).pipeline.buffer@.len() - old(self).pipeline.samples_since_last_send,
                old(self).pipeline.buffer@.len() as int,
            ),
            !old(self).pipeline.is_buffering ==> batches@.len() == 0,
            final(self).pipeline.sent_to_python_segments == old(
                self,
            ).pipeline.sent_to_python_segments,
            final(self).pipeline.committed@ == old(self).pipeline.committed@,
            final(self).pipeline.observed@ == old(self).pipeline.observed@,
            final(self).pipeline.speech_segments == old(self).pipeline.speech_segments,
    {
        self.classifier.reset_counters();
        let batches = self.pipeline.stop_buffering();
        self.machine.reset_to_initial();
        batches
    }

    /// The UI-visible state name; never the quarantine state's.
    pub fn get_vad_state(&self) -> (r: String)
        requires
            self.wf(),
        ensures
            r@ == spec_state_name(spec_visible(self.machine)),
            r@ != "TransitionBuffer"@,
    {
        let visible = self.machine.visible_state();
        let r = state_name(visible);
        proof {
            reveal_strlit("Initial");
            reveal_strlit("Speaking");
            reveal_strlit("Waiting");
            reveal_strlit("Listening");
            reveal_strlit("TransitionBuffer");
            assert(!(spec_visible(self.machine) is TransitionBuffer));
            assert("Initial"@.len() != "TransitionBuffer"@.len());
            assert("Speaking"@.len() != "TransitionBuffer"@.len());
            assert("Waiting"@.len() != "TransitionBuffer"@.len());
            assert("Listening"@.len() != "TransitionBuffer"@.len());
            assert(r@ != "TransitionBuffer"@);
        }
        r
    }

    /// The mirrored segments, each with the sample rate, for playback.
    pub fn get_speech_segments(&self) -> (r: Vec<AudioSegment>)
        ensures
            r@.len() == self.pipeline.sent_to_python_segments@.len(),
            forall|i: int|
                0 <= i < r@.len() ==> (#[trigger] r@[i]).samples@
                    == self.pipeline.sent_to_python_segments.deep_view()[i] && r@[i].sample_rate
                    == SAMPLE_RATE,
    {
        let mut r: Vec<AudioSegment> = Vec::new();
        let mut i: usize = 0;
        while i < self.pipeline.sent_to_python_segments.len()
            invariant
                i <= self.pipeline.sent_to_python_segments@.len(),
                r@.len() == i,
                forall|k: int|
                    0 <= k < i ==> (#[trigger] r@[k]).samples@
                        == self.pipeline.sent_to_python_segments.deep_view()[k] && r@[k].sample_rate
                        == SAMPLE_RATE,
            decreases self.pipeline.sent_to_python_segments@.len() - i,
        {
            let samples = copy_samples(&self.pipeline.sent_to_python_segments[i]);
            r.push(AudioSegment { samples, sample_rate: SAMPLE_RATE });
            i = i + 1;
        }
        r
    }

    /// All mirrored segments joined into one segment at the capture rate;
    /// an error when the mirror holds no samples.
    pub fn get_combined_speech_segment(&self) -> (r: Result<AudioSegment, SegmentError>)
        ensures
            r is Ok <==> concat_all(self.pipeline.sent_to_python_segments.deep_view()).len() > 0,
            r matches Ok(seg) ==> seg.samples@ == concat_all(
                self.pipeline.sent_to_python_segments.deep_view(),
            ) && seg.sample_rate == SAMPLE_RATE,
    {
        let combined = self.pipeline.get_combined_speech_segment();
        if combined.len() == 0 {
            Err(SegmentError::Empty)
        } else {
            Ok(AudioSegment { samples: combined, sample_rate: SAMPLE_RATE })
        }
    }

    /// Empty the mirror.
    pub fn clear_speech_segments(&mut self)
        requires
            old(self).wf(),
        ensures
            final(self).wf(),
            final(self).pipeline.sent_to_python_segments@.len() == 0,
            final(self).pipeline.committed@ == Seq::<Seq<i16>>::empty(),
            final(self).machine == old(self).machine,
            final(self).classifier == old(self).classifier,
    {
        self.pipeline.clear_sent_to_python_segments();
    }

    /// Enter one diagnostic segment into the mirror, as if committed.
    pub fn insert_diagnostic_segment(&mut self, samples: Vec<i16>)
        requires
            old(self).wf(),
            samples@.len() > 0,
        ensures
            final(self).wf(),
            final(self).pipeline.committed@ == old(self).pipeline.committed@.push(samples@),
            final(self).machine == old(self).machine,
            final(self).classifier == old(self).classifier,
    {
        self.pipeline.insert_diagnostic_segment(samples);
    }
}

/// One heartbeat report: the UI event and the control frame for the
/// backend, both carrying the milliseconds since the heartbeat started.
pub fn make_silence_report(start_ms: u64, now_ms: u64) -> (r: (SilenceEvent, Vec<u8>))
    requires
        start_ms <= now_ms,
    ensures
        r.0.silence_ms == now_ms - start_ms,
        r.1@ == spec_silence_bytes((now_ms - start_ms) as u64),
{
    let ms = now_ms - start_ms;
    (SilenceEvent { silence_ms: ms }, encode_silence_event(ms))
}

/// Whether a reconnect may be attempted: at least the reconnect interval
/// has passed since the last attempt.
pub fn should_attempt_reconnect(last_attempt_ms: u64, now_ms: u64) -> (r: bool)
    ensures
        r <==> now_ms - last_attempt_ms >= RECONNECT_INTERVAL_MS,
{
    now_ms >= last_attempt_ms && now_ms - last_attempt_ms >= RECONNECT_INTERVAL_MS
}

} // verus!
