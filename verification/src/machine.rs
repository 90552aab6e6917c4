//! The dialog state machine.
//!
//! It consumes classified microphone frames, recogniser confirmations,
//! playback lifecycle events and backend control events, and decides whether
//! the current audio frame is forwarded upstream, when the pre-roll context
//! is replayed, when the silence heartbeat runs, and which state the UI is
//! shown.  The quarantine state `TransitionBuffer` is entered on a candidate
//! wake-up and is never visible to the UI: until the recogniser confirms
//! speech, the UI keeps seeing the last visible state.

use crate::SILENCE_FRAMES_TO_WAITING;
use crate::TRANSITION_BUFFER_TIMEOUT_MS;
use vstd::prelude::*;

verus! {

/// The states of the dialog machine.
#[derive(Clone, Copy, Debug, PartialEq, Eq, Structural)]
pub enum VadState {
    /// Frames are consumed only for classification; nothing is forwarded.
    Initial,
    /// Every classified frame is forwarded upstream.
    Speaking,
    /// Nothing is forwarded; the silence heartbeat runs.
    Waiting,
    /// Backend playback is active; frames are classified but not forwarded.
    Listening,
    /// Quarantine after a candidate wake-up; forwarded but hidden from the UI.
    TransitionBuffer,
}

/// The events the machine consumes.
#[derive(Clone, Copy, Debug, PartialEq, Eq, Structural)]
pub enum VadStateMachineEvent {
    /// The classifier judged the current frame voiced.
    VoiceFrame,
    /// The classifier judged the current frame unvoiced.
    SilenceFrame,
    /// The backend ended the session.
    BackendEndSession,
    /// The backend asked for a reset to the initial state.
    BackendResetToInitial,
    /// Synthesised audio playback started.
    AudioPlaybackStart,
    /// Synthesised audio playback ended.
    AudioPlaybackEnd,
    /// The recogniser returned non-empty text.
    BackendReturnText,
    /// The quarantine window elapsed without recogniser text.
    TransitionTimeout,
}

/// What the host must do to the silence heartbeat after a step.
#[derive(Clone, Copy, Debug, PartialEq, Eq, Structural)]
pub enum HeartbeatAction {
    /// Start the heartbeat: the machine entered Waiting.
    Start,
    /// Stop the heartbeat: the machine left Waiting.
    Stop,
    /// Leave the heartbeat as it is.
    Keep,
}

/// The outcome of one machine step.
#[derive(Clone, Copy, Debug)]
pub struct StepResult {
    /// Forward the current audio frame upstream.
    pub forward: bool,
    /// Replay the pre-roll context upstream before the current frame.
    pub send_pre_context: bool,
    /// What to do to the silence heartbeat.
    pub heartbeat: HeartbeatAction,
    /// `Some(s)`: announce the new UI-visible state `s`; never the
    /// quarantine state.
    pub ui_transition: Option<VadState>,
}

/// The dialog machine's state.  Time is supplied by the caller as a
/// monotonic millisecond reading.
pub struct VadStateMachine {
    pub current_state: VadState,
    /// The state last shown to the UI; never `TransitionBuffer`.
    pub last_user_visible_state: VadState,
    /// Consecutive unvoiced frames seen in Speaking.
    pub silence_frames_count: u64,
    /// Unvoiced frames that collapse Speaking into Waiting.
    pub max_silence_frames: u64,
    /// When the quarantine state was entered, if it is current.
    pub transition_start_ms: Option<u64>,
}

/// The state the UI is shown: the quarantine state is masked by the last
/// visible one.
pub open spec fn spec_visible(m: VadStateMachine) -> VadState {
    if m.current_state is TransitionBuffer {
        m.last_user_visible_state
    } else {
        m.current_state
    }
}

/// The quarantine window has elapsed.
pub open spec fn spec_timed_out(m: VadStateMachine, now_ms: u64) -> bool {
    &&& m.current_state is TransitionBuffer
    &&& match m.transition_start_ms {
        Some(t) => t + TRANSITION_BUFFER_TIMEOUT_MS < now_ms,
        None => false,
    }
}

/// `m` after entering the quarantine state at `now_ms`.
pub open spec fn spec_enter_transition(m: VadStateMachine, now_ms: u64) -> VadStateMachine {
    VadStateMachine {
        current_state: VadState::TransitionBuffer,
        last_user_visible_state: m.current_state,
        silence_frames_count: 0,
        transition_start_ms: Some(now_ms),
        ..m
    }
}

/// `m` after falling back out of the quarantine state to the last visible
/// state.
pub open spec fn spec_revert_transition(m: VadStateMachine) -> VadStateMachine {
    VadStateMachine {
        current_state: m.last_user_visible_state,
        transition_start_ms: None,
        ..m
    }
}

/// `m` after a reset to the initial state.
pub open spec fn spec_reset(m: VadStateMachine) -> VadStateMachine {
    VadStateMachine {
        current_state: VadState::Initial,
        silence_frames_count: 0,
        transition_start_ms: None,
        ..m
    }
}

/// The transition table: from `pre` on `event` at `now_ms`, the next state,
/// whether the current frame is forwarded, and whether the pre-roll context
/// is replayed first.  Assumes the quarantine window has not elapsed.
pub open spec fn spec_transition(
    pre: VadStateMachine,
    event: VadStateMachineEvent,
    now_ms: u64,
) -> (VadStateMachine, bool, bool) {
    match (pre.current_state, event) {
        (VadState::Initial, VadStateMachineEvent::VoiceFrame) => (
            spec_enter_transition(pre, now_ms),
            true,
            false,
        ),
        (VadState::Initial, VadStateMachineEvent::AudioPlaybackStart) => (
            VadStateMachine { current_state: VadState::Listening, ..pre },
            false,
            false,
        ),
        (VadState::Initial, _) => (pre, false, false),
        (VadState::TransitionBuffer, VadStateMachineEvent::BackendReturnText) => (
            VadStateMachine {
                current_state: VadState::Speaking,
                transition_start_ms: None,
                silence_frames_count: 0,
                ..pre
            },
            true,
            false,
        ),
        (VadState::TransitionBuffer, VadStateMachineEvent::BackendEndSession) | (
            VadState::TransitionBuffer,
            VadStateMachineEvent::BackendResetToInitial,
        ) => (
            VadStateMachine {
                current_state: VadState::Initial,
                transition_start_ms: None,
                silence_frames_count: 0,
                ..pre
            },
            false,
            false,
        ),
        (VadState::TransitionBuffer, VadStateMachineEvent::AudioPlaybackStart) => (
            VadStateMachine {
                current_state: VadState::Listening,
                transition_start_ms: None,
                ..pre
            },
            false,
            false,
        ),
        (VadState::TransitionBuffer, VadStateMachineEvent::TransitionTimeout) => (
            spec_revert_transition(pre),
            false,
            false,
        ),
        (VadState::TransitionBuffer, _) => (pre, true, false),
        (VadState::Speaking, VadStateMachineEvent::SilenceFrame) => {
            if pre.silence_frames_count + 1 >= pre.max_silence_frames {
                (
                    VadStateMachine {
                        current_state: VadState::Waiting,
                        silence_frames_count: 0,
                        ..pre
                    },
                    false,
                    false,
                )
            } else {
                (
                    VadStateMachine {
                        silence_frames_count: (pre.silence_frames_count + 1) as u64,
                        ..pre
                    },
                    true,
                    false,
                )
            }
        },
        (VadState::Speaking, VadStateMachineEvent::VoiceFrame) => (
            VadStateMachine { silence_frames_count: 0, ..pre },
            true,
            false,
        ),
        (VadState::Speaking, VadStateMachineEvent::BackendEndSession) | (
            VadState::Speaking,
            VadStateMachineEvent::BackendResetToInitial,
        ) => (spec_reset(pre), false, false),
        (VadState::Speaking, VadStateMachineEvent::AudioPlaybackStart) => (
            VadStateMachine {
                current_state: VadState::Listening,
                silence_frames_count: 0,
                ..pre
            },
            false,
            false,
        ),
        (VadState::Speaking, _) => (pre, true, false),
        (VadState::Waiting, VadStateMachineEvent::VoiceFrame) => (
            spec_enter_transition(pre, now_ms),
            true,
            true,
        ),
        (VadState::Waiting, VadStateMachineEvent::BackendEndSession) | (
            VadState::Waiting,
            VadStateMachineEvent::BackendResetToInitial,
        ) => (spec_reset(pre), false, false),
        (VadState::Waiting, VadStateMachineEvent::AudioPlaybackStart) => (
            VadStateMachine { current_state: VadState::Listening, ..pre },
            false,
            false,
        ),
        (VadState::Waiting, _) => (pre, false, false),
        (VadState::Listening, VadStateMachineEvent::VoiceFrame) => (
            spec_enter_transition(pre, now_ms),
            true,
            true,
        ),
        (VadState::Listening, VadStateMachineEvent::AudioPlaybackEnd) | (
            VadState::Listening,
            VadStateMachineEvent::BackendEndSession,
        ) | (VadState::Listening, VadStateMachineEvent::BackendResetToInitial) => (
            VadStateMachine { current_state: VadState::Initial, ..pre },
            false,
            false,
        ),
        (VadState::Listening, _) => (pre, false, false),
    }
}

/// One full machine step: the quarantine timeout is checked first and, when
/// elapsed, overrides the event — the machine falls back to the last visible
/// state, the event is dropped and nothing is forwarded.
pub open spec fn spec_step(
    pre: VadStateMachine,
    event: VadStateMachineEvent,
    now_ms: u64,
) -> (VadStateMachine, bool, bool) {
    if spec_timed_out(pre, now_ms) {
        (spec_revert_transition(pre), false, false)
    } else {
        spec_transition(pre, event, now_ms)
    }
}

/// The heartbeat runs exactly while the machine is Waiting.
pub open spec fn spec_heartbeat_action(pre: VadStateMachine, post: VadStateMachine)
    -> HeartbeatAction {
    if !(pre.current_state is Waiting) && post.current_state is Waiting {
        HeartbeatAction::Start
    } else if pre.current_state is Waiting && !(post.current_state is Waiting) {
        HeartbeatAction::Stop
    } else {
        HeartbeatAction::Keep
    }
}

/// The UI is told about a step exactly when the visible state changed; the
/// quarantine state itself is never announced.
pub open spec fn spec_ui_transition(pre: VadStateMachine, post: VadStateMachine) -> Option<
    VadState,
> {
    if spec_visible(post) != spec_visible(pre) {
        Some(spec_visible(post))
    } else {
        None
    }
}

impl VadStateMachine {
    /// Structural soundness: the visible state is a real state, the silence
    /// run is below its threshold, and a current quarantine has an entry
    /// time.
    pub open spec fn wf(self) -> bool {
        &&& !(self.last_user_visible_state is TransitionBuffer)
        &&& self.max_silence_frames == SILENCE_FRAMES_TO_WAITING
        &&& self.silence_frames_count < self.max_silence_frames
        &&& self.current_state is TransitionBuffer ==> self.transition_start_ms is Some
    }

    pub fn new() -> (r: Self)
        ensures
            r.wf(),
            r.current_state is Initial,
            r.last_user_visible_state is Initial,
            r.silence_frames_count == 0,
            r.transition_start_ms is None,
    {
        VadStateMachine {
            current_state: VadState::Initial,
            last_user_visible_state: VadState::Initial,
            silence_frames_count: 0,
            max_silence_frames: SILENCE_FRAMES_TO_WAITING,
            transition_start_ms: None,
        }
    }

    /// Process one event at time `now_ms` and report what the host must do.
    pub fn process_event(&mut self, event: VadStateMachineEvent, now_ms: u64) -> (r: StepResult)
        requires
            old(self).wf(),
        ensures
            final(self).wf(),
            (*final(self), r.forward, r.send_pre_context) == spec_step(*old(self), event, now_ms),
            r.heartbeat == spec_heartbeat_action(*old(self), *final(self)),
            r.ui_transition == spec_ui_transition(*old(self), *final(self)),
    {
        let ghost pre = *self;
        let pre_state = self.current_state;
        let pre_visible = self.visible_state();

        let mut timed_out = false;
        if matches!(self.current_state, VadState::TransitionBuffer) {
            if let Some(t) = self.transition_start_ms {
                if now_ms > t && now_ms - t > TRANSITION_BUFFER_TIMEOUT_MS {
                    timed_out = true;
                }
            }
        }

        let (forward, send_pre_context): (bool, bool) = if timed_out {
            self.current_state = self.last_user_visible_state;
            self.transition_start_ms = None;
            (false, false)
        } else {
            match (pre_state, event) {
                (VadState::Initial, VadStateMachineEvent::VoiceFrame) => {
                    self.enter_transition(now_ms);
                    (true, false)
                },
                (VadState::Initial, VadStateMachineEvent::AudioPlaybackStart) => {
                    self.current_state = VadState::Listening;
                    (false, false)
                },
                (VadState::Initial, _) => (false, false),
                (VadState::TransitionBuffer, VadStateMachineEvent::BackendReturnText) => {
                    self.current_state = VadState::Speaking;
                    self.transition_start_ms = None;
                    self.silence_frames_count = 0;
                    (true, false)
                },
                (VadState::TransitionBuffer, VadStateMachineEvent::BackendEndSession)
                | (VadState::TransitionBuffer, VadStateMachineEvent::BackendResetToInitial) => {
                    self.current_state = VadState::Initial;
                    self.transition_start_ms = None;
                    self.silence_frames_count = 0;
                    (false, false)
                },
                (VadState::TransitionBuffer, VadStateMachineEvent::AudioPlaybackStart) => {
                    self.current_state = VadState::Listening;
                    self.transition_start_ms = None;
                    (false, false)
                },
                (VadState::TransitionBuffer, VadStateMachineEvent::TransitionTimeout) => {
                    self.current_state = self.last_user_visible_state;
                    self.transition_start_ms = None;
                    (false, false)
                },
                (VadState::TransitionBuffer, _) => (true, false),
                (VadState::Speaking, VadStateMachineEvent::SilenceFrame) => {
                    if self.silence_frames_count + 1 >= self.max_silence_frames {
                        self.current_state = VadState::Waiting;
                        self.silence_frames_count = 0;
                        (false, false)
                    } else {
                        self.silence_frames_count = self.silence_frames_count + 1;
                        (true, false)
                    }
                },
                (VadState::Speaking, VadStateMachineEvent::VoiceFrame) => {
                    self.silence_frames_count = 0;
                    (true, false)
                },
                (VadState::Speaking, VadStateMachineEvent::BackendEndSession)
                | (VadState::Speaking, VadStateMachineEvent::BackendResetToInitial) => {
                    self.current_state = VadState::Initial;
                    self.silence_frames_count = 0;
                    self.transition_start_ms = None;
                    (false, false)
                },
                (VadState::Speaking, VadStateMachineEvent::AudioPlaybackStart) => {
                    self.current_state = VadState::Listening;
                    self.silence_frames_count = 0;
                    (false, false)
                },
                (VadState::Speaking, _) => (true, false),
                (VadState::Waiting, VadStateMachineEvent::VoiceFrame) => {
                    self.enter_transition(now_ms);
                    (true, true)
                },
                (VadState::Waiting, VadStateMachineEvent::BackendEndSession)
                | (VadState::Waiting, VadStateMachineEvent::BackendResetToInitial) => {
                    self.current_state = VadState::Initial;
                    self.silence_frames_count = 0;
                    self.transition_start_ms = None;
                    (false, false)
                },
                (VadState::Waiting, VadStateMachineEvent::AudioPlaybackStart) => {
                    self.current_state = VadState::Listening;
                    (false, false)
                },
                (VadState::Waiting, _) => (false, false),
                (VadState::Listening, VadStateMachineEvent::VoiceFrame) => {
                    self.enter_transition(now_ms);
                    (true, true)
                },
                (VadState::Listening, VadStateMachineEvent::AudioPlaybackEnd)
                | (VadState::Listening, VadStateMachineEvent::BackendEndSession)
                | (VadState::Listening, VadStateMachineEvent::BackendResetToInitial) => {
                    self.current_state = VadState::Initial;
                    (false, false)
                },
                (VadState::Listening, _) => (false, false),
            }
        };

        let heartbeat = if !matches!(pre_state, VadState::Waiting) && matches!(
            self.current_state,
            VadState::Waiting,
        ) {
            HeartbeatAction::Start
        } else if matches!(pre_state, VadState::Waiting) && !matches!(
            self.current_state,
            VadState::Waiting,
        ) {
            HeartbeatAction::Stop
        } else {
            HeartbeatAction::Keep
        };

        let post_visible = self.visible_state();
        let ui_transition = if post_visible != pre_visible {
            Some(post_visible)
        } else {
            None
        };

        StepResult { forward, send_pre_context, heartbeat, ui_transition }
    }

    fn enter_transition(&mut self, now_ms: u64)
        requires
            !(old(self).current_state is TransitionBuffer),
        ensures
            *final(self) == spec_enter_transition(*old(self), now_ms),
    {
        self.last_user_visible_state = self.current_state;
        self.current_state = VadState::TransitionBuffer;
        self.transition_start_ms = Some(now_ms);
        self.silence_frames_count = 0;
    }

    /// Drive the machine back to Initial without an event.
    pub fn reset_to_initial(&mut self)
        requires
            old(self).wf(),
        ensures
            final(self).wf(),
            *final(self) == spec_reset(*old(self)),
    {
        self.current_state = VadState::Initial;
        self.silence_frames_count = 0;
        self.transition_start_ms = None;
    }

    /// The machine's current state, quarantine included.
    pub fn get_current_state(&self) -> (r: VadState)
        ensures
            r == self.current_state,
    {
        self.current_state
    }

    /// The UI-visible state: the quarantine state is masked.
    pub fn visible_state(&self) -> (r: VadState)
        ensures
            r == spec_visible(*self),
    {
        if matches!(self.current_state, VadState::TransitionBuffer) {
            self.last_user_visible_state
        } else {
            self.current_state
        }
    }
}

/// The visible state is never the quarantine state.
pub proof fn lemma_visible_never_transition(m: VadStateMachine)
    requires
        m.wf(),
    ensures
        !(spec_visible(m) is TransitionBuffer),
{
}

/// When the quarantine window elapses with no confirming text, the machine
/// falls back to the last visible state, forwards nothing, and the UI sees
/// no transition at all — whatever event arrives with the elapsed clock.
pub proof fn lemma_transition_timeout(pre: VadStateMachine, event: VadStateMachineEvent, now_ms: u64)
    requires
        pre.wf(),
        spec_timed_out(pre, now_ms),
    ensures
        spec_step(pre, event, now_ms).0.current_state == pre.last_user_visible_state,
        !spec_step(pre, event, now_ms).1,
        !spec_step(pre, event, now_ms).2,
        spec_ui_transition(pre, spec_step(pre, event, now_ms).0) is None,
{
}

} // verus!
