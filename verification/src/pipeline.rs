//! The audio pipeline: pre-roll context, the buffering session, the retry
//! queue, the mirror of everything committed upstream, and the collector of
//! complete voice segments.
//!
//! The pipeline never touches a socket.  Where the host must write a segment
//! upstream, a method hands the segment back; the host performs the write
//! and reports the outcome through [`AudioPipeline::record_send_outcome`],
//! which mirrors committed segments and queues failed ones for retry.

use crate::classifier::copy_samples;
use crate::seqs::{concat_all, last_n, lemma_concat_all_push, lemma_last_n_push};
use crate::COMPLETE_SEGMENTS_CAP;
use crate::PRE_CONTEXT_FRAMES;
use crate::SEND_BUFFER_THRESHOLD;
use crate::SENT_MIRROR_CAP;
use crate::VOICE_SEGMENT_CLOSE_FRAMES;
use crate::VOICE_SEGMENT_MIN_SAMPLES;
use crate::VOICE_SEGMENT_TAIL_FRAMES;
use vstd::prelude::*;

verus! {

/// `s` with `x` appended, evicting the oldest element beyond `cap`.
pub open spec fn push_capped<T>(s: Seq<T>, x: T, cap: int) -> Seq<T> {
    if s.len() + 1 > cap {
        s.push(x).drop_first()
    } else {
        s.push(x)
    }
}

/// One step of the voice-segment collector: the current segment, the run of
/// frames without voice, and the list of closed segments after one frame.
pub open spec fn spec_voice_step(
    cur: Seq<i16>,
    fwv: u64,
    complete: Seq<Seq<i16>>,
    samples: Seq<i16>,
    is_voice: bool,
) -> (Seq<i16>, u64, Seq<Seq<i16>>) {
    if is_voice {
        (cur + samples, 0u64, complete)
    } else {
        let fwv2 = if fwv < VOICE_SEGMENT_CLOSE_FRAMES {
            (fwv + 1) as u64
        } else {
            fwv
        };
        if cur.len() > 0 && fwv2 >= VOICE_SEGMENT_CLOSE_FRAMES {
            if cur.len() > VOICE_SEGMENT_MIN_SAMPLES {
                (Seq::empty(), fwv2, push_capped(complete, cur, COMPLETE_SEGMENTS_CAP as int))
            } else {
                (Seq::empty(), fwv2, complete)
            }
        } else if cur.len() > 0 && fwv2 < VOICE_SEGMENT_TAIL_FRAMES {
            (cur + samples, fwv2, complete)
        } else {
            (cur, fwv2, complete)
        }
    }
}

/// The audio pipeline.  All time-free bookkeeping of the upstream audio
/// path lives here; the ghost fields record the full arrival and commit
/// histories that the bounded windows are suffixes of.
pub struct AudioPipeline {
    /// Samples of the current buffering session, since the last start.
    pub buffer: Vec<i16>,
    pub is_buffering: bool,
    /// Samples accumulated since the session last emitted a segment.
    pub samples_since_last_send: usize,
    /// Segments whose upstream write failed, awaiting retry, in order.
    pub speech_segments: Vec<Vec<i16>>,
    /// Mirror of every segment committed upstream, oldest evicted past the
    /// cap.
    pub sent_to_python_segments: Vec<Vec<i16>>,
    /// Closed voice segments kept for diagnostics, oldest evicted past the
    /// cap.
    pub complete_speech_segments: Vec<Vec<i16>>,
    /// The voice segment currently being collected.
    pub current_voice_segment: Vec<i16>,
    /// Run of frames without voice, saturated at its threshold.
    pub frames_without_voice: u64,
    /// The most recent frames, kept as pre-roll context.
    pub pre_context_frames: Vec<Vec<i16>>,
    pub max_pre_context_frames: usize,
    /// Every frame ever observed, in arrival order.
    pub observed: Ghost<Seq<Seq<i16>>>,
    /// Every segment committed upstream since the last mirror clear.
    pub committed: Ghost<Seq<Seq<i16>>>,
}

impl AudioPipeline {
    /// The pre-roll window holds the newest observed frames; the mirror
    /// holds the newest committed segments; the session counter never
    /// reaches the send threshold between calls and counts a suffix of the
    /// session; an idle session is empty.
    pub open spec fn wf(self) -> bool {
        &&& self.max_pre_context_frames == PRE_CONTEXT_FRAMES
        &&& self.pre_context_frames.deep_view() == last_n(
            self.observed@,
            PRE_CONTEXT_FRAMES as int,
        )
        &&& self.sent_to_python_segments.deep_view() == last_n(
            self.committed@,
            SENT_MIRROR_CAP as int,
        )
        &&& self.samples_since_last_send <= self.buffer@.len()
        &&& self.samples_since_last_send < SEND_BUFFER_THRESHOLD
        &&& !self.is_buffering ==> self.buffer@.len() == 0 && self.samples_since_last_send == 0
        &&& self.complete_speech_segments@.len() <= COMPLETE_SEGMENTS_CAP
    }

    pub fn new() -> (r: Self)
        ensures
            r.wf(),
            !r.is_buffering,
            r.observed@ == Seq::<Seq<i16>>::empty(),
            r.committed@ == Seq::<Seq<i16>>::empty(),
            r.speech_segments@.len() == 0,
            r.sent_to_python_segments@.len() == 0,
            r.complete_speech_segments@.len() == 0,
            r.current_voice_segment@.len() == 0,
            r.pre_context_frames@.len() == 0,
    {
        let r = AudioPipeline {
            buffer: Vec::new(),
            is_buffering: false,
            samples_since_last_send: 0,
            speech_segments: Vec::new(),
            sent_to_python_segments: Vec::new(),
            complete_speech_segments: Vec::new(),
            current_voice_segment: Vec::new(),
            frames_without_voice: 0,
            pre_context_frames: Vec::new(),
            max_pre_context_frames: PRE_CONTEXT_FRAMES,
            observed: Ghost(Seq::empty()),
            committed: Ghost(Seq::empty()),
        };
        proof {
            assert(r.pre_context_frames.deep_view() =~= last_n(r.observed@, PRE_CONTEXT_FRAMES as int));
            assert(r.sent_to_python_segments.deep_view() =~= last_n(r.committed@, SENT_MIRROR_CAP as int));
        }
        r
    }

    /// Record one arriving frame in the pre-roll context, evicting the
    /// oldest frame past the window.  Called for every frame, whatever the
    /// dialog state.
    pub fn add_to_pre_context(&mut self, samples: &Vec<i16>)
        requires
            old(self).wf(),
        ensures
            final(self).wf(),
            final(self).observed@ == old(self).observed@.push(samples@),
            final(self).pre_context_frames.deep_view() == last_n(
                final(self).observed@,
                PRE_CONTEXT_FRAMES as int,
            ),
            final(self).buffer == old(self).buffer,
            final(self).is_buffering == old(self).is_buffering,
            final(self).samples_since_last_send == old(self).samples_since_last_send,
            final(self).speech_segments == old(self).speech_segments,
            final(self).sent_to_python_segments == old(self).sent_to_python_segments,
            final(self).complete_speech_segments == old(self).complete_speech_segments,
            final(self).current_voice_segment == old(self).current_voice_segment,
            final(self).frames_without_voice == old(self).frames_without_voice,
            final(self).committed@ == old(self).committed@,
    {
        let ghost pre_window = self.pre_context_frames.deep_view();
        let copy = copy_samples(samples);
        self.pre_context_frames.push(copy);
        proof {
            self.observed@ = self.observed@.push(samples@);
            assert(self.pre_context_frames.deep_view() =~~= pre_window.push(samples@));
            lemma_last_n_push(old(self).observed@, samples@, PRE_CONTEXT_FRAMES as int);
        }
        if self.pre_context_frames.len() > self.max_pre_context_frames {
            let ghost before = self.pre_context_frames.deep_view();
            let _ = self.pre_context_frames.remove(0);
            proof {
                assert(self.pre_context_frames.deep_view() =~~= before.drop_first());
                assert(before.drop_first() =~= pre_window.drop_first().push(samples@));
            }
        }
        proof {
            assert(self.pre_context_frames.deep_view() == last_n(
                self.observed@,
                PRE_CONTEXT_FRAMES as int,
            ));
        }
    }

    /// Begin a buffering session unless one is already open (idempotent).
    pub fn start_buffering(&mut self)
        requires
            old(self).wf(),
        ensures
            final(self).wf(),
            final(self).is_buffering,
            old(self).is_buffering ==> *final(self) == *old(self),
            !old(self).is_buffering ==> final(self).buffer@.len() == 0
                && final(self).samples_since_last_send == 0,
            final(self).speech_segments == old(self).speech_segments,
            final(self).sent_to_python_segments == old(self).sent_to_python_segments,
            final(self).complete_speech_segments == old(self).complete_speech_segments,
            final(self).current_voice_segment == old(self).current_voice_segment,
            final(self).pre_context_frames == old(self).pre_context_frames,
            final(self).observed@ == old(self).observed@,
            final(self).committed@ == old(self).committed@,
    {
        if !self.is_buffering {
            self.is_buffering = true;
            self.buffer.clear();
            self.samples_since_last_send = 0;
        }
    }

    /// Append samples to the open session.  When the accumulation since the
    /// last emission reaches the send threshold, the newly accumulated tail
    /// — not the whole session — is handed back for an upstream write and
    /// the counter resets; the session itself is retained.
    pub fn add_audio_samples(&mut self, samples: &Vec<i16>) -> (emit: Option<Vec<i16>>)
        requires
            old(self).wf(),
            old(self).buffer@.len() + samples@.len() <= usize::MAX,
        ensures
            final(self).wf(),
            !old(self).is_buffering ==> *final(self) == *old(self) && emit is None,
            old(self).is_buffering ==> {
                &&& final(self).buffer@ == old(self).buffer@ + samples@
                &&& final(self).is_buffering
                &&& {
                    let acc = old(self).samples_since_last_send + samples@.len();
                    if acc >= SEND_BUFFER_THRESHOLD {
                        &&& emit matches Some(seg) && seg@ == final(self).buffer@.subrange(
                            final(self).buffer@.len() - acc,
                            final(self).buffer@.len() as int,
                        )
                        &&& final(self).samples_since_last_send == 0
                    } else {
                        &&& emit is None
                        &&& final(self).samples_since_last_send == acc
                    }
                }
            },
            final(self).speech_segments == old(self).speech_segments,
            final(self).sent_to_python_segments == old(self).sent_to_python_segments,
            final(self).complete_speech_segments == old(self).complete_speech_segments,
            final(self).current_voice_segment == old(self).current_voice_segment,
            final(self).frames_without_voice == old(self).frames_without_voice,
            final(self).pre_context_frames == old(self).pre_context_frames,
            final(self).observed@ == old(self).observed@,
            final(self).committed@ == old(self).committed@,
    {
        if !self.is_buffering {
            return None;
        }
        self.buffer.extend_from_slice(samples.as_slice());
        proof {
            assert(self.buffer@ =~= old(self).buffer@ + samples@);
        }
        self.samples_since_last_send = self.samples_since_last_send + samples.len();
        if self.samples_since_last_send >= SEND_BUFFER_THRESHOLD {
            let start = self.buffer.len() - self.samples_since_last_send;
            let seg = copy_tail(&self.buffer, start);
            self.samples_since_last_send = 0;
            Some(seg)
        } else {
            None
        }
    }

    /// Close the session: the not-yet-emitted tail is handed back in order,
    /// split into batches of at most the send threshold, and the session is
    /// cleared.  Without an open session nothing happens.
    pub fn stop_buffering(&mut self) -> (batches: Vec<Vec<i16>>)
        requires
            old(self).wf(),
        ensures
            final(self).wf(),
            !old(self).is_buffering ==> *final(self) == *old(self) && batches@.len() == 0,
            old(self).is_buffering ==> {
                &&& !final(self).is_buffering
                &&& final(self).buffer@.len() == 0
                &&& final(self).samples_since_last_send == 0
                &&& concat_all(batches.deep_view()) == old(self).buffer@.subrange(
                    old(self).buffer@.len() - old(self).samples_since_last_send,
                    old(self).buffer@.len() as int,
                )
                &&& forall|i: int|
                    0 <= i < batches@.len() ==> 0 < #[trigger] batches@[i]@.len()
                        <= SEND_BUFFER_THRESHOLD
            },
            final(self).speech_segments == old(self).speech_segments,
            final(self).sent_to_python_segments == old(self).sent_to_python_segments,
            final(self).complete_speech_segments == old(self).complete_speech_segments,
            final(self).current_voice_segment == old(self).current_voice_segment,
            final(self).frames_without_voice == old(self).frames_without_voice,
            final(self).pre_context_frames == old(self).pre_context_frames,
            final(self).observed@ == old(self).observed@,
            final(self).committed@ == old(self).committed@,
    {
        let mut batches: Vec<Vec<i16>> = Vec::new();
        if !self.is_buffering {
            proof {
                assert(batches.deep_view() =~= Seq::<Seq<i16>>::empty());
            }
            return batches;
        }
        self.is_buffering = false;
        let ghost session = self.buffer@;
        let mut sent: usize = self.buffer.len() - self.samples_since_last_send;
        let ghost tail_start = sent as int;
        proof {
            assert(batches.deep_view() =~= Seq::<Seq<i16>>::empty());
            assert(concat_all(batches.deep_view()) + session.subrange(tail_start, sent as int)
                =~= session.subrange(tail_start, tail_start));
            assert(concat_all(batches.deep_view()) =~= session.subrange(tail_start, sent as int));
        }
        while sent < self.buffer.len()
            invariant
                0 <= tail_start <= sent <= self.buffer@.len(),
                self.buffer@ == session,
                concat_all(batches.deep_view()) == session.subrange(tail_start, sent as int),
                forall|i: int|
                    0 <= i < batches@.len() ==> 0 < #[trigger] batches@[i]@.len()
                        <= SEND_BUFFER_THRESHOLD,
            decreases self.buffer@.len() - sent,
        {
            let remaining = self.buffer.len() - sent;
            let batch_size = if remaining < SEND_BUFFER_THRESHOLD {
                remaining
            } else {
                SEND_BUFFER_THRESHOLD
            };
            let end: usize = sent + batch_size;
            let mut batch: Vec<i16> = Vec::new();
            let mut i: usize = sent;
            while i < end
                invariant
                    sent <= i <= end,
                    end <= self.buffer@.len(),
                    self.buffer@ == session,
                    batch@ == session.subrange(sent as int, i as int),
                decreases end - i,
            {
                batch.push(self.buffer[i]);
                proof {
                    assert(batch@ =~= session.subrange(sent as int, i as int + 1));
                }
                i = i + 1;
            }
            let ghost old_batches = batches.deep_view();
            let ghost batch_view = batch@;
            batches.push(batch);
            proof {
                assert(batches.deep_view() =~~= old_batches.push(batch_view));
                lemma_concat_all_push(old_batches, batch_view);
                assert(session.subrange(tail_start, sent as int) + session.subrange(
                    sent as int,
                    end as int,
                ) =~= session.subrange(tail_start, end as int));
                assert(concat_all(batches.deep_view()) =~= session.subrange(
                    tail_start,
                    end as int,
                ));
            }
            sent = end;
        }
        self.buffer.clear();
        self.samples_since_last_send = 0;
        batches
    }

    /// Record the outcome of one attempted upstream write.  A committed
    /// non-empty segment joins the mirror, oldest evicted past the cap; a
    /// failed segment joins the retry queue.
    pub fn record_send_outcome(&mut self, segment: Vec<i16>, ok: bool)
        requires
            old(self).wf(),
        ensures
            final(self).wf(),
            ok && segment@.len() > 0 ==> {
                &&& final(self).committed@ == old(self).committed@.push(segment@)
                &&& final(self).sent_to_python_segments.deep_view() == last_n(
                    final(self).committed@,
                    SENT_MIRROR_CAP as int,
                )
                &&& final(self).speech_segments == old(self).speech_segments
            },
            ok && segment@.len() == 0 ==> *final(self) == *old(self),
            !ok ==> {
                &&& final(self).speech_segments.deep_view()
                    == old(self).speech_segments.deep_view().push(segment@)
                &&& final(self).committed@ == old(self).committed@
                &&& final(self).sent_to_python_segments == old(self).sent_to_python_segments
            },
            final(self).buffer == old(self).buffer,
            final(self).is_buffering == old(self).is_buffering,
            final(self).samples_since_last_send == old(self).samples_since_last_send,
            final(self).complete_speech_segments == old(self).complete_speech_segments,
            final(self).current_voice_segment == old(self).current_voice_segment,
            final(self).frames_without_voice == old(self).frames_without_voice,
            final(self).pre_context_frames == old(self).pre_context_frames,
            final(self).observed@ == old(self).observed@,
    {
        if ok {
            if segment.len() > 0 {
                let ghost pre_mirror = self.sent_to_python_segments.deep_view();
                let ghost seg_view = segment@;
                self.sent_to_python_segments.push(segment);
                proof {
                    self.committed@ = self.committed@.push(seg_view);
                    assert(self.sent_to_python_segments.deep_view() =~~= pre_mirror.push(seg_view));
                    lemma_last_n_push(old(self).committed@, seg_view, SENT_MIRROR_CAP as int);
                }
                if self.sent_to_python_segments.len() > SENT_MIRROR_CAP {
                    let ghost before = self.sent_to_python_segments.deep_view();
                    let _ = self.sent_to_python_segments.remove(0);
                    proof {
                        assert(self.sent_to_python_segments.deep_view() =~~= before.drop_first());
                        assert(before.drop_first() =~= pre_mirror.drop_first().push(seg_view));
                    }
                }
                proof {
                    assert(self.sent_to_python_segments.deep_view() == last_n(
                        self.committed@,
                        SENT_MIRROR_CAP as int,
                    ));
                }
            }
        } else {
            let ghost pre_queue = self.speech_segments.deep_view();
            let ghost seg_view = segment@;
            self.speech_segments.push(segment);
            proof {
                assert(self.speech_segments.deep_view() =~~= pre_queue.push(seg_view));
            }
        }
    }

    /// Hand back the retry queue for a best-effort drain, in order, and
    /// empty it.  Failures are re-recorded by the host and so keep their
    /// order.
    pub fn take_retry_segments(&mut self) -> (segs: Vec<Vec<i16>>)
        requires
            old(self).wf(),
        ensures
            final(self).wf(),
            segs == old(self).speech_segments,
            final(self).speech_segments@.len() == 0,
            final(self).buffer == old(self).buffer,
            final(self).is_buffering == old(self).is_buffering,
            final(self).samples_since_last_send == old(self).samples_since_last_send,
            final(self).sent_to_python_segments == old(self).sent_to_python_segments,
            final(self).complete_speech_segments == old(self).complete_speech_segments,
            final(self).current_voice_segment == old(self).current_voice_segment,
            final(self).frames_without_voice == old(self).frames_without_voice,
            final(self).pre_context_frames == old(self).pre_context_frames,
            final(self).observed@ == old(self).observed@,
            final(self).committed@ == old(self).committed@,
    {
        let mut segs: Vec<Vec<i16>> = Vec::new();
        core::mem::swap(&mut segs, &mut self.speech_segments);
        segs
    }

    /// The pre-roll frames, oldest first, for replay as independent
    /// segments.
    pub fn send_pre_context_frames(&self) -> (frames: Vec<Vec<i16>>)
        ensures
            frames.deep_view() == self.pre_context_frames.deep_view(),
    {
        copy_segments(&self.pre_context_frames)
    }

    /// Fold one classified frame into the voice-segment collector.
    pub fn add_voice_frame(&mut self, samples: &Vec<i16>, is_voice: bool)
        requires
            old(self).wf(),
        ensures
            final(self).wf(),
            (
                final(self).current_voice_segment@,
                final(self).frames_without_voice,
                final(self).complete_speech_segments.deep_view(),
            ) == spec_voice_step(
                old(self).current_voice_segment@,
                old(self).frames_without_voice,
                old(self).complete_speech_segments.deep_view(),
                samples@,
                is_voice,
            ),
            final(self).buffer == old(self).buffer,
            final(self).is_buffering == old(self).is_buffering,
            final(self).samples_since_last_send == old(self).samples_since_last_send,
            final(self).speech_segments == old(self).speech_segments,
            final(self).sent_to_python_segments == old(self).sent_to_python_segments,
            final(self).pre_context_frames == old(self).pre_context_frames,
            final(self).observed@ == old(self).observed@,
            final(self).committed@ == old(self).committed@,
    {
        if is_voice {
            self.current_voice_segment.extend_from_slice(samples.as_slice());
            proof {
                assert(self.current_voice_segment@ =~= old(self).current_voice_segment@
                    + samples@);
            }
            self.frames_without_voice = 0;
        } else {
            if self.frames_without_voice < VOICE_SEGMENT_CLOSE_FRAMES {
                self.frames_without_voice = self.frames_without_voice + 1;
            }
            if self.current_voice_segment.len() > 0 && self.frames_without_voice
                >= VOICE_SEGMENT_CLOSE_FRAMES {
                if self.current_voice_segment.len() > VOICE_SEGMENT_MIN_SAMPLES {
                    let closed = copy_samples(&self.current_voice_segment);
                    let ghost pre_complete = self.complete_speech_segments.deep_view();
                    let ghost closed_view = closed@;
                    self.complete_speech_segments.push(closed);
                    proof {
                        assert(self.complete_speech_segments.deep_view() =~~= pre_complete.push(
                            closed_view,
                        ));
                    }
                    if self.complete_speech_segments.len() > COMPLETE_SEGMENTS_CAP {
                        let ghost before = self.complete_speech_segments.deep_view();
                        let _ = self.complete_speech_segments.remove(0);
                        proof {
                            assert(self.complete_speech_segments.deep_view() =~~= before
                                .drop_first());
                        }
                    }
                }
                self.current_voice_segment.clear();
            } else if self.current_voice_segment.len() > 0 && self.frames_without_voice
                < VOICE_SEGMENT_TAIL_FRAMES {
                self.current_voice_segment.extend_from_slice(samples.as_slice());
                proof {
                    assert(self.current_voice_segment@ =~= old(self).current_voice_segment@
                        + samples@);
                }
            }
        }
    }

    /// A copy of the mirror of segments committed upstream, oldest first.
    pub fn get_sent_to_python_segments(&self) -> (segs: Vec<Vec<i16>>)
        ensures
            segs.deep_view() == self.sent_to_python_segments.deep_view(),
    {
        copy_segments(&self.sent_to_python_segments)
    }

    /// Empty the mirror; the commit history it windows starts over.
    pub fn clear_sent_to_python_segments(&mut self)
        requires
            old(self).wf(),
        ensures
            final(self).wf(),
            final(self).sent_to_python_segments@.len() == 0,
            final(self).committed@ == Seq::<Seq<i16>>::empty(),
            final(self).buffer == old(self).buffer,
            final(self).is_buffering == old(self).is_buffering,
            final(self).samples_since_last_send == old(self).samples_since_last_send,
            final(self).speech_segments == old(self).speech_segments,
            final(self).complete_speech_segments == old(self).complete_speech_segments,
            final(self).current_voice_segment == old(self).current_voice_segment,
            final(self).frames_without_voice == old(self).frames_without_voice,
            final(self).pre_context_frames == old(self).pre_context_frames,
            final(self).observed@ == old(self).observed@,
    {
        self.sent_to_python_segments.clear();
        proof {
            self.committed@ = Seq::empty();
            assert(self.sent_to_python_segments.deep_view() =~= last_n(
                self.committed@,
                SENT_MIRROR_CAP as int,
            ));
        }
    }

    /// A copy of the closed voice segments, oldest first.
    pub fn get_complete_speech_segments(&self) -> (segs: Vec<Vec<i16>>)
        ensures
            segs.deep_view() == self.complete_speech_segments.deep_view(),
    {
        copy_segments(&self.complete_speech_segments)
    }

    /// Drop the closed voice segments.
    pub fn clear_complete_speech_segments(&mut self)
        requires
            old(self).wf(),
        ensures
            final(self).wf(),
            final(self).complete_speech_segments@.len() == 0,
            final(self).buffer == old(self).buffer,
            final(self).is_buffering == old(self).is_buffering,
            final(self).samples_since_last_send == old(self).samples_since_last_send,
            final(self).speech_segments == old(self).speech_segments,
            final(self).sent_to_python_segments == old(self).sent_to_python_segments,
            final(self).current_voice_segment == old(self).current_voice_segment,
            final(self).frames_without_voice == old(self).frames_without_voice,
            final(self).pre_context_frames == old(self).pre_context_frames,
            final(self).observed@ == old(self).observed@,
            final(self).committed@ == old(self).committed@,
    {
        self.complete_speech_segments.clear();
    }

    /// All mirrored segments joined into one continuous sample run, in
    /// commit order.
    pub fn get_combined_speech_segment(&self) -> (r: Vec<i16>)
        ensures
            r@ == concat_all(self.sent_to_python_segments.deep_view()),
    {
        let mut combined: Vec<i16> = Vec::new();
        let ghost mirror = self.sent_to_python_segments.deep_view();
        let mut i: usize = 0;
        proof {
            assert(mirror.subrange(0, 0) =~= Seq::<Seq<i16>>::empty());
            assert(combined@ =~= concat_all(mirror.subrange(0, 0)));
        }
        while i < self.sent_to_python_segments.len()
            invariant
                i <= mirror.len(),
                mirror == self.sent_to_python_segments.deep_view(),
                mirror.len() == self.sent_to_python_segments@.len(),
                combined@ == concat_all(mirror.subrange(0, i as int)),
            decreases mirror.len() - i,
        {
            let seg = &self.sent_to_python_segments[i];
            proof {
                assert(mirror[i as int] == self.sent_to_python_segments@[i as int].deep_view());
                assert(mirror[i as int] =~= seg@);
            }
            self.append_combined(&mut combined, seg, Ghost(mirror), Ghost(i as int));
            i = i + 1;
        }
        proof {
            assert(mirror.subrange(0, mirror.len() as int) =~= mirror);
        }
        combined
    }

    /// Append one mirrored segment to the running concatenation.
    fn append_combined(
        &self,
        combined: &mut Vec<i16>,
        seg: &Vec<i16>,
        Ghost(mirror): Ghost<Seq<Seq<i16>>>,
        Ghost(i): Ghost<int>,
    )
        requires
            0 <= i < mirror.len(),
            mirror[i] == seg@,
            old(combined)@ == concat_all(mirror.subrange(0, i)),
        ensures
            final(combined)@ == concat_all(mirror.subrange(0, i + 1)),
    {
        combined.extend_from_slice(seg.as_slice());
        proof {
            assert(combined@ =~= old(combined)@ + seg@);
            lemma_concat_all_push(mirror.subrange(0, i), mirror[i]);
            assert(mirror.subrange(0, i).push(mirror[i]) =~= mirror.subrange(0, i + 1));
        }
    }

    /// Enter one diagnostic segment into the mirror as if it had been
    /// committed upstream.
    pub fn insert_diagnostic_segment(&mut self, samples: Vec<i16>)
        requires
            old(self).wf(),
            samples@.len() > 0,
        ensures
            final(self).wf(),
            final(self).committed@ == old(self).committed@.push(samples@),
            final(self).sent_to_python_segments.deep_view() == last_n(
                final(self).committed@,
                SENT_MIRROR_CAP as int,
            ),
            final(self).buffer == old(self).buffer,
            final(self).is_buffering == old(self).is_buffering,
            final(self).samples_since_last_send == old(self).samples_since_last_send,
            final(self).speech_segments == old(self).speech_segments,
            final(self).complete_speech_segments == old(self).complete_speech_segments,
            final(self).current_voice_segment == old(self).current_voice_segment,
            final(self).frames_without_voice == old(self).frames_without_voice,
            final(self).pre_context_frames == old(self).pre_context_frames,
            final(self).observed@ == old(self).observed@,
    {
        self.record_send_outcome(samples, true);
    }
}

/// The pre-roll window always holds the newest observed frames — at most
/// the window size, all of them while fewer have arrived — in arrival
/// order.
pub proof fn lemma_pre_context_window(p: AudioPipeline)
    requires
        p.wf(),
    ensures
        p.pre_context_frames.deep_view() == last_n(p.observed@, PRE_CONTEXT_FRAMES as int),
        p.pre_context_frames@.len() <= PRE_CONTEXT_FRAMES,
        p.observed@.len() < PRE_CONTEXT_FRAMES ==> p.pre_context_frames.deep_view() == p.observed@,
{
    assert(p.pre_context_frames@.len() == p.pre_context_frames.deep_view().len());
}

/// The mirror always holds the newest committed segments — at most the cap,
/// all of them while fewer have been committed — in commit order.
pub proof fn lemma_mirror_tracks_commits(p: AudioPipeline)
    requires
        p.wf(),
    ensures
        p.sent_to_python_segments.deep_view() == last_n(p.committed@, SENT_MIRROR_CAP as int),
        p.sent_to_python_segments@.len() <= SENT_MIRROR_CAP,
        p.committed@.len() <= SENT_MIRROR_CAP ==> p.sent_to_python_segments.deep_view()
            == p.committed@,
{
    assert(p.sent_to_python_segments@.len() == p.sent_to_python_segments.deep_view().len());
}

/// Copy the not-yet-emitted tail of the session buffer.
fn copy_tail(buffer: &Vec<i16>, start: usize) -> (r: Vec<i16>)
    requires
        start <= buffer@.len(),
    ensures
        r@ == buffer@.subrange(start as int, buffer@.len() as int),
{
    let mut out: Vec<i16> = Vec::new();
    let mut i: usize = start;
    while i < buffer.len()
        invariant
            start <= i <= buffer@.len(),
            out@ == buffer@.subrange(start as int, i as int),
        decreases buffer@.len() - i,
    {
        out.push(buffer[i]);
        proof {
            assert(out@ =~= buffer@.subrange(start as int, i as int + 1));
        }
        i = i + 1;
    }
    proof {
        assert(out@ =~= buffer@.subrange(start as int, buffer@.len() as int));
    }
    out
}

/// Element-for-element copy of a list of segments.
fn copy_segments(src: &Vec<Vec<i16>>) -> (r: Vec<Vec<i16>>)
    ensures
        r.deep_view() == src.deep_view(),
{
    let mut out: Vec<Vec<i16>> = Vec::new();
    let mut i: usize = 0;
    while i < src.len()
        invariant
            i <= src@.len(),
            out.deep_view() == src.deep_view().subrange(0, i as int),
        decreases src@.len() - i,
    {
        let seg = copy_samples(&src[i]);
        let ghost before = out.deep_view();
        out.push(seg);
        proof {
            assert(out.deep_view() =~~= before.push(src.deep_view()[i as int]));
            assert(out.deep_view() =~~= src.deep_view().subrange(0, i as int + 1));
        }
        i = i + 1;
    }
    proof {
        assert(out.deep_view() =~~= src.deep_view());
    }
    out
}

} // verus!
