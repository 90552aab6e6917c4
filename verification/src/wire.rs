//! Length-prefixed wire framing shared with the backend.
//!
//! An audio segment travels as a 4-byte little-endian sample count followed
//! by the samples, two little-endian bytes each.  A control message uses the
//! sentinel length `0xFFFF_FFFF` followed by a one-byte type and a payload;
//! type `0x01` is a silence event carrying the duration in milliseconds as a
//! little-endian `u64`.

use vstd::bytes::*;
use vstd::prelude::*;
use vstd::slice::slice_subrange;

verus! {

/// Length prefix that marks a control message instead of an audio segment.
pub const CONTROL_SENTINEL: u32 = 0xFFFF_FFFF;

/// Control message type of a silence event.
pub const SILENCE_EVENT_TYPE: u8 = 0x01;

/// Byte image of one 16-bit sample: two little-endian bytes.
pub open spec fn spec_i16_le_bytes(x: i16) -> Seq<u8> {
    spec_u16_to_le_bytes(x as u16)
}

/// Byte image of a run of samples, two little-endian bytes each.
pub open spec fn spec_samples_le_bytes(s: Seq<i16>) -> Seq<u8>
    decreases s.len(),
{
    if s.len() == 0 {
        Seq::empty()
    } else {
        spec_i16_le_bytes(s.first()) + spec_samples_le_bytes(s.drop_first())
    }
}

pub proof fn lemma_samples_le_bytes_len(s: Seq<i16>)
    ensures
        spec_samples_le_bytes(s).len() == 2 * s.len(),
    decreases s.len(),
{
    if s.len() > 0 {
        lemma_samples_le_bytes_len(s.drop_first());
        lemma_auto_spec_u16_to_from_le_bytes();
    }
}

pub proof fn lemma_samples_le_bytes_push(s: Seq<i16>, x: i16)
    ensures
        spec_samples_le_bytes(s.push(x)) == spec_samples_le_bytes(s) + spec_i16_le_bytes(x),
    decreases s.len(),
{
    if s.len() == 0 {
        assert(s.push(x).drop_first() =~= Seq::<i16>::empty());
        assert(spec_samples_le_bytes(s.push(x)) == spec_i16_le_bytes(x) + spec_samples_le_bytes(
            Seq::<i16>::empty(),
        ));
        assert(spec_samples_le_bytes(s.push(x)) =~= spec_samples_le_bytes(s) + spec_i16_le_bytes(
            x,
        ));
    } else {
        assert(s.push(x).drop_first() =~= s.drop_first().push(x));
        assert(s.push(x).first() == s.first());
        lemma_samples_le_bytes_push(s.drop_first(), x);
        assert(spec_samples_le_bytes(s.push(x)) =~= spec_samples_le_bytes(s) + spec_i16_le_bytes(
            x,
        ));
    }
}

/// Byte image of one audio segment on the upstream socket: the sample count
/// as a little-endian `u32`, then the samples.
pub open spec fn spec_segment_bytes(s: Seq<i16>) -> Seq<u8> {
    spec_u32_to_le_bytes(s.len() as u32) + spec_samples_le_bytes(s)
}

/// Byte image of one silence control message: sentinel length, type byte,
/// duration in milliseconds as a little-endian `u64`.
pub open spec fn spec_silence_bytes(ms: u64) -> Seq<u8> {
    spec_u32_to_le_bytes(CONTROL_SENTINEL) + seq![SILENCE_EVENT_TYPE] + spec_u64_to_le_bytes(ms)
}

/// Encode one audio segment for the upstream socket.
pub fn encode_segment(samples: &Vec<i16>) -> (r: Vec<u8>)
    requires
        samples@.len() < CONTROL_SENTINEL,
    ensures
        r@ == spec_segment_bytes(samples@),
        r@.len() == 4 + 2 * samples@.len(),
{
    let mut out = u32_to_le_bytes(samples.len() as u32);
    let mut i: usize = 0;
    while i < samples.len()
        invariant
            i <= samples@.len(),
            samples@.len() < CONTROL_SENTINEL,
            out@ == spec_u32_to_le_bytes(samples@.len() as u32) + spec_samples_le_bytes(
                samples@.subrange(0, i as int),
            ),
        decreases samples@.len() - i,
    {
        let b = u16_to_le_bytes(samples[i] as u16);
        out.push(b[0]);
        out.push(b[1]);
        proof {
            assert(b@ == spec_i16_le_bytes(samples@[i as int]));
            assert(b@.len() == 2);
            lemma_samples_le_bytes_push(samples@.subrange(0, i as int), samples@[i as int]);
            assert(samples@.subrange(0, i as int).push(samples@[i as int]) =~= samples@.subrange(
                0,
                i as int + 1,
            ));
            assert(out@ =~= spec_u32_to_le_bytes(samples@.len() as u32) + spec_samples_le_bytes(
                samples@.subrange(0, i as int + 1),
            ));
        }
        i = i + 1;
    }
    proof {
        assert(samples@.subrange(0, samples@.len() as int) =~= samples@);
        lemma_samples_le_bytes_len(samples@);
        lemma_auto_spec_u32_to_from_le_bytes();
    }
    out
}

/// Encode one silence control message.
pub fn encode_silence_event(ms: u64) -> (r: Vec<u8>)
    ensures
        r@ == spec_silence_bytes(ms),
        r@.len() == 13,
{
    let mut out = u32_to_le_bytes(CONTROL_SENTINEL);
    out.push(SILENCE_EVENT_TYPE);
    let mut tail = u64_to_le_bytes(ms);
    out.append(&mut tail);
    proof {
        assert(out@ =~= spec_silence_bytes(ms));
        lemma_auto_spec_u32_to_from_le_bytes();
        lemma_auto_spec_u64_to_from_le_bytes();
    }
    out
}

/// Samples read back from a run of little-endian byte pairs.
pub open spec fn spec_samples_from_le_bytes(b: Seq<u8>) -> Seq<i16>
    decreases b.len(),
{
    if b.len() < 2 {
        Seq::empty()
    } else {
        seq![spec_u16_from_le_bytes(b.subrange(0, 2)) as i16] + spec_samples_from_le_bytes(
            b.skip(2),
        )
    }
}

/// Decode one complete audio segment; `None` unless `b` is exactly the byte
/// image of one segment.
pub open spec fn spec_decode_segment(b: Seq<u8>) -> Option<Seq<i16>> {
    if b.len() >= 4 && spec_u32_from_le_bytes(b.subrange(0, 4)) != CONTROL_SENTINEL && b.len() == 4
        + 2 * (spec_u32_from_le_bytes(b.subrange(0, 4)) as int) {
        Some(spec_samples_from_le_bytes(b.skip(4)))
    } else {
        None
    }
}

proof fn lemma_samples_round_trip(s: Seq<i16>)
    ensures
        spec_samples_from_le_bytes(spec_samples_le_bytes(s)) == s,
    decreases s.len(),
{
    lemma_auto_spec_u16_to_from_le_bytes();
    if s.len() == 0 {
        assert(spec_samples_le_bytes(s).len() == 0);
    } else {
        let bytes = spec_samples_le_bytes(s);
        let head = spec_i16_le_bytes(s.first());
        let rest = spec_samples_le_bytes(s.drop_first());
        lemma_samples_le_bytes_len(s.drop_first());
        assert(bytes == head + rest);
        assert(head.len() == 2);
        assert(bytes.subrange(0, 2) =~= head);
        assert(bytes.skip(2) =~= rest);
        assert(spec_u16_from_le_bytes(head) == s.first() as u16);
        let v: i16 = s.first();
        assert(v as u16 as i16 == v) by (bit_vector);
        lemma_samples_round_trip(s.drop_first());
        assert(spec_samples_from_le_bytes(bytes) =~= s);
    }
}

/// Decoding inverts encoding: every segment round-trips through its byte
/// image.
pub proof fn lemma_segment_round_trip(s: Seq<i16>)
    requires
        s.len() < CONTROL_SENTINEL,
    ensures
        spec_decode_segment(spec_segment_bytes(s)) == Some(s),
{
    let bytes = spec_segment_bytes(s);
    lemma_auto_spec_u32_to_from_le_bytes();
    lemma_samples_le_bytes_len(s);
    assert(bytes.subrange(0, 4) =~= spec_u32_to_le_bytes(s.len() as u32));
    assert(bytes.skip(4) =~= spec_samples_le_bytes(s));
    lemma_samples_round_trip(s);
}

/// Byte image of one downstream audio chunk: a 4-byte little-endian length,
/// then that many payload bytes.
pub open spec fn spec_chunk_bytes(c: Seq<u8>) -> Seq<u8> {
    spec_u32_to_le_bytes(c.len() as u32) + c
}

/// Byte image of a run of downstream chunks, in order.
pub open spec fn spec_chunks_bytes(cs: Seq<Seq<u8>>) -> Seq<u8>
    decreases cs.len(),
{
    if cs.len() == 0 {
        Seq::empty()
    } else {
        spec_chunk_bytes(cs.first()) + spec_chunks_bytes(cs.drop_first())
    }
}

pub proof fn lemma_chunks_bytes_push(cs: Seq<Seq<u8>>, c: Seq<u8>)
    ensures
        spec_chunks_bytes(cs.push(c)) == spec_chunks_bytes(cs) + spec_chunk_bytes(c),
    decreases cs.len(),
{
    if cs.len() == 0 {
        assert(cs.push(c).drop_first() =~= Seq::<Seq<u8>>::empty());
        assert(spec_chunks_bytes(cs.push(c)) == spec_chunk_bytes(c) + spec_chunks_bytes(
            Seq::<Seq<u8>>::empty(),
        ));
        assert(spec_chunks_bytes(cs.push(c)) =~= spec_chunks_bytes(cs) + spec_chunk_bytes(c));
    } else {
        assert(cs.push(c).drop_first() =~= cs.drop_first().push(c));
        assert(cs.push(c).first() == cs.first());
        lemma_chunks_bytes_push(cs.drop_first(), c);
        assert(spec_chunks_bytes(cs.push(c)) =~= spec_chunks_bytes(cs) + spec_chunk_bytes(c));
    }
}

/// No complete chunk is left in `b`: either the length prefix is still
/// partial, or the payload is.
pub open spec fn spec_chunk_incomplete(b: Seq<u8>) -> bool {
    b.len() < 4 || b.len() < 4 + spec_u32_from_le_bytes(b.subrange(0, 4)) as int
}

/// Incremental parser for the length-prefixed downstream audio stream.
///
/// Bytes arrive in arbitrary pieces; [`ChunkAccumulator::push_bytes`] hands
/// back every chunk completed so far and keeps the unfinished tail.
pub struct ChunkAccumulator {
    pub buf: Vec<u8>,
}

impl ChunkAccumulator {
    /// No complete chunk is pending.
    pub open spec fn wf(self) -> bool {
        spec_chunk_incomplete(self.buf@)
    }

    pub fn new() -> (r: Self)
        ensures
            r.wf(),
            r.buf@ == Seq::<u8>::empty(),
    {
        ChunkAccumulator { buf: Vec::new() }
    }

    /// Feed newly received bytes; returns the chunks completed by them, in
    /// stream order.  Everything fed so far is exactly the returned chunks'
    /// byte images followed by the kept tail.
    pub fn push_bytes(&mut self, data: &Vec<u8>) -> (chunks: Vec<Vec<u8>>)
        requires
            old(self).wf(),
        ensures
            final(self).wf(),
            old(self).buf@ + data@ == spec_chunks_bytes(chunks.deep_view()) + final(self).buf@,
    {
        let ghost total = old(self).buf@ + data@;
        self.buf.extend_from_slice(data.as_slice());
        proof {
            assert(self.buf@ =~= total);
        }
        let mut chunks: Vec<Vec<u8>> = Vec::new();
        proof {
            assert(chunks.deep_view() =~= Seq::<Seq<u8>>::empty());
            assert(spec_chunks_bytes(chunks.deep_view()) + self.buf@ =~= total);
        }
        loop
            invariant
                spec_chunks_bytes(chunks.deep_view()) + self.buf@ == total,
            ensures
                spec_chunk_incomplete(self.buf@),
                spec_chunks_bytes(chunks.deep_view()) + self.buf@ == total,
            decreases self.buf@.len(),
        {
            if self.buf.len() < 4 {
                break ;
            }
            let len_bytes = slice_subrange(self.buf.as_slice(), 0, 4);
            let n = u32_from_le_bytes(len_bytes) as usize;
            if self.buf.len() - 4 < n {
                proof {
                    assert(len_bytes@ == self.buf@.subrange(0, 4));
                }
                break ;
            }
            let end: usize = 4 + n;
            let ghost pre_buf = self.buf@;
            let mut payload: Vec<u8> = Vec::new();
            let mut i: usize = 4;
            while i < end
                invariant
                    4 <= i <= end,
                    end == 4 + n,
                    end <= self.buf@.len(),
                    self.buf@ == pre_buf,
                    payload@ == pre_buf.subrange(4, i as int),
                decreases end - i,
            {
                payload.push(self.buf[i]);
                proof {
                    assert(payload@ =~= pre_buf.subrange(4, i as int + 1));
                }
                i = i + 1;
            }
            let mut rest: Vec<u8> = Vec::new();
            let mut j: usize = end;
            while j < self.buf.len()
                invariant
                    end == 4 + n,
                    end <= j <= self.buf@.len(),
                    self.buf@ == pre_buf,
                    rest@ == pre_buf.subrange(end as int, j as int),
                decreases self.buf@.len() - j,
            {
                rest.push(self.buf[j]);
                proof {
                    assert(rest@ =~= pre_buf.subrange(end as int, j as int + 1));
                }
                j = j + 1;
            }
            proof {
                let cs = chunks.deep_view();
                lemma_chunks_bytes_push(cs, payload@);
                lemma_auto_spec_u32_to_from_le_bytes();
                assert(pre_buf.subrange(0, 4) == len_bytes@);
                assert(payload@.len() == n);
                assert(spec_chunk_bytes(payload@) =~= pre_buf.subrange(0, end as int));
                assert(spec_chunk_bytes(payload@) + rest@ =~= pre_buf);
            }
            let ghost old_chunks = chunks.deep_view();
            let ghost old_payload = payload@;
            chunks.push(payload);
            self.buf = rest;
            proof {
                assert(chunks.deep_view() =~~= old_chunks.push(old_payload));
                assert(spec_chunks_bytes(chunks.deep_view()) + self.buf@ =~= total);
            }
        }
        chunks
    }
}

} // verus!
