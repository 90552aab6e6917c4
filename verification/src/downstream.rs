//! The two downstream channels.
//!
//! The recogniser sends newline-delimited UTF-8 JSON objects with a `text`
//! string and an `is_final` flag; the synthesised-audio channel sends
//! length-prefixed binary chunks (parsed by
//! [`crate::wire::ChunkAccumulator`]) that are surfaced to the UI as
//! base64-encoded PCM payloads.

use vstd::prelude::*;

verus! {

/// One recogniser message.
#[derive(Clone, Debug)]
pub struct SttResult {
    pub text: String,
    pub is_final: bool,
}

/// What one recogniser line parses to — the text and the final flag — or
/// nothing for a malformed line.  The parse itself is serde_json's; only its
/// result is named here.
pub uninterp spec fn spec_parse_stt(bytes: Seq<u8>) -> Option<(Seq<char>, bool)>;

/// Relies on `serde_json::from_slice::<Value>` and
/// `Value::{get, as_str, as_bool}`: parses one JSON object and reads its
/// `"text"` string and `"is_final"` bool, ignoring every other field; a
/// malformed line or a missing field yields `None`.  The result depends on
/// the bytes alone.
#[verifier::external_body]
pub(crate) fn parse_stt_bytes(bytes: &Vec<u8>) -> (r: Option<SttResult>)
    ensures
        r matches Some(res) ==> spec_parse_stt(bytes@) == Some((res.text@, res.is_final)),
        r is None ==> spec_parse_stt(bytes@) is None,
{
    let v: serde_json::Value = match serde_json::from_slice(bytes.as_slice()) {
        Ok(v) => v,
        Err(_) => return None,
    };
    let text = match v.get("text").and_then(|t| t.as_str()) {
        Some(t) => t.to_owned(),
        None => return None,
    };
    let is_final = match v.get("is_final").and_then(|f| f.as_bool()) {
        Some(b) => b,
        None => return None,
    };
    Some(SttResult { text, is_final })
}

/// The byte that ends one recogniser message.
pub const LINE_DELIMITER: u8 = 0x0A;

/// Byte image of a run of complete lines, each closed by the delimiter.
pub open spec fn spec_lines_bytes(ls: Seq<Seq<u8>>) -> Seq<u8>
    decreases ls.len(),
{
    if ls.len() == 0 {
        Seq::empty()
    } else {
        ls.first() + seq![LINE_DELIMITER] + spec_lines_bytes(ls.drop_first())
    }
}

pub proof fn lemma_lines_bytes_push(ls: Seq<Seq<u8>>, l: Seq<u8>)
    ensures
        spec_lines_bytes(ls.push(l)) == spec_lines_bytes(ls) + l + seq![LINE_DELIMITER],
    decreases ls.len(),
{
    if ls.len() == 0 {
        assert(ls.push(l).drop_first() =~= Seq::<Seq<u8>>::empty());
        assert(spec_lines_bytes(ls.push(l)) == l + seq![LINE_DELIMITER] + spec_lines_bytes(
            Seq::<Seq<u8>>::empty(),
        ));
        assert(spec_lines_bytes(ls.push(l)) =~= spec_lines_bytes(ls) + l + seq![LINE_DELIMITER]);
    } else {
        assert(ls.push(l).drop_first() =~= ls.drop_first().push(l));
        assert(ls.push(l).first() == ls.first());
        lemma_lines_bytes_push(ls.drop_first(), l);
        assert(spec_lines_bytes(ls.push(l)) =~= spec_lines_bytes(ls) + l + seq![LINE_DELIMITER]);
    }
}

/// Incremental splitter for the newline-delimited recogniser stream.
///
/// Bytes arrive in arbitrary pieces; [`LineAccumulator::push_bytes`] hands
/// back every line completed so far, without its delimiter, and keeps the
/// unfinished tail.
pub struct LineAccumulator {
    pub buf: Vec<u8>,
}

impl LineAccumulator {
    /// The kept tail holds no delimiter: no complete line is pending.
    pub open spec fn wf(self) -> bool {
        !self.buf@.contains(LINE_DELIMITER)
    }

    pub fn new() -> (r: Self)
        ensures
            r.wf(),
            r.buf@ == Seq::<u8>::empty(),
    {
        let r = LineAccumulator { buf: Vec::new() };
        proof {
            assert(!r.buf@.contains(LINE_DELIMITER));
        }
        r
    }

    /// Feed newly received bytes; returns the lines completed by them, in
    /// stream order.  Everything fed so far is exactly the returned lines,
    /// each closed by the delimiter, followed by the kept tail; no returned
    /// line holds a delimiter.
    pub fn push_bytes(&mut self, data: &Vec<u8>) -> (lines: Vec<Vec<u8>>)
        requires
            old(self).wf(),
        ensures
            final(self).wf(),
            old(self).buf@ + data@ == spec_lines_bytes(lines.deep_view()) + final(self).buf@,
            forall|i: int|
                0 <= i < lines.deep_view().len() ==> !(#[trigger] lines.deep_view()[i]).contains(
                    LINE_DELIMITER,
                ),
    {
        let ghost pre = old(self).buf@;
        let mut lines: Vec<Vec<u8>> = Vec::new();
        let mut j: usize = 0;
        proof {
            assert(lines.deep_view() =~= Seq::<Seq<u8>>::empty());
            assert(pre + data@.subrange(0, 0) =~= spec_lines_bytes(lines.deep_view())
                + self.buf@);
        }
        while j < data.len()
            invariant
                j <= data@.len(),
                pre + data@.subrange(0, j as int) == spec_lines_bytes(lines.deep_view())
                    + self.buf@,
                !self.buf@.contains(LINE_DELIMITER),
                forall|i: int|
                    0 <= i < lines.deep_view().len() ==> !(
                    #[trigger] lines.deep_view()[i]).contains(LINE_DELIMITER),
            decreases data@.len() - j,
        {
            let b = data[j];
            proof {
                assert(data@.subrange(0, j as int + 1) =~= data@.subrange(0, j as int).push(b));
            }
            if b == LINE_DELIMITER {
                let ghost tail = self.buf@;
                let mut line: Vec<u8> = Vec::new();
                core::mem::swap(&mut line, &mut self.buf);
                let ghost old_lines = lines.deep_view();
                let ghost line_view = line@;
                lines.push(line);
                proof {
                    assert(line_view == tail);
                    assert(self.buf@ =~= Seq::<u8>::empty());
                    assert(lines.deep_view() =~~= old_lines.push(line_view));
                    assert(spec_lines_bytes(lines.deep_view()) == spec_lines_bytes(
                        old_lines.push(line_view),
                    ));
                    lemma_lines_bytes_push(old_lines, line_view);
                    assert(pre + data@.subrange(0, j as int + 1) =~= (pre + data@.subrange(
                        0,
                        j as int,
                    )).push(LINE_DELIMITER));
                    assert((spec_lines_bytes(old_lines) + tail).push(LINE_DELIMITER)
                        =~= spec_lines_bytes(old_lines) + tail + seq![LINE_DELIMITER]);
                    assert(pre + data@.subrange(0, j as int + 1) =~= spec_lines_bytes(
                        lines.deep_view(),
                    ) + self.buf@);
                }
            } else {
                let ghost tail = self.buf@;
                self.buf.push(b);
                proof {
                    assert(pre + data@.subrange(0, j as int + 1) =~= (pre + data@.subrange(
                        0,
                        j as int,
                    )).push(b));
                    assert((spec_lines_bytes(lines.deep_view()) + tail).push(b)
                        =~= spec_lines_bytes(lines.deep_view()) + tail.push(b));
                    assert(pre + data@.subrange(0, j as int + 1) =~= spec_lines_bytes(
                        lines.deep_view(),
                    ) + self.buf@);
                    assert forall|k: int| 0 <= k < self.buf@.len() implies self.buf@[k]
                        != LINE_DELIMITER by {
                        if k < tail.len() {
                            assert(!tail.contains(LINE_DELIMITER));
                            assert(tail[k] != LINE_DELIMITER);
                        }
                    }
                    assert(!self.buf@.contains(LINE_DELIMITER));
                }
            }
            j = j + 1;
        }
        proof {
            assert(data@.subrange(0, data@.len() as int) =~= data@);
        }
        lines
    }
}

/// What base64's standard padded alphabet encodes a byte run to.  The
/// encoding itself is the base64 crate's; only its result is named here.
pub uninterp spec fn spec_base64_of(bytes: Seq<u8>) -> Seq<char>;

/// Relies on `base64::engine::general_purpose::STANDARD` through
/// `base64::Engine::encode`: standard-alphabet padded encoding, whose result
/// depends on the bytes alone; an empty input encodes to an empty string.
/// The length bound keeps the crate's output-size computation from
/// overflowing.
#[verifier::external_body]
fn base64_encode(bytes: &Vec<u8>) -> (r: String)
    requires
        bytes@.len() < 0x1000_0000,
    ensures
        r@ == spec_base64_of(bytes@),
        bytes@.len() == 0 ==> r@.len() == 0,
{
    base64::Engine::encode(&base64::engine::general_purpose::STANDARD, bytes.as_slice())
}

/// UI payload for one synthesised-audio chunk.
#[derive(Clone, Debug)]
pub struct TtsAudioEvent {
    /// The chunk, base64-encoded.
    pub data: String,
    /// The payload format surfaced to the UI.
    pub format: String,
}

/// Build the UI payload for one downstream audio chunk.
pub fn tts_chunk_event(chunk: &Vec<u8>) -> (e: TtsAudioEvent)
    requires
        chunk@.len() < 0x1000_0000,
    ensures
        e.data@ == spec_base64_of(chunk@),
        chunk@.len() == 0 ==> e.data@.len() == 0,
        e.format@ == "pcm"@,
{
    TtsAudioEvent { data: base64_encode(chunk), format: "pcm".to_owned() }
}

} // verus!
