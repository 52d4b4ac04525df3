use vstd::prelude::*;

use crate::error::Gdl90Error;
use crate::message::{decode_outcome_matches, Gdl90Message};

verus! {

// ---------------------------------------------------------------------------
// Assembler model
// ---------------------------------------------------------------------------

/// Mathematical state of the frame assembler: the de-stuffed bytes gathered
/// for the frame in progress, whether a start flag has opened a frame, and
/// whether an escape byte is waiting for the byte it modifies.
#[verifier::ext_equal]
pub struct DecoderModel {
    pub buffer: Seq<u8>,
    pub frame_open: bool,
    pub escape_pending: bool,
}

/// The assembler state after consuming one byte.
///
/// An escaped byte is stored XOR 0x20 whatever it is; a flag byte either
/// opens a frame (leaving the gathered bytes alone) or closes one (emptying
/// the buffer); an escape byte is itself never stored. Escape handling runs
/// whether or not a frame is open; the first flag byte ever seen is always
/// taken as a frame start, so a stream that begins mid-frame misparses its
/// first frame.
pub open spec fn step_state(s: DecoderModel, b: u8) -> DecoderModel {
    if s.escape_pending {
        DecoderModel { buffer: s.buffer.push(b ^ 0x20), escape_pending: false, ..s }
    } else if b == 0x7E {
        if s.frame_open {
            DecoderModel { buffer: Seq::empty(), frame_open: false, ..s }
        } else {
            DecoderModel { frame_open: true, ..s }
        }
    } else if b == 0x7D {
        DecoderModel { escape_pending: true, ..s }
    } else {
        DecoderModel { buffer: s.buffer.push(b), ..s }
    }
}

/// The frame, if any, completed by consuming one byte: the gathered bytes,
/// frame check value still included, when an unescaped flag byte closes an
/// open frame.
pub open spec fn step_frame(s: DecoderModel, b: u8) -> Option<Seq<u8>> {
    if !s.escape_pending && b == 0x7E && s.frame_open {
        Some(s.buffer)
    } else {
        None
    }
}

/// The assembler state after consuming a whole chunk, byte by byte.
pub open spec fn run_state(s: DecoderModel, bytes: Seq<u8>) -> DecoderModel
    decreases bytes.len(),
{
    if bytes.len() == 0 {
        s
    } else {
        run_state(step_state(s, bytes[0]), bytes.skip(1))
    }
}

/// The frames a whole chunk completes, in the order they complete.
pub open spec fn run_frames(s: DecoderModel, bytes: Seq<u8>) -> Seq<Seq<u8>>
    decreases bytes.len(),
{
    if bytes.len() == 0 {
        Seq::empty()
    } else {
        let rest = run_frames(step_state(s, bytes[0]), bytes.skip(1));
        match step_frame(s, bytes[0]) {
            Some(f) => seq![f] + rest,
            None => rest,
        }
    }
}

/// Consuming a chunk and then one more byte is consuming the chunk with that
/// byte appended.
proof fn lemma_run_push(s: DecoderModel, bytes: Seq<u8>, b: u8)
    ensures
        run_state(s, bytes.push(b)) == step_state(run_state(s, bytes), b),
        run_frames(s, bytes.push(b)) == (match step_frame(run_state(s, bytes), b) {
            Some(f) => run_frames(s, bytes) + seq![f],
            None => run_frames(s, bytes),
        }),
    decreases bytes.len(),
{
    if bytes.len() == 0 {
        assert(bytes.push(b)[0] == b);
        assert(bytes.push(b).skip(1) =~= Seq::<u8>::empty());
        assert(run_state(step_state(s, b), bytes.push(b).skip(1)) == step_state(s, b));
        assert(run_frames(step_state(s, b), bytes.push(b).skip(1)) =~= Seq::<Seq<u8>>::empty());
        if step_frame(s, b) is Some {
            let f = step_frame(s, b)->Some_0;
            assert(seq![f] + Seq::<Seq<u8>>::empty() =~= Seq::<Seq<u8>>::empty() + seq![f]);
        }
    } else {
        assert(bytes.push(b)[0] == bytes[0]);
        assert(bytes.push(b).skip(1) =~= bytes.skip(1).push(b));
        lemma_run_push(step_state(s, bytes[0]), bytes.skip(1), b);
        assert(run_frames(s, bytes.push(b)) =~= (match step_frame(run_state(s, bytes), b) {
            Some(f) => run_frames(s, bytes) + seq![f],
            None => run_frames(s, bytes),
        }));
    }
}

// ---------------------------------------------------------------------------
// Assembler laws
// ---------------------------------------------------------------------------

/// A chunk that holds no flag byte completes no frame, from any assembler
/// state: without 0x7E nothing ends a frame, so `decode_bytes` reports
/// "no frame completed".
pub proof fn lemma_no_flag_no_frames(s: DecoderModel, bytes: Seq<u8>)
    requires
        forall|i: int| 0 <= i < bytes.len() ==> bytes[i] != 0x7E,
    ensures
        run_frames(s, bytes).len() == 0,
    decreases bytes.len(),
{
    if bytes.len() > 0 {
        assert(forall|i: int|
            0 <= i < bytes.skip(1).len() ==> #[trigger] bytes.skip(1)[i] == bytes[i + 1]);
        lemma_no_flag_no_frames(step_state(s, bytes[0]), bytes.skip(1));
    }
}

/// Byte-stuffing round trip: a payload byte that clashes with the flag or
/// escape byte, encoded on the wire as 0x7D followed by the byte XOR 0x20,
/// is reconstructed exactly, appended at the end of the gathered bytes, and
/// neither opens, closes nor completes a frame.
pub proof fn lemma_escape_round_trip(s: DecoderModel, b: u8)
    requires
        !s.escape_pending,
        b == 0x7D || b == 0x7E,
    ensures
        run_state(s, seq![0x7D, b ^ 0x20]) == (DecoderModel {
            buffer: s.buffer.push(b),
            frame_open: s.frame_open,
            escape_pending: false,
        }),
        run_frames(s, seq![0x7D, b ^ 0x20]).len() == 0,
{
    reveal_with_fuel(run_state, 3);
    reveal_with_fuel(run_frames, 3);
    let enc = seq![0x7Du8, b ^ 0x20];
    assert((b ^ 0x20) ^ 0x20 == b) by (bit_vector);
    assert(enc[0] == 0x7D && enc[1] == b ^ 0x20);
    assert(enc.skip(1) =~= seq![b ^ 0x20]);
    assert(seq![b ^ 0x20][0] == b ^ 0x20);
    assert(seq![b ^ 0x20].skip(1) =~= Seq::<u8>::empty());
    let s1 = step_state(s, 0x7D);
    assert(s1 == (DecoderModel { escape_pending: true, ..s }));
    assert(run_state(s, enc) == run_state(s1, seq![b ^ 0x20]));
    assert(run_state(s1, seq![b ^ 0x20]) == step_state(s1, b ^ 0x20));
    assert(step_state(s1, b ^ 0x20) == (DecoderModel {
        buffer: s.buffer.push(b),
        frame_open: s.frame_open,
        escape_pending: false,
    }));
    assert(run_frames(s, enc) =~= run_frames(s1, seq![b ^ 0x20]));
    assert(run_frames(s1, seq![b ^ 0x20]) =~= Seq::<Seq<u8>>::empty());
}

/// Splitting one stream into two chunks changes nothing: consuming the
/// concatenation leaves the state that consuming the two parts in turn
/// leaves, and completes the first part's frames followed by the second
/// part's, in arrival order. Frames complete and decode independently, so a
/// failed frame never disturbs the frames after it.
pub proof fn lemma_run_append(s: DecoderModel, a: Seq<u8>, b: Seq<u8>)
    ensures
        run_state(s, a + b) == run_state(run_state(s, a), b),
        run_frames(s, a + b) == run_frames(s, a) + run_frames(run_state(s, a), b),
    decreases a.len(),
{
    if a.len() == 0 {
        assert(a + b =~= b);
        assert(run_frames(s, a) + run_frames(run_state(s, a), b) =~= run_frames(s, b));
    } else {
        assert((a + b)[0] == a[0]);
        assert((a + b).skip(1) =~= a.skip(1) + b);
        lemma_run_append(step_state(s, a[0]), a.skip(1), b);
        assert(run_frames(s, a + b) =~= run_frames(s, a) + run_frames(run_state(s, a), b));
    }
}

// ---------------------------------------------------------------------------
// Frame outcome
// ---------------------------------------------------------------------------

/// `r` is the outcome owed for one completed frame `content` (de-stuffed
/// bytes, frame check value still at the end): a frame too short to carry
/// the two check bytes is a structural mismatch, and otherwise the check
/// bytes are dropped, unverified, and the rest is decoded.
pub open spec fn frame_outcome_matches(content: Seq<u8>, r: Result<
    Gdl90Message,
    Gdl90Error,
>) -> bool {
    if content.len() < 2 {
        r == Err::<Gdl90Message, Gdl90Error>(Gdl90Error::InvalidMessage)
    } else {
        decode_outcome_matches(content.take(content.len() - 2), r)
    }
}

/// `r` is the result owed by `decode_bytes` on chunk `bytes` from state `s`:
/// `Incomplete` exactly when the chunk completes no frame, else the
/// per-frame outcomes, one per completed frame, in completion order.
pub open spec fn decode_result_matches(s: DecoderModel, bytes: Seq<u8>, r: DecodeResult) -> bool {
    let frames = run_frames(s, bytes);
    &&& (frames.len() == 0 <==> r is Incomplete)
    &&& (r matches DecodeResult::Complete(msgs) ==> {
        &&& msgs@.len() == frames.len()
        &&& forall|j: int|
            0 <= j < frames.len() ==> frame_outcome_matches(#[trigger] frames[j], msgs@[j])
    })
}

// ---------------------------------------------------------------------------
// Assembler
// ---------------------------------------------------------------------------

/// Stateful frame assembler: removes byte-stuffing, detects frame boundaries
/// across arbitrarily fragmented chunks, and hands each completed frame to
/// the message decoder. The frame buffer is an owned growable sequence, so a
/// pathological stream can never overrun it.
pub struct Gdl90Decoder {
    buffer: Vec<u8>,
    frame_open: bool,
    escape_pending: bool,
}

impl View for Gdl90Decoder {
    type V = DecoderModel;

    closed spec fn view(&self) -> DecoderModel {
        DecoderModel {
            buffer: self.buffer@,
            frame_open: self.frame_open,
            escape_pending: self.escape_pending,
        }
    }
}

/// What one call to `decode_bytes` reports: `Incomplete` when the chunk
/// completed no frame, else one outcome per completed frame.
#[derive(Debug)]
pub enum DecodeResult {
    Incomplete,
    Complete(Vec<Result<Gdl90Message, Gdl90Error>>),
}

impl Gdl90Decoder {
    pub fn new() -> (d: Gdl90Decoder)
        ensures
            d@ == (DecoderModel {
                buffer: Seq::<u8>::empty(),
                frame_open: false,
                escape_pending: false,
            }),
    {
        let d = Gdl90Decoder { buffer: Vec::new(), frame_open: false, escape_pending: false };
        proof {
            assert(d@ =~= DecoderModel {
                buffer: Seq::<u8>::empty(),
                frame_open: false,
                escape_pending: false,
            });
        }
        d
    }

    /// Consumes one chunk of raw bytes. Frames may span chunks; a single
    /// call may complete zero, one or many frames, and a failed frame never
    /// disturbs the frames after it.
    pub fn decode_bytes(&mut self, bytes: &[u8]) -> (r: DecodeResult)
        ensures
            final(self)@ == run_state(old(self)@, bytes@),
            decode_result_matches(old(self)@, bytes@, r),
    {
        let ghost s0 = self@;
        let mut messages: Vec<Result<Gdl90Message, Gdl90Error>> = Vec::new();
        let mut i: usize = 0;
        while i < bytes.len()
            invariant
                i <= bytes@.len(),
                self@ == run_state(s0, bytes@.take(i as int)),
                messages@.len() == run_frames(s0, bytes@.take(i as int)).len(),
                forall|j: int|
                    0 <= j < messages@.len() ==> frame_outcome_matches(
                        #[trigger] run_frames(s0, bytes@.take(i as int))[j],
                        messages@[j],
                    ),
            decreases bytes@.len() - i,
        {
            let b = bytes[i];
            proof {
                assert(bytes@.take(i + 1) =~= bytes@.take(i as int).push(bytes@[i as int]));
                lemma_run_push(s0, bytes@.take(i as int), b);
            }
            if self.escape_pending {
                self.buffer.push(b ^ 0x20);
                self.escape_pending = false;
            } else if b == 0x7E {
                if self.frame_open {
                    // Frame end: decode what was gathered, then reset for the
                    // next frame.
                    let outcome = self.decode_message();
                    messages.push(outcome);
                    self.buffer.clear();
                    self.frame_open = false;
                } else {
                    // Frame start. The gathered bytes are kept as they are:
                    // stray bytes seen outside any frame stay in the buffer.
                    self.frame_open = true;
                }
            } else if b == 0x7D {
                self.escape_pending = true;
            } else {
                self.buffer.push(b);
            }
            proof {
                assert(self@ =~= run_state(s0, bytes@.take(i + 1)));
            }
            i = i + 1;
        }
        proof {
            assert(bytes@.take(bytes@.len() as int) =~= bytes@);
        }
        if messages.len() == 0 {
            DecodeResult::Incomplete
        } else {
            DecodeResult::Complete(messages)
        }
    }

    /// Decodes the frame gathered in the buffer, dropping its trailing two
    /// frame check bytes. The check value itself is never verified, as in
    /// the protocol's permissive receivers.
    fn decode_message(&self) -> (r: Result<Gdl90Message, Gdl90Error>)
        ensures
            frame_outcome_matches(self@.buffer, r),
    {
        let n = self.buffer.len();
        if n < 2 {
            return Err(Gdl90Error::InvalidMessage);
        }
        Gdl90Message::from_bytes(vstd::slice::slice_subrange(self.buffer.as_slice(), 0, n - 2))
    }
}

} // verus!
