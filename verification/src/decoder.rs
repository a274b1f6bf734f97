//! The frame decoder: at most one complete item is taken off the front of a
//! buffer per call, and the buffer is touched only when a frame is complete.

use vstd::prelude::*;
use crate::errors::CodecError;
use crate::record::Record;
use crate::wire::{buf_model, cbor_parse, frame_bytes, parse_frame, take_front, Decoded, Outcome};

verus! {

/// What one decode call does to a buffer's contents: on a complete parse the
/// consumed prefix is removed, otherwise the bytes stay exactly as they were.
pub open spec fn decode_step(b: Seq<u8>) -> (Seq<u8>, Outcome) {
    match cbor_parse(b) {
        Outcome::Complete(entries, used) => (b.skip(used as int), Outcome::Complete(entries, used)),
        o => (b, o),
    }
}

/// The decoding half of the codec. It holds no state: every outcome is a
/// function of the buffer's bytes alone.
#[derive(Clone, Debug)]
pub struct Decoder {}

impl Decoder {
    /// Creates a new decoder.
    pub fn new() -> (r: Decoder)
        ensures
            r == (Decoder {}),
    {
        Decoder {}
    }

    /// Attempts to take one complete frame off the front of `src`.
    ///
    /// On a complete frame, exactly the bytes the parse consumed are removed
    /// from the front and the item is returned; trailing bytes belong to the
    /// next frame and stay. If the bytes are a proper prefix of a frame, the
    /// buffer is left untouched and `Ok(None)` asks the caller to retry once
    /// more bytes arrive. Otherwise the buffer is left untouched and the
    /// terminal error is returned.
    pub fn decode(&mut self, src: &mut bytes::BytesMut) -> (r: Result<Option<Record>, CodecError>)
        ensures
            *final(self) == *old(self),
            buf_model(*final(src)) == decode_step(buf_model(*old(src))).0,
            (match cbor_parse(buf_model(*old(src))) {
                Outcome::Complete(entries, used) => {
                    &&& r matches Ok(Some(x)) && x@ == entries && x.wf()
                    &&& used <= buf_model(*old(src)).len()
                },
                Outcome::Incomplete => r matches Ok(None),
                Outcome::Malformed => r matches Err(e) && e is Malformed,
            }),
            buf_model(*old(src)).len() == 0 ==> r matches Ok(None),
    {
        match parse_frame(&*src) {
            Decoded::Complete(item, used) => {
                take_front(src, used);
                Ok(Some(item))
            },
            Decoded::Incomplete => Ok(None),
            Decoded::Malformed(err) => Err(CodecError::Malformed(err)),
        }
    }
}

impl Default for Decoder {
    fn default() -> (r: Decoder)
        ensures
            r == (Decoder {}),
    {
        Decoder::new()
    }
}

/// A buffer on which decoding reports Incomplete is left exactly as it was,
/// and decoding it again, with no bytes added, reports Incomplete again:
/// decoding draws on the buffer's contents alone.
pub proof fn lemma_incomplete_idempotent(b: Seq<u8>)
    ensures
        decode_step(b).1 is Incomplete ==> {
            &&& decode_step(b).0 == b
            &&& decode_step(decode_step(b).0).1 is Incomplete
        },
{
}

/// A buffer on which decoding reports Malformed is left exactly as it was.
pub proof fn lemma_malformed_leaves_buffer(b: Seq<u8>)
    ensures
        decode_step(b).1 is Malformed ==> decode_step(b).0 == b,
{
}

/// Exact consumption: a whole frame followed by arbitrary extra bytes
/// decodes to its item and leaves exactly the extra bytes.
pub proof fn lemma_exact_consumption(entries: Seq<(Seq<char>, u64)>, e: Seq<u8>, tail: Seq<u8>)
    ensures
        frame_bytes(entries, e) ==> decode_step(e + tail) == (
            tail,
            Outcome::Complete(entries, e.len()),
        ),
{
    if frame_bytes(entries, e) {
        assert(cbor_parse(e + tail) == Outcome::Complete(entries, e.len()));
        assert((e + tail).skip(e.len() as int) =~= tail);
    }
}

/// Round trip: a whole frame, alone in the buffer, decodes to its item and
/// empties the buffer.
pub proof fn lemma_round_trip(entries: Seq<(Seq<char>, u64)>, e: Seq<u8>)
    ensures
        frame_bytes(entries, e) ==> decode_step(e) == (
            Seq::<u8>::empty(),
            Outcome::Complete(entries, e.len()),
        ),
{
    if frame_bytes(entries, e) {
        assert(e + Seq::<u8>::empty() =~= e);
        lemma_exact_consumption(entries, e, Seq::<u8>::empty());
    }
}

/// Streaming equivalence: splitting a frame at any byte offset and
/// delivering it across two calls yields Incomplete on the first call, with
/// the prefix kept, and the item with the correct leftover on the second.
pub proof fn lemma_streaming_split(
    entries: Seq<(Seq<char>, u64)>,
    e: Seq<u8>,
    k: int,
    tail: Seq<u8>,
)
    ensures
        frame_bytes(entries, e) && 0 <= k < e.len() ==> {
            let first = e.subrange(0, k);
            let rest = e.subrange(k, e.len() as int);
            &&& decode_step(first) == (first, Outcome::Incomplete)
            &&& decode_step(first + (rest + tail)) == (tail, Outcome::Complete(entries, e.len()))
        },
{
    if frame_bytes(entries, e) && 0 <= k < e.len() {
        let first = e.subrange(0, k);
        let rest = e.subrange(k, e.len() as int);
        assert(cbor_parse(e.subrange(0, k)) is Incomplete);
        assert(first + (rest + tail) =~= e + tail);
        lemma_exact_consumption(entries, e, tail);
    }
}

} // verus!
