//! The trusted boundary to the wire format.
//!
//! The CBOR value encoding itself is an external primitive: the serializer
//! and deserializer of `serde_cbor` produce and consume it, and this module
//! states what the codec relies on about them. Everything above this module
//! is verified against these contracts.

use vstd::prelude::*;
use crate::record::Record;

verus! {

/// bytes::BytesMut, the caller-owned growable byte buffer that decoding
/// consumes from the front of and encoding appends to the back of.
#[verifier::external_type_specification]
#[verifier::external_body]
pub struct ExBytesMut(bytes::BytesMut);

/// serde_cbor::Error, the error the serializer and deserializer report.
#[verifier::external_type_specification]
#[verifier::external_body]
pub struct ExCborError(serde_cbor::Error);

/// The bytes a buffer currently holds, front first.
pub uninterp spec fn buf_model(b: bytes::BytesMut) -> Seq<u8>;

/// What one deserialization attempt on the front of a byte sequence yields:
/// a complete item together with the number of bytes its encoding occupies,
/// or a report that the bytes are a proper prefix of some encoding, or a
/// report that they can begin no encoding of an item.
#[verifier::ext_equal]
pub enum Outcome {
    Complete(Seq<(Seq<char>, u64)>, nat),
    Incomplete,
    Malformed,
}

/// What the deserializer yields on a given byte sequence. The parse is a
/// function of the bytes alone; its result is only ever learned through
/// `parse_frame` below.
pub uninterp spec fn cbor_parse(b: Seq<u8>) -> Outcome;

/// The bytes the serializer emits for an entry list under the given field
/// encoding flag. A function of the two arguments alone.
pub uninterp spec fn cbor_encoding(entries: Seq<(Seq<char>, u64)>, packed: bool) -> Seq<u8>;

/// The self-describe marker: the fixed tag bytes that announce "what follows
/// is CBOR". Any compliant decoder skips it.
pub open spec fn sd_marker() -> Seq<u8> {
    seq![0xd9u8, 0xd9u8, 0xf7u8]
}

/// `e` is one whole frame for `entries`: followed by anything, it parses to
/// exactly `entries` consuming exactly `e`, and every proper prefix of it
/// parses to Incomplete.
pub open spec fn frame_bytes(entries: Seq<(Seq<char>, u64)>, e: Seq<u8>) -> bool {
    &&& e.len() >= 1
    &&& forall|tail: Seq<u8>|
        #![trigger cbor_parse(e + tail)]
        cbor_parse(e + tail) == Outcome::Complete(entries, e.len())
    &&& forall|k: int|
        #![trigger cbor_parse(e.subrange(0, k))]
        0 <= k < e.len() ==> cbor_parse(e.subrange(0, k)) is Incomplete
}

/// The exec-level mirror of `Outcome`, as `parse_frame` hands it back.
pub(crate) enum Decoded {
    Complete(Record, usize),
    Incomplete,
    Malformed(serde_cbor::Error),
}

/// Relies on serde_cbor's Deserializer over a slice: it parses one value off
/// the front without touching trailing bytes, `byte_offset` reports exactly
/// how many bytes the parse consumed, and `Error::is_eof` tells an
/// end-of-input error from every other failure. A parsed map arrives with
/// its keys strictly sorted, so the record is well formed.
#[verifier::external_body]
pub(crate) fn parse_frame(src: &bytes::BytesMut) -> (r: Decoded)
    ensures
        (match r {
            Decoded::Complete(x, k) => {
                &&& cbor_parse(buf_model(*src)) == Outcome::Complete(x@, k as nat)
                &&& k <= buf_model(*src).len()
                &&& x.wf()
            },
            Decoded::Incomplete => cbor_parse(buf_model(*src)) is Incomplete,
            Decoded::Malformed(_) => cbor_parse(buf_model(*src)) is Malformed,
        }),
        buf_model(*src).len() == 0 ==> r is Incomplete,
{
    let mut de = serde_cbor::Deserializer::from_slice(src.as_ref());
    let parsed: Result<std::collections::BTreeMap<String, u64>, serde_cbor::Error> =
        serde::Deserialize::deserialize(&mut de);
    match parsed {
        Ok(m) => Decoded::Complete(Record { fields: m.into_iter().collect() }, de.byte_offset()),
        Err(e) if e.is_eof() => Decoded::Incomplete,
        Err(e) => Decoded::Malformed(e),
    }
}

/// Relies on serde_cbor's Serializer writing straight into the buffer:
/// `self_describe` emits the three marker bytes and serializing the entries
/// appends their encoding. The call succeeds on every record: text keys and
/// unsigned integers are representable in the format, a map of them has no
/// other error source than its writer, and the in-memory buffer accepts
/// every write. A frame built from a well-formed record parses back to it.
#[verifier::external_body]
pub(crate) fn write_frame(
    item: &Record,
    packed: bool,
    marker: bool,
    dst: &mut bytes::BytesMut,
) -> (r: Result<(), serde_cbor::Error>)
    ensures
        r is Ok,
        r is Ok ==> ({
            let e = cbor_encoding(item@, packed);
            let frame = if marker { sd_marker() + e } else { e };
            &&& buf_model(*final(dst)) == buf_model(*old(dst)) + frame
            &&& e.len() >= 1
            &&& item.wf() ==> frame_bytes(item@, frame)
        }),
{
    let map: std::collections::BTreeMap<String, u64> = item.fields.iter().cloned().collect();
    let writer = serde_cbor::ser::IoWrite::new(bytes::BufMut::writer(&mut *dst));
    let ser = serde_cbor::Serializer::new(writer);
    let mut ser = if packed { ser.packed_format() } else { ser };
    if marker {
        ser.self_describe()?;
    }
    serde::Serialize::serialize(&map, &mut ser)
}

/// Relies on bytes::BytesMut::split_to: the first `n` bytes leave the
/// buffer and the rest stay, in order.
#[verifier::external_body]
pub(crate) fn take_front(buf: &mut bytes::BytesMut, n: usize)
    requires
        n <= buf_model(*old(buf)).len(),
    ensures
        buf_model(*final(buf)) == buf_model(*old(buf)).skip(n as int),
{
    let _consumed = buf.split_to(n);
}

} // verus!
