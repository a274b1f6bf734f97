//! Framing behaviour on concrete byte streams: idempotent Incomplete,
//! exact consumption, streaming splits, round trips, the once-only marker,
//! and malformed input.

use bytes::BytesMut;
use cbor_codec::{Codec, CodecError, Decoder, Encoder, Record, SdMode};

fn sample() -> Record {
    Record { fields: vec![("hello".to_owned(), 42u64), ("world".to_owned(), 0u64)] }
}

fn same_fields(a: &Record, b: &Record) -> bool {
    a.fields == b.fields
}

/// One frame's bytes, encoded by the library under the given settings.
fn frame(sd: SdMode, packed: bool) -> Vec<u8> {
    let mut encoder = Encoder::new().sd(sd).packed(packed);
    let mut buffer = BytesMut::new();
    encoder.encode(sample(), &mut buffer).unwrap();
    buffer.to_vec()
}

/// A buffer holding a proper prefix of a frame yields Incomplete, stays
/// byte-for-byte as it was, and a second call without new bytes yields
/// Incomplete again.
#[test]
fn incomplete_idempotent() {
    let e = frame(SdMode::Never, false);
    let mut decoder = Decoder::new();
    let mut buffer = BytesMut::new();
    buffer.extend(&e[..e.len() - 1]);
    let before = buffer.to_vec();
    assert!(decoder.decode(&mut buffer).unwrap().is_none());
    assert_eq!(before, buffer.to_vec());
    assert!(decoder.decode(&mut buffer).unwrap().is_none());
    assert_eq!(before, buffer.to_vec());
}

/// An empty buffer yields Incomplete, never an error.
#[test]
fn empty_buffer_incomplete() {
    let mut decoder = Decoder::new();
    let mut buffer = BytesMut::new();
    assert!(decoder.decode(&mut buffer).unwrap().is_none());
    assert_eq!(0, buffer.len());
}

/// A frame followed by arbitrary extra bytes decodes to its item and leaves
/// exactly the extra bytes.
#[test]
fn exact_consumption() {
    let e = frame(SdMode::Never, false);
    let tail: &[u8] = &[9, 9, 9];
    let mut decoder = Decoder::new();
    let mut buffer = BytesMut::new();
    buffer.extend(&e);
    buffer.extend(tail);
    let decoded = decoder.decode(&mut buffer).unwrap().unwrap();
    assert!(same_fields(&sample(), &decoded));
    assert_eq!(tail, &buffer[..]);
}

/// Splitting a frame at every byte offset and delivering it across two
/// calls yields Incomplete first and the item with the correct leftover
/// second.
#[test]
fn streaming_every_offset() {
    let e = frame(SdMode::Once, false);
    let tail: &[u8] = &[7];
    for k in 0..e.len() {
        let mut decoder = Decoder::new();
        let mut buffer = BytesMut::new();
        buffer.extend(&e[..k]);
        assert!(decoder.decode(&mut buffer).unwrap().is_none());
        assert_eq!(k, buffer.len());
        buffer.extend(&e[k..]);
        buffer.extend(tail);
        let decoded = decoder.decode(&mut buffer).unwrap().unwrap();
        assert!(same_fields(&sample(), &decoded));
        assert_eq!(tail, &buffer[..]);
    }
}

/// Whatever the packed and self-describe settings, decoding an encoding
/// gives the item back and empties the buffer.
#[test]
fn round_trip_all_settings() {
    for packed in [false, true] {
        for sd in [SdMode::Always, SdMode::Once, SdMode::Never] {
            let mut decoder = Decoder::new();
            let mut buffer = BytesMut::new();
            buffer.extend(&frame(sd, packed));
            let decoded = decoder.decode(&mut buffer).unwrap().unwrap();
            assert!(same_fields(&sample(), &decoded));
            assert!(buffer.is_empty());
        }
    }
}

/// An encoder configured Once puts the marker bytes d9 d9 f7 in front of
/// exactly the first frame; Always marks every frame; Never marks none.
#[test]
fn once_marker_only_first() {
    let marker: &[u8] = &[0xd9, 0xd9, 0xf7];
    let mut encoder = Encoder::new().sd(SdMode::Once);
    let mut first = BytesMut::new();
    encoder.encode(sample(), &mut first).unwrap();
    let mut second = BytesMut::new();
    encoder.encode(sample(), &mut second).unwrap();
    assert_eq!(marker, &first[..3]);
    assert_ne!(marker, &second[..3]);
    assert_eq!(first.len(), second.len() + 3);
    assert_eq!(&first[3..], &second[..]);

    let mut always = Encoder::new().sd(SdMode::Always);
    let mut buffer = BytesMut::new();
    always.encode(sample(), &mut buffer).unwrap();
    always.encode(sample(), &mut buffer).unwrap();
    assert_eq!(marker, &buffer[..3]);
    assert_eq!(marker, &buffer[first.len()..first.len() + 3]);

    let mut never = Encoder::new();
    let mut bare = BytesMut::new();
    never.encode(sample(), &mut bare).unwrap();
    assert_ne!(marker, &bare[..3]);
}

/// Bytes that can begin no frame give Malformed and leave the buffer
/// exactly as it was; so does a value of the wrong type.
#[test]
fn malformed_leaves_buffer_intact() {
    // 0xff is the break code: valid in no leading position.
    let mut decoder = Decoder::new();
    let mut buffer = BytesMut::new();
    buffer.extend(&[0xffu8, 0x01]);
    let err = decoder.decode(&mut buffer).unwrap_err();
    assert!(matches!(err, CodecError::Malformed(_)));
    assert_eq!(&[0xffu8, 0x01], &buffer[..]);

    // 0x00 is a complete integer, not a mapping: a schema mismatch.
    let mut buffer = BytesMut::new();
    buffer.extend(&[0x00u8]);
    let err = decoder.decode(&mut buffer).unwrap_err();
    assert!(matches!(err, CodecError::Malformed(_)));
    assert_eq!(&[0x00u8], &buffer[..]);
}

/// Two frames encoded back to back plus one leading byte of a third: the
/// first two decode calls return the mapping, the third reports Incomplete
/// with the byte count unchanged, and appending the rest completes it.
#[test]
fn two_frames_and_partial_third() {
    let e = frame(SdMode::Never, false);
    let mut codec = Codec::new();
    let mut all = BytesMut::new();
    all.extend(&e);
    all.extend(&e);
    all.extend(&e[..1]);
    let decoded = codec.decode(&mut all).unwrap().unwrap();
    assert!(same_fields(&sample(), &decoded));
    let decoded = codec.decode(&mut all).unwrap().unwrap();
    assert!(same_fields(&sample(), &decoded));
    assert_eq!(1, all.len());
    assert!(codec.decode(&mut all).unwrap().is_none());
    assert_eq!(1, all.len());
    all.extend(&e[1..]);
    let decoded = codec.decode(&mut all).unwrap().unwrap();
    assert!(same_fields(&sample(), &decoded));
    assert!(all.is_empty());
}

/// Entry lists that are not in wire order come back normalized: sorted by
/// key, one entry per key with the last value kept. An empty mapping and
/// the largest value survive the trip unchanged.
#[test]
fn normalization_and_edges() {
    let mut encoder = Encoder::new();
    let mut decoder = Decoder::new();

    let unsorted = Record {
        fields: vec![
            ("world".to_owned(), 0u64),
            ("hello".to_owned(), 42u64),
            ("hello".to_owned(), 41u64),
        ],
    };
    let mut buffer = BytesMut::new();
    encoder.encode(unsorted, &mut buffer).unwrap();
    let decoded = decoder.decode(&mut buffer).unwrap().unwrap();
    assert_eq!(
        vec![("hello".to_owned(), 41u64), ("world".to_owned(), 0u64)],
        decoded.fields
    );
    assert!(buffer.is_empty());

    let empty = Record { fields: vec![] };
    let mut buffer = BytesMut::new();
    encoder.encode(empty, &mut buffer).unwrap();
    assert_eq!(1, buffer.len());
    let decoded = decoder.decode(&mut buffer).unwrap().unwrap();
    assert!(decoded.fields.is_empty());

    let big = Record { fields: vec![("max".to_owned(), u64::MAX)] };
    let mut buffer = BytesMut::new();
    encoder.encode(big, &mut buffer).unwrap();
    let decoded = decoder.decode(&mut buffer).unwrap().unwrap();
    assert_eq!(vec![("max".to_owned(), u64::MAX)], decoded.fields);
}

/// The codec's configuration calls touch only the encoding direction.
#[test]
fn codec_configuration_reaches_encoder() {
    let mut plain = Codec::new();
    let mut configured = Codec::new().sd(SdMode::Always).packed(true);
    let mut a = BytesMut::new();
    let mut b = BytesMut::new();
    plain.encode(sample(), &mut a).unwrap();
    configured.encode(sample(), &mut b).unwrap();
    assert_eq!(a.len() + 3, b.len());

    // Decoding is unaffected by the configuration.
    let mut buffer = BytesMut::new();
    buffer.extend(&a);
    let decoded = configured.decode(&mut buffer).unwrap().unwrap();
    assert!(same_fields(&sample(), &decoded));
}
