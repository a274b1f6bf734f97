//! The codec's error type.

use vstd::prelude::*;

verus! {

/// What a codec operation can fail with. Decoding fails only on bytes that
/// can begin no frame. Encoding of this library's record type does not
/// fail; the encode variant keeps the surface of a codec whose serializer
/// can refuse a value. Either carries the underlying format error.
#[derive(Debug)]
pub enum CodecError {
    /// The buffer's bytes cannot form a valid frame under any continuation.
    Malformed(serde_cbor::Error),
    /// The serializer reported a failure while a frame was being written;
    /// no record of this library produces it.
    Encode(serde_cbor::Error),
}

} // verus!
