//! The bidirectional codec: one decoder and one encoder bundled under
//! shared construction and configuration.

use vstd::prelude::*;
use crate::decoder::{decode_step, Decoder};
use crate::encoder::{sd_emits, sd_step, Encoder, SdMode};
use crate::errors::CodecError;
use crate::record::Record;
use crate::wire::{buf_model, cbor_encoding, cbor_parse, frame_bytes, sd_marker, Outcome};

verus! {

/// A combined decoder and encoder for one logical channel that carries both
/// directions. `decode` delegates to the decoder, `encode` to the encoder;
/// the configuration calls apply to the encoder alone, since decoding is
/// determined by the bytes themselves.
#[derive(Clone, Debug)]
pub struct Codec {
    dec: Decoder,
    enc: Encoder,
}

impl Codec {
    /// The internal encoder's current self-describe mode.
    pub closed spec fn sd_mode(self) -> SdMode {
        self.enc.sd_mode()
    }

    /// Whether the internal encoder encodes composite values positionally.
    pub closed spec fn is_packed(self) -> bool {
        self.enc.is_packed()
    }

    /// Creates a new codec: no self-describe marker, field names kept.
    pub fn new() -> (r: Codec)
        ensures
            r.sd_mode() == SdMode::Never,
            !r.is_packed(),
    {
        Codec { dec: Decoder::new(), enc: Encoder::new() }
    }

    /// Turns the internal encoder into one with the given self-describe
    /// mode.
    pub fn sd(self, sd: SdMode) -> (r: Codec)
        ensures
            r.sd_mode() == sd,
            r.is_packed() == self.is_packed(),
    {
        Codec { dec: self.dec, enc: self.enc.sd(sd) }
    }

    /// Turns the internal encoder into one with the given packed setting.
    /// Packed encoding omits field names: smaller, but the decoding end
    /// must know the exact order of fields.
    pub fn packed(self, packed: bool) -> (r: Codec)
        ensures
            r.sd_mode() == self.sd_mode(),
            r.is_packed() == packed,
    {
        Codec { dec: self.dec, enc: self.enc.packed(packed) }
    }

    /// Attempts to take one complete frame off the front of `src`, exactly
    /// as the decoder does.
    pub fn decode(&mut self, src: &mut bytes::BytesMut) -> (r: Result<Option<Record>, CodecError>)
        ensures
            final(self).sd_mode() == old(self).sd_mode(),
            final(self).is_packed() == old(self).is_packed(),
            buf_model(*final(src)) == decode_step(buf_model(*old(src))).0,
            (match cbor_parse(buf_model(*old(src))) {
                Outcome::Complete(entries, used) => {
                    &&& r matches Ok(Some(x)) && x@ == entries && x.wf()
                    &&& used <= buf_model(*old(src)).len()
                },
                Outcome::Incomplete => r matches Ok(None),
                Outcome::Malformed => r matches Err(e) && e is Malformed,
            }),
            buf_model(*old(src)).len() == 0 ==> r matches Ok(None),
    {
        self.dec.decode(src)
    }

    /// Appends one frame for `item` to `dst`, exactly as the encoder does.
    pub fn encode(&mut self, item: Record, dst: &mut bytes::BytesMut) -> (r: Result<
        (),
        CodecError,
    >)
        ensures
            final(self).sd_mode() == sd_step(old(self).sd_mode()),
            final(self).is_packed() == old(self).is_packed(),
            r is Ok,
            ({
                let e = cbor_encoding(item@, old(self).is_packed());
                let frame = if sd_emits(old(self).sd_mode()) { sd_marker() + e } else { e };
                &&& buf_model(*final(dst)) == buf_model(*old(dst)) + frame
                &&& e.len() >= 1
                &&& item.wf() ==> frame_bytes(item@, frame)
            }),
    {
        self.enc.encode(item, dst)
    }
}

impl Default for Codec {
    fn default() -> (r: Codec)
        ensures
            r.sd_mode() == SdMode::Never,
            !r.is_packed(),
    {
        Codec::new()
    }
}

} // verus!
