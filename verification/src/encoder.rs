//! The frame encoder: one item's wire representation is appended to an
//! outgoing buffer per call, under a self-describe mode and a packed flag.

use vstd::prelude::*;
use crate::errors::CodecError;
use crate::record::Record;
use crate::wire::{buf_model, cbor_encoding, frame_bytes, sd_marker, write_frame};

verus! {

/// When the self-describe marker is placed in front of an encoded frame.
#[derive(Clone, Copy, Debug, Eq, PartialEq)]
pub enum SdMode {
    /// Before every frame.
    Always,
    /// Before the first frame this encoder produces, then never again.
    Once,
    /// Never.
    Never,
}

/// Whether an encode call under this mode writes the marker.
pub open spec fn sd_emits(m: SdMode) -> bool {
    !(m is Never)
}

/// The mode an encoder is left in after one encode call: `Once` degrades
/// irreversibly to `Never`, the other modes are stable.
pub open spec fn sd_step(m: SdMode) -> SdMode {
    match m {
        SdMode::Once => SdMode::Never,
        other => other,
    }
}

/// The mode an encoder is left in after `k` encode calls.
pub open spec fn sd_after(m: SdMode, k: nat) -> SdMode
    decreases k,
{
    if k == 0 {
        m
    } else {
        sd_step(sd_after(m, (k - 1) as nat))
    }
}

/// The encoding half of the codec: the self-describe mode is per-instance
/// mutable state, the packed flag is set by construction or explicitly and
/// never by the act of encoding.
#[derive(Clone, Debug)]
pub struct Encoder {
    sd: SdMode,
    packed: bool,
}

impl Encoder {
    /// The current self-describe mode.
    pub closed spec fn sd_mode(self) -> SdMode {
        self.sd
    }

    /// Whether composite values are encoded positionally, without field
    /// names.
    pub closed spec fn is_packed(self) -> bool {
        self.packed
    }

    /// Creates a new encoder: no self-describe marker, field names kept.
    pub fn new() -> (r: Encoder)
        ensures
            r.sd_mode() == SdMode::Never,
            !r.is_packed(),
    {
        Encoder { sd: SdMode::Never, packed: false }
    }

    /// Turns the encoder into one with the given self-describe mode.
    pub fn sd(self, sd: SdMode) -> (r: Encoder)
        ensures
            r.sd_mode() == sd,
            r.is_packed() == self.is_packed(),
    {
        Encoder { sd, ..self }
    }

    /// Turns the encoder into one with the given packed setting. Packed
    /// encoding omits field names: smaller, but the decoding end must know
    /// the exact order of fields.
    pub fn packed(self, packed: bool) -> (r: Encoder)
        ensures
            r.sd_mode() == self.sd_mode(),
            r.is_packed() == packed,
    {
        Encoder { packed, ..self }
    }

    /// Appends one frame for `item` to `dst`: the self-describe marker first
    /// when the current mode calls for one, then the item's encoding. A mode
    /// of `Once` degrades to `Never` on this call. The frame carries the
    /// record's mapping in wire order — one entry per key, keys sorted — so
    /// an entry list that is unsorted or holds a repeated key is normalized
    /// on the wire (the last entry for a key wins). For this record type
    /// every value is representable, so the call always succeeds.
    pub fn encode(&mut self, item: Record, dst: &mut bytes::BytesMut) -> (r: Result<
        (),
        CodecError,
    >)
        ensures
            final(self).sd_mode() == sd_step(old(self).sd_mode()),
            final(self).is_packed() == old(self).is_packed(),
            r is Ok,
            ({
                let e = cbor_encoding(item@, old(self).is_packed());
                let frame = if sd_emits(old(self).sd_mode()) { sd_marker() + e } else { e };
                &&& buf_model(*final(dst)) == buf_model(*old(dst)) + frame
                &&& e.len() >= 1
                &&& item.wf() ==> frame_bytes(item@, frame)
            }),
    {
        let emit: bool = match self.sd {
            SdMode::Never => false,
            _ => true,
        };
        self.sd = match self.sd {
            SdMode::Once => SdMode::Never,
            SdMode::Always => SdMode::Always,
            SdMode::Never => SdMode::Never,
        };
        match write_frame(&item, self.packed, emit, dst) {
            Ok(()) => Ok(()),
            Err(e) => Err(CodecError::Encode(e)),
        }
    }
}

impl Default for Encoder {
    fn default() -> (r: Encoder)
        ensures
            r.sd_mode() == SdMode::Never,
            !r.is_packed(),
    {
        Encoder::new()
    }
}

/// An encoder configured `Once` emits the marker on exactly its first
/// encode call and on no later one: after one call the mode is `Never`, and
/// `Never` is stable.
pub proof fn lemma_once_marker_only_first(k: nat)
    ensures
        sd_emits(sd_after(SdMode::Once, k)) <==> k == 0,
    decreases k,
{
    if k > 0 {
        lemma_once_marker_only_first((k - 1) as nat);
        if k > 1 {
            assert(sd_after(SdMode::Once, (k - 1) as nat) is Never);
        }
    }
}

} // verus!
