//! An incremental, self-delimiting CBOR frame codec.
//!
//! A growing byte buffer is turned into a sequence of typed items and typed
//! items are turned into bytes appended to an outgoing buffer; the value
//! encoding itself, not a length prefix, determines where one frame ends and
//! the next begins. Decoding classifies the front of the buffer as a complete
//! frame (whose bytes are consumed), as not yet enough bytes (the buffer is
//! left untouched and the caller retries once more bytes arrive), or as
//! malformed (terminal for the byte stream). Encoding appends one frame,
//! optionally preceded by the self-describe marker according to a mode that
//! may degrade from emit-once to emit-never.

pub mod record;
pub mod wire;
pub mod errors;
pub mod decoder;
pub mod encoder;
pub mod codec;

pub use codec::Codec;
pub use decoder::Decoder;
pub use encoder::Encoder;
pub use encoder::SdMode;
pub use errors::CodecError;
pub use record::Record;
