//! A length-delimited binary message framing codec.
//!
//! A frame is a fixed 15-byte little-endian header followed by a variable
//! payload and a trailing signature block whose length the header declares.
//! `codec` holds the message type and the decode/encode pair, `wire` the
//! byte-order model, and `bytebuf` the trusted surface over `bytes::BytesMut`.

pub mod bytebuf;
pub mod codec;
pub mod wire;

pub use codec::CodecError;
pub use codec::Message;
pub use codec::MessageCodec;
pub use codec::MessageView;
pub use codec::HEADER_SIZE;
