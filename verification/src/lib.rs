//! A client-side transport for a length-prefixed, type-tagged message
//! protocol: a closed registry of message variants with stable numeric tags,
//! and a frame codec that lays each message out on the wire as a big-endian
//! tag, a big-endian payload length, and the payload bytes.
//!
//! Payload bodies are externally defined flatbuffers; this crate treats them
//! as an opaque serialize/deserialize capability and verifies the framing and
//! dispatch around them.

pub mod codec;
pub mod packet;
pub mod wire;

pub use packet::Packet;
pub use packet::PacketParseError;
