//! Decoder for a length-prefixed, checksummed telemetry byte protocol.
//!
//! A continuous byte stream, arriving in chunks of arbitrary size, is
//! reassembled into frames of the form
//! `[sync][length][type][payload...][checksum]`, each frame is validated
//! against an 8-bit CRC, and its payload is decoded into a typed record of
//! raw integer quantities.

pub mod buffer;
pub mod checksum;
pub mod decode;
pub mod frame;
pub mod pipeline;
