//! A verified codec and dispatcher core for a Kafka-style binary RPC wire
//! protocol: length-prefixed request framing, a versioned request header, an
//! API-key-dispatched request body union, a versioned response encoder, and
//! the CRC-checked on-disk record-batch format that topic discovery queries.
//!
//! Every decoder is proved equal to a specification-level parse function over
//! byte sequences, every encoder is proved to emit exactly the
//! specification-level encoding, and the record formats carry round-trip
//! proofs: decoding an encoding yields the original value.
pub mod be;
pub mod consts;
pub mod elems;
pub mod foreign;
pub mod header;
pub mod primitives;
pub mod records;
pub mod request;
pub mod response;
pub mod tagged_field;
pub mod varint;
