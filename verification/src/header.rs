//! An early, minimal response-header form kept for callers that only need
//! to echo a correlation id.
use vstd::prelude::*;

use crate::be::spec_enc_i32;

verus! {

/// The bare header: just the correlation id.
#[derive(Debug, PartialEq, Eq, Structural, Copy, Clone)]
pub struct KafkaHeaderV0 {
    pub correlation_id: i32,
}

/// A header of whichever version; only the bare form exists.
#[derive(Debug, PartialEq, Eq, Structural, Copy, Clone)]
pub enum KafkaHeader {
    V0(KafkaHeaderV0),
}

impl KafkaHeader {
    /// A bare header echoing the given correlation id.
    pub fn new_v0(correlation_id: i32) -> (r: Self)
        ensures
            r == KafkaHeader::V0(KafkaHeaderV0 { correlation_id }),
    {
        KafkaHeader::V0(KafkaHeaderV0 { correlation_id })
    }

    /// The header's wire bytes: the big-endian correlation id.
    pub fn to_bytes(self) -> (r: Vec<u8>)
        ensures
            (match self {
                KafkaHeader::V0(h) => r@ == spec_enc_i32(h.correlation_id),
            }),
    {
        match self {
            KafkaHeader::V0(h) => {
                let mut out: Vec<u8> = Vec::new();
                crate::be::encode_i32(&mut out, h.correlation_id);
                out
            },
        }
    }
}

} // verus!
