//! The versioned response header. Which version a response uses depends on
//! the response type, not on the request header's version: ApiVersions
//! responses use the bare V0 form, DescribeTopicPartitions responses the V1
//! form with a tagged-field epilogue.
use vstd::prelude::*;

use crate::be::{encode_i32, spec_enc_i32};
use crate::tagged_field::{spec_enc_tagged_fields, write_tagged_fields, TaggedField, TaggedFieldV};

verus! {

/// The bare response header: just the echoed correlation id.
#[derive(Debug, PartialEq, Eq, Structural, Copy, Clone)]
pub struct KafkaResponseHeaderV0 {
    pub correlation_id: i32,
}

/// The V1 response header adds a tagged-field epilogue.
#[derive(Debug, Clone)]
pub struct KafkaResponseHeaderV1 {
    pub correlation_id: i32,
    pub tagged_fields: Vec<TaggedField>,
}

/// Mathematical model of a V1 response header.
pub struct KafkaResponseHeaderV1V {
    pub correlation_id: i32,
    pub tagged_fields: Seq<TaggedFieldV>,
}

impl DeepView for KafkaResponseHeaderV1 {
    type V = KafkaResponseHeaderV1V;

    open spec fn deep_view(&self) -> KafkaResponseHeaderV1V {
        KafkaResponseHeaderV1V {
            correlation_id: self.correlation_id,
            tagged_fields: self.tagged_fields.deep_view(),
        }
    }
}

/// A response header of whichever version the response type selects.
#[derive(Debug, Clone)]
pub enum KafkaResponseHeader {
    V0(KafkaResponseHeaderV0),
    V1(KafkaResponseHeaderV1),
}

/// Mathematical model of a response header.
pub enum KafkaResponseHeaderV {
    V0(KafkaResponseHeaderV0),
    V1(KafkaResponseHeaderV1V),
}

impl DeepView for KafkaResponseHeader {
    type V = KafkaResponseHeaderV;

    open spec fn deep_view(&self) -> KafkaResponseHeaderV {
        match self {
            KafkaResponseHeader::V0(h) => KafkaResponseHeaderV::V0(*h),
            KafkaResponseHeader::V1(h) => KafkaResponseHeaderV::V1(h.deep_view()),
        }
    }
}

/// Encoding of a response header: the correlation id, with the V1 form's
/// tagged-field epilogue after it.
pub open spec fn spec_enc_response_header(h: KafkaResponseHeaderV) -> Seq<u8> {
    match h {
        KafkaResponseHeaderV::V0(x) => spec_enc_i32(x.correlation_id),
        KafkaResponseHeaderV::V1(x) => spec_enc_i32(x.correlation_id) + spec_enc_tagged_fields(
            x.tagged_fields,
        ),
    }
}

impl KafkaResponseHeaderV0 {
    /// A bare response header echoing the given correlation id.
    pub fn new(correlation_id: i32) -> (r: Self)
        ensures
            r == (KafkaResponseHeaderV0 { correlation_id }),
    {
        KafkaResponseHeaderV0 { correlation_id }
    }
}

/// The bare V0 response-header model for a correlation id.
pub open spec fn spec_header_v0(correlation_id: i32) -> KafkaResponseHeaderV {
    KafkaResponseHeaderV::V0(KafkaResponseHeaderV0 { correlation_id })
}

/// The V1 response-header model, with no tagged fields, for a correlation
/// id.
pub open spec fn spec_header_v1(correlation_id: i32) -> KafkaResponseHeaderV {
    KafkaResponseHeaderV::V1(KafkaResponseHeaderV1V { correlation_id, tagged_fields: Seq::empty() })
}

impl KafkaResponseHeaderV1 {
    /// A V1 response header echoing the given correlation id, with no
    /// tagged fields.
    pub fn new(correlation_id: i32) -> (r: Self)
        ensures
            r.deep_view() == (KafkaResponseHeaderV1V {
                correlation_id,
                tagged_fields: Seq::empty(),
            }),
    {
        let r = KafkaResponseHeaderV1 { correlation_id, tagged_fields: Vec::new() };
        proof {
            assert(r.tagged_fields.deep_view() =~= Seq::<TaggedFieldV>::empty());
        }
        r
    }
}

impl KafkaResponseHeader {
    /// A bare V0 response header.
    pub fn new_v0(correlation_id: i32) -> (r: Self)
        ensures
            r.deep_view() == spec_header_v0(correlation_id),
    {
        KafkaResponseHeader::V0(KafkaResponseHeaderV0::new(correlation_id))
    }

    /// A V1 response header with an empty tagged-field epilogue.
    pub fn new_v1(correlation_id: i32) -> (r: Self)
        ensures
            r.deep_view() == spec_header_v1(correlation_id),
    {
        KafkaResponseHeader::V1(KafkaResponseHeaderV1::new(correlation_id))
    }

    /// Append this header's wire bytes to `out`.
    pub fn serialize(&self, out: &mut Vec<u8>)
        ensures
            final(out)@ == old(out)@ + spec_enc_response_header(self.deep_view()),
    {
        match self {
            KafkaResponseHeader::V0(h) => {
                encode_i32(out, h.correlation_id);
            },
            KafkaResponseHeader::V1(h) => {
                encode_i32(out, h.correlation_id);
                write_tagged_fields(out, &h.tagged_fields);
            },
        }
    }
}

} // verus!
