//! Response-side writers: compact strings, compact byte buffers, compact
//! arrays and tagged-field epilogues, all appending to a byte vector.
use vstd::prelude::*;

use crate::elems::{enc_fn, spec_enc_compact_array, write_compact_array, WireEncode};
use crate::primitives::{encode_compact_bytes, spec_enc_compact_bytes, spec_enc_compact_string};
use crate::tagged_field::{spec_enc_tagged_fields, spec_tagged_fields_wf, write_tagged_fields,
    TaggedField};

verus! {

/// Append the compact encoding of a string, exactly when the length of its
/// UTF-8 bytes fits the length varint.
pub fn write_compact_string_stream(out: &mut Vec<u8>, input: &str) -> (r: bool)
    ensures
        r == (vstd::utf8::encode_utf8(input@).len() + 1 <= u64::MAX),
        r ==> final(out)@ == old(out)@ + spec_enc_compact_string(input@),
{
    crate::primitives::write_compact_string(out, input)
}

/// Append the compact encoding of a byte buffer, exactly when its length
/// fits the length varint.
pub fn write_compact_vec_u8_stream(out: &mut Vec<u8>, v: &[u8]) -> (r: bool)
    ensures
        r == (v@.len() + 1 <= u64::MAX),
        r ==> final(out)@ == old(out)@ + spec_enc_compact_bytes(v@),
{
    encode_compact_bytes(out, v)
}

/// Append the encoding of a tagged-field list; these are always encodable.
pub fn write_kafka_tagged_fields_stream(out: &mut Vec<u8>, tagged_fields: &Vec<TaggedField>)
    ensures
        spec_tagged_fields_wf(tagged_fields.deep_view()),
        final(out)@ == old(out)@ + spec_enc_tagged_fields(tagged_fields.deep_view()),
{
    write_tagged_fields(out, tagged_fields)
}

/// Append the compact-array encoding of a list of wire elements, exactly
/// when the count fits its varint and every element is well-formed.
pub fn write_kafka_compact_array_stream<T: WireEncode>(out: &mut Vec<u8>, v: &Vec<T>) -> (r: bool)
    ensures
        r == (v.deep_view().len() + 1 <= u64::MAX && forall|i: int|
            0 <= i < v.deep_view().len() ==> T::sp_wf(#[trigger] v.deep_view()[i])),
        r ==> final(out)@ == old(out)@ + spec_enc_compact_array(v.deep_view(), enc_fn::<T>()),
{
    write_compact_array::<T>(out, v)
}

} // verus!
