//! Record headers: the `(key, value)` byte pairs carried by each record,
//! each side framed by a plain varint length.
use vstd::prelude::*;

use crate::elems::{WireDecode, WireEncode, WireRoundTrip};
use crate::primitives::{extend_bytes, lemma_subrange_split, lemma_vec_len_bounded};
use crate::varint::{decode_uvarint, encode_uvarint, lemma_parse_uvarint_of_enc, spec_enc_uvarint,
    spec_parse_uvarint};
use vstd::slice::{slice_subrange, slice_to_vec};

verus! {

/// One record header.
#[derive(Debug, Clone, PartialEq, Eq)]
pub struct RecordHeader {
    pub key: Vec<u8>,
    pub value: Vec<u8>,
}

/// Mathematical model of a record header.
pub struct RecordHeaderV {
    pub key: Seq<u8>,
    pub value: Seq<u8>,
}

impl View for RecordHeader {
    type V = RecordHeaderV;

    open spec fn view(&self) -> RecordHeaderV {
        RecordHeaderV { key: self.key@, value: self.value@ }
    }
}

impl DeepView for RecordHeader {
    type V = RecordHeaderV;

    open spec fn deep_view(&self) -> RecordHeaderV {
        self@
    }
}

/// A record header is encodable when both lengths fit their varints.
pub open spec fn spec_record_header_wf(h: RecordHeaderV) -> bool {
    h.key.len() <= u64::MAX && h.value.len() <= u64::MAX
}

/// Encoding of one record header: key length varint, key bytes, value
/// length varint, value bytes.
pub open spec fn spec_enc_record_header(h: RecordHeaderV) -> Seq<u8> {
    spec_enc_uvarint(h.key.len() as u64) + h.key + spec_enc_uvarint(h.value.len() as u64) + h.value
}

/// Parse one record header at `pos`.
pub open spec fn spec_parse_record_header(s: Seq<u8>, pos: int) -> Option<(RecordHeaderV, int)> {
    match spec_parse_uvarint(s, pos) {
        Some((klen, p)) => if p + klen <= s.len() {
            let key = s.subrange(p, p + klen);
            match spec_parse_uvarint(s, p + klen) {
                Some((vlen, q)) => if q + vlen <= s.len() {
                    Some((RecordHeaderV { key, value: s.subrange(q, q + vlen) }, q + vlen))
                } else {
                    None
                },
                None => None,
            }
        } else {
            None
        },
        None => None,
    }
}

impl WireDecode for RecordHeader {
    open spec fn sp_parse(s: Seq<u8>, pos: int) -> Option<(RecordHeaderV, int)> {
        spec_parse_record_header(s, pos)
    }

    proof fn lemma_parse_bounds(s: Seq<u8>, pos: int) {
        crate::varint::lemma_parse_uvarint_bounds(s, pos);
        let (klen, p) = spec_parse_uvarint(s, pos)->Some_0;
        crate::varint::lemma_parse_uvarint_bounds(s, p + klen);
    }

    fn wire_decode(input: &[u8], pos: usize) -> (r: Option<(Self, usize)>) {
        match decode_uvarint(input, pos) {
            Some((klen, p)) => {
                if klen <= (input.len() - p) as u64 {
                    let kl = klen as usize;
                    let key = slice_to_vec(slice_subrange(input, p, p + kl));
                    match decode_uvarint(input, p + kl) {
                        Some((vlen, q)) => {
                            if vlen <= (input.len() - q) as u64 {
                                let vl = vlen as usize;
                                let value = slice_to_vec(slice_subrange(input, q, q + vl));
                                Some((RecordHeader { key, value }, q + vl))
                            } else {
                                None
                            }
                        },
                        None => None,
                    }
                } else {
                    None
                }
            },
            None => None,
        }
    }
}

impl WireEncode for RecordHeader {
    open spec fn sp_wf(m: RecordHeaderV) -> bool {
        spec_record_header_wf(m)
    }

    open spec fn sp_enc(m: RecordHeaderV) -> Seq<u8> {
        spec_enc_record_header(m)
    }

    fn wire_encode(&self, out: &mut Vec<u8>) -> (r: bool) {
        proof {
            lemma_vec_len_bounded(&self.key);
            lemma_vec_len_bounded(&self.value);
        }
        encode_uvarint(out, self.key.len() as u64);
        extend_bytes(out, self.key.as_slice());
        encode_uvarint(out, self.value.len() as u64);
        extend_bytes(out, self.value.as_slice());
        assert(out@ =~= old(out)@ + spec_enc_record_header(self@));
        true
    }
}

impl WireRoundTrip for RecordHeader {
    proof fn lemma_parse_of_enc(s: Seq<u8>, pos: int, m: RecordHeaderV) {
        let ekl = spec_enc_uvarint(m.key.len() as u64);
        let evl = spec_enc_uvarint(m.value.len() as u64);
        assert(spec_enc_record_header(m) =~= ekl + (m.key + (evl + m.value)));
        lemma_subrange_split(s, pos, ekl, m.key + (evl + m.value));
        lemma_subrange_split(s, pos + ekl.len(), m.key, evl + m.value);
        lemma_subrange_split(s, pos + ekl.len() + m.key.len(), evl, m.value);
        lemma_parse_uvarint_of_enc(s, pos, m.key.len() as u64);
        lemma_parse_uvarint_of_enc(s, pos + ekl.len() + m.key.len(), m.value.len() as u64);
    }
}

impl RecordHeader {
    /// Copy this record header.
    pub fn duplicate(&self) -> (r: RecordHeader)
        ensures
            r.deep_view() == self.deep_view(),
    {
        RecordHeader {
            key: crate::primitives::clone_bytes(&self.key),
            value: crate::primitives::clone_bytes(&self.value),
        }
    }
}

/// Copy a record-header list.
#[verifier::loop_isolation(false)]
pub fn clone_record_headers(v: &Vec<RecordHeader>) -> (r: Vec<RecordHeader>)
    ensures
        r.deep_view() == v.deep_view(),
{
    let mut out: Vec<RecordHeader> = Vec::new();
    let mut i: usize = 0;
    assert(out.deep_view() =~= v.deep_view().take(0));
    while i < v.len()
        invariant
            i <= v@.len(),
            out.deep_view() == v.deep_view().take(i as int),
        decreases v@.len() - i,
    {
        out.push(v[i].duplicate());
        proof {
            assert(out.deep_view() =~= v.deep_view().take(i as int + 1));
        }
        i = i + 1;
    }
    proof {
        assert(v.deep_view().take(v@.len() as int) =~= v.deep_view());
    }
    out
}

} // verus!
