//! Tagged fields: the extensible `(tag, length-prefixed bytes)` entries
//! appended to many request, response and record structures. Unknown tags
//! are carried through untouched, so a tagged field always re-encodes to the
//! bytes it was decoded from.
use vstd::prelude::*;

use crate::elems::{decode_elems, enc_fn, lemma_parse_elems_of_enc, parse_fn, spec_enc_elems,
    spec_parse_elems, WireDecode, WireEncode, WireRoundTrip};
use crate::primitives::{extend_bytes, lemma_subrange_split};
use crate::varint::{decode_uvarint, encode_uvarint, lemma_parse_uvarint_of_enc,
    spec_enc_uvarint, spec_parse_uvarint};
use vstd::slice::{slice_subrange, slice_to_vec};

verus! {

/// One tagged field: a numeric tag and its raw data bytes.
#[derive(Debug, Clone, PartialEq, Eq)]
pub struct TaggedField {
    pub field_tag: u64,
    pub data: Vec<u8>,
}

/// Mathematical model of a tagged field.
pub struct TaggedFieldV {
    pub field_tag: u64,
    pub data: Seq<u8>,
}

impl View for TaggedField {
    type V = TaggedFieldV;

    open spec fn view(&self) -> TaggedFieldV {
        TaggedFieldV { field_tag: self.field_tag, data: self.data@ }
    }
}

impl DeepView for TaggedField {
    type V = TaggedFieldV;

    open spec fn deep_view(&self) -> TaggedFieldV {
        self@
    }
}

/// A tagged field is encodable when its data length fits the length varint.
pub open spec fn spec_tagged_field_wf(t: TaggedFieldV) -> bool {
    t.data.len() <= u64::MAX
}

/// Encoding of one tagged field: tag varint, length varint, data bytes.
pub open spec fn spec_enc_tagged_field(t: TaggedFieldV) -> Seq<u8> {
    spec_enc_uvarint(t.field_tag) + spec_enc_uvarint(t.data.len() as u64) + t.data
}

/// Parse one tagged field at `pos`. The tag value is never interpreted:
/// unrecognized tags decode like any other.
pub open spec fn spec_parse_tagged_field(s: Seq<u8>, pos: int) -> Option<(TaggedFieldV, int)> {
    match spec_parse_uvarint(s, pos) {
        Some((tag, p)) => match spec_parse_uvarint(s, p) {
            Some((len, q)) => if q + len <= s.len() {
                Some((TaggedFieldV { field_tag: tag, data: s.subrange(q, q + len) }, q + len))
            } else {
                None
            },
            None => None,
        },
        None => None,
    }
}

impl WireDecode for TaggedField {
    open spec fn sp_parse(s: Seq<u8>, pos: int) -> Option<(TaggedFieldV, int)> {
        spec_parse_tagged_field(s, pos)
    }

    proof fn lemma_parse_bounds(s: Seq<u8>, pos: int) {
        crate::varint::lemma_parse_uvarint_bounds(s, pos);
        let (tag, p) = spec_parse_uvarint(s, pos)->Some_0;
        crate::varint::lemma_parse_uvarint_bounds(s, p);
    }

    fn wire_decode(input: &[u8], pos: usize) -> (r: Option<(Self, usize)>) {
        match decode_uvarint(input, pos) {
            Some((tag, p)) => match decode_uvarint(input, p) {
                Some((len, q)) => {
                    if len <= (input.len() - q) as u64 {
                        let lenu = len as usize;
                        let data = slice_to_vec(slice_subrange(input, q, q + lenu));
                        Some((TaggedField { field_tag: tag, data }, q + lenu))
                    } else {
                        None
                    }
                },
                None => None,
            },
            None => None,
        }
    }
}

impl WireEncode for TaggedField {
    open spec fn sp_wf(m: TaggedFieldV) -> bool {
        spec_tagged_field_wf(m)
    }

    open spec fn sp_enc(m: TaggedFieldV) -> Seq<u8> {
        spec_enc_tagged_field(m)
    }

    fn wire_encode(&self, out: &mut Vec<u8>) -> (r: bool) {
        encode_uvarint(out, self.field_tag);
        encode_uvarint(out, self.data.len() as u64);
        extend_bytes(out, self.data.as_slice());
        assert(out@ =~= old(out)@ + spec_enc_tagged_field(self@));
        true
    }
}

impl WireRoundTrip for TaggedField {
    proof fn lemma_parse_of_enc(s: Seq<u8>, pos: int, m: TaggedFieldV) {
        let etag = spec_enc_uvarint(m.field_tag);
        let elen = spec_enc_uvarint(m.data.len() as u64);
        assert(etag + elen + m.data =~= etag + (elen + m.data));
        lemma_subrange_split(s, pos, etag, elen + m.data);
        lemma_subrange_split(s, pos + etag.len(), elen, m.data);
        lemma_parse_uvarint_of_enc(s, pos, m.field_tag);
        lemma_parse_uvarint_of_enc(s, pos + etag.len(), m.data.len() as u64);
    }
}

/// A tagged-field list is encodable when its count fits the count varint and
/// every field is encodable.
pub open spec fn spec_tagged_fields_wf(l: Seq<TaggedFieldV>) -> bool {
    l.len() <= u64::MAX && forall|i: int| 0 <= i < l.len() ==> spec_tagged_field_wf(#[trigger] l[i])
}

/// Encoding of a tagged-field list: the field count as a plain varint, then
/// the fields. Unlike compact arrays, the count is not offset by one.
pub open spec fn spec_enc_tagged_fields(l: Seq<TaggedFieldV>) -> Seq<u8> {
    spec_enc_uvarint(l.len() as u64) + spec_enc_elems(l, enc_fn::<TaggedField>())
}

/// Parse a tagged-field list at `pos`.
pub open spec fn spec_parse_tagged_fields(s: Seq<u8>, pos: int) -> Option<(Seq<TaggedFieldV>, int)> {
    match spec_parse_uvarint(s, pos) {
        Some((n, p)) => spec_parse_elems(s, p, n as nat, parse_fn::<TaggedField>()),
        None => None,
    }
}

/// A tagged-field list round-trips, whatever its tags hold.
pub proof fn lemma_parse_tagged_fields_of_enc(s: Seq<u8>, pos: int, l: Seq<TaggedFieldV>)
    requires
        0 <= pos,
        spec_tagged_fields_wf(l),
        pos + spec_enc_tagged_fields(l).len() <= s.len(),
        s.subrange(pos, pos + spec_enc_tagged_fields(l).len() as int) =~= spec_enc_tagged_fields(l),
    ensures
        spec_parse_tagged_fields(s, pos) == Some((l, pos + spec_enc_tagged_fields(l).len())),
{
    let c = spec_enc_uvarint(l.len() as u64);
    let e = spec_enc_elems(l, enc_fn::<TaggedField>());
    lemma_subrange_split(s, pos, c, e);
    lemma_parse_uvarint_of_enc(s, pos, l.len() as u64);
    lemma_parse_elems_of_enc::<TaggedField>(s, pos + c.len(), l);
}

/// Decode a tagged-field list, exactly as the specification-level parse
/// does.
pub fn parse_tagged_fields(input: &[u8], pos: usize) -> (r: Option<(Vec<TaggedField>, usize)>)
    requires
        pos <= input@.len(),
    ensures
        match r {
            Some((v, end)) => spec_parse_tagged_fields(input@, pos as int) == Some(
                (v.deep_view(), end as int),
            ) && pos < end <= input@.len(),
            None => spec_parse_tagged_fields(input@, pos as int) is None,
        },
{
    match decode_uvarint(input, pos) {
        Some((n, p)) => decode_elems::<TaggedField>(input, p, n),
        None => None,
    }
}

/// Append the encoding of a tagged-field list to `out`. Tagged-field lists
/// are always encodable: the count and every data length fit their varints.
pub fn write_tagged_fields(out: &mut Vec<u8>, l: &Vec<TaggedField>)
    ensures
        spec_tagged_fields_wf(l.deep_view()),
        final(out)@ == old(out)@ + spec_enc_tagged_fields(l.deep_view()),
{
    assert(l.deep_view().len() == l@.len());
    proof {
        assert forall|i: int| 0 <= i < l.deep_view().len() implies spec_tagged_field_wf(
            #[trigger] l.deep_view()[i],
        ) by {
            crate::primitives::lemma_vec_len_bounded(&l@[i].data);
        }
    }
    encode_uvarint(out, l.len() as u64);
    let ok = crate::elems::encode_elems::<TaggedField>(out, l);
    assert(ok);
    assert(out@ =~= old(out)@ + spec_enc_tagged_fields(l.deep_view()));
}

impl TaggedField {
    /// Copy this tagged field.
    pub fn duplicate(&self) -> (r: TaggedField)
        ensures
            r.deep_view() == self.deep_view(),
    {
        TaggedField { field_tag: self.field_tag, data: crate::primitives::clone_bytes(&self.data) }
    }
}

/// Copy a tagged-field list.
#[verifier::loop_isolation(false)]
pub fn clone_tagged_fields(v: &Vec<TaggedField>) -> (r: Vec<TaggedField>)
    ensures
        r.deep_view() == v.deep_view(),
{
    let mut out: Vec<TaggedField> = Vec::new();
    let mut i: usize = 0;
    assert(out.deep_view() =~= v.deep_view().take(0));
    while i < v.len()
        invariant
            i <= v@.len(),
            out.deep_view() == v.deep_view().take(i as int),
        decreases v@.len() - i,
    {
        let ghost acc0 = out.deep_view();
        out.push(v[i].duplicate());
        proof {
            assert(out.deep_view() =~= v.deep_view().take(i as int + 1));
        }
        i = i + 1;
    }
    proof {
        assert(v.deep_view().take(v@.len() as int) =~= v.deep_view());
    }
    out
}

} // verus!
