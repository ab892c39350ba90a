//! The replicated-log record format: CRC-validated record batches of
//! varint-framed records, whose values carry cluster metadata.
//!
//! A batch is written in two passes: everything after the CRC field is
//! rendered into a scratch buffer, the CRC-32C of that buffer becomes the
//! stored checksum, and the prefix fields are emitted around it. Reading
//! validates the magic byte and the checksum, and every record's declared
//! length must match the bytes its fields actually consume.
pub mod record_header;
pub mod record_value;

use vstd::prelude::*;

use crate::be::{decode_i16, decode_i32, decode_i64, decode_i8, decode_u32, encode_i16, encode_i32,
    encode_i64, encode_i8, encode_u32, lemma_parse_i16_of_enc, lemma_parse_i32_of_enc,
    lemma_parse_i64_of_enc, lemma_parse_i8_of_enc, lemma_parse_u32_of_enc, spec_enc_i16,
    spec_enc_i32, spec_enc_i64, spec_enc_i8, spec_enc_u32, spec_parse_i16, spec_parse_i32,
    spec_parse_i64, spec_parse_i8, spec_parse_u32};
use crate::elems::{decode_elems, enc_fn, encode_elems, lemma_parse_elems_of_enc, parse_fn,
    spec_enc_elems, spec_parse_elems, WireDecode, WireEncode, WireRoundTrip};
use crate::foreign::crc32c_of;
use crate::primitives::{extend_bytes, lemma_parse_signed_bytes_of_enc, lemma_subrange_split,
    lemma_vec_len_bounded, parse_vec_u8_with_signed_varint_length, spec_enc_signed_bytes,
    spec_parse_signed_bytes, write_vec_u8_with_signed_varint_length};
use crate::records::record_header::{RecordHeader, RecordHeaderV, spec_record_header_wf};
use crate::records::record_value::{decode_cluster_metadata_record, encode_cluster_metadata_record,
    lemma_parse_cluster_metadata_record_of_enc, spec_cluster_metadata_record_wf,
    spec_enc_cluster_metadata_record, spec_parse_cluster_metadata_record, ClusterMetadataRecord,
    ClusterMetadataRecordV};
use crate::varint::{decode_svarint, decode_uvarint, encode_svarint, encode_uvarint,
    lemma_parse_svarint_of_enc, lemma_parse_uvarint_of_enc, spec_enc_svarint, spec_enc_uvarint,
    spec_parse_svarint, spec_parse_uvarint};
use vstd::slice::slice_subrange;

verus! {

/// One log record: its attributes, deltas, key, cluster-metadata value and
/// headers. The self-describing length varint that precedes these fields on
/// the wire is derived on write and checked on read, never stored.
#[derive(Debug, Clone, PartialEq, Eq)]
pub struct Record {
    pub attributes: i8,
    pub timestamp_delta: i64,
    pub offset_delta: i32,
    pub key: Vec<u8>,
    pub value: ClusterMetadataRecord,
    pub headers: Vec<RecordHeader>,
}

/// Mathematical model of a record.
pub struct RecordV {
    pub attributes: i8,
    pub timestamp_delta: i64,
    pub offset_delta: i32,
    pub key: Seq<u8>,
    pub value: ClusterMetadataRecordV,
    pub headers: Seq<RecordHeaderV>,
}

impl DeepView for Record {
    type V = RecordV;

    open spec fn deep_view(&self) -> RecordV {
        RecordV {
            attributes: self.attributes,
            timestamp_delta: self.timestamp_delta,
            offset_delta: self.offset_delta,
            key: self.key@,
            value: self.value.deep_view(),
            headers: self.headers.deep_view(),
        }
    }
}

/// Encoding of a record's fields, without the leading length varint.
pub open spec fn spec_enc_record_body(m: RecordV) -> Seq<u8> {
    spec_enc_i8(m.attributes) + spec_enc_svarint(m.timestamp_delta) + spec_enc_svarint(
        m.offset_delta as i64,
    ) + spec_enc_signed_bytes(m.key) + spec_enc_signed_bytes(
        spec_enc_cluster_metadata_record(m.value),
    ) + spec_enc_uvarint(m.headers.len() as u64) + spec_enc_elems(
        m.headers,
        enc_fn::<RecordHeader>(),
    )
}

/// A record is encodable when its key, value and headers fit their length
/// varints.
pub open spec fn spec_record_wf(m: RecordV) -> bool {
    &&& m.key.len() <= i64::MAX
    &&& spec_cluster_metadata_record_wf(m.value)
    &&& spec_enc_cluster_metadata_record(m.value).len() <= i64::MAX
    &&& m.headers.len() <= u64::MAX
    &&& (forall|i: int| 0 <= i < m.headers.len() ==> spec_record_header_wf(#[trigger] m.headers[i]))
    &&& spec_enc_record_body(m).len() <= i64::MAX
}

/// Encoding of a record: its length varint, then its fields.
pub open spec fn spec_enc_record(m: RecordV) -> Seq<u8> {
    spec_enc_svarint(spec_enc_record_body(m).len() as i64) + spec_enc_record_body(m)
}

/// Parse one record at `pos`. The declared length must equal the byte count
/// the fields actually consume, the value region must be consumed exactly by
/// the nested cluster-metadata parse, and the offset delta must fit 32 bits.
pub open spec fn spec_parse_record(s: Seq<u8>, pos: int) -> Option<(RecordV, int)> {
    match spec_parse_svarint(s, pos) {
        Some((len, p)) => if len < 0 {
            None
        } else {
            match spec_parse_i8(s, p) {
                Some((attributes, p1)) => match spec_parse_svarint(s, p1) {
                    Some((timestamp_delta, p2)) => match spec_parse_svarint(s, p2) {
                        Some((od, p3)) => if od < i32::MIN || od > i32::MAX {
                            None
                        } else {
                            match spec_parse_signed_bytes(s, p3) {
                                Some((key, p4)) => match spec_parse_signed_bytes(s, p4) {
                                    Some((vbytes, p5)) => match spec_parse_cluster_metadata_record(
                                        vbytes,
                                        0,
                                    ) {
                                        Some((value, vend)) => if vend != vbytes.len() {
                                            None
                                        } else {
                                            match spec_parse_uvarint(s, p5) {
                                                Some((hn, p6)) => match spec_parse_elems(
                                                    s,
                                                    p6,
                                                    hn as nat,
                                                    parse_fn::<RecordHeader>(),
                                                ) {
                                                    Some((headers, end)) => if end - p == len {
                                                        Some(
                                                            (
                                                                RecordV {
                                                                    attributes,
                                                                    timestamp_delta,
                                                                    offset_delta: od as i32,
                                                                    key,
                                                                    value,
                                                                    headers,
                                                                },
                                                                end,
                                                            ),
                                                        )
                                                    } else {
                                                        None
                                                    },
                                                    None => None,
                                                },
                                                None => None,
                                            }
                                        },
                                        None => None,
                                    },
                                    None => None,
                                },
                                None => None,
                            }
                        },
                        None => None,
                    },
                    None => None,
                },
                None => None,
            }
        },
        None => None,
    }
}

/// A record parse honors its declared length: the bytes consumed after the
/// length varint are exactly the count the varint declared.
pub proof fn lemma_record_declared_length(s: Seq<u8>, pos: int)
    requires
        spec_parse_record(s, pos) is Some,
    ensures
        ({
            let (m, end) = spec_parse_record(s, pos)->Some_0;
            let (len, p) = spec_parse_svarint(s, pos)->Some_0;
            end == p + len
        }),
{
}

/// Truncating the bytes of an encoded record — dropping any suffix of its
/// body without updating its length varint — always causes a parse error:
/// whatever the remaining bytes parse as, they cannot span the declared
/// length, so no silent misread is possible.
pub proof fn lemma_record_truncation_fails(m: RecordV, k: int)
    requires
        spec_record_wf(m),
        0 <= k < spec_enc_record_body(m).len(),
    ensures
        spec_parse_record(
            spec_enc_svarint(spec_enc_record_body(m).len() as i64) + spec_enc_record_body(m).take(
                k,
            ),
            0,
        ) is None,
{
    let body = spec_enc_record_body(m);
    let lvar = spec_enc_svarint(body.len() as i64);
    let s = lvar + body.take(k);
    assert(s.subrange(0, lvar.len() as int) =~= lvar);
    crate::varint::lemma_parse_svarint_of_enc(s, 0, body.len() as i64);
    if spec_parse_record(s, 0) is Some {
        Record::lemma_parse_bounds(s, 0);
        lemma_record_declared_length(s, 0);
        let (rec, end) = spec_parse_record(s, 0)->Some_0;
        assert(end == lvar.len() + body.len());
        assert(end <= s.len());
        assert(s.len() == lvar.len() + k);
        assert(false);
    }
}

impl WireDecode for Record {
    open spec fn sp_parse(s: Seq<u8>, pos: int) -> Option<(RecordV, int)> {
        spec_parse_record(s, pos)
    }

    proof fn lemma_parse_bounds(s: Seq<u8>, pos: int) {
        let (len, p) = spec_parse_svarint(s, pos)->Some_0;
        crate::varint::lemma_parse_svarint_bounds(s, pos);
        let (attributes, p1) = spec_parse_i8(s, p)->Some_0;
        let (td, p2) = spec_parse_svarint(s, p1)->Some_0;
        crate::varint::lemma_parse_svarint_bounds(s, p1);
        let (od, p3) = spec_parse_svarint(s, p2)->Some_0;
        crate::varint::lemma_parse_svarint_bounds(s, p2);
        let (key, p4) = spec_parse_signed_bytes(s, p3)->Some_0;
        crate::varint::lemma_parse_svarint_bounds(s, p3);
        let (vbytes, p5) = spec_parse_signed_bytes(s, p4)->Some_0;
        crate::varint::lemma_parse_svarint_bounds(s, p4);
        let (hn, p6) = spec_parse_uvarint(s, p5)->Some_0;
        crate::varint::lemma_parse_uvarint_bounds(s, p5);
        crate::elems::lemma_parse_elems_bounds::<RecordHeader>(s, p6, hn as nat);
    }

    fn wire_decode(input: &[u8], pos: usize) -> (r: Option<(Self, usize)>) {
        let (len, p) = match decode_svarint(input, pos) {
            Some(x) => x,
            None => {
                return None;
            },
        };
        if len < 0 {
            return None;
        }
        let (attributes, p1) = match decode_i8(input, p) {
            Some(x) => x,
            None => {
                return None;
            },
        };
        let (timestamp_delta, p2) = match decode_svarint(input, p1) {
            Some(x) => x,
            None => {
                return None;
            },
        };
        let (od, p3) = match decode_svarint(input, p2) {
            Some(x) => x,
            None => {
                return None;
            },
        };
        if od < i32::MIN as i64 || od > i32::MAX as i64 {
            return None;
        }
        let (key, p4) = match parse_vec_u8_with_signed_varint_length(input, p3) {
            Some(x) => x,
            None => {
                return None;
            },
        };
        let (vbytes, p5) = match parse_vec_u8_with_signed_varint_length(input, p4) {
            Some(x) => x,
            None => {
                return None;
            },
        };
        let (value, vend) = match decode_cluster_metadata_record(vbytes.as_slice(), 0) {
            Some(x) => x,
            None => {
                return None;
            },
        };
        if vend != vbytes.len() {
            return None;
        }
        let (hn, p6) = match decode_uvarint(input, p5) {
            Some(x) => x,
            None => {
                return None;
            },
        };
        let (headers, end) = match decode_elems::<RecordHeader>(input, p6, hn) {
            Some(x) => x,
            None => {
                return None;
            },
        };
        if (end - p) as u64 != len as u64 {
            return None;
        }
        Some(
            (
                Record {
                    attributes,
                    timestamp_delta,
                    offset_delta: od as i32,
                    key,
                    value,
                    headers,
                },
                end,
            ),
        )
    }
}

impl WireEncode for Record {
    open spec fn sp_wf(m: RecordV) -> bool {
        spec_record_wf(m)
    }

    open spec fn sp_enc(m: RecordV) -> Seq<u8> {
        spec_enc_record(m)
    }

    fn wire_encode(&self, out: &mut Vec<u8>) -> (r: bool) {
        let mut body: Vec<u8> = Vec::new();
        encode_i8(&mut body, self.attributes);
        encode_svarint(&mut body, self.timestamp_delta);
        encode_svarint(&mut body, self.offset_delta as i64);
        if !write_vec_u8_with_signed_varint_length(&mut body, self.key.as_slice()) {
            return false;
        }
        let mut vb: Vec<u8> = Vec::new();
        if !encode_cluster_metadata_record(&mut vb, &self.value) {
            return false;
        }
        if !write_vec_u8_with_signed_varint_length(&mut body, vb.as_slice()) {
            return false;
        }
        encode_uvarint(&mut body, self.headers.len() as u64);
        proof {
            assert forall|i: int| 0 <= i < self.headers.deep_view().len() implies
                spec_record_header_wf(#[trigger] self.headers.deep_view()[i]) by {
                lemma_vec_len_bounded(&self.headers@[i].key);
                lemma_vec_len_bounded(&self.headers@[i].value);
            }
        }
        let ok = encode_elems::<RecordHeader>(&mut body, &self.headers);
        assert(ok);
        assert(body@ =~= spec_enc_record_body(self.deep_view()));
        if (body.len() as u64) > (i64::MAX as u64) {
            return false;
        }
        encode_svarint(out, body.len() as i64);
        extend_bytes(out, body.as_slice());
        assert(out@ =~= old(out)@ + spec_enc_record(self.deep_view()));
        true
    }
}

impl WireRoundTrip for Record {
    #[verifier::rlimit(100)]
    proof fn lemma_parse_of_enc(s: Seq<u8>, pos: int, m: RecordV) {
        let body = spec_enc_record_body(m);
        let e0 = spec_enc_svarint(body.len() as i64);
        let e1 = spec_enc_i8(m.attributes);
        let e2 = spec_enc_svarint(m.timestamp_delta);
        let e3 = spec_enc_svarint(m.offset_delta as i64);
        let e4 = spec_enc_signed_bytes(m.key);
        let vb = spec_enc_cluster_metadata_record(m.value);
        let e5 = spec_enc_signed_bytes(vb);
        let e6 = spec_enc_uvarint(m.headers.len() as u64);
        let e7 = spec_enc_elems(m.headers, enc_fn::<RecordHeader>());
        assert(spec_enc_record(m) =~= e0 + (e1 + (e2 + (e3 + (e4 + (e5 + (e6 + e7)))))));
        let p = pos + e0.len();
        let p1 = p + e1.len();
        let p2 = p1 + e2.len();
        let p3 = p2 + e3.len();
        let p4 = p3 + e4.len();
        let p5 = p4 + e5.len();
        let p6 = p5 + e6.len();
        lemma_subrange_split(s, pos, e0, e1 + (e2 + (e3 + (e4 + (e5 + (e6 + e7))))));
        lemma_subrange_split(s, p, e1, e2 + (e3 + (e4 + (e5 + (e6 + e7)))));
        lemma_subrange_split(s, p1, e2, e3 + (e4 + (e5 + (e6 + e7))));
        lemma_subrange_split(s, p2, e3, e4 + (e5 + (e6 + e7)));
        lemma_subrange_split(s, p3, e4, e5 + (e6 + e7));
        lemma_subrange_split(s, p4, e5, e6 + e7);
        lemma_subrange_split(s, p5, e6, e7);
        lemma_parse_svarint_of_enc(s, pos, body.len() as i64);
        lemma_parse_i8_of_enc(s, p, m.attributes);
        lemma_parse_svarint_of_enc(s, p1, m.timestamp_delta);
        lemma_parse_svarint_of_enc(s, p2, m.offset_delta as i64);
        lemma_parse_signed_bytes_of_enc(s, p3, m.key);
        lemma_parse_signed_bytes_of_enc(s, p4, vb);
        assert(vb.subrange(0, vb.len() as int) =~= vb);
        lemma_parse_cluster_metadata_record_of_enc(vb, 0, m.value);
        lemma_parse_uvarint_of_enc(s, p5, m.headers.len() as u64);
        lemma_parse_elems_of_enc::<RecordHeader>(s, p6, m.headers);
    }
}

/// One record batch: the fixed header fields and its records. The batch
/// length, the last-offset delta and the record count are derived on write,
/// never trusted from the value; the crc field must validate on read and is
/// recomputed on write.
#[derive(Debug, Clone, PartialEq, Eq)]
pub struct RecordBatch {
    pub base_offset: i64,
    pub partition_leader_epoch: i32,
    pub crc: u32,
    pub attributes: i16,
    pub base_timestamp: i64,
    pub max_timestamp: i64,
    pub producer_id: i64,
    pub producer_epoch: i16,
    pub base_sequence: i32,
    pub records: Vec<Record>,
}

/// Mathematical model of a record batch.
pub struct RecordBatchV {
    pub base_offset: i64,
    pub partition_leader_epoch: i32,
    pub crc: u32,
    pub attributes: i16,
    pub base_timestamp: i64,
    pub max_timestamp: i64,
    pub producer_id: i64,
    pub producer_epoch: i16,
    pub base_sequence: i32,
    pub records: Seq<RecordV>,
}

impl DeepView for RecordBatch {
    type V = RecordBatchV;

    open spec fn deep_view(&self) -> RecordBatchV {
        RecordBatchV {
            base_offset: self.base_offset,
            partition_leader_epoch: self.partition_leader_epoch,
            crc: self.crc,
            attributes: self.attributes,
            base_timestamp: self.base_timestamp,
            max_timestamp: self.max_timestamp,
            producer_id: self.producer_id,
            producer_epoch: self.producer_epoch,
            base_sequence: self.base_sequence,
            records: self.records.deep_view(),
        }
    }
}

/// Everything after the crc field: the region the checksum covers.
pub open spec fn spec_enc_record_batch_tail(m: RecordBatchV) -> Seq<u8> {
    spec_enc_i16(m.attributes) + spec_enc_i32((m.records.len() - 1) as i32) + spec_enc_i64(
        m.base_timestamp,
    ) + spec_enc_i64(m.max_timestamp) + spec_enc_i64(m.producer_id) + spec_enc_i16(
        m.producer_epoch,
    ) + spec_enc_i32(m.base_sequence) + spec_enc_i32(m.records.len() as i32) + spec_enc_elems(
        m.records,
        enc_fn::<Record>(),
    )
}

/// A batch is encodable when its record count and derived batch length fit
/// their 32-bit fields and every record is encodable.
pub open spec fn spec_record_batch_wf(m: RecordBatchV) -> bool {
    &&& m.records.len() <= i32::MAX
    &&& (forall|i: int| 0 <= i < m.records.len() ==> spec_record_wf(#[trigger] m.records[i]))
    &&& spec_enc_record_batch_tail(m).len() + 9 <= i32::MAX
}

/// Encoding of a record batch. The stored crc field is ignored: the
/// checksum of the tail region is computed and written in its place, and
/// the batch length counts every byte after its own field.
pub open spec fn spec_enc_record_batch(m: RecordBatchV) -> Seq<u8> {
    let tail = spec_enc_record_batch_tail(m);
    spec_enc_i64(m.base_offset) + spec_enc_i32((tail.len() + 9) as i32) + spec_enc_i32(
        m.partition_leader_epoch,
    ) + spec_enc_i8(2) + spec_enc_u32(crc32c_of(tail)) + tail
}

/// The batch as decoding returns it: its crc field holding the checksum of
/// its own encoded tail.
pub open spec fn spec_batch_with_crc(m: RecordBatchV) -> RecordBatchV {
    RecordBatchV { crc: crc32c_of(spec_enc_record_batch_tail(m)), ..m }
}

/// Parse the tail of a batch — everything after the crc field — yielding
/// its fixed fields and records. The last-offset-delta field is read but
/// not trusted.
pub open spec fn spec_parse_record_batch_tail(s: Seq<u8>, pos: int) -> Option<
    ((i16, i64, i64, i64, i16, i32, Seq<RecordV>), int),
> {
    match spec_parse_i16(s, pos) {
        Some((attributes, p6)) => match spec_parse_i32(s, p6) {
            Some((_last_offset_delta, p7)) => match spec_parse_i64(s, p7) {
                Some((base_timestamp, p8)) => match spec_parse_i64(s, p8) {
                    Some((max_timestamp, p9)) => match spec_parse_i64(s, p9) {
                        Some((producer_id, p10)) => match spec_parse_i16(s, p10) {
                            Some((producer_epoch, p11)) => match spec_parse_i32(s, p11) {
                                Some((base_sequence, p12)) => match spec_parse_i32(s, p12) {
                                    Some((rl, p13)) => if rl < 0 {
                                        None
                                    } else {
                                        match spec_parse_elems(
                                            s,
                                            p13,
                                            rl as nat,
                                            parse_fn::<Record>(),
                                        ) {
                                            Some((records, end)) => Some(
                                                (
                                                    (
                                                        attributes,
                                                        base_timestamp,
                                                        max_timestamp,
                                                        producer_id,
                                                        producer_epoch,
                                                        base_sequence,
                                                        records,
                                                    ),
                                                    end,
                                                ),
                                            ),
                                            None => None,
                                        }
                                    },
                                    None => None,
                                },
                                None => None,
                            },
                            None => None,
                        },
                        None => None,
                    },
                    None => None,
                },
                None => None,
            },
            None => None,
        },
        None => None,
    }
}

/// The encoded tail of a well-formed batch parses back to its fields.
#[verifier::rlimit(100)]
pub proof fn lemma_parse_record_batch_tail_of_enc(s: Seq<u8>, pos: int, m: RecordBatchV)
    requires
        spec_record_batch_wf(m),
        0 <= pos,
        pos + spec_enc_record_batch_tail(m).len() <= s.len(),
        s.subrange(pos, pos + spec_enc_record_batch_tail(m).len() as int)
            =~= spec_enc_record_batch_tail(m),
    ensures
        spec_parse_record_batch_tail(s, pos) == Some(
            (
                (
                    m.attributes,
                    m.base_timestamp,
                    m.max_timestamp,
                    m.producer_id,
                    m.producer_epoch,
                    m.base_sequence,
                    m.records,
                ),
                pos + spec_enc_record_batch_tail(m).len(),
            ),
        ),
{
    let t1 = spec_enc_i16(m.attributes);
    let t2 = spec_enc_i32((m.records.len() - 1) as i32);
    let t3 = spec_enc_i64(m.base_timestamp);
    let t4 = spec_enc_i64(m.max_timestamp);
    let t5 = spec_enc_i64(m.producer_id);
    let t6 = spec_enc_i16(m.producer_epoch);
    let t7 = spec_enc_i32(m.base_sequence);
    let t8 = spec_enc_i32(m.records.len() as i32);
    let t9 = spec_enc_elems(m.records, enc_fn::<Record>());
    let q6 = pos + 2;
    let q7 = q6 + 4;
    let q8 = q7 + 8;
    let q9 = q8 + 8;
    let q10 = q9 + 8;
    let q11 = q10 + 2;
    let q12 = q11 + 4;
    let q13 = q12 + 4;
    lemma_subrange_split(s, pos, t1 + t2 + t3 + t4 + t5 + t6 + t7 + t8, t9);
    lemma_subrange_split(s, pos, t1 + t2 + t3 + t4 + t5 + t6 + t7, t8);
    lemma_subrange_split(s, pos, t1 + t2 + t3 + t4 + t5 + t6, t7);
    lemma_subrange_split(s, pos, t1 + t2 + t3 + t4 + t5, t6);
    lemma_subrange_split(s, pos, t1 + t2 + t3 + t4, t5);
    lemma_subrange_split(s, pos, t1 + t2 + t3, t4);
    lemma_subrange_split(s, pos, t1 + t2, t3);
    lemma_subrange_split(s, pos, t1, t2);
    lemma_parse_i16_of_enc(s, pos, m.attributes);
    lemma_parse_i32_of_enc(s, q6, (m.records.len() - 1) as i32);
    lemma_parse_i64_of_enc(s, q7, m.base_timestamp);
    lemma_parse_i64_of_enc(s, q8, m.max_timestamp);
    lemma_parse_i64_of_enc(s, q9, m.producer_id);
    lemma_parse_i16_of_enc(s, q10, m.producer_epoch);
    lemma_parse_i32_of_enc(s, q11, m.base_sequence);
    lemma_parse_i32_of_enc(s, q12, m.records.len() as i32);
    lemma_parse_elems_of_enc::<Record>(s, q13, m.records);
}

/// Parse one record batch at `pos`. The magic byte must be 2, the record
/// count directs how many records are read, and the stored checksum must
/// equal the CRC-32C of everything after the crc field; the batch-length
/// and last-offset-delta fields are read but not trusted.
pub open spec fn spec_parse_record_batch(s: Seq<u8>, pos: int) -> Option<(RecordBatchV, int)> {
    match spec_parse_i64(s, pos) {
        Some((base_offset, p1)) => match spec_parse_i32(s, p1) {
            Some((_batch_length, p2)) => match spec_parse_i32(s, p2) {
                Some((partition_leader_epoch, p3)) => match spec_parse_i8(s, p3) {
                    Some((magic, p4)) => if magic != 2 {
                        None
                    } else {
                        match spec_parse_u32(s, p4) {
                            Some((crc, p5)) => match spec_parse_record_batch_tail(s, p5) {
                                Some(
                                    (
                                        (
                                            attributes,
                                            base_timestamp,
                                            max_timestamp,
                                            producer_id,
                                            producer_epoch,
                                            base_sequence,
                                            records,
                                        ),
                                        end,
                                    ),
                                ) => if crc == crc32c_of(s.subrange(p5, end)) {
                                    Some(
                                        (
                                            RecordBatchV {
                                                base_offset,
                                                partition_leader_epoch,
                                                crc,
                                                attributes,
                                                base_timestamp,
                                                max_timestamp,
                                                producer_id,
                                                producer_epoch,
                                                base_sequence,
                                                records,
                                            },
                                            end,
                                        ),
                                    )
                                } else {
                                    None
                                },
                                None => None,
                            },
                            None => None,
                        }
                    },
                    None => None,
                },
                None => None,
            },
            None => None,
        },
        None => None,
    }
}

/// A well-formed batch round-trips up to its crc field, which decoding
/// returns as the checksum the encoder computed.
#[verifier::rlimit(100)]
pub proof fn lemma_parse_record_batch_of_enc(s: Seq<u8>, pos: int, m: RecordBatchV)
    requires
        spec_record_batch_wf(m),
        0 <= pos,
        pos + spec_enc_record_batch(m).len() <= s.len(),
        s.subrange(pos, pos + spec_enc_record_batch(m).len() as int) =~= spec_enc_record_batch(m),
    ensures
        spec_parse_record_batch(s, pos) == Some(
            (spec_batch_with_crc(m), pos + spec_enc_record_batch(m).len()),
        ),
{
    let tail = spec_enc_record_batch_tail(m);
    let h1 = spec_enc_i64(m.base_offset);
    let h2 = spec_enc_i32((tail.len() + 9) as i32);
    let h3 = spec_enc_i32(m.partition_leader_epoch);
    let h4 = spec_enc_i8(2);
    let h5 = spec_enc_u32(crc32c_of(tail));
    let p1 = pos + 8;
    let p2 = p1 + 4;
    let p3 = p2 + 4;
    let p4 = p3 + 1;
    let p5 = p4 + 4;
    lemma_subrange_split(s, pos, h1 + h2 + h3 + h4 + h5, tail);
    lemma_subrange_split(s, pos, h1 + h2 + h3 + h4, h5);
    lemma_subrange_split(s, pos, h1 + h2 + h3, h4);
    lemma_subrange_split(s, pos, h1 + h2, h3);
    lemma_subrange_split(s, pos, h1, h2);
    lemma_parse_i64_of_enc(s, pos, m.base_offset);
    lemma_parse_i32_of_enc(s, p1, (tail.len() + 9) as i32);
    lemma_parse_i32_of_enc(s, p2, m.partition_leader_epoch);
    lemma_parse_i8_of_enc(s, p3, 2);
    lemma_parse_u32_of_enc(s, p4, crc32c_of(tail));
    lemma_parse_record_batch_tail_of_enc(s, p5, m);
    let end = p5 + tail.len();
    assert(s.subrange(p5, end) =~= tail);
}

impl RecordBatch {
    /// Read one record batch, exactly as the specification-level parse
    /// does: the magic byte must be 2 and the stored checksum must match
    /// the CRC-32C of everything after the crc field.
    pub fn read_one(input: &[u8], pos: usize) -> (r: Option<(RecordBatch, usize)>)
        requires
            pos <= input@.len(),
        ensures
            match r {
                Some((v, end)) => spec_parse_record_batch(input@, pos as int) == Some(
                    (v.deep_view(), end as int),
                ) && pos < end <= input@.len(),
                None => spec_parse_record_batch(input@, pos as int) is None,
            },
    {
        let (base_offset, p1) = match decode_i64(input, pos) {
            Some(x) => x,
            None => {
                return None;
            },
        };
        let (_batch_length, p2) = match decode_i32(input, p1) {
            Some(x) => x,
            None => {
                return None;
            },
        };
        let (partition_leader_epoch, p3) = match decode_i32(input, p2) {
            Some(x) => x,
            None => {
                return None;
            },
        };
        let (magic, p4) = match decode_i8(input, p3) {
            Some(x) => x,
            None => {
                return None;
            },
        };
        if magic != 2 {
            return None;
        }
        let (crc, p5) = match decode_u32(input, p4) {
            Some(x) => x,
            None => {
                return None;
            },
        };
        let (attributes, p6) = match decode_i16(input, p5) {
            Some(x) => x,
            None => {
                return None;
            },
        };
        let (_last_offset_delta, p7) = match decode_i32(input, p6) {
            Some(x) => x,
            None => {
                return None;
            },
        };
        let (base_timestamp, p8) = match decode_i64(input, p7) {
            Some(x) => x,
            None => {
                return None;
            },
        };
        let (max_timestamp, p9) = match decode_i64(input, p8) {
            Some(x) => x,
            None => {
                return None;
            },
        };
        let (producer_id, p10) = match decode_i64(input, p9) {
            Some(x) => x,
            None => {
                return None;
            },
        };
        let (producer_epoch, p11) = match decode_i16(input, p10) {
            Some(x) => x,
            None => {
                return None;
            },
        };
        let (base_sequence, p12) = match decode_i32(input, p11) {
            Some(x) => x,
            None => {
                return None;
            },
        };
        let (rl, p13) = match decode_i32(input, p12) {
            Some(x) => x,
            None => {
                return None;
            },
        };
        if rl < 0 {
            return None;
        }
        let (records, end) = match decode_elems::<Record>(input, p13, rl as u64) {
            Some(x) => x,
            None => {
                return None;
            },
        };
        let computed = crc32c::crc32c(slice_subrange(input, p5, end));
        if crc != computed {
            return None;
        }
        Some(
            (
                RecordBatch {
                    base_offset,
                    partition_leader_epoch,
                    crc,
                    attributes,
                    base_timestamp,
                    max_timestamp,
                    producer_id,
                    producer_epoch,
                    base_sequence,
                    records,
                },
                end,
            ),
        )
    }

    /// Append the encoding of this batch to `out`, exactly when the batch
    /// is well-formed. The tail is rendered first into a scratch buffer so
    /// its checksum and the derived batch length can be written before it.
    pub fn write_one(&self, out: &mut Vec<u8>) -> (r: bool)
        ensures
            r == spec_record_batch_wf(self.deep_view()),
            r ==> final(out)@ == old(out)@ + spec_enc_record_batch(self.deep_view()),
    {
        if self.records.len() > i32::MAX as usize {
            return false;
        }
        let mut tail: Vec<u8> = Vec::new();
        encode_i16(&mut tail, self.attributes);
        encode_i32(&mut tail, (self.records.len() as i32) - 1);
        encode_i64(&mut tail, self.base_timestamp);
        encode_i64(&mut tail, self.max_timestamp);
        encode_i64(&mut tail, self.producer_id);
        encode_i16(&mut tail, self.producer_epoch);
        encode_i32(&mut tail, self.base_sequence);
        encode_i32(&mut tail, self.records.len() as i32);
        if !encode_elems::<Record>(&mut tail, &self.records) {
            return false;
        }
        assert(tail@ =~= spec_enc_record_batch_tail(self.deep_view()));
        if tail.len() > (i32::MAX - 9) as usize {
            return false;
        }
        let crc = crc32c::crc32c(tail.as_slice());
        encode_i64(out, self.base_offset);
        encode_i32(out, (tail.len() as i32) + 9);
        encode_i32(out, self.partition_leader_epoch);
        encode_i8(out, 2);
        encode_u32(out, crc);
        extend_bytes(out, tail.as_slice());
        assert(out@ =~= old(out)@ + spec_enc_record_batch(self.deep_view()));
        true
    }
}

/// Parse batches until the input ends or a batch fails to parse: the
/// batches read so far are kept either way, so a caller must treat a short
/// list as possibly incomplete rather than as sure success.
pub open spec fn spec_parse_record_batches(s: Seq<u8>, pos: int) -> Seq<RecordBatchV>
    decreases s.len() - pos,
{
    if pos < 0 || pos >= s.len() {
        Seq::empty()
    } else {
        match spec_parse_record_batch(s, pos) {
            Some((b, end)) => if pos < end <= s.len() {
                seq![b] + spec_parse_record_batches(s, end)
            } else {
                seq![b]
            },
            None => Seq::empty(),
        }
    }
}

impl RecordBatch {
    /// Read batches until the end of the input or the first malformed
    /// batch, keeping everything read so far.
    #[verifier::loop_isolation(false)]
    pub fn read_batches_from(input: &[u8]) -> (r: Vec<RecordBatch>)
        ensures
            r.deep_view() == spec_parse_record_batches(input@, 0),
    {
        let mut acc: Vec<RecordBatch> = Vec::new();
        let mut p: usize = 0;
        assert(acc.deep_view() =~= Seq::<RecordBatchV>::empty());
        while p < input.len()
            invariant
                p <= input@.len(),
                spec_parse_record_batches(input@, 0) == acc.deep_view()
                    + spec_parse_record_batches(input@, p as int),
            decreases input@.len() - p,
        {
            let ghost acc0 = acc.deep_view();
            match Self::read_one(input, p) {
                Some((b, end)) => {
                    proof {
                        assert(spec_parse_record_batches(input@, p as int) == seq![b.deep_view()]
                            + spec_parse_record_batches(input@, end as int));
                        assert(acc0 + (seq![b.deep_view()] + spec_parse_record_batches(
                            input@,
                            end as int,
                        )) =~= (acc0 + seq![b.deep_view()]) + spec_parse_record_batches(
                            input@,
                            end as int,
                        ));
                    }
                    acc.push(b);
                    proof {
                        assert(acc.deep_view() =~= acc0 + seq![b.deep_view()]);
                    }
                    p = end;
                },
                None => {
                    proof {
                        assert(spec_parse_record_batches(input@, p as int)
                            =~= Seq::<RecordBatchV>::empty());
                        assert(acc.deep_view() + Seq::<RecordBatchV>::empty() =~= acc.deep_view());
                    }
                    return acc;
                },
            }
        }
        proof {
            assert(spec_parse_record_batches(input@, p as int) =~= Seq::<RecordBatchV>::empty());
            assert(acc.deep_view() + Seq::<RecordBatchV>::empty() =~= acc.deep_view());
        }
        acc
    }
}

/// A parsed batch's crc field always equals the CRC-32C of the bytes it
/// covers — everything strictly after the crc field up to the end of the
/// batch. A batch whose stored checksum does not match that region never
/// parses.
pub proof fn lemma_batch_crc_validates(s: Seq<u8>, pos: int)
    requires
        spec_parse_record_batch(s, pos) is Some,
    ensures
        ({
            let (m, end) = spec_parse_record_batch(s, pos)->Some_0;
            m.crc == crc32c_of(s.subrange(pos + 21, end))
        }),
{
}

/// Round trip for records: wherever a well-formed record's encoding is
/// followed by anything at all, parsing returns exactly that record and
/// consumes exactly its encoding.
pub proof fn lemma_record_round_trip(m: RecordV, rest: Seq<u8>)
    requires
        spec_record_wf(m),
    ensures
        spec_parse_record(spec_enc_record(m) + rest, 0) == Some(
            (m, spec_enc_record(m).len() as int),
        ),
{
    let e = spec_enc_record(m);
    let s = e + rest;
    assert(s.subrange(0, e.len() as int) =~= e);
    Record::lemma_parse_of_enc(s, 0, m);
}

/// Round trip for record batches: parsing the encoding of a well-formed
/// batch yields the batch back, its crc field holding the checksum the
/// encoder computed — so a batch whose crc field already holds that
/// checksum round-trips identically.
pub proof fn lemma_record_batch_round_trip(m: RecordBatchV, rest: Seq<u8>)
    requires
        spec_record_batch_wf(m),
    ensures
        spec_parse_record_batch(spec_enc_record_batch(m) + rest, 0) == Some(
            (spec_batch_with_crc(m), spec_enc_record_batch(m).len() as int),
        ),
        m.crc == crc32c_of(spec_enc_record_batch_tail(m)) ==> spec_batch_with_crc(m) == m,
{
    let e = spec_enc_record_batch(m);
    let s = e + rest;
    assert(s.subrange(0, e.len() as int) =~= e);
    lemma_parse_record_batch_of_enc(s, 0, m);
}

impl Record {
    /// Copy this record.
    pub fn duplicate(&self) -> (r: Record)
        ensures
            r.deep_view() == self.deep_view(),
    {
        Record {
            attributes: self.attributes,
            timestamp_delta: self.timestamp_delta,
            offset_delta: self.offset_delta,
            key: crate::primitives::clone_bytes(&self.key),
            value: self.value.duplicate(),
            headers: crate::records::record_header::clone_record_headers(&self.headers),
        }
    }
}

impl RecordBatch {
    /// Append the encoding of this batch with its base offset replaced by
    /// the given one, exactly when the batch is well-formed. The Fetch
    /// path renumbers batches this way while re-serializing them.
    pub fn write_one_with_base_offset(&self, out: &mut Vec<u8>, base_offset: i64) -> (r: bool)
        ensures
            r == spec_record_batch_wf(self.deep_view()),
            r ==> final(out)@ == old(out)@ + spec_enc_record_batch(
                RecordBatchV { base_offset, ..self.deep_view() },
            ),
    {
        let ghost m = RecordBatchV { base_offset, ..self.deep_view() };
        proof {
            assert(spec_enc_record_batch_tail(m) == spec_enc_record_batch_tail(self.deep_view()));
            assert(spec_record_batch_wf(m) == spec_record_batch_wf(self.deep_view()));
        }
        if self.records.len() > i32::MAX as usize {
            return false;
        }
        let mut tail: Vec<u8> = Vec::new();
        encode_i16(&mut tail, self.attributes);
        encode_i32(&mut tail, (self.records.len() as i32) - 1);
        encode_i64(&mut tail, self.base_timestamp);
        encode_i64(&mut tail, self.max_timestamp);
        encode_i64(&mut tail, self.producer_id);
        encode_i16(&mut tail, self.producer_epoch);
        encode_i32(&mut tail, self.base_sequence);
        encode_i32(&mut tail, self.records.len() as i32);
        if !encode_elems::<Record>(&mut tail, &self.records) {
            return false;
        }
        assert(tail@ =~= spec_enc_record_batch_tail(m));
        if tail.len() > (i32::MAX - 9) as usize {
            return false;
        }
        let crc = crc32c::crc32c(tail.as_slice());
        encode_i64(out, base_offset);
        encode_i32(out, (tail.len() as i32) + 9);
        encode_i32(out, self.partition_leader_epoch);
        encode_i8(out, 2);
        encode_u32(out, crc);
        extend_bytes(out, tail.as_slice());
        assert(out@ =~= old(out)@ + spec_enc_record_batch(m));
        true
    }
}

} // verus!
