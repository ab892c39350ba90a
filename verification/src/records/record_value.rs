//! Cluster-metadata record values: the closed union of record kinds the log
//! reader recognizes — broker registrations, topics, feature levels and
//! partitions — together with the shared frame that carries them. The
//! numeric record-type tag is never stored: it is computed from the variant
//! on write and dispatched on during parse, and any unrecognized tag is a
//! parse error.
use vstd::prelude::*;

use crate::be::{decode_i16, decode_i32, decode_i64, encode_i16, encode_i32, encode_i64,
    lemma_parse_i16_of_enc, lemma_parse_i32_of_enc, lemma_parse_i64_of_enc, spec_enc_i16,
    spec_enc_i32, spec_enc_i64, spec_parse_i16, spec_parse_i32, spec_parse_i64};
use crate::elems::{enc_fn, parse_fn, spec_enc_compact_array, spec_parse_compact_array};
use crate::primitives::{decode_uuid, extend_bytes, lemma_subrange_split,
    lemma_parse_compact_string_of_enc, parse_compact_string, spec_enc_compact_string,
    spec_parse_compact_string, spec_parse_uuid, write_compact_string};
use crate::tagged_field::{lemma_parse_tagged_fields_of_enc, parse_tagged_fields,
    spec_enc_tagged_fields, spec_parse_tagged_fields, spec_tagged_fields_wf, write_tagged_fields,
    TaggedField, TaggedFieldV};

verus! {

/// The record kinds the log reader recognizes. The union is closed: any
/// other tag value fails to parse.
#[derive(Debug, PartialEq, Eq, Structural, Copy, Clone)]
pub enum RecordType {
    BrokerRegistration,
    Topic,
    FeatureLevel,
    Partition,
}

impl RecordType {
    /// The wire tag of this record kind.
    pub open spec fn spec_code(self) -> i8 {
        match self {
            RecordType::BrokerRegistration => 0,
            RecordType::Topic => 2,
            RecordType::Partition => 3,
            RecordType::FeatureLevel => 12,
        }
    }

    /// The wire tag of this record kind.
    pub fn code(self) -> (r: i8)
        ensures
            r == self.spec_code(),
    {
        match self {
            RecordType::BrokerRegistration => 0,
            RecordType::Topic => 2,
            RecordType::Partition => 3,
            RecordType::FeatureLevel => 12,
        }
    }

    /// The record kind of a wire tag, for exactly the four recognized tags.
    pub open spec fn spec_from_code(code: i8) -> Option<RecordType> {
        if code == 0 {
            Some(RecordType::BrokerRegistration)
        } else if code == 2 {
            Some(RecordType::Topic)
        } else if code == 3 {
            Some(RecordType::Partition)
        } else if code == 12 {
            Some(RecordType::FeatureLevel)
        } else {
            None
        }
    }

    /// The record kind of a wire tag, for exactly the four recognized tags.
    pub fn from_code(code: i8) -> (r: Option<RecordType>)
        ensures
            r == RecordType::spec_from_code(code),
    {
        if code == 0 {
            Some(RecordType::BrokerRegistration)
        } else if code == 2 {
            Some(RecordType::Topic)
        } else if code == 3 {
            Some(RecordType::Partition)
        } else if code == 12 {
            Some(RecordType::FeatureLevel)
        } else {
            None
        }
    }
}

/// A broker-registration record value.
#[derive(Debug, PartialEq, Eq, Structural, Copy, Clone)]
pub struct BrokerRegistrationRecord {
    pub broker_id: i32,
    pub cluster_id: i64,
}

impl DeepView for BrokerRegistrationRecord {
    type V = BrokerRegistrationRecord;

    open spec fn deep_view(&self) -> BrokerRegistrationRecord {
        *self
    }
}

/// Encoding of a broker registration: broker id then cluster id.
pub open spec fn spec_enc_broker_registration(m: BrokerRegistrationRecord) -> Seq<u8> {
    spec_enc_i32(m.broker_id) + spec_enc_i64(m.cluster_id)
}

/// Parse a broker registration at `pos`.
pub open spec fn spec_parse_broker_registration(s: Seq<u8>, pos: int) -> Option<
    (BrokerRegistrationRecord, int),
> {
    match spec_parse_i32(s, pos) {
        Some((broker_id, p)) => match spec_parse_i64(s, p) {
            Some((cluster_id, q)) => Some((BrokerRegistrationRecord { broker_id, cluster_id }, q)),
            None => None,
        },
        None => None,
    }
}

/// A broker registration round-trips.
pub proof fn lemma_parse_broker_registration_of_enc(s: Seq<u8>, pos: int, m: BrokerRegistrationRecord)
    requires
        0 <= pos,
        pos + spec_enc_broker_registration(m).len() <= s.len(),
        s.subrange(pos, pos + spec_enc_broker_registration(m).len() as int)
            =~= spec_enc_broker_registration(m),
    ensures
        spec_parse_broker_registration(s, pos) == Some(
            (m, pos + spec_enc_broker_registration(m).len()),
        ),
{
    lemma_subrange_split(s, pos, spec_enc_i32(m.broker_id), spec_enc_i64(m.cluster_id));
    lemma_parse_i32_of_enc(s, pos, m.broker_id);
    lemma_parse_i64_of_enc(s, pos + 4, m.cluster_id);
}

/// A topic record value.
#[derive(Debug, Clone, PartialEq, Eq)]
pub struct TopicRecord {
    pub topic_name: String,
    /// The topic's 16-byte UUID.
    pub uuid: Vec<u8>,
    pub tagged_fields: Vec<TaggedField>,
}

/// Mathematical model of a topic record.
pub struct TopicRecordV {
    pub topic_name: Seq<char>,
    pub uuid: Seq<u8>,
    pub tagged_fields: Seq<TaggedFieldV>,
}

impl DeepView for TopicRecord {
    type V = TopicRecordV;

    open spec fn deep_view(&self) -> TopicRecordV {
        TopicRecordV {
            topic_name: self.topic_name@,
            uuid: self.uuid@,
            tagged_fields: self.tagged_fields.deep_view(),
        }
    }
}

/// A topic record is encodable when its name length fits the length varint
/// and its UUID holds exactly 16 bytes.
pub open spec fn spec_topic_record_wf(m: TopicRecordV) -> bool {
    &&& vstd::utf8::encode_utf8(m.topic_name).len() + 1 <= u64::MAX
    &&& m.uuid.len() == 16
    &&& spec_tagged_fields_wf(m.tagged_fields)
}

/// Encoding of a topic record: compact name, UUID, tagged fields.
pub open spec fn spec_enc_topic_record(m: TopicRecordV) -> Seq<u8> {
    spec_enc_compact_string(m.topic_name) + m.uuid + spec_enc_tagged_fields(m.tagged_fields)
}

/// Parse a topic record at `pos`.
pub open spec fn spec_parse_topic_record(s: Seq<u8>, pos: int) -> Option<(TopicRecordV, int)> {
    match spec_parse_compact_string(s, pos) {
        Some((topic_name, p)) => match spec_parse_uuid(s, p) {
            Some((uuid, q)) => match spec_parse_tagged_fields(s, q) {
                Some((tagged_fields, end)) => Some(
                    (TopicRecordV { topic_name, uuid, tagged_fields }, end),
                ),
                None => None,
            },
            None => None,
        },
        None => None,
    }
}

/// A well-formed topic record round-trips.
pub proof fn lemma_parse_topic_record_of_enc(s: Seq<u8>, pos: int, m: TopicRecordV)
    requires
        spec_topic_record_wf(m),
        0 <= pos,
        pos + spec_enc_topic_record(m).len() <= s.len(),
        s.subrange(pos, pos + spec_enc_topic_record(m).len() as int) =~= spec_enc_topic_record(m),
    ensures
        spec_parse_topic_record(s, pos) == Some((m, pos + spec_enc_topic_record(m).len())),
{
    let e1 = spec_enc_compact_string(m.topic_name);
    let e3 = spec_enc_tagged_fields(m.tagged_fields);
    assert(spec_enc_topic_record(m) =~= e1 + (m.uuid + e3));
    lemma_subrange_split(s, pos, e1, m.uuid + e3);
    lemma_subrange_split(s, pos + e1.len(), m.uuid, e3);
    lemma_parse_compact_string_of_enc(s, pos, m.topic_name);
    lemma_parse_tagged_fields_of_enc(s, pos + e1.len() + 16, m.tagged_fields);
}

/// Decode a topic record.
pub fn decode_topic_record(input: &[u8], pos: usize) -> (r: Option<(TopicRecord, usize)>)
    ensures
        match r {
            Some((v, end)) => spec_parse_topic_record(input@, pos as int) == Some(
                (v.deep_view(), end as int),
            ) && pos < end <= input@.len(),
            None => spec_parse_topic_record(input@, pos as int) is None,
        },
{
    match parse_compact_string(input, pos) {
        Some((topic_name, p)) => match decode_uuid(input, p) {
            Some((uuid, q)) => match parse_tagged_fields(input, q) {
                Some((tagged_fields, end)) => Some(
                    (TopicRecord { topic_name, uuid, tagged_fields }, end),
                ),
                None => None,
            },
            None => None,
        },
        None => None,
    }
}

/// Append the encoding of a topic record, exactly when it is well-formed.
pub fn encode_topic_record(out: &mut Vec<u8>, m: &TopicRecord) -> (r: bool)
    ensures
        r == spec_topic_record_wf(m.deep_view()),
        r ==> final(out)@ == old(out)@ + spec_enc_topic_record(m.deep_view()),
{
    if m.uuid.len() != 16 {
        return false;
    }
    let ok = write_compact_string(out, m.topic_name.as_str());
    if !ok {
        return false;
    }
    extend_bytes(out, m.uuid.as_slice());
    write_tagged_fields(out, &m.tagged_fields);
    assert(out@ =~= old(out)@ + spec_enc_topic_record(m.deep_view()));
    true
}

/// A feature-level record value.
#[derive(Debug, Clone, PartialEq, Eq)]
pub struct FeatureLevelRecord {
    pub feature_name: String,
    pub level: i16,
    pub tagged_fields: Vec<TaggedField>,
}

/// Mathematical model of a feature-level record.
pub struct FeatureLevelRecordV {
    pub feature_name: Seq<char>,
    pub level: i16,
    pub tagged_fields: Seq<TaggedFieldV>,
}

impl DeepView for FeatureLevelRecord {
    type V = FeatureLevelRecordV;

    open spec fn deep_view(&self) -> FeatureLevelRecordV {
        FeatureLevelRecordV {
            feature_name: self.feature_name@,
            level: self.level,
            tagged_fields: self.tagged_fields.deep_view(),
        }
    }
}

/// A feature-level record is encodable when its name length fits the length
/// varint.
pub open spec fn spec_feature_level_record_wf(m: FeatureLevelRecordV) -> bool {
    &&& vstd::utf8::encode_utf8(m.feature_name).len() + 1 <= u64::MAX
    &&& spec_tagged_fields_wf(m.tagged_fields)
}

/// Encoding of a feature-level record: compact name, level, tagged fields.
pub open spec fn spec_enc_feature_level_record(m: FeatureLevelRecordV) -> Seq<u8> {
    spec_enc_compact_string(m.feature_name) + spec_enc_i16(m.level) + spec_enc_tagged_fields(
        m.tagged_fields,
    )
}

/// Parse a feature-level record at `pos`.
pub open spec fn spec_parse_feature_level_record(s: Seq<u8>, pos: int) -> Option<
    (FeatureLevelRecordV, int),
> {
    match spec_parse_compact_string(s, pos) {
        Some((feature_name, p)) => match spec_parse_i16(s, p) {
            Some((level, q)) => match spec_parse_tagged_fields(s, q) {
                Some((tagged_fields, end)) => Some(
                    (FeatureLevelRecordV { feature_name, level, tagged_fields }, end),
                ),
                None => None,
            },
            None => None,
        },
        None => None,
    }
}

/// A well-formed feature-level record round-trips.
pub proof fn lemma_parse_feature_level_record_of_enc(s: Seq<u8>, pos: int, m: FeatureLevelRecordV)
    requires
        spec_feature_level_record_wf(m),
        0 <= pos,
        pos + spec_enc_feature_level_record(m).len() <= s.len(),
        s.subrange(pos, pos + spec_enc_feature_level_record(m).len() as int)
            =~= spec_enc_feature_level_record(m),
    ensures
        spec_parse_feature_level_record(s, pos) == Some(
            (m, pos + spec_enc_feature_level_record(m).len()),
        ),
{
    let e1 = spec_enc_compact_string(m.feature_name);
    let e2 = spec_enc_i16(m.level);
    let e3 = spec_enc_tagged_fields(m.tagged_fields);
    assert(spec_enc_feature_level_record(m) =~= e1 + (e2 + e3));
    lemma_subrange_split(s, pos, e1, e2 + e3);
    lemma_subrange_split(s, pos + e1.len(), e2, e3);
    lemma_parse_compact_string_of_enc(s, pos, m.feature_name);
    lemma_parse_i16_of_enc(s, pos + e1.len(), m.level);
    lemma_parse_tagged_fields_of_enc(s, pos + e1.len() + 2, m.tagged_fields);
}

/// Decode a feature-level record.
pub fn decode_feature_level_record(input: &[u8], pos: usize) -> (r: Option<
    (FeatureLevelRecord, usize),
>)
    ensures
        match r {
            Some((v, end)) => spec_parse_feature_level_record(input@, pos as int) == Some(
                (v.deep_view(), end as int),
            ) && pos < end <= input@.len(),
            None => spec_parse_feature_level_record(input@, pos as int) is None,
        },
{
    match parse_compact_string(input, pos) {
        Some((feature_name, p)) => match decode_i16(input, p) {
            Some((level, q)) => match parse_tagged_fields(input, q) {
                Some((tagged_fields, end)) => Some(
                    (FeatureLevelRecord { feature_name, level, tagged_fields }, end),
                ),
                None => None,
            },
            None => None,
        },
        None => None,
    }
}

/// Append the encoding of a feature-level record, exactly when it is
/// well-formed.
pub fn encode_feature_level_record(out: &mut Vec<u8>, m: &FeatureLevelRecord) -> (r: bool)
    ensures
        r == spec_feature_level_record_wf(m.deep_view()),
        r ==> final(out)@ == old(out)@ + spec_enc_feature_level_record(m.deep_view()),
{
    let ok = write_compact_string(out, m.feature_name.as_str());
    if !ok {
        return false;
    }
    encode_i16(out, m.level);
    write_tagged_fields(out, &m.tagged_fields);
    assert(out@ =~= old(out)@ + spec_enc_feature_level_record(m.deep_view()));
    true
}

/// A partition record value.
#[derive(Debug, Clone, PartialEq, Eq)]
pub struct PartitionRecord {
    pub partition_id: i32,
    /// The owning topic's 16-byte UUID.
    pub topic_id: Vec<u8>,
    pub replicas: Vec<i32>,
    pub isr: Vec<i32>,
    pub rra: Vec<i32>,
    pub ara: Vec<i32>,
    pub leader_id: i32,
    pub leader_epoch: i32,
    pub partition_epoch: i32,
    /// 16-byte directory UUIDs.
    pub directories: Vec<Vec<u8>>,
    pub tagged_fields: Vec<TaggedField>,
}

/// Mathematical model of a partition record.
pub struct PartitionRecordV {
    pub partition_id: i32,
    pub topic_id: Seq<u8>,
    pub replicas: Seq<i32>,
    pub isr: Seq<i32>,
    pub rra: Seq<i32>,
    pub ara: Seq<i32>,
    pub leader_id: i32,
    pub leader_epoch: i32,
    pub partition_epoch: i32,
    pub directories: Seq<Seq<u8>>,
    pub tagged_fields: Seq<TaggedFieldV>,
}

impl DeepView for PartitionRecord {
    type V = PartitionRecordV;

    open spec fn deep_view(&self) -> PartitionRecordV {
        PartitionRecordV {
            partition_id: self.partition_id,
            topic_id: self.topic_id@,
            replicas: self.replicas.deep_view(),
            isr: self.isr.deep_view(),
            rra: self.rra.deep_view(),
            ara: self.ara.deep_view(),
            leader_id: self.leader_id,
            leader_epoch: self.leader_epoch,
            partition_epoch: self.partition_epoch,
            directories: self.directories.deep_view(),
            tagged_fields: self.tagged_fields.deep_view(),
        }
    }
}

/// A partition record is encodable when its UUIDs hold exactly 16 bytes and
/// every list count fits its varint.
pub open spec fn spec_partition_record_wf(m: PartitionRecordV) -> bool {
    &&& m.topic_id.len() == 16
    &&& m.replicas.len() + 1 <= u64::MAX
    &&& m.isr.len() + 1 <= u64::MAX
    &&& m.rra.len() + 1 <= u64::MAX
    &&& m.ara.len() + 1 <= u64::MAX
    &&& m.directories.len() + 1 <= u64::MAX
    &&& (forall|i: int| 0 <= i < m.directories.len() ==> (#[trigger] m.directories[i]).len() == 16)
    &&& spec_tagged_fields_wf(m.tagged_fields)
}

/// Encoding of a partition record, field by field in wire order.
pub open spec fn spec_enc_partition_record(m: PartitionRecordV) -> Seq<u8> {
    spec_enc_i32(m.partition_id) + m.topic_id + spec_enc_compact_array(m.replicas, enc_fn::<i32>())
        + spec_enc_compact_array(m.isr, enc_fn::<i32>()) + spec_enc_compact_array(
        m.rra,
        enc_fn::<i32>(),
    ) + spec_enc_compact_array(m.ara, enc_fn::<i32>()) + spec_enc_i32(m.leader_id) + spec_enc_i32(
        m.leader_epoch,
    ) + spec_enc_i32(m.partition_epoch) + spec_enc_compact_array(m.directories, enc_fn::<Vec<u8>>())
        + spec_enc_tagged_fields(m.tagged_fields)
}

/// Parse a partition record at `pos`.
pub open spec fn spec_parse_partition_record(s: Seq<u8>, pos: int) -> Option<(PartitionRecordV, int)> {
    match spec_parse_i32(s, pos) {
        Some((partition_id, p1)) => match spec_parse_uuid(s, p1) {
            Some((topic_id, p2)) => match spec_parse_compact_array(s, p2, parse_fn::<i32>()) {
                Some((replicas, p3)) => match spec_parse_compact_array(s, p3, parse_fn::<i32>()) {
                    Some((isr, p4)) => match spec_parse_compact_array(s, p4, parse_fn::<i32>()) {
                        Some((rra, p5)) => match spec_parse_compact_array(
                            s,
                            p5,
                            parse_fn::<i32>(),
                        ) {
                            Some((ara, p6)) => match spec_parse_i32(s, p6) {
                                Some((leader_id, p7)) => match spec_parse_i32(s, p7) {
                                    Some((leader_epoch, p8)) => match spec_parse_i32(s, p8) {
                                        Some((partition_epoch, p9)) => match spec_parse_compact_array(
                                            s,
                                            p9,
                                            parse_fn::<Vec<u8>>(),
                                        ) {
                                            Some((directories, p10)) => match spec_parse_tagged_fields(
                                                s,
                                                p10,
                                            ) {
                                                Some((tagged_fields, end)) => Some(
                                                    (
                                                        PartitionRecordV {
                                                            partition_id,
                                                            topic_id,
                                                            replicas,
                                                            isr,
                                                            rra,
                                                            ara,
                                                            leader_id,
                                                            leader_epoch,
                                                            partition_epoch,
                                                            directories,
                                                            tagged_fields,
                                                        },
                                                        end,
                                                    ),
                                                ),
                                                None => None,
                                            },
                                            None => None,
                                        },
                                        None => None,
                                    },
                                    None => None,
                                },
                                None => None,
                            },
                            None => None,
                        },
                        None => None,
                    },
                    None => None,
                },
                None => None,
            },
            None => None,
        },
        None => None,
    }
}

/// A well-formed partition record round-trips.
#[verifier::rlimit(60)]
pub proof fn lemma_parse_partition_record_of_enc(s: Seq<u8>, pos: int, m: PartitionRecordV)
    requires
        spec_partition_record_wf(m),
        0 <= pos,
        pos + spec_enc_partition_record(m).len() <= s.len(),
        s.subrange(pos, pos + spec_enc_partition_record(m).len() as int)
            =~= spec_enc_partition_record(m),
    ensures
        spec_parse_partition_record(s, pos) == Some(
            (m, pos + spec_enc_partition_record(m).len()),
        ),
{
    let e1 = spec_enc_i32(m.partition_id);
    let e2 = m.topic_id;
    let e3 = spec_enc_compact_array(m.replicas, enc_fn::<i32>());
    let e4 = spec_enc_compact_array(m.isr, enc_fn::<i32>());
    let e5 = spec_enc_compact_array(m.rra, enc_fn::<i32>());
    let e6 = spec_enc_compact_array(m.ara, enc_fn::<i32>());
    let e7 = spec_enc_i32(m.leader_id);
    let e8 = spec_enc_i32(m.leader_epoch);
    let e9 = spec_enc_i32(m.partition_epoch);
    let e10 = spec_enc_compact_array(m.directories, enc_fn::<Vec<u8>>());
    let e11 = spec_enc_tagged_fields(m.tagged_fields);
    assert(spec_enc_partition_record(m) =~= e1 + (e2 + (e3 + (e4 + (e5 + (e6 + (e7 + (e8 + (e9 + (
    e10 + e11))))))))));
    let p1 = pos + e1.len();
    let p2 = p1 + e2.len();
    let p3 = p2 + e3.len();
    let p4 = p3 + e4.len();
    let p5 = p4 + e5.len();
    let p6 = p5 + e6.len();
    let p7 = p6 + e7.len();
    let p8 = p7 + e8.len();
    let p9 = p8 + e9.len();
    let p10 = p9 + e10.len();
    lemma_subrange_split(s, pos, e1, e2 + (e3 + (e4 + (e5 + (e6 + (e7 + (e8 + (e9 + (e10
        + e11)))))))));
    lemma_subrange_split(s, p1, e2, e3 + (e4 + (e5 + (e6 + (e7 + (e8 + (e9 + (e10 + e11))))))));
    lemma_subrange_split(s, p2, e3, e4 + (e5 + (e6 + (e7 + (e8 + (e9 + (e10 + e11)))))));
    lemma_subrange_split(s, p3, e4, e5 + (e6 + (e7 + (e8 + (e9 + (e10 + e11))))));
    lemma_subrange_split(s, p4, e5, e6 + (e7 + (e8 + (e9 + (e10 + e11)))));
    lemma_subrange_split(s, p5, e6, e7 + (e8 + (e9 + (e10 + e11))));
    lemma_subrange_split(s, p6, e7, e8 + (e9 + (e10 + e11)));
    lemma_subrange_split(s, p7, e8, e9 + (e10 + e11));
    lemma_subrange_split(s, p8, e9, e10 + e11);
    lemma_subrange_split(s, p9, e10, e11);
    lemma_parse_i32_of_enc(s, pos, m.partition_id);
    crate::elems::lemma_parse_compact_array_of_enc::<i32>(s, p2, m.replicas);
    crate::elems::lemma_parse_compact_array_of_enc::<i32>(s, p3, m.isr);
    crate::elems::lemma_parse_compact_array_of_enc::<i32>(s, p4, m.rra);
    crate::elems::lemma_parse_compact_array_of_enc::<i32>(s, p5, m.ara);
    lemma_parse_i32_of_enc(s, p6, m.leader_id);
    lemma_parse_i32_of_enc(s, p7, m.leader_epoch);
    lemma_parse_i32_of_enc(s, p8, m.partition_epoch);
    crate::elems::lemma_parse_compact_array_of_enc::<Vec<u8>>(s, p9, m.directories);
    lemma_parse_tagged_fields_of_enc(s, p10, m.tagged_fields);
}

/// Decode a partition record.
pub fn decode_partition_record(input: &[u8], pos: usize) -> (r: Option<(PartitionRecord, usize)>)
    ensures
        match r {
            Some((v, end)) => spec_parse_partition_record(input@, pos as int) == Some(
                (v.deep_view(), end as int),
            ) && pos < end <= input@.len(),
            None => spec_parse_partition_record(input@, pos as int) is None,
        },
{
    let (partition_id, p1) = match decode_i32(input, pos) {
        Some(x) => x,
        None => {
            return None;
        },
    };
    let (topic_id, p2) = match decode_uuid(input, p1) {
        Some(x) => x,
        None => {
            return None;
        },
    };
    let (replicas, p3) = match crate::elems::parse_compact_array::<i32>(input, p2) {
        Some(x) => x,
        None => {
            return None;
        },
    };
    let (isr, p4) = match crate::elems::parse_compact_array::<i32>(input, p3) {
        Some(x) => x,
        None => {
            return None;
        },
    };
    let (rra, p5) = match crate::elems::parse_compact_array::<i32>(input, p4) {
        Some(x) => x,
        None => {
            return None;
        },
    };
    let (ara, p6) = match crate::elems::parse_compact_array::<i32>(input, p5) {
        Some(x) => x,
        None => {
            return None;
        },
    };
    let (leader_id, p7) = match decode_i32(input, p6) {
        Some(x) => x,
        None => {
            return None;
        },
    };
    let (leader_epoch, p8) = match decode_i32(input, p7) {
        Some(x) => x,
        None => {
            return None;
        },
    };
    let (partition_epoch, p9) = match decode_i32(input, p8) {
        Some(x) => x,
        None => {
            return None;
        },
    };
    let (directories, p10) = match crate::elems::parse_compact_array::<Vec<u8>>(input, p9) {
        Some(x) => x,
        None => {
            return None;
        },
    };
    let (tagged_fields, end) = match parse_tagged_fields(input, p10) {
        Some(x) => x,
        None => {
            return None;
        },
    };
    Some(
        (
            PartitionRecord {
                partition_id,
                topic_id,
                replicas,
                isr,
                rra,
                ara,
                leader_id,
                leader_epoch,
                partition_epoch,
                directories,
                tagged_fields,
            },
            end,
        ),
    )
}

/// Append the encoding of a partition record, exactly when it is
/// well-formed.
#[verifier::rlimit(60)]
pub fn encode_partition_record(out: &mut Vec<u8>, m: &PartitionRecord) -> (r: bool)
    ensures
        r == spec_partition_record_wf(m.deep_view()),
        r ==> final(out)@ == old(out)@ + spec_enc_partition_record(m.deep_view()),
{
    if m.topic_id.len() != 16 {
        return false;
    }
    encode_i32(out, m.partition_id);
    extend_bytes(out, m.topic_id.as_slice());
    if !crate::elems::write_compact_array::<i32>(out, &m.replicas) {
        return false;
    }
    if !crate::elems::write_compact_array::<i32>(out, &m.isr) {
        return false;
    }
    if !crate::elems::write_compact_array::<i32>(out, &m.rra) {
        return false;
    }
    if !crate::elems::write_compact_array::<i32>(out, &m.ara) {
        return false;
    }
    encode_i32(out, m.leader_id);
    encode_i32(out, m.leader_epoch);
    encode_i32(out, m.partition_epoch);
    if !crate::elems::write_compact_array::<Vec<u8>>(out, &m.directories) {
        return false;
    }
    write_tagged_fields(out, &m.tagged_fields);
    assert(out@ =~= old(out)@ + spec_enc_partition_record(m.deep_view()));
    true
}

/// The closed union of recognized record values.
#[derive(Debug, Clone, PartialEq, Eq)]
pub enum ClusterMetadataValue {
    BrokerRegistration(BrokerRegistrationRecord),
    Topic(TopicRecord),
    FeatureLevel(FeatureLevelRecord),
    Partition(PartitionRecord),
}

/// Mathematical model of a record value.
pub enum ClusterMetadataValueV {
    BrokerRegistration(BrokerRegistrationRecord),
    Topic(TopicRecordV),
    FeatureLevel(FeatureLevelRecordV),
    Partition(PartitionRecordV),
}

impl DeepView for ClusterMetadataValue {
    type V = ClusterMetadataValueV;

    open spec fn deep_view(&self) -> ClusterMetadataValueV {
        match self {
            ClusterMetadataValue::BrokerRegistration(x) => ClusterMetadataValueV::BrokerRegistration(
                x.deep_view(),
            ),
            ClusterMetadataValue::Topic(x) => ClusterMetadataValueV::Topic(x.deep_view()),
            ClusterMetadataValue::FeatureLevel(x) => ClusterMetadataValueV::FeatureLevel(
                x.deep_view(),
            ),
            ClusterMetadataValue::Partition(x) => ClusterMetadataValueV::Partition(x.deep_view()),
        }
    }
}

/// The record kind of a value: computed from the variant, never stored.
pub open spec fn spec_record_type_of(v: ClusterMetadataValueV) -> RecordType {
    match v {
        ClusterMetadataValueV::BrokerRegistration(_) => RecordType::BrokerRegistration,
        ClusterMetadataValueV::Topic(_) => RecordType::Topic,
        ClusterMetadataValueV::FeatureLevel(_) => RecordType::FeatureLevel,
        ClusterMetadataValueV::Partition(_) => RecordType::Partition,
    }
}

/// The record kind of a value: computed from the variant, never stored.
pub fn compute_record_type(payload: &ClusterMetadataValue) -> (r: RecordType)
    ensures
        r == spec_record_type_of(payload.deep_view()),
{
    match payload {
        ClusterMetadataValue::BrokerRegistration(_) => RecordType::BrokerRegistration,
        ClusterMetadataValue::Topic(_) => RecordType::Topic,
        ClusterMetadataValue::FeatureLevel(_) => RecordType::FeatureLevel,
        ClusterMetadataValue::Partition(_) => RecordType::Partition,
    }
}

/// A record value is encodable when its variant is.
pub open spec fn spec_cluster_metadata_value_wf(v: ClusterMetadataValueV) -> bool {
    match v {
        ClusterMetadataValueV::BrokerRegistration(_) => true,
        ClusterMetadataValueV::Topic(x) => spec_topic_record_wf(x),
        ClusterMetadataValueV::FeatureLevel(x) => spec_feature_level_record_wf(x),
        ClusterMetadataValueV::Partition(x) => spec_partition_record_wf(x),
    }
}

/// Encoding of a record value (the variant's own fields; the type tag lives
/// in the enclosing record frame).
pub open spec fn spec_enc_cluster_metadata_value(v: ClusterMetadataValueV) -> Seq<u8> {
    match v {
        ClusterMetadataValueV::BrokerRegistration(x) => spec_enc_broker_registration(x),
        ClusterMetadataValueV::Topic(x) => spec_enc_topic_record(x),
        ClusterMetadataValueV::FeatureLevel(x) => spec_enc_feature_level_record(x),
        ClusterMetadataValueV::Partition(x) => spec_enc_partition_record(x),
    }
}

/// Parse a record value of the given kind at `pos`.
pub open spec fn spec_parse_cluster_metadata_value(s: Seq<u8>, pos: int, rt: RecordType) -> Option<
    (ClusterMetadataValueV, int),
> {
    match rt {
        RecordType::BrokerRegistration => match spec_parse_broker_registration(s, pos) {
            Some((x, end)) => Some((ClusterMetadataValueV::BrokerRegistration(x), end)),
            None => None,
        },
        RecordType::Topic => match spec_parse_topic_record(s, pos) {
            Some((x, end)) => Some((ClusterMetadataValueV::Topic(x), end)),
            None => None,
        },
        RecordType::FeatureLevel => match spec_parse_feature_level_record(s, pos) {
            Some((x, end)) => Some((ClusterMetadataValueV::FeatureLevel(x), end)),
            None => None,
        },
        RecordType::Partition => match spec_parse_partition_record(s, pos) {
            Some((x, end)) => Some((ClusterMetadataValueV::Partition(x), end)),
            None => None,
        },
    }
}

/// A well-formed record value round-trips under its own kind.
pub proof fn lemma_parse_cluster_metadata_value_of_enc(s: Seq<u8>, pos: int, v: ClusterMetadataValueV)
    requires
        spec_cluster_metadata_value_wf(v),
        0 <= pos,
        pos + spec_enc_cluster_metadata_value(v).len() <= s.len(),
        s.subrange(pos, pos + spec_enc_cluster_metadata_value(v).len() as int)
            =~= spec_enc_cluster_metadata_value(v),
    ensures
        spec_parse_cluster_metadata_value(s, pos, spec_record_type_of(v)) == Some(
            (v, pos + spec_enc_cluster_metadata_value(v).len()),
        ),
{
    match v {
        ClusterMetadataValueV::BrokerRegistration(x) => {
            lemma_parse_broker_registration_of_enc(s, pos, x);
        },
        ClusterMetadataValueV::Topic(x) => {
            lemma_parse_topic_record_of_enc(s, pos, x);
        },
        ClusterMetadataValueV::FeatureLevel(x) => {
            lemma_parse_feature_level_record_of_enc(s, pos, x);
        },
        ClusterMetadataValueV::Partition(x) => {
            lemma_parse_partition_record_of_enc(s, pos, x);
        },
    }
}

/// Decode a record value of the given kind.
pub fn decode_cluster_metadata_value(input: &[u8], pos: usize, rt: RecordType) -> (r: Option<
    (ClusterMetadataValue, usize),
>)
    ensures
        match r {
            Some((v, end)) => spec_parse_cluster_metadata_value(input@, pos as int, rt) == Some(
                (v.deep_view(), end as int),
            ) && pos < end <= input@.len(),
            None => spec_parse_cluster_metadata_value(input@, pos as int, rt) is None,
        },
{
    match rt {
        RecordType::BrokerRegistration => match crate::be::decode_i32(input, pos) {
            Some((broker_id, p)) => match decode_i64(input, p) {
                Some((cluster_id, end)) => Some(
                    (
                        ClusterMetadataValue::BrokerRegistration(
                            BrokerRegistrationRecord { broker_id, cluster_id },
                        ),
                        end,
                    ),
                ),
                None => None,
            },
            None => None,
        },
        RecordType::Topic => match decode_topic_record(input, pos) {
            Some((x, end)) => Some((ClusterMetadataValue::Topic(x), end)),
            None => None,
        },
        RecordType::FeatureLevel => match decode_feature_level_record(input, pos) {
            Some((x, end)) => Some((ClusterMetadataValue::FeatureLevel(x), end)),
            None => None,
        },
        RecordType::Partition => match decode_partition_record(input, pos) {
            Some((x, end)) => Some((ClusterMetadataValue::Partition(x), end)),
            None => None,
        },
    }
}

/// Append the encoding of a record value, exactly when it is well-formed.
pub fn encode_cluster_metadata_value(out: &mut Vec<u8>, v: &ClusterMetadataValue) -> (r: bool)
    ensures
        r == spec_cluster_metadata_value_wf(v.deep_view()),
        r ==> final(out)@ == old(out)@ + spec_enc_cluster_metadata_value(v.deep_view()),
{
    match v {
        ClusterMetadataValue::BrokerRegistration(x) => {
            encode_i32(out, x.broker_id);
            encode_i64(out, x.cluster_id);
            assert(out@ =~= old(out)@ + spec_enc_broker_registration(x.deep_view()));
            true
        },
        ClusterMetadataValue::Topic(x) => encode_topic_record(out, x),
        ClusterMetadataValue::FeatureLevel(x) => encode_feature_level_record(out, x),
        ClusterMetadataValue::Partition(x) => encode_partition_record(out, x),
    }
}

/// One cluster-metadata record: the shared frame and record versions around
/// a value. The record-type tag sits between them on the wire but is never
/// stored; it is recomputed from the variant on write.
#[derive(Debug, Clone, PartialEq, Eq)]
pub struct ClusterMetadataRecord {
    pub frame_version: i8,
    pub record_version: i8,
    pub payload: ClusterMetadataValue,
}

/// Mathematical model of a cluster-metadata record.
pub struct ClusterMetadataRecordV {
    pub frame_version: i8,
    pub record_version: i8,
    pub payload: ClusterMetadataValueV,
}

impl DeepView for ClusterMetadataRecord {
    type V = ClusterMetadataRecordV;

    open spec fn deep_view(&self) -> ClusterMetadataRecordV {
        ClusterMetadataRecordV {
            frame_version: self.frame_version,
            record_version: self.record_version,
            payload: self.payload.deep_view(),
        }
    }
}

/// A cluster-metadata record is encodable when its value is.
pub open spec fn spec_cluster_metadata_record_wf(m: ClusterMetadataRecordV) -> bool {
    spec_cluster_metadata_value_wf(m.payload)
}

/// Encoding of a cluster-metadata record: frame version, computed record
/// type, record version, then the value.
pub open spec fn spec_enc_cluster_metadata_record(m: ClusterMetadataRecordV) -> Seq<u8> {
    crate::be::spec_enc_i8(m.frame_version) + crate::be::spec_enc_i8(
        spec_record_type_of(m.payload).spec_code(),
    ) + crate::be::spec_enc_i8(m.record_version) + spec_enc_cluster_metadata_value(m.payload)
}

/// Parse a cluster-metadata record at `pos`; an unrecognized record-type tag
/// is a parse error.
pub open spec fn spec_parse_cluster_metadata_record(s: Seq<u8>, pos: int) -> Option<
    (ClusterMetadataRecordV, int),
> {
    match crate::be::spec_parse_i8(s, pos) {
        Some((frame_version, p1)) => match crate::be::spec_parse_i8(s, p1) {
            Some((code, p2)) => match RecordType::spec_from_code(code) {
                Some(rt) => match crate::be::spec_parse_i8(s, p2) {
                    Some((record_version, p3)) => match spec_parse_cluster_metadata_value(
                        s,
                        p3,
                        rt,
                    ) {
                        Some((payload, end)) => Some(
                            (ClusterMetadataRecordV { frame_version, record_version, payload }, end),
                        ),
                        None => None,
                    },
                    None => None,
                },
                None => None,
            },
            None => None,
        },
        None => None,
    }
}

/// A well-formed cluster-metadata record round-trips.
pub proof fn lemma_parse_cluster_metadata_record_of_enc(
    s: Seq<u8>,
    pos: int,
    m: ClusterMetadataRecordV,
)
    requires
        spec_cluster_metadata_record_wf(m),
        0 <= pos,
        pos + spec_enc_cluster_metadata_record(m).len() <= s.len(),
        s.subrange(pos, pos + spec_enc_cluster_metadata_record(m).len() as int)
            =~= spec_enc_cluster_metadata_record(m),
    ensures
        spec_parse_cluster_metadata_record(s, pos) == Some(
            (m, pos + spec_enc_cluster_metadata_record(m).len()),
        ),
{
    let rt = spec_record_type_of(m.payload);
    let e1 = crate::be::spec_enc_i8(m.frame_version);
    let e2 = crate::be::spec_enc_i8(rt.spec_code());
    let e3 = crate::be::spec_enc_i8(m.record_version);
    let e4 = spec_enc_cluster_metadata_value(m.payload);
    assert(spec_enc_cluster_metadata_record(m) =~= e1 + (e2 + (e3 + e4)));
    lemma_subrange_split(s, pos, e1, e2 + (e3 + e4));
    lemma_subrange_split(s, pos + 1, e2, e3 + e4);
    lemma_subrange_split(s, pos + 2, e3, e4);
    crate::be::lemma_parse_i8_of_enc(s, pos, m.frame_version);
    crate::be::lemma_parse_i8_of_enc(s, pos + 1, rt.spec_code());
    crate::be::lemma_parse_i8_of_enc(s, pos + 2, m.record_version);
    assert(RecordType::spec_from_code(rt.spec_code()) == Some(rt));
    lemma_parse_cluster_metadata_value_of_enc(s, pos + 3, m.payload);
}

/// Decode a cluster-metadata record.
pub fn decode_cluster_metadata_record(input: &[u8], pos: usize) -> (r: Option<
    (ClusterMetadataRecord, usize),
>)
    ensures
        match r {
            Some((v, end)) => spec_parse_cluster_metadata_record(input@, pos as int) == Some(
                (v.deep_view(), end as int),
            ) && pos < end <= input@.len(),
            None => spec_parse_cluster_metadata_record(input@, pos as int) is None,
        },
{
    let (frame_version, p1) = match crate::be::decode_i8(input, pos) {
        Some(x) => x,
        None => {
            return None;
        },
    };
    let (code, p2) = match crate::be::decode_i8(input, p1) {
        Some(x) => x,
        None => {
            return None;
        },
    };
    let rt = match RecordType::from_code(code) {
        Some(rt) => rt,
        None => {
            return None;
        },
    };
    let (record_version, p3) = match crate::be::decode_i8(input, p2) {
        Some(x) => x,
        None => {
            return None;
        },
    };
    match decode_cluster_metadata_value(input, p3, rt) {
        Some((payload, end)) => Some(
            (ClusterMetadataRecord { frame_version, record_version, payload }, end),
        ),
        None => None,
    }
}

/// Append the encoding of a cluster-metadata record, exactly when it is
/// well-formed.
pub fn encode_cluster_metadata_record(out: &mut Vec<u8>, m: &ClusterMetadataRecord) -> (r: bool)
    ensures
        r == spec_cluster_metadata_record_wf(m.deep_view()),
        r ==> final(out)@ == old(out)@ + spec_enc_cluster_metadata_record(m.deep_view()),
{
    crate::be::encode_i8(out, m.frame_version);
    crate::be::encode_i8(out, compute_record_type(&m.payload).code());
    crate::be::encode_i8(out, m.record_version);
    let ok = encode_cluster_metadata_value(out, &m.payload);
    if !ok {
        return false;
    }
    assert(out@ =~= old(out)@ + spec_enc_cluster_metadata_record(m.deep_view()));
    true
}

impl ClusterMetadataRecord {
    /// A sample broker-registration record.
    pub fn mock_broker_registration() -> Self {
        ClusterMetadataRecord {
            frame_version: 10,
            record_version: 7,
            payload: ClusterMetadataValue::BrokerRegistration(
                BrokerRegistrationRecord { broker_id: 123, cluster_id: 456789 },
            ),
        }
    }

    /// A sample topic record.
    pub fn mock_topic_record() -> Self {
        ClusterMetadataRecord {
            frame_version: 99,
            record_version: 3,
            payload: ClusterMetadataValue::Topic(
                TopicRecord {
                    topic_name: "example_topic".to_owned(),
                    uuid: vec![1u8; 16],
                    tagged_fields: Vec::new(),
                },
            ),
        }
    }

    /// A sample feature-level record.
    pub fn mock_feature_level_record() -> Self {
        ClusterMetadataRecord {
            frame_version: 100,
            record_version: 1,
            payload: ClusterMetadataValue::FeatureLevel(
                FeatureLevelRecord {
                    feature_name: "example_feature".to_owned(),
                    level: 5,
                    tagged_fields: Vec::new(),
                },
            ),
        }
    }

    /// A sample partition record.
    pub fn mock_partition_record() -> Self {
        ClusterMetadataRecord {
            frame_version: 5,
            record_version: 2,
            payload: ClusterMetadataValue::Partition(
                PartitionRecord {
                    partition_id: 42,
                    topic_id: vec![10u8; 16],
                    leader_id: 1001,
                    leader_epoch: 5,
                    replicas: vec![1001, 1002, 1003],
                    isr: vec![1001, 1002],
                    rra: vec![1001, 1002, 1004],
                    ara: vec![1001, 1002, 1005],
                    partition_epoch: 2,
                    tagged_fields: Vec::new(),
                    directories: vec![vec![15u8; 16]],
                },
            ),
        }
    }
}

/// Copy a list of 16-byte identifiers.
#[verifier::loop_isolation(false)]
pub fn clone_uuid_list(v: &Vec<Vec<u8>>) -> (r: Vec<Vec<u8>>)
    ensures
        r.deep_view() == v.deep_view(),
{
    let mut out: Vec<Vec<u8>> = Vec::new();
    let mut i: usize = 0;
    assert(out.deep_view() =~= v.deep_view().take(0));
    while i < v.len()
        invariant
            i <= v@.len(),
            out.deep_view() == v.deep_view().take(i as int),
        decreases v@.len() - i,
    {
        out.push(crate::primitives::clone_bytes(&v[i]));
        proof {
            assert(out.deep_view() =~= v.deep_view().take(i as int + 1));
        }
        i = i + 1;
    }
    proof {
        assert(v.deep_view().take(v@.len() as int) =~= v.deep_view());
    }
    out
}

impl ClusterMetadataValue {
    /// Copy this record value.
    pub fn duplicate(&self) -> (r: ClusterMetadataValue)
        ensures
            r.deep_view() == self.deep_view(),
    {
        match self {
            ClusterMetadataValue::BrokerRegistration(x) => ClusterMetadataValue::BrokerRegistration(
                *x,
            ),
            ClusterMetadataValue::Topic(x) => ClusterMetadataValue::Topic(
                TopicRecord {
                    topic_name: crate::primitives::clone_string(&x.topic_name),
                    uuid: crate::primitives::clone_bytes(&x.uuid),
                    tagged_fields: crate::tagged_field::clone_tagged_fields(&x.tagged_fields),
                },
            ),
            ClusterMetadataValue::FeatureLevel(x) => ClusterMetadataValue::FeatureLevel(
                FeatureLevelRecord {
                    feature_name: crate::primitives::clone_string(&x.feature_name),
                    level: x.level,
                    tagged_fields: crate::tagged_field::clone_tagged_fields(&x.tagged_fields),
                },
            ),
            ClusterMetadataValue::Partition(x) => ClusterMetadataValue::Partition(
                PartitionRecord {
                    partition_id: x.partition_id,
                    topic_id: crate::primitives::clone_bytes(&x.topic_id),
                    replicas: crate::primitives::clone_i32s(&x.replicas),
                    isr: crate::primitives::clone_i32s(&x.isr),
                    rra: crate::primitives::clone_i32s(&x.rra),
                    ara: crate::primitives::clone_i32s(&x.ara),
                    leader_id: x.leader_id,
                    leader_epoch: x.leader_epoch,
                    partition_epoch: x.partition_epoch,
                    directories: clone_uuid_list(&x.directories),
                    tagged_fields: crate::tagged_field::clone_tagged_fields(&x.tagged_fields),
                },
            ),
        }
    }
}

impl ClusterMetadataRecord {
    /// Copy this record.
    pub fn duplicate(&self) -> (r: ClusterMetadataRecord)
        ensures
            r.deep_view() == self.deep_view(),
    {
        ClusterMetadataRecord {
            frame_version: self.frame_version,
            record_version: self.record_version,
            payload: self.payload.duplicate(),
        }
    }
}

} // verus!
