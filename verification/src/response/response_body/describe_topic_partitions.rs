//! The DescribeTopicPartitions response body: for each requested topic
//! name, the loaded record-batch snapshot is scanned for a batch whose
//! first record is a topic record with that name; its UUID then selects
//! the partition records of that batch. A name found nowhere yields an
//! unknown-topic entry with a zero UUID and no partitions.
use vstd::prelude::*;

use crate::be::{encode_i16, encode_i32, encode_i8, spec_enc_i16, spec_enc_i32, spec_enc_i8};
use crate::elems::{enc_fn, spec_enc_compact_array, write_compact_array, WireEncode};
use crate::primitives::{bytes_eq, clone_bytes, clone_i32s, extend_bytes, spec_enc_compact_string};
use crate::records::record_value::{ClusterMetadataValue, ClusterMetadataValueV, PartitionRecord,
    PartitionRecordV};
use crate::records::{RecordBatch, RecordBatchV, RecordV};
use crate::request::body::describe_topic_partitions::{DescribeTopicPartitionsRequestBody,
    DescribeTopicPartitionsRequestBodyV0};
use crate::response::error_code::KafkaError;
use crate::response::utils::write_compact_string_stream;
use crate::varint::{encode_uvarint, spec_enc_uvarint};

verus! {

/// One partition entry of a topic response.
#[derive(Debug, Clone)]
pub struct Partition {
    pub error_code: KafkaError,
    pub index: i32,
    pub leader_id: i16,
    pub leader_epoch: i16,
    pub replicas: Vec<i32>,
    pub isrs: Vec<i32>,
    pub eligible_leader_replicas: Vec<i32>,
    pub last_know_klr: Vec<i32>,
    pub offline_replicas: Vec<i32>,
}

/// Mathematical model of a partition entry.
pub struct PartitionV {
    pub error_code: KafkaError,
    pub index: i32,
    pub leader_id: i16,
    pub leader_epoch: i16,
    pub replicas: Seq<i32>,
    pub isrs: Seq<i32>,
    pub eligible_leader_replicas: Seq<i32>,
    pub last_know_klr: Seq<i32>,
    pub offline_replicas: Seq<i32>,
}

impl DeepView for Partition {
    type V = PartitionV;

    open spec fn deep_view(&self) -> PartitionV {
        PartitionV {
            error_code: self.error_code,
            index: self.index,
            leader_id: self.leader_id,
            leader_epoch: self.leader_epoch,
            replicas: self.replicas.deep_view(),
            isrs: self.isrs.deep_view(),
            eligible_leader_replicas: self.eligible_leader_replicas.deep_view(),
            last_know_klr: self.last_know_klr.deep_view(),
            offline_replicas: self.offline_replicas.deep_view(),
        }
    }
}

impl WireEncode for Partition {
    open spec fn sp_wf(m: PartitionV) -> bool {
        &&& m.replicas.len() + 1 <= u64::MAX
        &&& m.isrs.len() + 1 <= u64::MAX
        &&& m.eligible_leader_replicas.len() + 1 <= u64::MAX
        &&& m.last_know_klr.len() + 1 <= u64::MAX
        &&& m.offline_replicas.len() + 1 <= u64::MAX
    }

    /// The entry's fields in wire order, with its empty tagged-field
    /// epilogue.
    open spec fn sp_enc(m: PartitionV) -> Seq<u8> {
        spec_enc_i16(m.error_code.spec_code()) + spec_enc_i32(m.index) + spec_enc_i16(m.leader_id)
            + spec_enc_i16(m.leader_epoch) + spec_enc_compact_array(m.replicas, enc_fn::<i32>())
            + spec_enc_compact_array(m.isrs, enc_fn::<i32>()) + spec_enc_compact_array(
            m.eligible_leader_replicas,
            enc_fn::<i32>(),
        ) + spec_enc_compact_array(m.last_know_klr, enc_fn::<i32>()) + spec_enc_compact_array(
            m.offline_replicas,
            enc_fn::<i32>(),
        ) + spec_enc_uvarint(0)
    }

    fn wire_encode(&self, out: &mut Vec<u8>) -> (r: bool) {
        encode_i16(out, self.error_code.code());
        encode_i32(out, self.index);
        encode_i16(out, self.leader_id);
        encode_i16(out, self.leader_epoch);
        if !write_compact_array::<i32>(out, &self.replicas) {
            return false;
        }
        if !write_compact_array::<i32>(out, &self.isrs) {
            return false;
        }
        if !write_compact_array::<i32>(out, &self.eligible_leader_replicas) {
            return false;
        }
        if !write_compact_array::<i32>(out, &self.last_know_klr) {
            return false;
        }
        if !write_compact_array::<i32>(out, &self.offline_replicas) {
            return false;
        }
        encode_uvarint(out, 0);
        assert(out@ =~= old(out)@ + Self::sp_enc(self.deep_view()));
        true
    }
}

/// One topic entry of the response.
#[derive(Debug, Clone)]
pub struct Topic {
    pub error_code: KafkaError,
    pub name: String,
    /// The topic's 16-byte UUID; all zero when the topic is unknown.
    pub id: Vec<u8>,
    pub is_internal: bool,
    pub partitions: Vec<Partition>,
    pub authorized_operation: i32,
}

/// Mathematical model of a topic entry.
pub struct TopicV {
    pub error_code: KafkaError,
    pub name: Seq<char>,
    pub id: Seq<u8>,
    pub is_internal: bool,
    pub partitions: Seq<PartitionV>,
    pub authorized_operation: i32,
}

impl DeepView for Topic {
    type V = TopicV;

    open spec fn deep_view(&self) -> TopicV {
        TopicV {
            error_code: self.error_code,
            name: self.name@,
            id: self.id@,
            is_internal: self.is_internal,
            partitions: self.partitions.deep_view(),
            authorized_operation: self.authorized_operation,
        }
    }
}

impl WireEncode for Topic {
    open spec fn sp_wf(m: TopicV) -> bool {
        &&& vstd::utf8::encode_utf8(m.name).len() + 1 <= u64::MAX
        &&& m.id.len() == 16
        &&& m.partitions.len() + 1 <= u64::MAX
        &&& (forall|i: int|
            0 <= i < m.partitions.len() ==> <Partition as WireEncode>::sp_wf(
                #[trigger] m.partitions[i],
            ))
    }

    /// The entry's fields in wire order, with its empty tagged-field
    /// epilogue. An internal topic is marked by the byte 0, matching the
    /// wire behaviour this encoder has always had.
    open spec fn sp_enc(m: TopicV) -> Seq<u8> {
        spec_enc_i16(m.error_code.spec_code()) + spec_enc_compact_string(m.name) + m.id
            + spec_enc_i8(
            if m.is_internal {
                0
            } else {
                1
            },
        ) + spec_enc_compact_array(m.partitions, enc_fn::<Partition>()) + spec_enc_i32(
            m.authorized_operation,
        ) + spec_enc_uvarint(0)
    }

    fn wire_encode(&self, out: &mut Vec<u8>) -> (r: bool) {
        if self.id.len() != 16 {
            return false;
        }
        encode_i16(out, self.error_code.code());
        if !write_compact_string_stream(out, self.name.as_str()) {
            return false;
        }
        extend_bytes(out, self.id.as_slice());
        encode_i8(
            out,
            if self.is_internal {
                0
            } else {
                1
            },
        );
        if !write_compact_array::<Partition>(out, &self.partitions) {
            return false;
        }
        encode_i32(out, self.authorized_operation);
        encode_uvarint(out, 0);
        assert(out@ =~= old(out)@ + Self::sp_enc(self.deep_view()));
        true
    }
}

/// The all-zero UUID reported for unknown topics.
pub open spec fn spec_zero_uuid() -> Seq<u8> {
    Seq::new(16, |i: int| 0u8)
}

/// The partition entry built from a partition record: no error, the
/// record's index, leader and epoch (narrowed to 16 bits), its replicas
/// and in-sync replicas carried through, and the remaining lists empty.
pub open spec fn spec_partition_of_record(p: PartitionRecordV) -> PartitionV {
    PartitionV {
        error_code: KafkaError::NoError,
        index: p.partition_id,
        leader_id: p.leader_id as i16,
        leader_epoch: p.leader_epoch as i16,
        replicas: p.replicas,
        isrs: p.isr,
        eligible_leader_replicas: Seq::empty(),
        last_know_klr: Seq::empty(),
        offline_replicas: Seq::empty(),
    }
}

/// The partition entries contributed by a record sequence: one entry per
/// partition record whose topic id equals the captured UUID, in order.
pub open spec fn spec_partitions_from(records: Seq<RecordV>, uuid: Seq<u8>) -> Seq<PartitionV>
    decreases records.len(),
{
    if records.len() == 0 {
        Seq::empty()
    } else {
        let rest = spec_partitions_from(records.drop_first(), uuid);
        match records[0].value.payload {
            ClusterMetadataValueV::Partition(p) => if p.topic_id == uuid {
                seq![spec_partition_of_record(p)] + rest
            } else {
                rest
            },
            _ => rest,
        }
    }
}

/// The running lookup state: whether the name was found, the UUID that
/// captured it, and the partition entries collected so far.
pub open spec fn spec_scan_step(
    st: (bool, Seq<u8>, Seq<PartitionV>),
    batch: RecordBatchV,
    name: Seq<char>,
) -> (bool, Seq<u8>, Seq<PartitionV>) {
    if batch.records.len() == 0 {
        st
    } else {
        match batch.records[0].value.payload {
            ClusterMetadataValueV::Topic(t) => if t.topic_name == name {
                (true, t.uuid, st.2 + spec_partitions_from(batch.records.drop_first(), t.uuid))
            } else {
                st
            },
            _ => st,
        }
    }
}

/// The lookup state after scanning every batch, oldest first.
pub open spec fn spec_scan(batches: Seq<RecordBatchV>, name: Seq<char>) -> (
    bool,
    Seq<u8>,
    Seq<PartitionV>,
)
    decreases batches.len(),
{
    if batches.len() == 0 {
        (false, spec_zero_uuid(), Seq::empty())
    } else {
        spec_scan_step(spec_scan(batches.drop_last(), name), batches.last(), name)
    }
}

/// The topic entry reported when a name matches no batch.
pub open spec fn spec_unknown_topic(name: Seq<char>) -> TopicV {
    TopicV {
        error_code: KafkaError::UnknownTopicOrPartition,
        name,
        id: spec_zero_uuid(),
        is_internal: true,
        partitions: Seq::empty(),
        authorized_operation: 0,
    }
}

/// The topic entry the snapshot lookup produces for a requested name.
pub open spec fn spec_query_topic(batches: Seq<RecordBatchV>, name: Seq<char>) -> TopicV {
    let (found, uuid, partitions) = spec_scan(batches, name);
    if found {
        TopicV {
            error_code: KafkaError::NoError,
            name,
            id: uuid,
            is_internal: true,
            partitions,
            authorized_operation: 0,
        }
    } else {
        spec_unknown_topic(name)
    }
}

impl Partition {
    /// The partition entry built from a partition record.
    pub fn from_partition_record(partition_record: &PartitionRecord) -> (r: Partition)
        ensures
            r.deep_view() == spec_partition_of_record(partition_record.deep_view()),
    {
        let r = Partition {
            error_code: KafkaError::NoError,
            index: partition_record.partition_id,
            leader_id: #[verifier::truncate] (partition_record.leader_id as i16),
            leader_epoch: #[verifier::truncate] (partition_record.leader_epoch as i16),
            replicas: clone_i32s(&partition_record.replicas),
            isrs: clone_i32s(&partition_record.isr),
            eligible_leader_replicas: Vec::new(),
            last_know_klr: Vec::new(),
            offline_replicas: Vec::new(),
        };
        proof {
            assert(r.eligible_leader_replicas.deep_view() =~= Seq::<i32>::empty());
            assert(r.last_know_klr.deep_view() =~= Seq::<i32>::empty());
            assert(r.offline_replicas.deep_view() =~= Seq::<i32>::empty());
            assert(r.replicas.deep_view() =~= partition_record.replicas.deep_view());
            assert(r.isrs.deep_view() =~= partition_record.isr.deep_view());
        }
        r
    }
}

impl Topic {
    /// The topic entry reported when a name matches no batch.
    pub fn new_unknown(topic: String) -> (r: Topic)
        ensures
            r.deep_view() == spec_unknown_topic(topic@),
    {
        let r = Topic {
            error_code: KafkaError::UnknownTopicOrPartition,
            name: topic,
            id: vec![0u8; 16],
            is_internal: true,
            partitions: Vec::new(),
            authorized_operation: 0,
        };
        proof {
            assert(r.id@ =~= spec_zero_uuid());
            assert(r.partitions.deep_view() =~= Seq::<PartitionV>::empty());
        }
        r
    }

    /// Look one requested name up against the snapshot: scan for batches
    /// whose first record is a topic record with that name, capture its
    /// UUID, and collect that batch's matching partition records.
    #[verifier::loop_isolation(false)]
    pub fn query_from_record_batches(topic: String, record_batches: &Vec<RecordBatch>) -> (r:
        Topic)
        ensures
            r.deep_view() == spec_query_topic(record_batches.deep_view(), topic@),
    {
        let ghost bdv = record_batches.deep_view();
        let mut is_found = false;
        let mut topic_uuid: Vec<u8> = vec![0u8; 16];
        let mut partitions: Vec<Partition> = Vec::new();
        proof {
            assert(bdv.len() == record_batches@.len());
            assert(topic_uuid@ =~= spec_zero_uuid());
            assert(partitions.deep_view() =~= Seq::<PartitionV>::empty());
            assert(bdv.take(0) =~= Seq::<RecordBatchV>::empty());
        }
        let mut bi: usize = 0;
        while bi < record_batches.len()
            invariant
                bi <= record_batches@.len(),
                (is_found, topic_uuid@, partitions.deep_view()) == spec_scan(
                    bdv.take(bi as int),
                    topic@,
                ),
            decreases record_batches@.len() - bi,
        {
            let ghost st0 = (is_found, topic_uuid@, partitions.deep_view());
            proof {
                assert(bdv.take(bi as int + 1).drop_last() =~= bdv.take(bi as int));
                assert(bdv.take(bi as int + 1).last() == bdv[bi as int]);
                assert(record_batches@[bi as int].deep_view() == bdv[bi as int]);
            }
            let batch = &record_batches[bi];
            if batch.records.len() > 0 {
                match &batch.records[0].value.payload {
                    ClusterMetadataValue::Topic(topic_record) => {
                        if topic_record.topic_name == topic {
                            is_found = true;
                            topic_uuid = clone_bytes(&topic_record.uuid);
                            let ghost parts0 = partitions.deep_view();
                            let mut ri: usize = 1;
                            proof {
                                let recs = bdv[bi as int].records;
                                assert(recs.skip(1) =~= recs.drop_first());
                                assert(parts0 + spec_partitions_from(recs.skip(1), topic_uuid@)
                                    =~= parts0 + spec_partitions_from(
                                    recs.drop_first(),
                                    topic_uuid@,
                                ));
                            }
                            while ri < batch.records.len()
                                invariant
                                    1 <= ri <= batch.records@.len(),
                                    batch.records.deep_view() == bdv[bi as int].records,
                                    partitions.deep_view() + spec_partitions_from(
                                        bdv[bi as int].records.skip(ri as int),
                                        topic_uuid@,
                                    ) == parts0 + spec_partitions_from(
                                        bdv[bi as int].records.drop_first(),
                                        topic_uuid@,
                                    ),
                                decreases batch.records@.len() - ri,
                            {
                                let ghost pdv0 = partitions.deep_view();
                                proof {
                                    let recs = bdv[bi as int].records;
                                    assert(recs.skip(ri as int).drop_first() =~= recs.skip(
                                        ri as int + 1,
                                    ));
                                    assert(recs.skip(ri as int)[0] == recs[ri as int]);
                                    assert(batch.records@[ri as int].deep_view()
                                        == recs[ri as int]);
                                }
                                match &batch.records[ri].value.payload {
                                    ClusterMetadataValue::Partition(inner) => {
                                        if bytes_eq(&inner.topic_id, &topic_uuid) {
                                            let p = Partition::from_partition_record(inner);
                                            partitions.push(p);
                                            proof {
                                                assert(partitions.deep_view() =~= pdv0 + seq![
                                                    spec_partition_of_record(
                                                        inner.deep_view(),
                                                    ),
                                                ]);
                                            }
                                        }
                                    },
                                    _ => {},
                                }
                                ri = ri + 1;
                            }
                            proof {
                                let recs = bdv[bi as int].records;
                                assert(recs.skip(recs.len() as int) =~= Seq::<RecordV>::empty());
                                assert(partitions.deep_view() + Seq::<PartitionV>::empty()
                                    =~= partitions.deep_view());
                            }
                        }
                    },
                    _ => {},
                }
            }
            bi = bi + 1;
        }
        proof {
            assert(bdv.take(record_batches@.len() as int) =~= bdv);
        }
        if is_found {
            Topic {
                error_code: KafkaError::NoError,
                name: topic,
                id: topic_uuid,
                is_internal: true,
                partitions,
                authorized_operation: 0,
            }
        } else {
            Topic::new_unknown(topic)
        }
    }
}

/// The V0 response body: the throttle time and one entry per requested
/// topic.
#[derive(Debug, Clone)]
pub struct KafkaResponseBodyDescribeTopicPartitionsV0 {
    pub throttle_time_ms: i32,
    pub topics: Vec<Topic>,
}

/// Mathematical model of the V0 response body.
pub struct KafkaResponseBodyDescribeTopicPartitionsV0V {
    pub throttle_time_ms: i32,
    pub topics: Seq<TopicV>,
}

impl DeepView for KafkaResponseBodyDescribeTopicPartitionsV0 {
    type V = KafkaResponseBodyDescribeTopicPartitionsV0V;

    open spec fn deep_view(&self) -> KafkaResponseBodyDescribeTopicPartitionsV0V {
        KafkaResponseBodyDescribeTopicPartitionsV0V {
            throttle_time_ms: self.throttle_time_ms,
            topics: self.topics.deep_view(),
        }
    }
}

/// A DescribeTopicPartitions response body; only version 0 exists.
#[derive(Debug, Clone)]
pub enum KafkaResponseBodyDescribeTopicPartitions {
    V0(KafkaResponseBodyDescribeTopicPartitionsV0),
}

/// Mathematical model of a DescribeTopicPartitions response body.
pub enum KafkaResponseBodyDescribeTopicPartitionsV {
    V0(KafkaResponseBodyDescribeTopicPartitionsV0V),
}

impl DeepView for KafkaResponseBodyDescribeTopicPartitions {
    type V = KafkaResponseBodyDescribeTopicPartitionsV;

    open spec fn deep_view(&self) -> KafkaResponseBodyDescribeTopicPartitionsV {
        match self {
            KafkaResponseBodyDescribeTopicPartitions::V0(b) => {
                KafkaResponseBodyDescribeTopicPartitionsV::V0(b.deep_view())
            },
        }
    }
}

/// The V0 body the lookup produces: zero throttle time and one entry per
/// requested topic name, in request order.
pub open spec fn spec_dtp_response_v0(
    topics: Seq<Seq<char>>,
    batches: Seq<RecordBatchV>,
) -> KafkaResponseBodyDescribeTopicPartitionsV0V {
    KafkaResponseBodyDescribeTopicPartitionsV0V {
        throttle_time_ms: 0,
        topics: topics.map_values(|n: Seq<char>| spec_query_topic(batches, n)),
    }
}

impl KafkaResponseBodyDescribeTopicPartitionsV0 {
    /// Answer a V0 request against the snapshot.
    #[verifier::loop_isolation(false)]
    pub fn from_request_v0(
        request: &DescribeTopicPartitionsRequestBodyV0,
        record_batches: &Vec<RecordBatch>,
    ) -> (r: KafkaResponseBodyDescribeTopicPartitionsV0)
        ensures
            r.deep_view() == spec_dtp_response_v0(
                request.deep_view().topics,
                record_batches.deep_view(),
            ),
    {
        let ghost tdv = request.topics.deep_view();
        let ghost bdv = record_batches.deep_view();
        let mut topics: Vec<Topic> = Vec::new();
        proof {
            assert(tdv.len() == request.topics@.len());
            assert(topics.deep_view() =~= tdv.take(0).map_values(
                |n: Seq<char>| spec_query_topic(bdv, n),
            ));
        }
        let mut i: usize = 0;
        while i < request.topics.len()
            invariant
                i <= request.topics@.len(),
                topics.deep_view() == tdv.take(i as int).map_values(
                    |n: Seq<char>| spec_query_topic(bdv, n),
                ),
            decreases request.topics@.len() - i,
        {
            let ghost acc0 = topics.deep_view();
            let name = crate::primitives::clone_string(&request.topics[i]);
            let t = Topic::query_from_record_batches(name, record_batches);
            topics.push(t);
            proof {
                assert(request.topics@[i as int]@ == tdv[i as int]);
                assert(topics.deep_view() =~= acc0 + seq![spec_query_topic(bdv, tdv[i as int])]);
                assert(tdv.take(i as int + 1).map_values(
                    |n: Seq<char>| spec_query_topic(bdv, n),
                ) =~= acc0 + seq![spec_query_topic(bdv, tdv[i as int])]);
            }
            i = i + 1;
        }
        proof {
            assert(tdv.take(request.topics@.len() as int) =~= tdv);
        }
        KafkaResponseBodyDescribeTopicPartitionsV0 { throttle_time_ms: 0, topics }
    }
}

impl KafkaResponseBodyDescribeTopicPartitions {
    /// Answer a request against the snapshot.
    pub fn new(
        request: &DescribeTopicPartitionsRequestBody,
        record_batches: &Vec<RecordBatch>,
    ) -> (r: KafkaResponseBodyDescribeTopicPartitions)
        ensures
            (match request.deep_view() {
                crate::request::body::describe_topic_partitions::DescribeTopicPartitionsRequestBodyV::V0(
                    b,
                ) => r.deep_view() == KafkaResponseBodyDescribeTopicPartitionsV::V0(
                    spec_dtp_response_v0(b.topics, record_batches.deep_view()),
                ),
            }),
    {
        match request {
            DescribeTopicPartitionsRequestBody::V0(inner) => {
                KafkaResponseBodyDescribeTopicPartitions::V0(
                    KafkaResponseBodyDescribeTopicPartitionsV0::from_request_v0(
                        inner,
                        record_batches,
                    ),
                )
            },
        }
    }
}

/// Encoding of a V0 response body: the throttle time, the topic entries as
/// a compact array, the absent-cursor marker byte, and a final empty
/// tagged-field epilogue.
pub open spec fn spec_enc_dtp_body_v0(b: KafkaResponseBodyDescribeTopicPartitionsV0V) -> Seq<u8> {
    spec_enc_i32(b.throttle_time_ms) + spec_enc_compact_array(b.topics, enc_fn::<Topic>())
        + spec_enc_i8(-1i8) + spec_enc_uvarint(0)
}

/// Encoding of a DescribeTopicPartitions response body.
pub open spec fn spec_enc_dtp_body(b: KafkaResponseBodyDescribeTopicPartitionsV) -> Seq<u8> {
    match b {
        KafkaResponseBodyDescribeTopicPartitionsV::V0(x) => spec_enc_dtp_body_v0(x),
    }
}

/// The topic entries of a body model.
pub open spec fn spec_dtp_body_topics(b: KafkaResponseBodyDescribeTopicPartitionsV) -> Seq<TopicV> {
    match b {
        KafkaResponseBodyDescribeTopicPartitionsV::V0(x) => x.topics,
    }
}

impl KafkaResponseBodyDescribeTopicPartitions {
    /// Append this body's wire bytes to `out`, exactly when every topic
    /// entry is encodable.
    pub fn serialize(&self, out: &mut Vec<u8>) -> (r: bool)
        ensures
            r == (spec_dtp_body_topics(self.deep_view()).len() + 1 <= u64::MAX && forall|i: int|
                0 <= i < spec_dtp_body_topics(self.deep_view()).len()
                    ==> <Topic as WireEncode>::sp_wf(
                    #[trigger] spec_dtp_body_topics(self.deep_view())[i],
                )),
            r ==> final(out)@ == old(out)@ + spec_enc_dtp_body(self.deep_view()),
    {
        match self {
            KafkaResponseBodyDescribeTopicPartitions::V0(b) => {
                encode_i32(out, b.throttle_time_ms);
                if !write_compact_array::<Topic>(out, &b.topics) {
                    return false;
                }
                encode_i8(out, -1);
                encode_uvarint(out, 0);
                assert(out@ =~= old(out)@ + spec_enc_dtp_body(self.deep_view()));
                true
            },
        }
    }
}

} // verus!
