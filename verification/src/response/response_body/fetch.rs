//! The Fetch response body. For each requested topic id the snapshot is
//! scanned: a batch whose first record is a topic record with that UUID
//! contributes one partition entry holding that batch re-serialized with
//! only its matching partition records, renumbered from zero. A topic id
//! seen nowhere yields one synthetic partition with the unknown-topic-id
//! code and no record bytes.
use vstd::prelude::*;

use crate::be::{encode_i16, encode_i32, encode_i64, spec_enc_i16, spec_enc_i32, spec_enc_i64};
use crate::elems::{enc_fn, spec_enc_compact_array, write_compact_array, WireEncode};
use crate::primitives::{bytes_eq, clone_bytes, spec_enc_compact_bytes};
use crate::records::record_value::{ClusterMetadataValue, ClusterMetadataValueV};
use crate::records::{spec_enc_record_batch, spec_record_batch_wf, Record, RecordBatch,
    RecordBatchV, RecordV};
use crate::request::body::fetch::{FetchRequestBody, FetchRequestBodyV, FetchRequestBodyV16,
    FetchRequestBodyV16V};
use crate::response::error_code::KafkaError;
use crate::response::utils::write_compact_vec_u8_stream;
use crate::varint::{encode_uvarint, spec_enc_uvarint};

verus! {

/// One aborted-transaction entry; this server never reports any.
#[derive(Debug, PartialEq, Eq, Structural, Copy, Clone)]
pub struct AbortedTransaction {
    pub producer_id: i64,
    pub first_offset: i64,
}

impl DeepView for AbortedTransaction {
    type V = AbortedTransaction;

    open spec fn deep_view(&self) -> AbortedTransaction {
        *self
    }
}

impl WireEncode for AbortedTransaction {
    open spec fn sp_wf(m: AbortedTransaction) -> bool {
        true
    }

    /// The entry's two offsets, with its empty tagged-field epilogue.
    open spec fn sp_enc(m: AbortedTransaction) -> Seq<u8> {
        spec_enc_i64(m.producer_id) + spec_enc_i64(m.first_offset) + spec_enc_uvarint(0)
    }

    fn wire_encode(&self, out: &mut Vec<u8>) -> (r: bool) {
        encode_i64(out, self.producer_id);
        encode_i64(out, self.first_offset);
        encode_uvarint(out, 0);
        assert(out@ =~= old(out)@ + Self::sp_enc(self.deep_view()));
        true
    }
}

/// One partition entry of a fetch topic response.
#[derive(Debug, Clone)]
pub struct Partition {
    pub partition_index: i32,
    pub error_code: KafkaError,
    pub high_watermark: i64,
    pub last_stable_offset: i64,
    pub log_start_offset: i64,
    pub aborted_transactions: Vec<AbortedTransaction>,
    pub preferred_read_replica: i32,
    pub records: Vec<RecordBatch>,
}

/// Mathematical model of a fetch partition entry.
pub struct PartitionV {
    pub partition_index: i32,
    pub error_code: KafkaError,
    pub high_watermark: i64,
    pub last_stable_offset: i64,
    pub log_start_offset: i64,
    pub aborted_transactions: Seq<AbortedTransaction>,
    pub preferred_read_replica: i32,
    pub records: Seq<RecordBatchV>,
}

impl DeepView for Partition {
    type V = PartitionV;

    open spec fn deep_view(&self) -> PartitionV {
        PartitionV {
            partition_index: self.partition_index,
            error_code: self.error_code,
            high_watermark: self.high_watermark,
            last_stable_offset: self.last_stable_offset,
            log_start_offset: self.log_start_offset,
            aborted_transactions: self.aborted_transactions.deep_view(),
            preferred_read_replica: self.preferred_read_replica,
            records: self.records.deep_view(),
        }
    }
}

/// The concatenated encodings of a partition entry's batches, each with
/// its base offset replaced by its position.
pub open spec fn spec_enc_batches_renumbered(records: Seq<RecordBatchV>, i: int) -> Seq<u8>
    decreases records.len(),
{
    if records.len() == 0 {
        Seq::empty()
    } else {
        spec_enc_record_batch(RecordBatchV { base_offset: i as i64, ..records[0] })
            + spec_enc_batches_renumbered(records.drop_first(), i + 1)
    }
}

impl WireEncode for Partition {
    open spec fn sp_wf(m: PartitionV) -> bool {
        &&& m.aborted_transactions.len() + 1 <= u64::MAX
        &&& (forall|i: int| 0 <= i < m.records.len() ==> spec_record_batch_wf(#[trigger] m.records[i]))
        &&& spec_enc_batches_renumbered(m.records, 0).len() + 1 <= u64::MAX
    }

    /// The entry's fields in wire order: fixed fields, the aborted
    /// transactions, the preferred read replica, the re-serialized batches
    /// as one compact byte buffer, and its empty tagged-field epilogue.
    open spec fn sp_enc(m: PartitionV) -> Seq<u8> {
        spec_enc_i32(m.partition_index) + spec_enc_i16(m.error_code.spec_code()) + spec_enc_i64(
            m.high_watermark,
        ) + spec_enc_i64(m.last_stable_offset) + spec_enc_i64(m.log_start_offset)
            + spec_enc_compact_array(m.aborted_transactions, enc_fn::<AbortedTransaction>())
            + spec_enc_i32(m.preferred_read_replica) + spec_enc_compact_bytes(
            spec_enc_batches_renumbered(m.records, 0),
        ) + spec_enc_uvarint(0)
    }

    #[verifier::loop_isolation(false)]
    #[verifier::rlimit(60)]
    fn wire_encode(&self, out: &mut Vec<u8>) -> (r: bool) {
        let ghost rdv = self.records.deep_view();
        encode_i32(out, self.partition_index);
        encode_i16(out, self.error_code.code());
        encode_i64(out, self.high_watermark);
        encode_i64(out, self.last_stable_offset);
        encode_i64(out, self.log_start_offset);
        if !write_compact_array::<AbortedTransaction>(out, &self.aborted_transactions) {
            return false;
        }
        encode_i32(out, self.preferred_read_replica);
        let mut records_u8: Vec<u8> = Vec::new();
        let mut i: usize = 0;
        proof {
            assert(rdv.len() == self.records@.len());
            assert(rdv.skip(0) =~= rdv);
        }
        while i < self.records.len()
            invariant
                i <= self.records@.len(),
                records_u8@ + spec_enc_batches_renumbered(rdv.skip(i as int), i as int)
                    == spec_enc_batches_renumbered(rdv, 0),
                forall|j: int| 0 <= j < i ==> spec_record_batch_wf(#[trigger] rdv[j]),
            decreases self.records@.len() - i,
        {
            let ghost tail = rdv.skip(i as int);
            proof {
                assert(tail[0] == rdv[i as int]);
                assert(tail.drop_first() =~= rdv.skip(i as int + 1));
                assert(self.records@[i as int].deep_view() == rdv[i as int]);
            }
            let ok = self.records[i].write_one_with_base_offset(
                &mut records_u8,
                #[verifier::truncate] (i as i64),
            );
            if !ok {
                return false;
            }
            i = i + 1;
        }
        proof {
            assert(rdv.skip(self.records@.len() as int) =~= Seq::<RecordBatchV>::empty());
            assert(records_u8@ + Seq::<u8>::empty() =~= records_u8@);
        }
        if !write_compact_vec_u8_stream(out, records_u8.as_slice()) {
            return false;
        }
        encode_uvarint(out, 0);
        assert(out@ =~= old(out)@ + Self::sp_enc(self.deep_view()));
        true
    }
}

/// The synthetic partition reported when a topic id matches no batch.
pub open spec fn spec_fetch_partition_unknown() -> PartitionV {
    PartitionV {
        partition_index: 0,
        error_code: KafkaError::UnknownTopicId,
        high_watermark: 0,
        last_stable_offset: 0,
        log_start_offset: 0,
        aborted_transactions: Seq::empty(),
        preferred_read_replica: -1i32,
        records: Seq::empty(),
    }
}

/// The synthetic partition reported when a topic id is known but no batch
/// contributed records.
pub open spec fn spec_fetch_partition_empty() -> PartitionV {
    PartitionV {
        partition_index: 0,
        error_code: KafkaError::NoError,
        high_watermark: 0,
        last_stable_offset: 0,
        log_start_offset: 0,
        aborted_transactions: Seq::empty(),
        preferred_read_replica: -1i32,
        records: Seq::empty(),
    }
}

/// The partition entry holding one matching batch's re-serialized records.
pub open spec fn spec_fetch_partition_whole(b: RecordBatchV) -> PartitionV {
    PartitionV {
        partition_index: 0,
        error_code: KafkaError::NoError,
        high_watermark: 0,
        last_stable_offset: 0,
        log_start_offset: 0,
        aborted_transactions: Seq::empty(),
        preferred_read_replica: -1i32,
        records: seq![b],
    }
}

impl Partition {
    /// The synthetic partition reported when a topic id matches no batch.
    pub fn unknown_topic_partition() -> (r: Partition)
        ensures
            r.deep_view() == spec_fetch_partition_unknown(),
    {
        let r = Partition {
            partition_index: 0,
            error_code: KafkaError::UnknownTopicId,
            high_watermark: 0,
            last_stable_offset: 0,
            log_start_offset: 0,
            aborted_transactions: Vec::new(),
            preferred_read_replica: -1,
            records: Vec::new(),
        };
        proof {
            assert(r.aborted_transactions.deep_view() =~= Seq::<AbortedTransaction>::empty());
            assert(r.records.deep_view() =~= Seq::<RecordBatchV>::empty());
        }
        r
    }

    /// The synthetic partition reported for a known topic with no records.
    pub fn known_topic_emtpy_partition() -> (r: Partition)
        ensures
            r.deep_view() == spec_fetch_partition_empty(),
    {
        let r = Partition {
            partition_index: 0,
            error_code: KafkaError::NoError,
            high_watermark: 0,
            last_stable_offset: 0,
            log_start_offset: 0,
            aborted_transactions: Vec::new(),
            preferred_read_replica: -1,
            records: Vec::new(),
        };
        proof {
            assert(r.aborted_transactions.deep_view() =~= Seq::<AbortedTransaction>::empty());
            assert(r.records.deep_view() =~= Seq::<RecordBatchV>::empty());
        }
        r
    }

    /// The partition entry holding one matching batch.
    pub fn known_topic_whole_records(record_batch: RecordBatch) -> (r: Partition)
        ensures
            r.deep_view() == spec_fetch_partition_whole(record_batch.deep_view()),
    {
        let ghost b = record_batch.deep_view();
        let mut records: Vec<RecordBatch> = Vec::new();
        records.push(record_batch);
        let r = Partition {
            partition_index: 0,
            error_code: KafkaError::NoError,
            high_watermark: 0,
            last_stable_offset: 0,
            log_start_offset: 0,
            aborted_transactions: Vec::new(),
            preferred_read_replica: -1,
            records,
        };
        proof {
            assert(r.aborted_transactions.deep_view() =~= Seq::<AbortedTransaction>::empty());
            assert(r.records.deep_view() =~= seq![b]);
        }
        r
    }
}

/// One topic entry of the fetch response.
#[derive(Debug, Clone)]
pub struct Topic {
    pub topic_id: Vec<u8>,
    pub partitions: Vec<Partition>,
}

/// Mathematical model of a fetch topic entry.
pub struct TopicV {
    pub topic_id: Seq<u8>,
    pub partitions: Seq<PartitionV>,
}

impl DeepView for Topic {
    type V = TopicV;

    open spec fn deep_view(&self) -> TopicV {
        TopicV { topic_id: self.topic_id@, partitions: self.partitions.deep_view() }
    }
}

impl WireEncode for Topic {
    open spec fn sp_wf(m: TopicV) -> bool {
        &&& m.topic_id.len() == 16
        &&& m.partitions.len() + 1 <= u64::MAX
        &&& (forall|i: int|
            0 <= i < m.partitions.len() ==> <Partition as WireEncode>::sp_wf(
                #[trigger] m.partitions[i],
            ))
    }

    /// The entry's id and partitions, with its empty tagged-field
    /// epilogue.
    open spec fn sp_enc(m: TopicV) -> Seq<u8> {
        m.topic_id + spec_enc_compact_array(m.partitions, enc_fn::<Partition>())
            + spec_enc_uvarint(0)
    }

    fn wire_encode(&self, out: &mut Vec<u8>) -> (r: bool) {
        if self.topic_id.len() != 16 {
            return false;
        }
        crate::primitives::extend_bytes(out, self.topic_id.as_slice());
        if !write_compact_array::<Partition>(out, &self.partitions) {
            return false;
        }
        encode_uvarint(out, 0);
        assert(out@ =~= old(out)@ + Self::sp_enc(self.deep_view()));
        true
    }
}

/// The records a matching batch contributes: its partition records whose
/// topic id equals the requested one, skipping the leading topic record,
/// with offset deltas renumbered from `idx`.
pub open spec fn spec_fetch_selected(records: Seq<RecordV>, tid: Seq<u8>, idx: int) -> Seq<RecordV>
    decreases records.len(),
{
    if records.len() == 0 {
        Seq::empty()
    } else {
        match records[0].value.payload {
            ClusterMetadataValueV::Partition(p) => if p.topic_id == tid {
                seq![RecordV { offset_delta: idx as i32, ..records[0] }] + spec_fetch_selected(
                    records.drop_first(),
                    tid,
                    idx + 1,
                )
            } else {
                spec_fetch_selected(records.drop_first(), tid, idx)
            },
            _ => spec_fetch_selected(records.drop_first(), tid, idx),
        }
    }
}

/// A matching batch as the response re-serializes it: only the selected
/// records, renumbered from zero.
pub open spec fn spec_fetch_modified_batch(b: RecordBatchV, tid: Seq<u8>) -> RecordBatchV {
    RecordBatchV { records: spec_fetch_selected(b.records.drop_first(), tid, 0), ..b }
}

/// The running fetch lookup state: whether the topic id was seen, and the
/// partition entries collected so far.
pub open spec fn spec_fetch_scan_step(
    st: (bool, Seq<PartitionV>),
    batch: RecordBatchV,
    tid: Seq<u8>,
) -> (bool, Seq<PartitionV>) {
    if batch.records.len() == 0 {
        st
    } else {
        match batch.records[0].value.payload {
            ClusterMetadataValueV::Topic(t) => if t.uuid == tid {
                (true, st.1 + seq![spec_fetch_partition_whole(spec_fetch_modified_batch(batch, tid))])
            } else {
                st
            },
            _ => st,
        }
    }
}

/// The fetch lookup state after scanning every batch, oldest first.
pub open spec fn spec_fetch_scan(batches: Seq<RecordBatchV>, tid: Seq<u8>) -> (
    bool,
    Seq<PartitionV>,
)
    decreases batches.len(),
{
    if batches.len() == 0 {
        (false, Seq::empty())
    } else {
        spec_fetch_scan_step(spec_fetch_scan(batches.drop_last(), tid), batches.last(), tid)
    }
}

/// The topic entry the fetch lookup produces for a requested topic id.
pub open spec fn spec_fetch_topic_response(batches: Seq<RecordBatchV>, tid: Seq<u8>) -> TopicV {
    let (found, partitions) = spec_fetch_scan(batches, tid);
    if !found {
        TopicV { topic_id: tid, partitions: seq![spec_fetch_partition_unknown()] }
    } else if partitions.len() == 0 {
        TopicV { topic_id: tid, partitions: seq![spec_fetch_partition_empty()] }
    } else {
        TopicV { topic_id: tid, partitions }
    }
}

impl Topic {
    /// Build one matching batch's partition entry: keep only its matching
    /// partition records, renumber their offset deltas from zero, and wrap
    /// the result.
    #[verifier::loop_isolation(false)]
    fn modified_batch_partition(batch: &RecordBatch, tid: &Vec<u8>) -> (r: Partition)
        requires
            batch.records@.len() >= 1,
        ensures
            r.deep_view() == spec_fetch_partition_whole(
                spec_fetch_modified_batch(batch.deep_view(), tid@),
            ),
    {
        let ghost recs = batch.deep_view().records;
        let mut selected: Vec<Record> = Vec::new();
        let mut ri: usize = 1;
        proof {
            assert(recs.len() == batch.records@.len());
            assert(recs.skip(1) =~= recs.drop_first());
            assert(selected.deep_view() =~= Seq::<RecordV>::empty());
        }
        while ri < batch.records.len()
            invariant
                1 <= ri <= batch.records@.len(),
                batch.records.deep_view() == recs,
                selected.deep_view() + spec_fetch_selected(
                    recs.skip(ri as int),
                    tid@,
                    selected.deep_view().len() as int,
                ) == spec_fetch_selected(recs.drop_first(), tid@, 0),
            decreases batch.records@.len() - ri,
        {
            let ghost sel0 = selected.deep_view();
            proof {
                assert(recs.skip(ri as int).drop_first() =~= recs.skip(ri as int + 1));
                assert(recs.skip(ri as int)[0] == recs[ri as int]);
                assert(batch.records@[ri as int].deep_view() == recs[ri as int]);
            }
            let rec = &batch.records[ri];
            match &rec.value.payload {
                ClusterMetadataValue::Partition(p) => {
                    if bytes_eq(&p.topic_id, tid) {
                        let idx = selected.len();
                        let copied = rec.duplicate();
                        let renumbered = Record {
                            offset_delta: #[verifier::truncate] (idx as i32),
                            ..copied
                        };
                        selected.push(renumbered);
                        proof {
                            assert(selected.deep_view() =~= sel0 + seq![
                                RecordV { offset_delta: idx as i32, ..recs[ri as int] },
                            ]);
                        }
                    }
                },
                _ => {},
            }
            ri = ri + 1;
        }
        proof {
            assert(recs.skip(recs.len() as int) =~= Seq::<RecordV>::empty());
            assert(selected.deep_view() + Seq::<RecordV>::empty() =~= selected.deep_view());
        }
        let modified = RecordBatch {
            base_offset: batch.base_offset,
            partition_leader_epoch: batch.partition_leader_epoch,
            crc: batch.crc,
            attributes: batch.attributes,
            base_timestamp: batch.base_timestamp,
            max_timestamp: batch.max_timestamp,
            producer_id: batch.producer_id,
            producer_epoch: batch.producer_epoch,
            base_sequence: batch.base_sequence,
            records: selected,
        };
        Partition::known_topic_whole_records(modified)
    }

    /// Look one requested topic id up against the snapshot: every batch
    /// whose first record is a topic record with that UUID contributes one
    /// partition entry holding its matching records.
    #[verifier::loop_isolation(false)]
    pub fn new(topic: &crate::request::body::fetch::Topic, record_batches: &Vec<RecordBatch>) -> (r:
        Topic)
        ensures
            r.deep_view() == spec_fetch_topic_response(
                record_batches.deep_view(),
                topic.deep_view().topic_id,
            ),
    {
        let ghost bdv = record_batches.deep_view();
        let ghost tid = topic.deep_view().topic_id;
        let mut is_found = false;
        let mut partitions: Vec<Partition> = Vec::new();
        proof {
            assert(bdv.len() == record_batches@.len());
            assert(partitions.deep_view() =~= Seq::<PartitionV>::empty());
            assert(bdv.take(0) =~= Seq::<RecordBatchV>::empty());
        }
        let mut bi: usize = 0;
        while bi < record_batches.len()
            invariant
                bi <= record_batches@.len(),
                (is_found, partitions.deep_view()) == spec_fetch_scan(bdv.take(bi as int), tid),
            decreases record_batches@.len() - bi,
        {
            proof {
                assert(bdv.take(bi as int + 1).drop_last() =~= bdv.take(bi as int));
                assert(bdv.take(bi as int + 1).last() == bdv[bi as int]);
                assert(record_batches@[bi as int].deep_view() == bdv[bi as int]);
            }
            let batch = &record_batches[bi];
            if batch.records.len() > 0 {
                match &batch.records[0].value.payload {
                    ClusterMetadataValue::Topic(topic_record) => {
                        proof {
                            assert(batch.records@[0].deep_view() == bdv[bi as int].records[0]);
                        }
                        if bytes_eq(&topic_record.uuid, &topic.topic_id) {
                            is_found = true;
                            let ghost parts0 = partitions.deep_view();
                            let p = Self::modified_batch_partition(batch, &topic.topic_id);
                            partitions.push(p);
                            proof {
                                assert(partitions.deep_view() =~= parts0 + seq![
                                    spec_fetch_partition_whole(
                                        spec_fetch_modified_batch(bdv[bi as int], tid),
                                    ),
                                ]);
                            }
                        }
                    },
                    _ => {},
                }
            }
            bi = bi + 1;
        }
        proof {
            assert(bdv.take(record_batches@.len() as int) =~= bdv);
        }
        if !is_found {
            let mut partitions: Vec<Partition> = Vec::new();
            partitions.push(Partition::unknown_topic_partition());
            let r = Topic { topic_id: clone_bytes(&topic.topic_id), partitions };
            proof {
                assert(r.partitions.deep_view() =~= seq![spec_fetch_partition_unknown()]);
            }
            r
        } else if partitions.len() == 0 {
            let mut partitions: Vec<Partition> = Vec::new();
            partitions.push(Partition::known_topic_emtpy_partition());
            let r = Topic { topic_id: clone_bytes(&topic.topic_id), partitions };
            proof {
                assert(r.partitions.deep_view() =~= seq![spec_fetch_partition_empty()]);
            }
            r
        } else {
            Topic { topic_id: clone_bytes(&topic.topic_id), partitions }
        }
    }
}

/// The V16 response body.
#[derive(Debug, Clone)]
pub struct FetchResponseBodyV16 {
    pub throttle_time_ms: i32,
    pub error_code: KafkaError,
    pub session_id: i32,
    pub responses: Vec<Topic>,
}

/// Mathematical model of the V16 response body.
pub struct FetchResponseBodyV16V {
    pub throttle_time_ms: i32,
    pub error_code: KafkaError,
    pub session_id: i32,
    pub responses: Seq<TopicV>,
}

impl DeepView for FetchResponseBodyV16 {
    type V = FetchResponseBodyV16V;

    open spec fn deep_view(&self) -> FetchResponseBodyV16V {
        FetchResponseBodyV16V {
            throttle_time_ms: self.throttle_time_ms,
            error_code: self.error_code,
            session_id: self.session_id,
            responses: self.responses.deep_view(),
        }
    }
}

/// A Fetch response body; only version 16 exists.
#[derive(Debug, Clone)]
pub enum KafkaResponseBodyFetch {
    V16(FetchResponseBodyV16),
}

/// Mathematical model of a Fetch response body.
pub enum KafkaResponseBodyFetchV {
    V16(FetchResponseBodyV16V),
}

impl DeepView for KafkaResponseBodyFetch {
    type V = KafkaResponseBodyFetchV;

    open spec fn deep_view(&self) -> KafkaResponseBodyFetchV {
        match self {
            KafkaResponseBodyFetch::V16(b) => KafkaResponseBodyFetchV::V16(b.deep_view()),
        }
    }
}

/// The V16 body built for a request with no topics at all.
pub open spec fn spec_fetch_response_empty() -> FetchResponseBodyV16V {
    FetchResponseBodyV16V {
        throttle_time_ms: 0,
        error_code: KafkaError::NoError,
        session_id: 0,
        responses: Seq::empty(),
    }
}

/// The V16 body the lookup produces: the request's session id echoed and
/// one topic entry per requested topic, or the empty body when the request
/// named no topics.
pub open spec fn spec_fetch_response_v16(
    req: FetchRequestBodyV16V,
    batches: Seq<RecordBatchV>,
) -> FetchResponseBodyV16V {
    if req.topics.len() == 0 {
        spec_fetch_response_empty()
    } else {
        FetchResponseBodyV16V {
            throttle_time_ms: 0,
            error_code: KafkaError::NoError,
            session_id: req.session_id,
            responses: req.topics.map_values(
                |t: crate::request::body::fetch::TopicV| spec_fetch_topic_response(
                    batches,
                    t.topic_id,
                ),
            ),
        }
    }
}

impl FetchResponseBodyV16 {
    /// The body for a request with no topics.
    pub fn empty() -> (r: FetchResponseBodyV16)
        ensures
            r.deep_view() == spec_fetch_response_empty(),
    {
        let r = FetchResponseBodyV16 {
            throttle_time_ms: 0,
            error_code: KafkaError::NoError,
            session_id: 0,
            responses: Vec::new(),
        };
        proof {
            assert(r.responses.deep_view() =~= Seq::<TopicV>::empty());
        }
        r
    }

    /// Answer a V16 request against the snapshot.
    #[verifier::loop_isolation(false)]
    pub fn new(request: &FetchRequestBodyV16, record_batches: &Vec<RecordBatch>) -> (r:
        FetchResponseBodyV16)
        ensures
            r.deep_view() == spec_fetch_response_v16(
                request.deep_view(),
                record_batches.deep_view(),
            ),
    {
        if request.topics.len() == 0 {
            return FetchResponseBodyV16::empty();
        }
        let ghost tdv = request.topics.deep_view();
        let ghost bdv = record_batches.deep_view();
        let mut topics: Vec<Topic> = Vec::new();
        proof {
            assert(tdv.len() == request.topics@.len());
            assert(topics.deep_view() =~= tdv.take(0).map_values(
                |t: crate::request::body::fetch::TopicV| spec_fetch_topic_response(
                    bdv,
                    t.topic_id,
                ),
            ));
        }
        let mut i: usize = 0;
        while i < request.topics.len()
            invariant
                i <= request.topics@.len(),
                topics.deep_view() == tdv.take(i as int).map_values(
                    |t: crate::request::body::fetch::TopicV| spec_fetch_topic_response(
                        bdv,
                        t.topic_id,
                    ),
                ),
            decreases request.topics@.len() - i,
        {
            let ghost acc0 = topics.deep_view();
            let t = Topic::new(&request.topics[i], record_batches);
            topics.push(t);
            proof {
                assert(request.topics@[i as int].deep_view() == tdv[i as int]);
                assert(topics.deep_view() =~= acc0 + seq![
                    spec_fetch_topic_response(bdv, tdv[i as int].topic_id),
                ]);
                assert(tdv.take(i as int + 1).map_values(
                    |t: crate::request::body::fetch::TopicV| spec_fetch_topic_response(
                        bdv,
                        t.topic_id,
                    ),
                ) =~= acc0 + seq![spec_fetch_topic_response(bdv, tdv[i as int].topic_id)]);
            }
            i = i + 1;
        }
        proof {
            assert(tdv.take(request.topics@.len() as int) =~= tdv);
        }
        FetchResponseBodyV16 {
            throttle_time_ms: 0,
            error_code: KafkaError::NoError,
            session_id: request.session_id,
            responses: topics,
        }
    }
}

impl KafkaResponseBodyFetch {
    /// Answer a request against the snapshot.
    pub fn new(request: &FetchRequestBody, record_batches: &Vec<RecordBatch>) -> (r:
        KafkaResponseBodyFetch)
        ensures
            (match request.deep_view() {
                FetchRequestBodyV::V16(b) => r.deep_view() == KafkaResponseBodyFetchV::V16(
                    spec_fetch_response_v16(b, record_batches.deep_view()),
                ),
            }),
    {
        match request {
            FetchRequestBody::V16(inner) => KafkaResponseBodyFetch::V16(
                FetchResponseBodyV16::new(inner, record_batches),
            ),
        }
    }
}

/// Encoding of a V16 response body: the fixed fields, the topic entries as
/// a compact array, and a final empty tagged-field epilogue.
pub open spec fn spec_enc_fetch_body_v16(b: FetchResponseBodyV16V) -> Seq<u8> {
    spec_enc_i32(b.throttle_time_ms) + spec_enc_i16(b.error_code.spec_code()) + spec_enc_i32(
        b.session_id,
    ) + spec_enc_compact_array(b.responses, enc_fn::<Topic>()) + spec_enc_uvarint(0)
}

/// Encoding of a Fetch response body.
pub open spec fn spec_enc_fetch_body(b: KafkaResponseBodyFetchV) -> Seq<u8> {
    match b {
        KafkaResponseBodyFetchV::V16(x) => spec_enc_fetch_body_v16(x),
    }
}

/// The topic entries of a body model.
pub open spec fn spec_fetch_body_topics(b: KafkaResponseBodyFetchV) -> Seq<TopicV> {
    match b {
        KafkaResponseBodyFetchV::V16(x) => x.responses,
    }
}

impl KafkaResponseBodyFetch {
    /// Append this body's wire bytes to `out`, exactly when every topic
    /// entry is encodable.
    pub fn serialize(&self, out: &mut Vec<u8>) -> (r: bool)
        ensures
            r == (spec_fetch_body_topics(self.deep_view()).len() + 1 <= u64::MAX && forall|i: int|
                0 <= i < spec_fetch_body_topics(self.deep_view()).len()
                    ==> <Topic as WireEncode>::sp_wf(
                    #[trigger] spec_fetch_body_topics(self.deep_view())[i],
                )),
            r ==> final(out)@ == old(out)@ + spec_enc_fetch_body(self.deep_view()),
    {
        match self {
            KafkaResponseBodyFetch::V16(b) => {
                encode_i32(out, b.throttle_time_ms);
                encode_i16(out, b.error_code.code());
                encode_i32(out, b.session_id);
                if !write_compact_array::<Topic>(out, &b.responses) {
                    return false;
                }
                encode_uvarint(out, 0);
                assert(out@ =~= old(out)@ + spec_enc_fetch_body(self.deep_view()));
                true
            },
        }
    }
}

} // verus!
