//! The Fetch request body. Only version 16 has a decoder: versions 0
//! through 15 are recognized but rejected as unsupported, like any version
//! outside the nominal range.
use vstd::prelude::*;

use crate::be::{decode_i32, decode_i64, decode_i8, spec_parse_i32, spec_parse_i64, spec_parse_i8};
use crate::consts::SupportFetchRequestVersion;
use crate::elems::{parse_compact_array, parse_fn, spec_parse_compact_array};
use crate::primitives::{decode_uuid, spec_parse_compact_string, spec_parse_uuid};
use crate::request::error::{spec_invalid_format, RequestError, RequestErrorV};
use crate::request::header::{spec_header_common, KafkaRequestHeader};
use crate::request::utils::{parse_err_fn, spec_parse_compact_array_err, try_read_compact_string,
    try_read_tagged_fields, try_read_vec_from_compact_array, WireDecodeErr};
use crate::tagged_field::spec_parse_tagged_fields;

verus! {

/// One requested partition within a fetch topic.
#[derive(Debug, PartialEq, Eq, Structural, Copy, Clone)]
pub struct Partition {
    pub index: i32,
    pub current_leader_epoch: i32,
    pub fetch_offset: i64,
    pub last_fetched_epoch: i32,
    pub log_start_offset: i64,
    pub partition_max_bytes: i32,
}

impl DeepView for Partition {
    type V = Partition;

    open spec fn deep_view(&self) -> Partition {
        *self
    }
}

impl WireDecodeErr for Partition {
    open spec fn sp_parse_err(s: Seq<u8>, pos: int, cid: i32) -> Result<(Partition, int), RequestErrorV> {
        match spec_parse_i32(s, pos) {
            Some((index, p1)) => match spec_parse_i32(s, p1) {
                Some((current_leader_epoch, p2)) => match spec_parse_i64(s, p2) {
                    Some((fetch_offset, p3)) => match spec_parse_i32(s, p3) {
                        Some((last_fetched_epoch, p4)) => match spec_parse_i64(s, p4) {
                            Some((log_start_offset, p5)) => match spec_parse_i32(s, p5) {
                                Some((partition_max_bytes, p6)) => match spec_parse_tagged_fields(
                                    s,
                                    p6,
                                ) {
                                    Some((_tf, end)) => Ok(
                                        (
                                            Partition {
                                                index,
                                                current_leader_epoch,
                                                fetch_offset,
                                                last_fetched_epoch,
                                                log_start_offset,
                                                partition_max_bytes,
                                            },
                                            end,
                                        ),
                                    ),
                                    None => Err(
                                        spec_invalid_format("partition tagged_fields"@, cid),
                                    ),
                                },
                                None => Err(
                                    spec_invalid_format("partition partition_max_bytes"@, cid),
                                ),
                            },
                            None => Err(spec_invalid_format("partition log_start_offset"@, cid)),
                        },
                        None => Err(spec_invalid_format("partition last_fetched_epoch"@, cid)),
                    },
                    None => Err(spec_invalid_format("partition fetch_offset"@, cid)),
                },
                None => Err(spec_invalid_format("partition current leader epoch"@, cid)),
            },
            None => Err(spec_invalid_format("partition_id"@, cid)),
        }
    }

    fn wire_decode_err(input: &[u8], pos: usize, cid: i32) -> (r: Result<(Self, usize), RequestError>) {
        let (index, p1) = match decode_i32(input, pos) {
            Some(x) => x,
            None => {
                return Err(RequestError::invalid_format("partition_id", cid));
            },
        };
        let (current_leader_epoch, p2) = match decode_i32(input, p1) {
            Some(x) => x,
            None => {
                return Err(RequestError::invalid_format("partition current leader epoch", cid));
            },
        };
        let (fetch_offset, p3) = match decode_i64(input, p2) {
            Some(x) => x,
            None => {
                return Err(RequestError::invalid_format("partition fetch_offset", cid));
            },
        };
        let (last_fetched_epoch, p4) = match decode_i32(input, p3) {
            Some(x) => x,
            None => {
                return Err(RequestError::invalid_format("partition last_fetched_epoch", cid));
            },
        };
        let (log_start_offset, p5) = match decode_i64(input, p4) {
            Some(x) => x,
            None => {
                return Err(RequestError::invalid_format("partition log_start_offset", cid));
            },
        };
        let (partition_max_bytes, p6) = match decode_i32(input, p5) {
            Some(x) => x,
            None => {
                return Err(RequestError::invalid_format("partition partition_max_bytes", cid));
            },
        };
        let (_tf, end) = match try_read_tagged_fields(input, p6) {
            Some(x) => x,
            None => {
                return Err(RequestError::invalid_format("partition tagged_fields", cid));
            },
        };
        Ok(
            (
                Partition {
                    index,
                    current_leader_epoch,
                    fetch_offset,
                    last_fetched_epoch,
                    log_start_offset,
                    partition_max_bytes,
                },
                end,
            ),
        )
    }
}

/// One requested fetch topic: its 16-byte id and partitions.
#[derive(Debug, Clone)]
pub struct Topic {
    pub topic_id: Vec<u8>,
    pub partitions: Vec<Partition>,
}

/// Mathematical model of a fetch topic entry.
pub struct TopicV {
    pub topic_id: Seq<u8>,
    pub partitions: Seq<Partition>,
}

impl DeepView for Topic {
    type V = TopicV;

    open spec fn deep_view(&self) -> TopicV {
        TopicV { topic_id: self.topic_id@, partitions: self.partitions.deep_view() }
    }
}

impl WireDecodeErr for Topic {
    open spec fn sp_parse_err(s: Seq<u8>, pos: int, cid: i32) -> Result<(TopicV, int), RequestErrorV> {
        match spec_parse_uuid(s, pos) {
            Some((topic_id, p1)) => match spec_parse_compact_array_err(
                s,
                p1,
                parse_err_fn::<Partition>(cid),
            ) {
                None => Err(spec_invalid_format("parition length"@, cid)),
                Some(Err(e)) => Err(e),
                Some(Ok((partitions, p2))) => match spec_parse_tagged_fields(s, p2) {
                    Some((_tf, end)) => Ok((TopicV { topic_id, partitions }, end)),
                    None => Err(spec_invalid_format("topic tagged_fields"@, cid)),
                },
            },
            None => Err(spec_invalid_format("topic topic_id"@, cid)),
        }
    }

    fn wire_decode_err(input: &[u8], pos: usize, cid: i32) -> (r: Result<(Self, usize), RequestError>) {
        let (topic_id, p1) = match decode_uuid(input, pos) {
            Some(x) => x,
            None => {
                return Err(RequestError::invalid_format("topic topic_id", cid));
            },
        };
        let (partitions, p2) = match try_read_vec_from_compact_array::<Partition>(input, p1, cid) {
            Ok(x) => x,
            Err(e) => {
                return Err(e.into_request_error("parition length", cid));
            },
        };
        let (_tf, end) = match try_read_tagged_fields(input, p2) {
            Some(x) => x,
            None => {
                return Err(RequestError::invalid_format("topic tagged_fields", cid));
            },
        };
        Ok((Topic { topic_id, partitions }, end))
    }
}

/// One forgotten-topic entry: its 16-byte id and partition indexes.
#[derive(Debug, Clone)]
pub struct ForgettenTopic {
    pub topic_id: Vec<u8>,
    pub partitions: Vec<i32>,
}

/// Mathematical model of a forgotten-topic entry.
pub struct ForgettenTopicV {
    pub topic_id: Seq<u8>,
    pub partitions: Seq<i32>,
}

impl DeepView for ForgettenTopic {
    type V = ForgettenTopicV;

    open spec fn deep_view(&self) -> ForgettenTopicV {
        ForgettenTopicV { topic_id: self.topic_id@, partitions: self.partitions.deep_view() }
    }
}

impl WireDecodeErr for ForgettenTopic {
    open spec fn sp_parse_err(s: Seq<u8>, pos: int, cid: i32) -> Result<(ForgettenTopicV, int), RequestErrorV> {
        match spec_parse_uuid(s, pos) {
            Some((topic_id, p1)) => match spec_parse_compact_array(s, p1, parse_fn::<i32>()) {
                Some((partitions, p2)) => match spec_parse_tagged_fields(s, p2) {
                    Some((_tf, end)) => Ok((ForgettenTopicV { topic_id, partitions }, end)),
                    None => Err(spec_invalid_format("forgotten topic tagged_fields"@, cid)),
                },
                None => Err(spec_invalid_format("forgotten topic topic_id"@, cid)),
            },
            None => Err(spec_invalid_format("forgotten topic topic_id"@, cid)),
        }
    }

    fn wire_decode_err(input: &[u8], pos: usize, cid: i32) -> (r: Result<(Self, usize), RequestError>) {
        let (topic_id, p1) = match decode_uuid(input, pos) {
            Some(x) => x,
            None => {
                return Err(RequestError::invalid_format("forgotten topic topic_id", cid));
            },
        };
        let (partitions, p2) = match parse_compact_array::<i32>(input, p1) {
            Some(x) => x,
            None => {
                return Err(RequestError::invalid_format("forgotten topic topic_id", cid));
            },
        };
        let (_tf, end) = match try_read_tagged_fields(input, p2) {
            Some(x) => x,
            None => {
                return Err(RequestError::invalid_format("forgotten topic tagged_fields", cid));
            },
        };
        Ok((ForgettenTopic { topic_id, partitions }, end))
    }
}

/// The V16 body fields.
#[derive(Debug, Clone)]
pub struct FetchRequestBodyV16 {
    pub ax_wait_ms: i32,
    pub min_bytes: i32,
    pub max_bytes: i32,
    pub isolation_level: i8,
    pub session_id: i32,
    pub session_epoch: i32,
    pub topics: Vec<Topic>,
    pub forgotten_topics: Vec<ForgettenTopic>,
    pub rack_id: String,
}

/// Mathematical model of the V16 body.
pub struct FetchRequestBodyV16V {
    pub ax_wait_ms: i32,
    pub min_bytes: i32,
    pub max_bytes: i32,
    pub isolation_level: i8,
    pub session_id: i32,
    pub session_epoch: i32,
    pub topics: Seq<TopicV>,
    pub forgotten_topics: Seq<ForgettenTopicV>,
    pub rack_id: Seq<char>,
}

impl DeepView for FetchRequestBodyV16 {
    type V = FetchRequestBodyV16V;

    open spec fn deep_view(&self) -> FetchRequestBodyV16V {
        FetchRequestBodyV16V {
            ax_wait_ms: self.ax_wait_ms,
            min_bytes: self.min_bytes,
            max_bytes: self.max_bytes,
            isolation_level: self.isolation_level,
            session_id: self.session_id,
            session_epoch: self.session_epoch,
            topics: self.topics.deep_view(),
            forgotten_topics: self.forgotten_topics.deep_view(),
            rack_id: self.rack_id@,
        }
    }
}

/// A Fetch request body; only version 16 exists.
#[derive(Debug, Clone)]
pub enum FetchRequestBody {
    V16(FetchRequestBodyV16),
}

/// Mathematical model of a Fetch request body.
pub enum FetchRequestBodyV {
    V16(FetchRequestBodyV16V),
}

impl DeepView for FetchRequestBody {
    type V = FetchRequestBodyV;

    open spec fn deep_view(&self) -> FetchRequestBodyV {
        match self {
            FetchRequestBody::V16(b) => FetchRequestBodyV::V16(b.deep_view()),
        }
    }
}

/// Parse the V16 body fields.
pub open spec fn spec_parse_fetch_body_v16(s: Seq<u8>, pos: int, cid: i32) -> Result<
    (FetchRequestBodyV16V, int),
    RequestErrorV,
> {
    match spec_parse_i32(s, pos) {
        Some((ax_wait_ms, p1)) => match spec_parse_i32(s, p1) {
            Some((min_bytes, p2)) => match spec_parse_i32(s, p2) {
                Some((max_bytes, p3)) => match spec_parse_i8(s, p3) {
                    Some((isolation_level, p4)) => match spec_parse_i32(s, p4) {
                        Some((session_id, p5)) => match spec_parse_i32(s, p5) {
                            Some((session_epoch, p6)) => match spec_parse_compact_array_err(
                                s,
                                p6,
                                parse_err_fn::<Topic>(cid),
                            ) {
                                None => Err(spec_invalid_format("topics length"@, cid)),
                                Some(Err(e)) => Err(e),
                                Some(Ok((topics, p7))) => match spec_parse_compact_array_err(
                                    s,
                                    p7,
                                    parse_err_fn::<ForgettenTopic>(cid),
                                ) {
                                    None => Err(
                                        spec_invalid_format("forgotten_topics length"@, cid),
                                    ),
                                    Some(Err(e)) => Err(e),
                                    Some(Ok((forgotten_topics, p8))) => match spec_parse_compact_string(
                                        s,
                                        p8,
                                    ) {
                                        Some((rack_id, p9)) => match spec_parse_tagged_fields(
                                            s,
                                            p9,
                                        ) {
                                            Some((_tf, end)) => Ok(
                                                (
                                                    FetchRequestBodyV16V {
                                                        ax_wait_ms,
                                                        min_bytes,
                                                        max_bytes,
                                                        isolation_level,
                                                        session_id,
                                                        session_epoch,
                                                        topics,
                                                        forgotten_topics,
                                                        rack_id,
                                                    },
                                                    end,
                                                ),
                                            ),
                                            None => Err(
                                                spec_invalid_format("fetch tagged_fields"@, cid),
                                            ),
                                        },
                                        None => Err(spec_invalid_format("rack_id"@, cid)),
                                    },
                                },
                            },
                            None => Err(spec_invalid_format("fetch session_epoch"@, cid)),
                        },
                        None => Err(spec_invalid_format("fetch session_id"@, cid)),
                    },
                    None => Err(spec_invalid_format("fetch isolation_level"@, cid)),
                },
                None => Err(spec_invalid_format("fetch max_bytes"@, cid)),
            },
            None => Err(spec_invalid_format("fetch min_bytes"@, cid)),
        },
        None => Err(spec_invalid_format("fetch ax_wait_ms"@, cid)),
    }
}

/// Parse a Fetch request body. Version 16 succeeds whenever its fields
/// parse; every other version — inside or outside the nominal range — is
/// `UnsupportedVersion`.
pub open spec fn spec_parse_fetch_body(s: Seq<u8>, pos: int, api_version: i16, cid: i32) -> Result<
    (FetchRequestBodyV, int),
    RequestErrorV,
> {
    if api_version == 16 {
        match spec_parse_fetch_body_v16(s, pos, cid) {
            Ok((b, end)) => Ok((FetchRequestBodyV::V16(b), end)),
            Err(e) => Err(e),
        }
    } else {
        Err(RequestErrorV::UnsupportedVersion { api_version, correlation_id: cid })
    }
}

impl FetchRequestBody {
    /// Decode a Fetch request body under the header's version and
    /// correlation id, exactly as the specification-level parse does.
    pub fn try_parse_from_bytes(input: &[u8], pos: usize, header: &KafkaRequestHeader) -> (r:
        Result<(FetchRequestBody, usize), RequestError>)
        requires
            pos <= input@.len(),
        ensures
            match r {
                Ok((b, end)) => spec_parse_fetch_body(
                    input@,
                    pos as int,
                    spec_header_common(header.deep_view()).1,
                    spec_header_common(header.deep_view()).2,
                ) == Ok::<_, RequestErrorV>((b.deep_view(), end as int)) && pos <= end
                    <= input@.len(),
                Err(e) => spec_parse_fetch_body(
                    input@,
                    pos as int,
                    spec_header_common(header.deep_view()).1,
                    spec_header_common(header.deep_view()).2,
                ) == Err::<(FetchRequestBodyV, int), _>(e@),
            },
    {
        let api_version = header.request_api_version();
        let cid = header.correlation_id();
        let version = match SupportFetchRequestVersion::from_i16(api_version) {
            Some(v) => v,
            None => {
                return Err(RequestError::unsupported_version(api_version, cid));
            },
        };
        match version {
            SupportFetchRequestVersion::V16 => {},
            _ => {
                return Err(RequestError::unsupported_version(api_version, cid));
            },
        }
        let (ax_wait_ms, p1) = match decode_i32(input, pos) {
            Some(x) => x,
            None => {
                return Err(RequestError::invalid_format("fetch ax_wait_ms", cid));
            },
        };
        let (min_bytes, p2) = match decode_i32(input, p1) {
            Some(x) => x,
            None => {
                return Err(RequestError::invalid_format("fetch min_bytes", cid));
            },
        };
        let (max_bytes, p3) = match decode_i32(input, p2) {
            Some(x) => x,
            None => {
                return Err(RequestError::invalid_format("fetch max_bytes", cid));
            },
        };
        let (isolation_level, p4) = match decode_i8(input, p3) {
            Some(x) => x,
            None => {
                return Err(RequestError::invalid_format("fetch isolation_level", cid));
            },
        };
        let (session_id, p5) = match decode_i32(input, p4) {
            Some(x) => x,
            None => {
                return Err(RequestError::invalid_format("fetch session_id", cid));
            },
        };
        let (session_epoch, p6) = match decode_i32(input, p5) {
            Some(x) => x,
            None => {
                return Err(RequestError::invalid_format("fetch session_epoch", cid));
            },
        };
        let (topics, p7) = match try_read_vec_from_compact_array::<Topic>(input, p6, cid) {
            Ok(x) => x,
            Err(e) => {
                return Err(e.into_request_error("topics length", cid));
            },
        };
        let (forgotten_topics, p8) = match try_read_vec_from_compact_array::<ForgettenTopic>(
            input,
            p7,
            cid,
        ) {
            Ok(x) => x,
            Err(e) => {
                return Err(e.into_request_error("forgotten_topics length", cid));
            },
        };
        let (rack_id, p9) = match try_read_compact_string(input, p8) {
            Some(x) => x,
            None => {
                return Err(RequestError::invalid_format("rack_id", cid));
            },
        };
        let (_tf, end) = match try_read_tagged_fields(input, p9) {
            Some(x) => x,
            None => {
                return Err(RequestError::invalid_format("fetch tagged_fields", cid));
            },
        };
        Ok(
            (
                FetchRequestBody::V16(
                    FetchRequestBodyV16 {
                        ax_wait_ms,
                        min_bytes,
                        max_bytes,
                        isolation_level,
                        session_id,
                        session_epoch,
                        topics,
                        forgotten_topics,
                        rack_id,
                    },
                ),
                end,
            ),
        )
    }
}

} // verus!
