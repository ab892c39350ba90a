//! The DescribeTopicPartitions request body, version 0 only: the requested
//! topic names, a response partition limit, an ignored cursor-presence
//! byte, and a tagged-field epilogue.
use vstd::prelude::*;

use crate::be::{decode_i32, decode_i8, spec_parse_i32, spec_parse_i8};
use crate::primitives::spec_parse_compact_string;
use crate::request::error::{spec_invalid_format, RequestError, RequestErrorV};
use crate::request::header::{spec_header_common, KafkaRequestHeader};
use crate::request::utils::{parse_err_fn, spec_parse_compact_array_err, try_read_compact_string,
    try_read_tagged_fields, try_read_vec_from_compact_array, WireDecodeErr};
use crate::tagged_field::spec_parse_tagged_fields;

verus! {

/// A requested topic entry: its name, with its tagged fields drained.
impl WireDecodeErr for String {
    open spec fn sp_parse_err(s: Seq<u8>, pos: int, cid: i32) -> Result<(Seq<char>, int), RequestErrorV> {
        match spec_parse_compact_string(s, pos) {
            Some((name, p)) => match spec_parse_tagged_fields(s, p) {
                Some((_tf, q)) => Ok((name, q)),
                None => Err(spec_invalid_format("topics tagged fields"@, cid)),
            },
            None => Err(spec_invalid_format("topic"@, cid)),
        }
    }

    fn wire_decode_err(input: &[u8], pos: usize, cid: i32) -> (r: Result<(Self, usize), RequestError>) {
        let (name, p) = match try_read_compact_string(input, pos) {
            Some(x) => x,
            None => {
                return Err(RequestError::invalid_format("topic", cid));
            },
        };
        match try_read_tagged_fields(input, p) {
            Some((_tf, q)) => Ok((name, q)),
            None => Err(RequestError::invalid_format("topics tagged fields", cid)),
        }
    }
}

/// The V0 body fields.
#[derive(Debug, Clone)]
pub struct DescribeTopicPartitionsRequestBodyV0 {
    pub topics: Vec<String>,
    pub response_partition_limit: i32,
}

/// Mathematical model of the V0 body.
pub struct DescribeTopicPartitionsRequestBodyV0V {
    pub topics: Seq<Seq<char>>,
    pub response_partition_limit: i32,
}

impl DeepView for DescribeTopicPartitionsRequestBodyV0 {
    type V = DescribeTopicPartitionsRequestBodyV0V;

    open spec fn deep_view(&self) -> DescribeTopicPartitionsRequestBodyV0V {
        DescribeTopicPartitionsRequestBodyV0V {
            topics: self.topics.deep_view(),
            response_partition_limit: self.response_partition_limit,
        }
    }
}

/// A DescribeTopicPartitions request body; only version 0 exists.
#[derive(Debug, Clone)]
pub enum DescribeTopicPartitionsRequestBody {
    V0(DescribeTopicPartitionsRequestBodyV0),
}

/// Mathematical model of a DescribeTopicPartitions request body.
pub enum DescribeTopicPartitionsRequestBodyV {
    V0(DescribeTopicPartitionsRequestBodyV0V),
}

impl DeepView for DescribeTopicPartitionsRequestBody {
    type V = DescribeTopicPartitionsRequestBodyV;

    open spec fn deep_view(&self) -> DescribeTopicPartitionsRequestBodyV {
        match self {
            DescribeTopicPartitionsRequestBody::V0(b) => DescribeTopicPartitionsRequestBodyV::V0(
                b.deep_view(),
            ),
        }
    }
}

/// Parse a DescribeTopicPartitions request body. Version 0 succeeds
/// whenever its fields parse; any other version is `UnsupportedVersion`.
pub open spec fn spec_parse_describe_topic_partitions_body(
    s: Seq<u8>,
    pos: int,
    api_version: i16,
    cid: i32,
) -> Result<(DescribeTopicPartitionsRequestBodyV, int), RequestErrorV> {
    if api_version != 0 {
        Err(RequestErrorV::UnsupportedVersion { api_version, correlation_id: cid })
    } else {
        match spec_parse_compact_array_err(s, pos, parse_err_fn::<String>(cid)) {
            None => Err(spec_invalid_format("topics length"@, cid)),
            Some(Err(e)) => Err(e),
            Some(Ok((topics, p))) => match spec_parse_i32(s, p) {
                Some((response_partition_limit, p2)) => match spec_parse_i8(s, p2) {
                    Some((_cursor, p3)) => match spec_parse_tagged_fields(s, p3) {
                        Some((_tf, p4)) => Ok(
                            (
                                DescribeTopicPartitionsRequestBodyV::V0(
                                    DescribeTopicPartitionsRequestBodyV0V {
                                        topics,
                                        response_partition_limit,
                                    },
                                ),
                                p4,
                            ),
                        ),
                        None => Err(spec_invalid_format("tagged fields"@, cid)),
                    },
                    None => Err(spec_invalid_format("cursor"@, cid)),
                },
                None => Err(spec_invalid_format("response_partition_limit"@, cid)),
            },
        }
    }
}

impl DescribeTopicPartitionsRequestBody {
    /// Decode a DescribeTopicPartitions request body under the header's
    /// version and correlation id, exactly as the specification-level parse
    /// does.
    pub fn try_parse_from_bytes(input: &[u8], pos: usize, header: &KafkaRequestHeader) -> (r:
        Result<(DescribeTopicPartitionsRequestBody, usize), RequestError>)
        requires
            pos <= input@.len(),
        ensures
            match r {
                Ok((b, end)) => spec_parse_describe_topic_partitions_body(
                    input@,
                    pos as int,
                    spec_header_common(header.deep_view()).1,
                    spec_header_common(header.deep_view()).2,
                ) == Ok::<_, RequestErrorV>((b.deep_view(), end as int)) && pos <= end
                    <= input@.len(),
                Err(e) => spec_parse_describe_topic_partitions_body(
                    input@,
                    pos as int,
                    spec_header_common(header.deep_view()).1,
                    spec_header_common(header.deep_view()).2,
                ) == Err::<(DescribeTopicPartitionsRequestBodyV, int), _>(e@),
            },
    {
        let api_version = header.request_api_version();
        let cid = header.correlation_id();
        if api_version != 0 {
            return Err(RequestError::unsupported_version(api_version, cid));
        }
        let (topics, p) = match try_read_vec_from_compact_array::<String>(input, pos, cid) {
            Ok(x) => x,
            Err(e) => {
                return Err(e.into_request_error("topics length", cid));
            },
        };
        let (response_partition_limit, p2) = match decode_i32(input, p) {
            Some(x) => x,
            None => {
                return Err(RequestError::invalid_format("response_partition_limit", cid));
            },
        };
        let (_cursor, p3) = match decode_i8(input, p2) {
            Some(x) => x,
            None => {
                return Err(RequestError::invalid_format("cursor", cid));
            },
        };
        let (_tf, p4) = match try_read_tagged_fields(input, p3) {
            Some(x) => x,
            None => {
                return Err(RequestError::invalid_format("tagged fields", cid));
            },
        };
        Ok(
            (
                DescribeTopicPartitionsRequestBody::V0(
                    DescribeTopicPartitionsRequestBodyV0 { topics, response_partition_limit },
                ),
                p4,
            ),
        )
    }
}

} // verus!
