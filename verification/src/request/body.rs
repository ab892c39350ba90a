//! The request body union, dispatched by API key: each supported API has
//! its own versioned decoder, and a Produce request decodes to an empty
//! body.
pub mod api_versions;
pub mod describe_topic_partitions;
pub mod fetch;

use vstd::prelude::*;

use crate::request::api_key::RequestApiKey;
use crate::request::body::api_versions::{spec_parse_api_versions_body, ApiVersionsRequestBody,
    ApiVersionsRequestBodyV};
use crate::request::body::describe_topic_partitions::{
    spec_parse_describe_topic_partitions_body, DescribeTopicPartitionsRequestBody,
    DescribeTopicPartitionsRequestBodyV};
use crate::request::body::fetch::{spec_parse_fetch_body, FetchRequestBody, FetchRequestBodyV};
use crate::request::error::{RequestError, RequestErrorV};
use crate::request::header::{spec_header_common, KafkaRequestHeader};

verus! {

/// A request body of whichever shape its API key selects.
#[derive(Debug, Clone)]
pub enum KafkaRequestBody {
    Empty,
    Produce,
    Fetch(FetchRequestBody),
    ApiVersions(ApiVersionsRequestBody),
    DescribeTopicPartitions(DescribeTopicPartitionsRequestBody),
}

/// Mathematical model of a request body.
pub enum KafkaRequestBodyV {
    Empty,
    Produce,
    Fetch(FetchRequestBodyV),
    ApiVersions(ApiVersionsRequestBodyV),
    DescribeTopicPartitions(DescribeTopicPartitionsRequestBodyV),
}

impl DeepView for KafkaRequestBody {
    type V = KafkaRequestBodyV;

    open spec fn deep_view(&self) -> KafkaRequestBodyV {
        match self {
            KafkaRequestBody::Empty => KafkaRequestBodyV::Empty,
            KafkaRequestBody::Produce => KafkaRequestBodyV::Produce,
            KafkaRequestBody::Fetch(b) => KafkaRequestBodyV::Fetch(b.deep_view()),
            KafkaRequestBody::ApiVersions(b) => KafkaRequestBodyV::ApiVersions(b.deep_view()),
            KafkaRequestBody::DescribeTopicPartitions(b) => {
                KafkaRequestBodyV::DescribeTopicPartitions(b.deep_view())
            },
        }
    }
}

/// Parse a request body under the header's key, version and correlation
/// id. A Produce request decodes to the empty body without reading a byte.
pub open spec fn spec_parse_request_body(
    s: Seq<u8>,
    pos: int,
    key: RequestApiKey,
    api_version: i16,
    cid: i32,
) -> Result<(KafkaRequestBodyV, int), RequestErrorV> {
    match key {
        RequestApiKey::ApiVersions => match spec_parse_api_versions_body(s, pos, api_version, cid) {
            Ok((b, end)) => Ok((KafkaRequestBodyV::ApiVersions(b), end)),
            Err(e) => Err(e),
        },
        RequestApiKey::DescribeTopicPartitions => match spec_parse_describe_topic_partitions_body(
            s,
            pos,
            api_version,
            cid,
        ) {
            Ok((b, end)) => Ok((KafkaRequestBodyV::DescribeTopicPartitions(b), end)),
            Err(e) => Err(e),
        },
        RequestApiKey::Fetch => match spec_parse_fetch_body(s, pos, api_version, cid) {
            Ok((b, end)) => Ok((KafkaRequestBodyV::Fetch(b), end)),
            Err(e) => Err(e),
        },
        RequestApiKey::Produce => Ok((KafkaRequestBodyV::Empty, pos)),
    }
}

impl KafkaRequestBody {
    /// Decode a request body under the given header, exactly as the
    /// specification-level parse does.
    pub fn try_parse_from_bytes(input: &[u8], pos: usize, header: &KafkaRequestHeader) -> (r:
        Result<(KafkaRequestBody, usize), RequestError>)
        requires
            pos <= input@.len(),
        ensures
            match r {
                Ok((b, end)) => spec_parse_request_body(
                    input@,
                    pos as int,
                    spec_header_common(header.deep_view()).0,
                    spec_header_common(header.deep_view()).1,
                    spec_header_common(header.deep_view()).2,
                ) == Ok::<_, RequestErrorV>((b.deep_view(), end as int)) && pos <= end
                    <= input@.len(),
                Err(e) => spec_parse_request_body(
                    input@,
                    pos as int,
                    spec_header_common(header.deep_view()).0,
                    spec_header_common(header.deep_view()).1,
                    spec_header_common(header.deep_view()).2,
                ) == Err::<(KafkaRequestBodyV, int), _>(e@),
            },
    {
        match header.request_api_key() {
            RequestApiKey::ApiVersions => {
                match ApiVersionsRequestBody::try_parse_from_bytes(input, pos, header) {
                    Ok((b, end)) => Ok((KafkaRequestBody::ApiVersions(b), end)),
                    Err(e) => Err(e),
                }
            },
            RequestApiKey::DescribeTopicPartitions => {
                match DescribeTopicPartitionsRequestBody::try_parse_from_bytes(input, pos, header) {
                    Ok((b, end)) => Ok((KafkaRequestBody::DescribeTopicPartitions(b), end)),
                    Err(e) => Err(e),
                }
            },
            RequestApiKey::Fetch => {
                match FetchRequestBody::try_parse_from_bytes(input, pos, header) {
                    Ok((b, end)) => Ok((KafkaRequestBody::Fetch(b), end)),
                    Err(e) => Err(e),
                }
            },
            RequestApiKey::Produce => Ok((KafkaRequestBody::Empty, pos)),
        }
    }
}

} // verus!
