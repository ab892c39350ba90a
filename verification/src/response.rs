//! Response construction and encoding: the versioned response header, the
//! per-API body encoders, and the frame-level serializer that length-
//! prefixes the whole message.
//!
//! The header version depends on the response type, not on the request
//! header's version: ApiVersions and Fetch responses use the bare V0
//! header, DescribeTopicPartitions responses the V1 header. A request-level
//! error is answered with a best-effort response — the ApiVersions error
//! shape for an unsupported version, an empty body otherwise — so the
//! connection stays alive.
pub mod error_code;
pub mod response_body;
pub mod response_header;
pub mod utils;

use vstd::prelude::*;

use crate::be::{encode_i32, spec_enc_i32};
use crate::primitives::extend_bytes;
use crate::records::RecordBatch;
use crate::records::RecordBatchV;
use crate::request::body::{KafkaRequestBody, KafkaRequestBodyV};
use crate::request::error::{RequestError, RequestErrorV};
use crate::request::header::spec_header_common;
use crate::request::{KafkaRequest, KafkaRequestV};
use crate::response::response_body::api_versions::{spec_api_versions_body_keys,
    spec_api_versions_error_response, spec_api_versions_response, spec_enc_api_versions_body, KafkaResponseBodyApiVersions, KafkaResponseBodyApiVersionsV};
use crate::response::response_body::describe_topic_partitions::{spec_dtp_body_topics,
    spec_dtp_response_v0, spec_enc_dtp_body, KafkaResponseBodyDescribeTopicPartitions,
    KafkaResponseBodyDescribeTopicPartitionsV};
use crate::response::response_body::fetch::{spec_enc_fetch_body, spec_fetch_body_topics,
    spec_fetch_response_v16, KafkaResponseBodyFetch, KafkaResponseBodyFetchV};
use crate::response::response_header::{spec_enc_response_header, spec_header_v0, spec_header_v1,
    KafkaResponseHeader, KafkaResponseHeaderV};
use crate::request::body::api_versions::{spec_body_version, ApiVersionsRequestBody};
use crate::request::body::fetch::FetchRequestBody;

verus! {

/// A response body of whichever API the request selected, or the empty
/// body used when only the header can be echoed.
#[derive(Debug, Clone)]
pub enum KafkaResponseBody {
    Empty,
    Fetch(KafkaResponseBodyFetch),
    ApiVersions(KafkaResponseBodyApiVersions),
    DescribeTopicPartitions(KafkaResponseBodyDescribeTopicPartitions),
}

/// Mathematical model of a response body.
pub enum KafkaResponseBodyV {
    Empty,
    Fetch(KafkaResponseBodyFetchV),
    ApiVersions(KafkaResponseBodyApiVersionsV),
    DescribeTopicPartitions(KafkaResponseBodyDescribeTopicPartitionsV),
}

impl DeepView for KafkaResponseBody {
    type V = KafkaResponseBodyV;

    open spec fn deep_view(&self) -> KafkaResponseBodyV {
        match self {
            KafkaResponseBody::Empty => KafkaResponseBodyV::Empty,
            KafkaResponseBody::Fetch(b) => KafkaResponseBodyV::Fetch(b.deep_view()),
            KafkaResponseBody::ApiVersions(b) => KafkaResponseBodyV::ApiVersions(b.deep_view()),
            KafkaResponseBody::DescribeTopicPartitions(b) => {
                KafkaResponseBodyV::DescribeTopicPartitions(b.deep_view())
            },
        }
    }
}

/// Encoding of a response body; the empty body has no bytes at all.
pub open spec fn spec_enc_response_body(b: KafkaResponseBodyV) -> Seq<u8> {
    match b {
        KafkaResponseBodyV::Empty => Seq::empty(),
        KafkaResponseBodyV::Fetch(x) => spec_enc_fetch_body(x),
        KafkaResponseBodyV::ApiVersions(x) => spec_enc_api_versions_body(x),
        KafkaResponseBodyV::DescribeTopicPartitions(x) => spec_enc_dtp_body(x),
    }
}

/// A response body is encodable when its lists fit their count varints and
/// every entry is encodable.
pub open spec fn spec_response_body_wf(b: KafkaResponseBodyV) -> bool {
    match b {
        KafkaResponseBodyV::Empty => true,
        KafkaResponseBodyV::Fetch(x) => spec_fetch_body_topics(x).len() + 1 <= u64::MAX
            && forall|i: int|
            0 <= i < spec_fetch_body_topics(x).len()
                ==> <crate::response::response_body::fetch::Topic as crate::elems::WireEncode>::sp_wf(
                #[trigger] spec_fetch_body_topics(x)[i],
            ),
        KafkaResponseBodyV::ApiVersions(x) => spec_api_versions_body_keys(x).len() + 1
            <= u64::MAX,
        KafkaResponseBodyV::DescribeTopicPartitions(x) => spec_dtp_body_topics(x).len() + 1
            <= u64::MAX && forall|i: int|
            0 <= i < spec_dtp_body_topics(x).len()
                ==> <crate::response::response_body::describe_topic_partitions::Topic as crate::elems::WireEncode>::sp_wf(
                #[trigger] spec_dtp_body_topics(x)[i],
            ),
    }
}

impl KafkaResponseBody {
    /// The ApiVersions body answering a well-formed ApiVersions request.
    pub fn from_api_versions_request_body(body: &ApiVersionsRequestBody) -> (r: KafkaResponseBody)
        ensures
            r.deep_view() == KafkaResponseBodyV::ApiVersions(
                spec_api_versions_response(spec_body_version(body.deep_view())),
            ),
    {
        KafkaResponseBody::ApiVersions(KafkaResponseBodyApiVersions::new(body.get_api_version()))
    }

    /// The ApiVersions error body answering an unsupported request
    /// version.
    pub fn from_api_versions_with_invalid_api_version(_api_version: i16) -> (r: KafkaResponseBody)
        ensures
            r.deep_view() == KafkaResponseBodyV::ApiVersions(spec_api_versions_error_response()),
    {
        KafkaResponseBody::ApiVersions(KafkaResponseBodyApiVersions::error())
    }

    /// The DescribeTopicPartitions body answering a request against the
    /// snapshot.
    pub fn from_describe_topic_partitions_request_body(
        body: &crate::request::body::describe_topic_partitions::DescribeTopicPartitionsRequestBody,
        record_batches: &Vec<RecordBatch>,
    ) -> (r: KafkaResponseBody)
        ensures
            (match body.deep_view() {
                crate::request::body::describe_topic_partitions::DescribeTopicPartitionsRequestBodyV::V0(
                    b,
                ) => r.deep_view() == KafkaResponseBodyV::DescribeTopicPartitions(
                    KafkaResponseBodyDescribeTopicPartitionsV::V0(
                        spec_dtp_response_v0(b.topics, record_batches.deep_view()),
                    ),
                ),
            }),
    {
        KafkaResponseBody::DescribeTopicPartitions(
            KafkaResponseBodyDescribeTopicPartitions::new(body, record_batches),
        )
    }

    /// The Fetch body answering a request against the snapshot.
    pub fn from_fetch_request_body(body: &FetchRequestBody, record_batches: &Vec<RecordBatch>) -> (r:
        KafkaResponseBody)
        ensures
            (match body.deep_view() {
                crate::request::body::fetch::FetchRequestBodyV::V16(b) => r.deep_view()
                    == KafkaResponseBodyV::Fetch(
                    KafkaResponseBodyFetchV::V16(
                        spec_fetch_response_v16(b, record_batches.deep_view()),
                    ),
                ),
            }),
    {
        KafkaResponseBody::Fetch(KafkaResponseBodyFetch::new(body, record_batches))
    }

    /// Append this body's wire bytes to `out`, exactly when it is
    /// encodable.
    pub fn serialize(&self, out: &mut Vec<u8>) -> (r: bool)
        ensures
            r == spec_response_body_wf(self.deep_view()),
            r ==> final(out)@ == old(out)@ + spec_enc_response_body(self.deep_view()),
    {
        match self {
            KafkaResponseBody::Empty => {
                assert(out@ =~= old(out)@ + Seq::<u8>::empty());
                true
            },
            KafkaResponseBody::ApiVersions(b) => b.serialize(out),
            KafkaResponseBody::DescribeTopicPartitions(b) => b.serialize(out),
            KafkaResponseBody::Fetch(b) => b.serialize(out),
        }
    }
}

/// One response: its header and body.
#[derive(Debug, Clone)]
pub struct KafkaResponse {
    pub header: KafkaResponseHeader,
    pub body: KafkaResponseBody,
}

/// Mathematical model of a response.
pub struct KafkaResponseV {
    pub header: KafkaResponseHeaderV,
    pub body: KafkaResponseBodyV,
}

impl DeepView for KafkaResponse {
    type V = KafkaResponseV;

    open spec fn deep_view(&self) -> KafkaResponseV {
        KafkaResponseV { header: self.header.deep_view(), body: self.body.deep_view() }
    }
}

/// The response every decoded request or request-level error is answered
/// with. A decoded request is dispatched on its body; an unsupported
/// version gets the ApiVersions error shape; every other error gets an
/// empty body, with the sentinel correlation id when none was read. A
/// Produce request, whose body decodes to the empty body, is answered with
/// an empty body as well.
pub open spec fn spec_response_for(
    r: Result<KafkaRequestV, RequestErrorV>,
    batches: Seq<RecordBatchV>,
) -> KafkaResponseV {
    match r {
        Ok(req) => {
            let cid = spec_header_common(req.header).2;
            match req.body {
                KafkaRequestBodyV::ApiVersions(b) => KafkaResponseV {
                    header: spec_header_v0(cid),
                    body: KafkaResponseBodyV::ApiVersions(
                        spec_api_versions_response(spec_body_version(b)),
                    ),
                },
                KafkaRequestBodyV::DescribeTopicPartitions(b) => KafkaResponseV {
                    header: spec_header_v1(cid),
                    body: KafkaResponseBodyV::DescribeTopicPartitions(
                        match b {
                            crate::request::body::describe_topic_partitions::DescribeTopicPartitionsRequestBodyV::V0(
                                inner,
                            ) => KafkaResponseBodyDescribeTopicPartitionsV::V0(
                                spec_dtp_response_v0(inner.topics, batches),
                            ),
                        },
                    ),
                },
                KafkaRequestBodyV::Fetch(b) => KafkaResponseV {
                    header: spec_header_v0(cid),
                    body: KafkaResponseBodyV::Fetch(
                        match b {
                            crate::request::body::fetch::FetchRequestBodyV::V16(inner) => {
                                KafkaResponseBodyFetchV::V16(
                                    spec_fetch_response_v16(inner, batches),
                                )
                            },
                        },
                    ),
                },
                KafkaRequestBodyV::Empty => KafkaResponseV {
                    header: spec_header_v0(cid),
                    body: KafkaResponseBodyV::Empty,
                },
                KafkaRequestBodyV::Produce => KafkaResponseV {
                    header: spec_header_v0(cid),
                    body: KafkaResponseBodyV::Empty,
                },
            }
        },
        Err(e) => match e {
            RequestErrorV::UnsupportedVersion { api_version, correlation_id } => KafkaResponseV {
                header: spec_header_v0(correlation_id),
                body: KafkaResponseBodyV::ApiVersions(spec_api_versions_error_response()),
            },
            RequestErrorV::UnsupportedApiKey { api_key, correlation_id } => KafkaResponseV {
                header: spec_header_v0(correlation_id),
                body: KafkaResponseBodyV::Empty,
            },
            RequestErrorV::InvalidFormat { field, correlation_id } => KafkaResponseV {
                header: spec_header_v0(correlation_id),
                body: KafkaResponseBodyV::Empty,
            },
            RequestErrorV::InvalidFormatWithoutCId(_) => KafkaResponseV {
                header: spec_header_v0(-1i32),
                body: KafkaResponseBodyV::Empty,
            },
        },
    }
}

impl KafkaResponse {
    /// A response with an empty body under the given header.
    pub fn empty(header: KafkaResponseHeader) -> (r: KafkaResponse)
        ensures
            r.deep_view() == (KafkaResponseV {
                header: header.deep_view(),
                body: KafkaResponseBodyV::Empty,
            }),
    {
        KafkaResponse { header, body: KafkaResponseBody::Empty }
    }

    /// Answer a decoded request or a request-level error against the
    /// snapshot.
    pub fn from_request(
        request: &Result<KafkaRequest, RequestError>,
        record_batches: &Vec<RecordBatch>,
    ) -> (r: KafkaResponse)
        ensures
            r.deep_view() == spec_response_for(
                match request {
                    Ok(req) => Ok(req.deep_view()),
                    Err(e) => Err(e@),
                },
                record_batches.deep_view(),
            ),
    {
        match request {
            Ok(req) => Self::new(req, record_batches),
            Err(error) => Self::new_error_response(error),
        }
    }

    /// Answer a decoded request.
    fn new(request: &KafkaRequest, record_batches: &Vec<RecordBatch>) -> (r: KafkaResponse)
        ensures
            r.deep_view() == spec_response_for(
                Ok(request.deep_view()),
                record_batches.deep_view(),
            ),
    {
        let cid = request.correlation_id();
        match request.request_body() {
            KafkaRequestBody::ApiVersions(body) => KafkaResponse {
                header: KafkaResponseHeader::new_v0(cid),
                body: KafkaResponseBody::from_api_versions_request_body(body),
            },
            KafkaRequestBody::DescribeTopicPartitions(body) => KafkaResponse {
                header: KafkaResponseHeader::new_v1(cid),
                body: KafkaResponseBody::from_describe_topic_partitions_request_body(
                    body,
                    record_batches,
                ),
            },
            KafkaRequestBody::Fetch(body) => KafkaResponse {
                header: KafkaResponseHeader::new_v0(cid),
                body: KafkaResponseBody::from_fetch_request_body(body, record_batches),
            },
            KafkaRequestBody::Empty => KafkaResponse {
                header: KafkaResponseHeader::new_v0(cid),
                body: KafkaResponseBody::Empty,
            },
            KafkaRequestBody::Produce => KafkaResponse {
                header: KafkaResponseHeader::new_v0(cid),
                body: KafkaResponseBody::Empty,
            },
        }
    }

    /// Answer a request-level error.
    fn new_error_response(request_error: &RequestError) -> (r: KafkaResponse)
        ensures
            r.deep_view() == spec_response_for(
                Err(request_error@),
                Seq::<RecordBatchV>::empty(),
            ),
    {
        match request_error {
            RequestError::UnsupportedVersion { api_version, correlation_id } => KafkaResponse {
                header: KafkaResponseHeader::new_v0(*correlation_id),
                body: KafkaResponseBody::from_api_versions_with_invalid_api_version(*api_version),
            },
            RequestError::UnsupportedApiKey { api_key: _, correlation_id } => KafkaResponse::empty(
                KafkaResponseHeader::new_v0(*correlation_id),
            ),
            RequestError::InvalidFormat { field: _, correlation_id } => KafkaResponse::empty(
                KafkaResponseHeader::new_v0(*correlation_id),
            ),
            RequestError::InvalidFormatWithoutCId(_field) => KafkaResponse::empty(
                KafkaResponseHeader::new_v0(-1),
            ),
        }
    }
}

/// The frame length prefix: the payload length, saturated to `i32::MAX`
/// when the true length does not fit the fixed-width field.
pub open spec fn spec_saturated_len(n: nat) -> i32 {
    if n > i32::MAX {
        i32::MAX
    } else {
        n as i32
    }
}

/// Encoding of a whole response message: the length prefix, then the
/// header and body bytes it counts.
pub open spec fn spec_enc_response(m: KafkaResponseV) -> Seq<u8> {
    let payload = spec_enc_response_header(m.header) + spec_enc_response_body(m.body);
    spec_enc_i32(spec_saturated_len(payload.len())) + payload
}

impl KafkaResponse {
    /// Append this response's wire bytes — the length-prefixed header and
    /// body — to `out`, exactly when the body is encodable.
    pub fn serialize(&self, out: &mut Vec<u8>) -> (r: bool)
        ensures
            r == spec_response_body_wf(self.deep_view().body),
            r ==> final(out)@ == old(out)@ + spec_enc_response(self.deep_view()),
    {
        let mut buf: Vec<u8> = Vec::new();
        self.header.serialize(&mut buf);
        let ok = self.body.serialize(&mut buf);
        if !ok {
            return false;
        }
        let message_size: i32 = if buf.len() > i32::MAX as usize {
            i32::MAX
        } else {
            buf.len() as i32
        };
        encode_i32(out, message_size);
        extend_bytes(out, buf.as_slice());
        assert(out@ =~= old(out)@ + spec_enc_response(self.deep_view()));
        true
    }
}

} // verus!
