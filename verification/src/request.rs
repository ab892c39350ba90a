//! Request decoding: the versioned header, the API-key-dispatched body, and
//! the frame-level entry point that turns one frame payload into a typed
//! request or a request-level error.
pub mod api_key;
pub mod body;
pub mod error;
pub mod header;
pub mod utils;

use vstd::prelude::*;

use crate::request::api_key::RequestApiKey;
use crate::request::body::{spec_parse_request_body, KafkaRequestBody, KafkaRequestBodyV};
use crate::request::error::{spec_invalid_format, RequestError, RequestErrorV};
use crate::request::header::{spec_header_common, spec_parse_request_header, KafkaRequestHeader,
    KafkaRequestHeaderV};

verus! {

/// A marker for a request whose body has not been decoded.
pub struct UnParsedBody;

/// One decoded request: its header and body.
#[derive(Debug)]
pub struct KafkaRequest {
    pub header: KafkaRequestHeader,
    pub body: KafkaRequestBody,
}

/// Mathematical model of a request.
pub struct KafkaRequestV {
    pub header: KafkaRequestHeaderV,
    pub body: KafkaRequestBodyV,
}

impl DeepView for KafkaRequest {
    type V = KafkaRequestV;

    open spec fn deep_view(&self) -> KafkaRequestV {
        KafkaRequestV { header: self.header.deep_view(), body: self.body.deep_view() }
    }
}

/// Parse one whole frame payload: the header, then the body its key and
/// version select. The payload must be consumed exactly; leftover bytes
/// are a format error.
pub open spec fn spec_parse_request(s: Seq<u8>) -> Result<KafkaRequestV, RequestErrorV> {
    match spec_parse_request_header(s) {
        Ok((header, p)) => {
            let (key, api_version, cid) = spec_header_common(header);
            match spec_parse_request_body(s, p, key, api_version, cid) {
                Ok((body, end)) => if end == s.len() {
                    Ok(KafkaRequestV { header, body })
                } else {
                    Err(spec_invalid_format("frame"@, cid))
                },
                Err(e) => Err(e),
            }
        },
        Err(e) => Err(e),
    }
}

impl KafkaRequest {
    /// Decode one frame payload into a typed request, exactly as the
    /// specification-level parse does.
    pub fn try_parse_from_bytes(payload: &[u8]) -> (r: Result<KafkaRequest, RequestError>)
        ensures
            match r {
                Ok(req) => spec_parse_request(payload@) == Ok::<_, RequestErrorV>(req.deep_view()),
                Err(e) => spec_parse_request(payload@) == Err::<KafkaRequestV, _>(e@),
            },
    {
        let (header, p) = match KafkaRequestHeader::try_parse_from_bytes(payload) {
            Ok(x) => x,
            Err(e) => {
                return Err(e);
            },
        };
        let cid = header.correlation_id();
        let (body, end) = match KafkaRequestBody::try_parse_from_bytes(payload, p, &header) {
            Ok(x) => x,
            Err(e) => {
                return Err(e);
            },
        };
        if end != payload.len() {
            return Err(RequestError::invalid_format("frame", cid));
        }
        Ok(KafkaRequest { header, body })
    }

    /// The request's API key.
    #[inline]
    pub fn request_api_key(&self) -> (r: RequestApiKey)
        ensures
            r == spec_header_common(self.deep_view().header).0,
    {
        self.header.request_api_key()
    }

    /// The request's API version.
    #[inline]
    pub fn request_api_version(&self) -> (r: i16)
        ensures
            r == spec_header_common(self.deep_view().header).1,
    {
        self.header.request_api_version()
    }

    /// The request's correlation id.
    #[inline]
    pub fn correlation_id(&self) -> (r: i32)
        ensures
            r == spec_header_common(self.deep_view().header).2,
    {
        self.header.correlation_id()
    }

    /// The request's body.
    #[inline]
    pub fn request_body(&self) -> (r: &KafkaRequestBody)
        ensures
            r.deep_view() == self.deep_view().body,
    {
        &self.body
    }
}

} // verus!
