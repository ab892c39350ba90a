//! The versioned request header. The header version is derived from the
//! API key, never transmitted: Produce uses the bare V0 shape, every other
//! supported key the V2 shape with a nullable client id and a tagged-field
//! epilogue. The key is validated before any version-dependent field is
//! read, since the header shape cannot be known without a valid key.
use vstd::prelude::*;

use crate::be::{decode_i16, decode_i32, spec_parse_i16, spec_parse_i32};
use crate::primitives::spec_parse_nullable_string;
use crate::request::api_key::RequestApiKey;
use crate::request::error::{spec_invalid_format, RequestError, RequestErrorV};
use crate::request::utils::{try_read_nullable_string, try_read_tagged_fields};
use crate::tagged_field::spec_parse_tagged_fields;

verus! {

/// The header shapes, selected by API key.
#[derive(Debug, PartialEq, Eq, Structural, Copy, Clone)]
pub enum KafkaRequestHeaderVersion {
    V0,
    V1,
    V2,
}

/// The bare header shape: key, version, correlation id.
#[derive(Debug, PartialEq, Eq, Structural, Copy, Clone)]
pub struct KafkaRequestHeaderV0 {
    pub request_api_key: RequestApiKey,
    pub request_api_version: i16,
    pub correlation_id: i32,
}

/// The V1 shape adds a nullable client id.
#[derive(Debug, Clone)]
pub struct KafkaRequestHeaderV1 {
    pub request_api_key: RequestApiKey,
    pub request_api_version: i16,
    pub correlation_id: i32,
    pub client_id: String,
}

/// The V2 shape adds a nullable client id and a tagged-field epilogue.
#[derive(Debug, Clone)]
pub struct KafkaRequestHeaderV2 {
    pub request_api_key: RequestApiKey,
    pub request_api_version: i16,
    pub correlation_id: i32,
    pub client_id: String,
}

/// Mathematical model of a V1 header.
pub struct KafkaRequestHeaderV1V {
    pub request_api_key: RequestApiKey,
    pub request_api_version: i16,
    pub correlation_id: i32,
    pub client_id: Seq<char>,
}

/// Mathematical model of a V2 header.
pub struct KafkaRequestHeaderV2V {
    pub request_api_key: RequestApiKey,
    pub request_api_version: i16,
    pub correlation_id: i32,
    pub client_id: Seq<char>,
}

/// A request header of whichever shape its API key selects.
#[derive(Debug, Clone)]
pub enum KafkaRequestHeader {
    V0(KafkaRequestHeaderV0),
    V1(KafkaRequestHeaderV1),
    V2(KafkaRequestHeaderV2),
}

/// Mathematical model of a request header.
pub enum KafkaRequestHeaderV {
    V0(KafkaRequestHeaderV0),
    V1(KafkaRequestHeaderV1V),
    V2(KafkaRequestHeaderV2V),
}

impl DeepView for KafkaRequestHeader {
    type V = KafkaRequestHeaderV;

    open spec fn deep_view(&self) -> KafkaRequestHeaderV {
        match self {
            KafkaRequestHeader::V0(h) => KafkaRequestHeaderV::V0(*h),
            KafkaRequestHeader::V1(h) => KafkaRequestHeaderV::V1(
                KafkaRequestHeaderV1V {
                    request_api_key: h.request_api_key,
                    request_api_version: h.request_api_version,
                    correlation_id: h.correlation_id,
                    client_id: h.client_id@,
                },
            ),
            KafkaRequestHeader::V2(h) => KafkaRequestHeaderV::V2(
                KafkaRequestHeaderV2V {
                    request_api_key: h.request_api_key,
                    request_api_version: h.request_api_version,
                    correlation_id: h.correlation_id,
                    client_id: h.client_id@,
                },
            ),
        }
    }
}

/// The header shape each API key always uses.
pub open spec fn spec_header_version_from_request_api_key(api_key: RequestApiKey)
    -> KafkaRequestHeaderVersion {
    match api_key {
        RequestApiKey::Produce => KafkaRequestHeaderVersion::V0,
        RequestApiKey::DescribeTopicPartitions => KafkaRequestHeaderVersion::V2,
        RequestApiKey::ApiVersions => KafkaRequestHeaderVersion::V2,
        RequestApiKey::Fetch => KafkaRequestHeaderVersion::V2,
    }
}

/// The header shape each API key always uses.
pub fn header_version_from_request_api_key(api_key: RequestApiKey) -> (r:
    KafkaRequestHeaderVersion)
    ensures
        r == spec_header_version_from_request_api_key(api_key),
{
    match api_key {
        RequestApiKey::Produce => KafkaRequestHeaderVersion::V0,
        RequestApiKey::DescribeTopicPartitions => KafkaRequestHeaderVersion::V2,
        RequestApiKey::ApiVersions => KafkaRequestHeaderVersion::V2,
        RequestApiKey::Fetch => KafkaRequestHeaderVersion::V2,
    }
}

/// The model of the fields every header shape shares.
pub open spec fn spec_header_common(h: KafkaRequestHeaderV) -> (RequestApiKey, i16, i32) {
    match h {
        KafkaRequestHeaderV::V0(x) => (x.request_api_key, x.request_api_version, x.correlation_id),
        KafkaRequestHeaderV::V1(x) => (x.request_api_key, x.request_api_version, x.correlation_id),
        KafkaRequestHeaderV::V2(x) => (x.request_api_key, x.request_api_version, x.correlation_id),
    }
}

/// Parse a request header from the start of a frame payload. Fixed-width
/// fields that cannot be read before the correlation id is known yield
/// `InvalidFormatWithoutCId`; an unknown key yields `UnsupportedApiKey`;
/// V1 and V2 shapes then read a nullable client id, and V2 drains a
/// tagged-field epilogue.
pub open spec fn spec_parse_request_header(s: Seq<u8>) -> Result<
    (KafkaRequestHeaderV, int),
    RequestErrorV,
> {
    match spec_parse_i16(s, 0) {
        Some((api_key_code, p1)) => match spec_parse_i16(s, p1) {
            Some((request_api_version, p2)) => match spec_parse_i32(s, p2) {
                Some((correlation_id, p3)) => match RequestApiKey::spec_from_code(api_key_code) {
                    Some(request_api_key) => match spec_header_version_from_request_api_key(
                        request_api_key,
                    ) {
                        KafkaRequestHeaderVersion::V0 => Ok(
                            (
                                KafkaRequestHeaderV::V0(
                                    KafkaRequestHeaderV0 {
                                        request_api_key,
                                        request_api_version,
                                        correlation_id,
                                    },
                                ),
                                p3,
                            ),
                        ),
                        KafkaRequestHeaderVersion::V1 => match spec_parse_nullable_string(s, p3) {
                            Some((client_id, p4)) => Ok(
                                (
                                    KafkaRequestHeaderV::V1(
                                        KafkaRequestHeaderV1V {
                                            request_api_key,
                                            request_api_version,
                                            correlation_id,
                                            client_id,
                                        },
                                    ),
                                    p4,
                                ),
                            ),
                            None => Err(spec_invalid_format("client_id"@, correlation_id)),
                        },
                        KafkaRequestHeaderVersion::V2 => match spec_parse_nullable_string(s, p3) {
                            Some((client_id, p4)) => match spec_parse_tagged_fields(s, p4) {
                                Some((_tf, p5)) => Ok(
                                    (
                                        KafkaRequestHeaderV::V2(
                                            KafkaRequestHeaderV2V {
                                                request_api_key,
                                                request_api_version,
                                                correlation_id,
                                                client_id,
                                            },
                                        ),
                                        p5,
                                    ),
                                ),
                                None => Err(
                                    spec_invalid_format("header tagged field"@, correlation_id),
                                ),
                            },
                            None => Err(spec_invalid_format("client_id"@, correlation_id)),
                        },
                    },
                    None => Err(
                        RequestErrorV::UnsupportedApiKey {
                            api_key: api_key_code,
                            correlation_id,
                        },
                    ),
                },
                None => Err(RequestErrorV::InvalidFormatWithoutCId("correlation_id"@)),
            },
            None => Err(RequestErrorV::InvalidFormatWithoutCId("request_api_version"@)),
        },
        None => Err(RequestErrorV::InvalidFormatWithoutCId("request_api_key"@)),
    }
}

impl KafkaRequestHeader {
    /// The request's API key.
    pub fn request_api_key(&self) -> (r: RequestApiKey)
        ensures
            r == spec_header_common(self.deep_view()).0,
    {
        match self {
            KafkaRequestHeader::V0(inner) => inner.request_api_key,
            KafkaRequestHeader::V1(inner) => inner.request_api_key,
            KafkaRequestHeader::V2(inner) => inner.request_api_key,
        }
    }

    /// The request's API version.
    pub fn request_api_version(&self) -> (r: i16)
        ensures
            r == spec_header_common(self.deep_view()).1,
    {
        match self {
            KafkaRequestHeader::V0(inner) => inner.request_api_version,
            KafkaRequestHeader::V1(inner) => inner.request_api_version,
            KafkaRequestHeader::V2(inner) => inner.request_api_version,
        }
    }

    /// The request's correlation id.
    pub fn correlation_id(&self) -> (r: i32)
        ensures
            r == spec_header_common(self.deep_view()).2,
    {
        match self {
            KafkaRequestHeader::V0(inner) => inner.correlation_id,
            KafkaRequestHeader::V1(inner) => inner.correlation_id,
            KafkaRequestHeader::V2(inner) => inner.correlation_id,
        }
    }

    /// The client id, absent in the bare V0 shape.
    pub fn client_id(&self) -> (r: Option<&str>)
        ensures
            match r {
                Some(c) => match self.deep_view() {
                    KafkaRequestHeaderV::V0(_) => false,
                    KafkaRequestHeaderV::V1(h) => c@ == h.client_id,
                    KafkaRequestHeaderV::V2(h) => c@ == h.client_id,
                },
                None => self.deep_view() is V0,
            },
    {
        match self {
            KafkaRequestHeader::V0(_inner) => None,
            KafkaRequestHeader::V1(inner) => Some(inner.client_id.as_str()),
            KafkaRequestHeader::V2(inner) => Some(inner.client_id.as_str()),
        }
    }

    /// Decode a request header from the start of a frame payload, exactly
    /// as the specification-level parse does.
    pub fn try_parse_from_bytes(input: &[u8]) -> (r: Result<(KafkaRequestHeader, usize), RequestError>)
        ensures
            match r {
                Ok((h, end)) => spec_parse_request_header(input@) == Ok::<_, RequestErrorV>(
                    (h.deep_view(), end as int),
                ) && end <= input@.len(),
                Err(e) => spec_parse_request_header(input@) == Err::<
                    (KafkaRequestHeaderV, int),
                    _,
                >(e@),
            },
    {
        let (api_key_code, p1) = match decode_i16(input, 0) {
            Some(x) => x,
            None => {
                return Err(RequestError::InvalidFormatWithoutCId(crate::request::error::ErrorField::new("request_api_key")));
            },
        };
        let (request_api_version, p2) = match decode_i16(input, p1) {
            Some(x) => x,
            None => {
                return Err(RequestError::InvalidFormatWithoutCId(crate::request::error::ErrorField::new("request_api_version")));
            },
        };
        let (correlation_id, p3) = match decode_i32(input, p2) {
            Some(x) => x,
            None => {
                return Err(RequestError::InvalidFormatWithoutCId(crate::request::error::ErrorField::new("correlation_id")));
            },
        };
        let request_api_key = match RequestApiKey::from_code(api_key_code) {
            Some(k) => k,
            None => {
                return Err(
                    RequestError::UnsupportedApiKey { api_key: api_key_code, correlation_id },
                );
            },
        };
        match header_version_from_request_api_key(request_api_key) {
            KafkaRequestHeaderVersion::V0 => Ok(
                (
                    KafkaRequestHeader::V0(
                        KafkaRequestHeaderV0 {
                            request_api_key,
                            request_api_version,
                            correlation_id,
                        },
                    ),
                    p3,
                ),
            ),
            KafkaRequestHeaderVersion::V1 => {
                let (client_id, p4) = match try_read_nullable_string(input, p3) {
                    Some(x) => x,
                    None => {
                        return Err(RequestError::invalid_format("client_id", correlation_id));
                    },
                };
                Ok(
                    (
                        KafkaRequestHeader::V1(
                            KafkaRequestHeaderV1 {
                                request_api_key,
                                request_api_version,
                                correlation_id,
                                client_id,
                            },
                        ),
                        p4,
                    ),
                )
            },
            KafkaRequestHeaderVersion::V2 => {
                let (client_id, p4) = match try_read_nullable_string(input, p3) {
                    Some(x) => x,
                    None => {
                        return Err(RequestError::invalid_format("client_id", correlation_id));
                    },
                };
                let (_tf, p5) = match try_read_tagged_fields(input, p4) {
                    Some(x) => x,
                    None => {
                        return Err(
                            RequestError::invalid_format("header tagged field", correlation_id),
                        );
                    },
                };
                Ok(
                    (
                        KafkaRequestHeader::V2(
                            KafkaRequestHeaderV2 {
                                request_api_key,
                                request_api_version,
                                correlation_id,
                                client_id,
                            },
                        ),
                        p5,
                    ),
                )
            },
        }
    }
}

} // verus!
