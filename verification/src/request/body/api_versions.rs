//! The ApiVersions request body, versions 0 through 4. Versions 0 to 2
//! carry no fields; 3 and 4 carry the client software name and version and
//! a tagged-field epilogue. Any other version is rejected before any body
//! byte is read.
use vstd::prelude::*;

use crate::consts::SupportApiVersionsRequestVersion;
use crate::primitives::spec_parse_compact_string;
use crate::request::error::{spec_invalid_format, RequestError, RequestErrorV};
use crate::request::header::{spec_header_common, KafkaRequestHeader};
use crate::request::utils::{try_read_compact_string, try_read_tagged_fields};
use crate::tagged_field::spec_parse_tagged_fields;

verus! {

/// The V3 body fields.
#[derive(Debug, Clone)]
pub struct ApiVersionsRequestBodyV3 {
    pub client_software_name: String,
    pub client_software_version: String,
}

/// The V4 body fields.
#[derive(Debug, Clone)]
pub struct ApiVersionsRequestBodyV4 {
    pub client_software_name: String,
    pub client_software_version: String,
}

/// Mathematical model of the V3 and V4 body fields.
pub struct ApiVersionsClientInfoV {
    pub client_software_name: Seq<char>,
    pub client_software_version: Seq<char>,
}

/// An ApiVersions request body of whichever version the request declared.
#[derive(Debug, Clone)]
pub enum ApiVersionsRequestBody {
    V0,
    V1,
    V2,
    V3(ApiVersionsRequestBodyV3),
    V4(ApiVersionsRequestBodyV4),
}

/// Mathematical model of an ApiVersions request body.
pub enum ApiVersionsRequestBodyV {
    V0,
    V1,
    V2,
    V3(ApiVersionsClientInfoV),
    V4(ApiVersionsClientInfoV),
}

impl DeepView for ApiVersionsRequestBody {
    type V = ApiVersionsRequestBodyV;

    open spec fn deep_view(&self) -> ApiVersionsRequestBodyV {
        match self {
            ApiVersionsRequestBody::V0 => ApiVersionsRequestBodyV::V0,
            ApiVersionsRequestBody::V1 => ApiVersionsRequestBodyV::V1,
            ApiVersionsRequestBody::V2 => ApiVersionsRequestBodyV::V2,
            ApiVersionsRequestBody::V3(b) => ApiVersionsRequestBodyV::V3(
                ApiVersionsClientInfoV {
                    client_software_name: b.client_software_name@,
                    client_software_version: b.client_software_version@,
                },
            ),
            ApiVersionsRequestBody::V4(b) => ApiVersionsRequestBodyV::V4(
                ApiVersionsClientInfoV {
                    client_software_name: b.client_software_name@,
                    client_software_version: b.client_software_version@,
                },
            ),
        }
    }
}

impl ApiVersionsRequestBody {
    /// The version this body was decoded under.
    pub fn get_api_version(&self) -> (r: SupportApiVersionsRequestVersion)
        ensures
            r == spec_body_version(self.deep_view()),
    {
        match self {
            ApiVersionsRequestBody::V0 => SupportApiVersionsRequestVersion::V0,
            ApiVersionsRequestBody::V1 => SupportApiVersionsRequestVersion::V1,
            ApiVersionsRequestBody::V2 => SupportApiVersionsRequestVersion::V2,
            ApiVersionsRequestBody::V3(_) => SupportApiVersionsRequestVersion::V3,
            ApiVersionsRequestBody::V4(_) => SupportApiVersionsRequestVersion::V4,
        }
    }
}

/// The version a body model belongs to.
pub open spec fn spec_body_version(b: ApiVersionsRequestBodyV) -> SupportApiVersionsRequestVersion {
    match b {
        ApiVersionsRequestBodyV::V0 => SupportApiVersionsRequestVersion::V0,
        ApiVersionsRequestBodyV::V1 => SupportApiVersionsRequestVersion::V1,
        ApiVersionsRequestBodyV::V2 => SupportApiVersionsRequestVersion::V2,
        ApiVersionsRequestBodyV::V3(_) => SupportApiVersionsRequestVersion::V3,
        ApiVersionsRequestBodyV::V4(_) => SupportApiVersionsRequestVersion::V4,
    }
}

/// Parse the V3 and V4 body fields: two compact strings, then a drained
/// tagged-field epilogue.
pub open spec fn spec_parse_client_info(s: Seq<u8>, pos: int, cid: i32) -> Result<
    (ApiVersionsClientInfoV, int),
    RequestErrorV,
> {
    match spec_parse_compact_string(s, pos) {
        Some((client_software_name, p1)) => match spec_parse_compact_string(s, p1) {
            Some((client_software_version, p2)) => match spec_parse_tagged_fields(s, p2) {
                Some((_tf, p3)) => Ok(
                    (ApiVersionsClientInfoV { client_software_name, client_software_version }, p3),
                ),
                None => Err(spec_invalid_format("_tagged_fields"@, cid)),
            },
            None => Err(spec_invalid_format("client_software_version"@, cid)),
        },
        None => Err(spec_invalid_format("client_software_name"@, cid)),
    }
}

/// Parse an ApiVersions request body. A version in 0 through 4 succeeds
/// whenever its fields parse; any other version is `UnsupportedVersion`,
/// and versions 0 through 2 consume no bytes at all.
pub open spec fn spec_parse_api_versions_body(
    s: Seq<u8>,
    pos: int,
    api_version: i16,
    cid: i32,
) -> Result<(ApiVersionsRequestBodyV, int), RequestErrorV> {
    match SupportApiVersionsRequestVersion::spec_from_i16(api_version) {
        None => Err(RequestErrorV::UnsupportedVersion { api_version, correlation_id: cid }),
        Some(SupportApiVersionsRequestVersion::V0) => Ok((ApiVersionsRequestBodyV::V0, pos)),
        Some(SupportApiVersionsRequestVersion::V1) => Ok((ApiVersionsRequestBodyV::V1, pos)),
        Some(SupportApiVersionsRequestVersion::V2) => Ok((ApiVersionsRequestBodyV::V2, pos)),
        Some(SupportApiVersionsRequestVersion::V3) => match spec_parse_client_info(s, pos, cid) {
            Ok((info, end)) => Ok((ApiVersionsRequestBodyV::V3(info), end)),
            Err(e) => Err(e),
        },
        Some(SupportApiVersionsRequestVersion::V4) => match spec_parse_client_info(s, pos, cid) {
            Ok((info, end)) => Ok((ApiVersionsRequestBodyV::V4(info), end)),
            Err(e) => Err(e),
        },
    }
}

/// Decode the V3 and V4 body fields.
fn decode_client_info(input: &[u8], pos: usize, cid: i32) -> (r: Result<
    ((String, String), usize),
    RequestError,
>)
    requires
        pos <= input@.len(),
    ensures
        match r {
            Ok(((n, v), end)) => spec_parse_client_info(input@, pos as int, cid) == Ok::<
                _,
                RequestErrorV,
            >(
                (
                    ApiVersionsClientInfoV {
                        client_software_name: n@,
                        client_software_version: v@,
                    },
                    end as int,
                ),
            ) && pos <= end <= input@.len(),
            Err(e) => spec_parse_client_info(input@, pos as int, cid) == Err::<
                (ApiVersionsClientInfoV, int),
                _,
            >(e@),
        },
{
    let (client_software_name, p1) = match try_read_compact_string(input, pos) {
        Some(x) => x,
        None => {
            return Err(RequestError::invalid_format("client_software_name", cid));
        },
    };
    let (client_software_version, p2) = match try_read_compact_string(input, p1) {
        Some(x) => x,
        None => {
            return Err(RequestError::invalid_format("client_software_version", cid));
        },
    };
    let (_tf, p3) = match try_read_tagged_fields(input, p2) {
        Some(x) => x,
        None => {
            return Err(RequestError::invalid_format("_tagged_fields", cid));
        },
    };
    Ok(((client_software_name, client_software_version), p3))
}

impl ApiVersionsRequestBody {
    /// Decode an ApiVersions request body under the header's version and
    /// correlation id, exactly as the specification-level parse does.
    pub fn try_parse_from_bytes(input: &[u8], pos: usize, header: &KafkaRequestHeader) -> (r:
        Result<(ApiVersionsRequestBody, usize), RequestError>)
        requires
            pos <= input@.len(),
        ensures
            match r {
                Ok((b, end)) => spec_parse_api_versions_body(
                    input@,
                    pos as int,
                    spec_header_common(header.deep_view()).1,
                    spec_header_common(header.deep_view()).2,
                ) == Ok::<_, RequestErrorV>((b.deep_view(), end as int)) && pos <= end
                    <= input@.len(),
                Err(e) => spec_parse_api_versions_body(
                    input@,
                    pos as int,
                    spec_header_common(header.deep_view()).1,
                    spec_header_common(header.deep_view()).2,
                ) == Err::<(ApiVersionsRequestBodyV, int), _>(e@),
            },
    {
        let api_version = header.request_api_version();
        let correlation_id = header.correlation_id();
        let version = match SupportApiVersionsRequestVersion::from_i16(api_version) {
            Some(v) => v,
            None => {
                return Err(RequestError::unsupported_version(api_version, correlation_id));
            },
        };
        match version {
            SupportApiVersionsRequestVersion::V0 => Ok((ApiVersionsRequestBody::V0, pos)),
            SupportApiVersionsRequestVersion::V1 => Ok((ApiVersionsRequestBody::V1, pos)),
            SupportApiVersionsRequestVersion::V2 => Ok((ApiVersionsRequestBody::V2, pos)),
            SupportApiVersionsRequestVersion::V3 => {
                match decode_client_info(input, pos, correlation_id) {
                    Ok(((client_software_name, client_software_version), end)) => Ok(
                        (
                            ApiVersionsRequestBody::V3(
                                ApiVersionsRequestBodyV3 {
                                    client_software_name,
                                    client_software_version,
                                },
                            ),
                            end,
                        ),
                    ),
                    Err(e) => Err(e),
                }
            },
            SupportApiVersionsRequestVersion::V4 => {
                match decode_client_info(input, pos, correlation_id) {
                    Ok(((client_software_name, client_software_version), end)) => Ok(
                        (
                            ApiVersionsRequestBody::V4(
                                ApiVersionsRequestBodyV4 {
                                    client_software_name,
                                    client_software_version,
                                },
                            ),
                            end,
                        ),
                    ),
                    Err(e) => Err(e),
                }
            },
        }
    }
}

/// Version gating: a request version of 0, 1 or 2 always decodes (its body
/// has no fields), versions 3 and 4 decode exactly when their fields
/// parse, and any version outside 0 through 4 fails with
/// `UnsupportedVersion` carrying that version and the correlation id. The
/// error-path response body built for that failure carries the
/// unsupported-version code and an empty key list.
pub proof fn lemma_api_versions_version_gating(s: Seq<u8>, pos: int, api_version: i16, cid: i32)
    ensures
        0 <= api_version <= 2 ==> spec_parse_api_versions_body(s, pos, api_version, cid) is Ok,
        3 <= api_version <= 4 ==> (spec_parse_api_versions_body(s, pos, api_version, cid) is Ok
            <==> spec_parse_client_info(s, pos, cid) is Ok),
        !(0 <= api_version <= 4) ==> spec_parse_api_versions_body(s, pos, api_version, cid)
            == Err::<(ApiVersionsRequestBodyV, int), RequestErrorV>(
            RequestErrorV::UnsupportedVersion { api_version, correlation_id: cid },
        ),
        (match crate::response::response_body::api_versions::spec_api_versions_error_response() {
            crate::response::response_body::api_versions::KafkaResponseBodyApiVersionsV::V0(b) => {
                b.error_code == crate::response::error_code::KafkaError::UnsupportedVersion
                    && b.api_keys.len() == 0
            },
            _ => false,
        }),
{
}

} // verus!
