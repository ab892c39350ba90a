//! The ApiVersions response body. Every version reports the supported
//! range for ApiVersions itself; version 4 adds the ranges for
//! DescribeTopicPartitions and Fetch. The throttle time is a constant
//! placeholder, and the error path emits the V0 shape with an empty key
//! list and the unsupported-version code.
use vstd::prelude::*;

use crate::be::{encode_i16, encode_i32, spec_enc_i16, spec_enc_i32};
use crate::consts::{API_VERSIONS_API_KEY, API_VERSIONS_MAX_VERSION, API_VERSIONS_MIN_VERSION,
    DESCRIBE_TOPIC_MAX_VERSION, DESCRIBE_TOPIC_MIN_VERSION, DESCRIBE_TOPIC_PARTITIONS_API_KEY,
    FETCH_API_KEY, FETCH_MAX_VERSION, FETCH_MIN_VERSION, SupportApiVersionsRequestVersion};
use crate::elems::{enc_fn, spec_enc_compact_array, spec_enc_elems, write_compact_array,
    WireEncode};
use crate::response::error_code::KafkaError;
use crate::varint::{encode_uvarint, spec_enc_uvarint};

verus! {

/// The supported version range of one API.
#[derive(Debug, PartialEq, Eq, Structural, Copy, Clone)]
pub struct ApiKeyRange {
    pub api_key: i16,
    pub min_version: i16,
    pub max_version: i16,
}

impl DeepView for ApiKeyRange {
    type V = ApiKeyRange;

    open spec fn deep_view(&self) -> ApiKeyRange {
        *self
    }
}

/// Encoding of one version-range entry: three big-endian 16-bit fields.
pub open spec fn spec_enc_api_key_range(k: ApiKeyRange) -> Seq<u8> {
    spec_enc_i16(k.api_key) + spec_enc_i16(k.min_version) + spec_enc_i16(k.max_version)
}

impl WireEncode for ApiKeyRange {
    open spec fn sp_wf(m: ApiKeyRange) -> bool {
        true
    }

    open spec fn sp_enc(m: ApiKeyRange) -> Seq<u8> {
        spec_enc_api_key_range(m)
    }

    fn wire_encode(&self, out: &mut Vec<u8>) -> (r: bool) {
        encode_i16(out, self.api_key);
        encode_i16(out, self.min_version);
        encode_i16(out, self.max_version);
        assert(out@ =~= old(out)@ + spec_enc_api_key_range(*self));
        true
    }
}

/// The range entry for ApiVersions itself.
pub open spec fn spec_range_api_versions() -> ApiKeyRange {
    ApiKeyRange {
        api_key: API_VERSIONS_API_KEY,
        min_version: API_VERSIONS_MIN_VERSION,
        max_version: API_VERSIONS_MAX_VERSION,
    }
}

/// The range entry for DescribeTopicPartitions.
pub open spec fn spec_range_describe_topic_partitions() -> ApiKeyRange {
    ApiKeyRange {
        api_key: DESCRIBE_TOPIC_PARTITIONS_API_KEY,
        min_version: DESCRIBE_TOPIC_MIN_VERSION,
        max_version: DESCRIBE_TOPIC_MAX_VERSION,
    }
}

/// The range entry for Fetch.
pub open spec fn spec_range_fetch() -> ApiKeyRange {
    ApiKeyRange { api_key: FETCH_API_KEY, min_version: FETCH_MIN_VERSION, max_version: FETCH_MAX_VERSION }
}

impl ApiKeyRange {
    /// The range entry for ApiVersions itself.
    pub fn api_version() -> (r: Self)
        ensures
            r == spec_range_api_versions(),
    {
        ApiKeyRange {
            api_key: API_VERSIONS_API_KEY,
            min_version: API_VERSIONS_MIN_VERSION,
            max_version: API_VERSIONS_MAX_VERSION,
        }
    }

    /// The range entry for DescribeTopicPartitions.
    pub fn describe_topic_partitions() -> (r: Self)
        ensures
            r == spec_range_describe_topic_partitions(),
    {
        ApiKeyRange {
            api_key: DESCRIBE_TOPIC_PARTITIONS_API_KEY,
            min_version: DESCRIBE_TOPIC_MIN_VERSION,
            max_version: DESCRIBE_TOPIC_MAX_VERSION,
        }
    }

    /// The range entry for Fetch.
    pub fn fetch() -> (r: Self)
        ensures
            r == spec_range_fetch(),
    {
        ApiKeyRange {
            api_key: FETCH_API_KEY,
            min_version: FETCH_MIN_VERSION,
            max_version: FETCH_MAX_VERSION,
        }
    }
}

/// The V0 body: an error code and the version-range list.
#[derive(Debug, Clone)]
pub struct ApiVersionsResponseBodyV0 {
    pub error_code: KafkaError,
    pub api_keys: Vec<ApiKeyRange>,
}

/// The V1 through V4 bodies add the throttle time.
#[derive(Debug, Clone)]
pub struct ApiVersionsResponseBodyV1 {
    pub error_code: KafkaError,
    pub api_keys: Vec<ApiKeyRange>,
    pub throttle_time_ms: i32,
}

#[derive(Debug, Clone)]
pub struct ApiVersionsResponseBodyV2 {
    pub error_code: KafkaError,
    pub api_keys: Vec<ApiKeyRange>,
    pub throttle_time_ms: i32,
}

#[derive(Debug, Clone)]
pub struct ApiVersionsResponseBodyV3 {
    pub error_code: KafkaError,
    pub api_keys: Vec<ApiKeyRange>,
    pub throttle_time_ms: i32,
}

#[derive(Debug, Clone)]
pub struct ApiVersionsResponseBodyV4 {
    pub error_code: KafkaError,
    pub api_keys: Vec<ApiKeyRange>,
    pub throttle_time_ms: i32,
}

/// Mathematical model of the V0 body.
pub struct ApiVersionsResponseBodyV0V {
    pub error_code: KafkaError,
    pub api_keys: Seq<ApiKeyRange>,
}

/// Mathematical model of the V1 through V4 bodies.
pub struct ApiVersionsResponseBodyThrottledV {
    pub error_code: KafkaError,
    pub api_keys: Seq<ApiKeyRange>,
    pub throttle_time_ms: i32,
}

/// An ApiVersions response body, mirroring the negotiated request version.
#[derive(Debug, Clone)]
pub enum KafkaResponseBodyApiVersions {
    V0(ApiVersionsResponseBodyV0),
    V1(ApiVersionsResponseBodyV1),
    V2(ApiVersionsResponseBodyV2),
    V3(ApiVersionsResponseBodyV3),
    V4(ApiVersionsResponseBodyV4),
}

/// Mathematical model of an ApiVersions response body.
pub enum KafkaResponseBodyApiVersionsV {
    V0(ApiVersionsResponseBodyV0V),
    V1(ApiVersionsResponseBodyThrottledV),
    V2(ApiVersionsResponseBodyThrottledV),
    V3(ApiVersionsResponseBodyThrottledV),
    V4(ApiVersionsResponseBodyThrottledV),
}

impl DeepView for KafkaResponseBodyApiVersions {
    type V = KafkaResponseBodyApiVersionsV;

    open spec fn deep_view(&self) -> KafkaResponseBodyApiVersionsV {
        match self {
            KafkaResponseBodyApiVersions::V0(b) => KafkaResponseBodyApiVersionsV::V0(
                ApiVersionsResponseBodyV0V {
                    error_code: b.error_code,
                    api_keys: b.api_keys.deep_view(),
                },
            ),
            KafkaResponseBodyApiVersions::V1(b) => KafkaResponseBodyApiVersionsV::V1(
                ApiVersionsResponseBodyThrottledV {
                    error_code: b.error_code,
                    api_keys: b.api_keys.deep_view(),
                    throttle_time_ms: b.throttle_time_ms,
                },
            ),
            KafkaResponseBodyApiVersions::V2(b) => KafkaResponseBodyApiVersionsV::V2(
                ApiVersionsResponseBodyThrottledV {
                    error_code: b.error_code,
                    api_keys: b.api_keys.deep_view(),
                    throttle_time_ms: b.throttle_time_ms,
                },
            ),
            KafkaResponseBodyApiVersions::V3(b) => KafkaResponseBodyApiVersionsV::V3(
                ApiVersionsResponseBodyThrottledV {
                    error_code: b.error_code,
                    api_keys: b.api_keys.deep_view(),
                    throttle_time_ms: b.throttle_time_ms,
                },
            ),
            KafkaResponseBodyApiVersions::V4(b) => KafkaResponseBodyApiVersionsV::V4(
                ApiVersionsResponseBodyThrottledV {
                    error_code: b.error_code,
                    api_keys: b.api_keys.deep_view(),
                    throttle_time_ms: b.throttle_time_ms,
                },
            ),
        }
    }
}

/// The placeholder throttle time reported by every throttled body.
pub const API_VERSIONS_THROTTLE_TIME_MS: i32 = 420;

/// The body the encoder produces for each negotiated version: no error,
/// the ApiVersions range, and for version 4 the DescribeTopicPartitions
/// and Fetch ranges as well.
pub open spec fn spec_api_versions_response(v: SupportApiVersionsRequestVersion)
    -> KafkaResponseBodyApiVersionsV {
    let base = seq![spec_range_api_versions()];
    match v {
        SupportApiVersionsRequestVersion::V0 => KafkaResponseBodyApiVersionsV::V0(
            ApiVersionsResponseBodyV0V { error_code: KafkaError::NoError, api_keys: base },
        ),
        SupportApiVersionsRequestVersion::V1 => KafkaResponseBodyApiVersionsV::V1(
            ApiVersionsResponseBodyThrottledV {
                error_code: KafkaError::NoError,
                api_keys: base,
                throttle_time_ms: API_VERSIONS_THROTTLE_TIME_MS,
            },
        ),
        SupportApiVersionsRequestVersion::V2 => KafkaResponseBodyApiVersionsV::V2(
            ApiVersionsResponseBodyThrottledV {
                error_code: KafkaError::NoError,
                api_keys: base,
                throttle_time_ms: API_VERSIONS_THROTTLE_TIME_MS,
            },
        ),
        SupportApiVersionsRequestVersion::V3 => KafkaResponseBodyApiVersionsV::V3(
            ApiVersionsResponseBodyThrottledV {
                error_code: KafkaError::NoError,
                api_keys: base,
                throttle_time_ms: API_VERSIONS_THROTTLE_TIME_MS,
            },
        ),
        SupportApiVersionsRequestVersion::V4 => KafkaResponseBodyApiVersionsV::V4(
            ApiVersionsResponseBodyThrottledV {
                error_code: KafkaError::NoError,
                api_keys: base + seq![
                    spec_range_describe_topic_partitions(),
                    spec_range_fetch(),
                ],
                throttle_time_ms: API_VERSIONS_THROTTLE_TIME_MS,
            },
        ),
    }
}

/// The body the encoder produces for an unsupported request version: the
/// V0 shape with the unsupported-version code and no ranges at all.
pub open spec fn spec_api_versions_error_response() -> KafkaResponseBodyApiVersionsV {
    KafkaResponseBodyApiVersionsV::V0(
        ApiVersionsResponseBodyV0V {
            error_code: KafkaError::UnsupportedVersion,
            api_keys: Seq::empty(),
        },
    )
}

impl KafkaResponseBodyApiVersions {
    /// The error-path body: the V0 shape with `error_code` set to the
    /// unsupported-version code and an empty key list.
    pub fn error() -> (r: Self)
        ensures
            r.deep_view() == spec_api_versions_error_response(),
    {
        let api_keys: Vec<ApiKeyRange> = Vec::new();
        proof {
            assert(api_keys.deep_view() =~= Seq::<ApiKeyRange>::empty());
        }
        KafkaResponseBodyApiVersions::V0(
            ApiVersionsResponseBodyV0 { error_code: KafkaError::UnsupportedVersion, api_keys },
        )
    }

    /// The success-path body for the negotiated version.
    pub fn new(api_version: SupportApiVersionsRequestVersion) -> (r: Self)
        ensures
            r.deep_view() == spec_api_versions_response(api_version),
    {
        let error_code = KafkaError::NoError;
        let mut api_keys: Vec<ApiKeyRange> = Vec::new();
        api_keys.push(ApiKeyRange::api_version());
        assert(api_keys.deep_view() =~= seq![spec_range_api_versions()]);
        let throttle_time_ms = API_VERSIONS_THROTTLE_TIME_MS;
        match api_version {
            SupportApiVersionsRequestVersion::V0 => KafkaResponseBodyApiVersions::V0(
                ApiVersionsResponseBodyV0 { error_code, api_keys },
            ),
            SupportApiVersionsRequestVersion::V1 => KafkaResponseBodyApiVersions::V1(
                ApiVersionsResponseBodyV1 { error_code, api_keys, throttle_time_ms },
            ),
            SupportApiVersionsRequestVersion::V2 => KafkaResponseBodyApiVersions::V2(
                ApiVersionsResponseBodyV2 { error_code, api_keys, throttle_time_ms },
            ),
            SupportApiVersionsRequestVersion::V3 => KafkaResponseBodyApiVersions::V3(
                ApiVersionsResponseBodyV3 { error_code, api_keys, throttle_time_ms },
            ),
            SupportApiVersionsRequestVersion::V4 => {
                api_keys.push(ApiKeyRange::describe_topic_partitions());
                api_keys.push(ApiKeyRange::fetch());
                proof {
                    assert(api_keys.deep_view() =~= seq![spec_range_api_versions()] + seq![
                        spec_range_describe_topic_partitions(),
                        spec_range_fetch(),
                    ]);
                }
                KafkaResponseBodyApiVersions::V4(
                    ApiVersionsResponseBodyV4 { error_code, api_keys, throttle_time_ms },
                )
            },
        }
    }
}

/// A version-range entry as versions 3 and 4 write it: the entry, then an
/// empty tagged-field epilogue.
pub open spec fn api_key_range_tagged_enc_fn() -> spec_fn(ApiKeyRange) -> Seq<u8> {
    |k: ApiKeyRange| spec_enc_api_key_range(k) + spec_enc_uvarint(0)
}

/// Append a compact array of version-range entries, each followed by an
/// empty tagged-field epilogue.
#[verifier::loop_isolation(false)]
fn write_api_key_ranges_tagged(out: &mut Vec<u8>, l: &Vec<ApiKeyRange>) -> (r: bool)
    ensures
        r == (l.deep_view().len() + 1 <= u64::MAX),
        r ==> final(out)@ == old(out)@ + spec_enc_compact_array(
            l.deep_view(),
            api_key_range_tagged_enc_fn(),
        ),
{
    let ghost dv = l.deep_view();
    assert(dv.len() == l@.len());
    if l.len() == 0 {
        encode_uvarint(out, 0);
    } else {
        if (l.len() as u64) == u64::MAX {
            return false;
        }
        encode_uvarint(out, (l.len() as u64) + 1);
    }
    let ghost mid = out@;
    let mut i: usize = 0;
    assert(dv.skip(0) =~= dv);
    while i < l.len()
        invariant
            i <= l.len(),
            out@ + spec_enc_elems(dv.skip(i as int), api_key_range_tagged_enc_fn()) == mid
                + spec_enc_elems(dv, api_key_range_tagged_enc_fn()),
        decreases l.len() - i,
    {
        let ghost tail = dv.skip(i as int);
        proof {
            assert(tail[0] == dv[i as int]);
            assert(tail.drop_first() =~= dv.skip(i as int + 1));
            assert(l@[i as int].deep_view() == dv[i as int]);
        }
        let k = l[i];
        encode_i16(out, k.api_key);
        encode_i16(out, k.min_version);
        encode_i16(out, k.max_version);
        encode_uvarint(out, 0);
        proof {
            assert(api_key_range_tagged_enc_fn()(dv[i as int]) == spec_enc_api_key_range(
                dv[i as int],
            ) + spec_enc_uvarint(0));
            assert(out@ + spec_enc_elems(dv.skip(i as int + 1), api_key_range_tagged_enc_fn())
                =~= mid + spec_enc_elems(dv, api_key_range_tagged_enc_fn()));
        }
        i = i + 1;
    }
    proof {
        assert(dv.skip(l@.len() as int) =~= Seq::<ApiKeyRange>::empty());
        assert(out@ + Seq::<u8>::empty() =~= out@);
        assert(out@ =~= old(out)@ + spec_enc_compact_array(dv, api_key_range_tagged_enc_fn()));
    }
    true
}

/// Encoding of an ApiVersions response body, per version: the error code,
/// the range list (with per-entry tagged epilogues from version 3 on), the
/// throttle time (from version 1 on), and a final tagged-field epilogue
/// (from version 3 on).
pub open spec fn spec_enc_api_versions_body(b: KafkaResponseBodyApiVersionsV) -> Seq<u8> {
    match b {
        KafkaResponseBodyApiVersionsV::V0(x) => spec_enc_i16(x.error_code.spec_code())
            + spec_enc_compact_array(x.api_keys, enc_fn::<ApiKeyRange>()),
        KafkaResponseBodyApiVersionsV::V1(x) => spec_enc_i16(x.error_code.spec_code())
            + spec_enc_compact_array(x.api_keys, enc_fn::<ApiKeyRange>()) + spec_enc_i32(
            x.throttle_time_ms,
        ),
        KafkaResponseBodyApiVersionsV::V2(x) => spec_enc_i16(x.error_code.spec_code())
            + spec_enc_compact_array(x.api_keys, enc_fn::<ApiKeyRange>()) + spec_enc_i32(
            x.throttle_time_ms,
        ),
        KafkaResponseBodyApiVersionsV::V3(x) => spec_enc_i16(x.error_code.spec_code())
            + spec_enc_compact_array(x.api_keys, api_key_range_tagged_enc_fn()) + spec_enc_i32(
            x.throttle_time_ms,
        ) + spec_enc_uvarint(0),
        KafkaResponseBodyApiVersionsV::V4(x) => spec_enc_i16(x.error_code.spec_code())
            + spec_enc_compact_array(x.api_keys, api_key_range_tagged_enc_fn()) + spec_enc_i32(
            x.throttle_time_ms,
        ) + spec_enc_uvarint(0),
    }
}

/// The range list of a body model, whatever its version.
pub open spec fn spec_api_versions_body_keys(b: KafkaResponseBodyApiVersionsV) -> Seq<ApiKeyRange> {
    match b {
        KafkaResponseBodyApiVersionsV::V0(x) => x.api_keys,
        KafkaResponseBodyApiVersionsV::V1(x) => x.api_keys,
        KafkaResponseBodyApiVersionsV::V2(x) => x.api_keys,
        KafkaResponseBodyApiVersionsV::V3(x) => x.api_keys,
        KafkaResponseBodyApiVersionsV::V4(x) => x.api_keys,
    }
}

impl KafkaResponseBodyApiVersions {
    /// Append this body's wire bytes to `out`, exactly when its range list
    /// fits its count varint.
    pub fn serialize(&self, out: &mut Vec<u8>) -> (r: bool)
        ensures
            r == (spec_api_versions_body_keys(self.deep_view()).len() + 1 <= u64::MAX),
            r ==> final(out)@ == old(out)@ + spec_enc_api_versions_body(self.deep_view()),
    {
        match self {
            KafkaResponseBodyApiVersions::V0(b) => {
                encode_i16(out, b.error_code.code());
                let ok = write_compact_array::<ApiKeyRange>(out, &b.api_keys);
                if !ok {
                    return false;
                }
                assert(out@ =~= old(out)@ + spec_enc_api_versions_body(self.deep_view()));
                true
            },
            KafkaResponseBodyApiVersions::V1(b) => {
                encode_i16(out, b.error_code.code());
                let ok = write_compact_array::<ApiKeyRange>(out, &b.api_keys);
                if !ok {
                    return false;
                }
                encode_i32(out, b.throttle_time_ms);
                assert(out@ =~= old(out)@ + spec_enc_api_versions_body(self.deep_view()));
                true
            },
            KafkaResponseBodyApiVersions::V2(b) => {
                encode_i16(out, b.error_code.code());
                let ok = write_compact_array::<ApiKeyRange>(out, &b.api_keys);
                if !ok {
                    return false;
                }
                encode_i32(out, b.throttle_time_ms);
                assert(out@ =~= old(out)@ + spec_enc_api_versions_body(self.deep_view()));
                true
            },
            KafkaResponseBodyApiVersions::V3(b) => {
                encode_i16(out, b.error_code.code());
                let ok = write_api_key_ranges_tagged(out, &b.api_keys);
                if !ok {
                    return false;
                }
                encode_i32(out, b.throttle_time_ms);
                encode_uvarint(out, 0);
                assert(out@ =~= old(out)@ + spec_enc_api_versions_body(self.deep_view()));
                true
            },
            KafkaResponseBodyApiVersions::V4(b) => {
                encode_i16(out, b.error_code.code());
                let ok = write_api_key_ranges_tagged(out, &b.api_keys);
                if !ok {
                    return false;
                }
                encode_i32(out, b.throttle_time_ms);
                encode_uvarint(out, 0);
                assert(out@ =~= old(out)@ + spec_enc_api_versions_body(self.deep_view()));
                true
            },
        }
    }
}

} // verus!
