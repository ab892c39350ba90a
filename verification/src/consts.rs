//! Protocol constants: the API key values and the version ranges each API
//! supports, plus the closed enums of versions the decoders accept.
use vstd::prelude::*;

verus! {

pub const API_VERSIONS_API_KEY: i16 = 18;

pub const API_VERSIONS_MIN_VERSION: i16 = 0;

pub const API_VERSIONS_MAX_VERSION: i16 = 4;

pub const FETCH_API_KEY: i16 = 1;

pub const FETCH_MIN_VERSION: i16 = 0;

pub const FETCH_MAX_VERSION: i16 = 16;

pub const DESCRIBE_TOPIC_PARTITIONS_API_KEY: i16 = 75;

pub const DESCRIBE_TOPIC_MIN_VERSION: i16 = 0;

pub const DESCRIBE_TOPIC_MAX_VERSION: i16 = 0;

pub const PRODUCE_API_KEY: i16 = 0;

/// The request versions the ApiVersions decoder accepts.
#[derive(Debug, PartialEq, Eq, Structural, Copy, Clone)]
pub enum SupportApiVersionsRequestVersion {
    V0,
    V1,
    V2,
    V3,
    V4,
}

impl SupportApiVersionsRequestVersion {
    /// The version enum of a wire version number, for exactly 0 through 4.
    pub open spec fn spec_from_i16(v: i16) -> Option<SupportApiVersionsRequestVersion> {
        if v == 0 {
            Some(SupportApiVersionsRequestVersion::V0)
        } else if v == 1 {
            Some(SupportApiVersionsRequestVersion::V1)
        } else if v == 2 {
            Some(SupportApiVersionsRequestVersion::V2)
        } else if v == 3 {
            Some(SupportApiVersionsRequestVersion::V3)
        } else if v == 4 {
            Some(SupportApiVersionsRequestVersion::V4)
        } else {
            None
        }
    }

    /// The version enum of a wire version number, for exactly 0 through 4.
    pub fn from_i16(v: i16) -> (r: Option<SupportApiVersionsRequestVersion>)
        ensures
            r == Self::spec_from_i16(v),
    {
        if v == 0 {
            Some(SupportApiVersionsRequestVersion::V0)
        } else if v == 1 {
            Some(SupportApiVersionsRequestVersion::V1)
        } else if v == 2 {
            Some(SupportApiVersionsRequestVersion::V2)
        } else if v == 3 {
            Some(SupportApiVersionsRequestVersion::V3)
        } else if v == 4 {
            Some(SupportApiVersionsRequestVersion::V4)
        } else {
            None
        }
    }
}

/// The request versions the Fetch decoder recognizes; only version 16 has a
/// body decoder.
#[derive(Debug, PartialEq, Eq, Structural, Copy, Clone)]
pub enum SupportFetchRequestVersion {
    V0,
    V1,
    V2,
    V3,
    V4,
    V5,
    V6,
    V7,
    V8,
    V9,
    V10,
    V11,
    V12,
    V13,
    V14,
    V15,
    V16,
}

impl SupportFetchRequestVersion {
    /// True for the wire version numbers 0 through 16.
    pub open spec fn spec_in_range(v: i16) -> bool {
        0 <= v <= 16
    }

    /// The version enum of a wire version number, for exactly 0 through 16.
    pub fn from_i16(v: i16) -> (r: Option<SupportFetchRequestVersion>)
        ensures
            r is Some <==> Self::spec_in_range(v),
            r == Some(SupportFetchRequestVersion::V16) <==> v == 16,
    {
        match v {
            0 => Some(SupportFetchRequestVersion::V0),
            1 => Some(SupportFetchRequestVersion::V1),
            2 => Some(SupportFetchRequestVersion::V2),
            3 => Some(SupportFetchRequestVersion::V3),
            4 => Some(SupportFetchRequestVersion::V4),
            5 => Some(SupportFetchRequestVersion::V5),
            6 => Some(SupportFetchRequestVersion::V6),
            7 => Some(SupportFetchRequestVersion::V7),
            8 => Some(SupportFetchRequestVersion::V8),
            9 => Some(SupportFetchRequestVersion::V9),
            10 => Some(SupportFetchRequestVersion::V10),
            11 => Some(SupportFetchRequestVersion::V11),
            12 => Some(SupportFetchRequestVersion::V12),
            13 => Some(SupportFetchRequestVersion::V13),
            14 => Some(SupportFetchRequestVersion::V14),
            15 => Some(SupportFetchRequestVersion::V15),
            16 => Some(SupportFetchRequestVersion::V16),
            _ => None,
        }
    }
}

} // verus!
