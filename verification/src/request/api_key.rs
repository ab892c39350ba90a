//! The API keys this server understands, and their wire values.
use vstd::prelude::*;

use crate::consts::{API_VERSIONS_API_KEY, DESCRIBE_TOPIC_PARTITIONS_API_KEY, FETCH_API_KEY,
    PRODUCE_API_KEY};

verus! {

/// The known request API keys.
#[derive(Debug, PartialEq, Eq, Structural, Copy, Clone)]
pub enum RequestApiKey {
    Produce,
    Fetch,
    ApiVersions,
    DescribeTopicPartitions,
}

impl RequestApiKey {
    /// The wire value of this API key.
    pub open spec fn spec_code(self) -> i16 {
        match self {
            RequestApiKey::Produce => PRODUCE_API_KEY,
            RequestApiKey::Fetch => FETCH_API_KEY,
            RequestApiKey::ApiVersions => API_VERSIONS_API_KEY,
            RequestApiKey::DescribeTopicPartitions => DESCRIBE_TOPIC_PARTITIONS_API_KEY,
        }
    }

    /// The wire value of this API key.
    pub fn code(self) -> (r: i16)
        ensures
            r == self.spec_code(),
    {
        match self {
            RequestApiKey::Produce => PRODUCE_API_KEY,
            RequestApiKey::Fetch => FETCH_API_KEY,
            RequestApiKey::ApiVersions => API_VERSIONS_API_KEY,
            RequestApiKey::DescribeTopicPartitions => DESCRIBE_TOPIC_PARTITIONS_API_KEY,
        }
    }

    /// The API key of a wire value, for exactly the four known values.
    pub open spec fn spec_from_code(code: i16) -> Option<RequestApiKey> {
        if code == PRODUCE_API_KEY {
            Some(RequestApiKey::Produce)
        } else if code == FETCH_API_KEY {
            Some(RequestApiKey::Fetch)
        } else if code == API_VERSIONS_API_KEY {
            Some(RequestApiKey::ApiVersions)
        } else if code == DESCRIBE_TOPIC_PARTITIONS_API_KEY {
            Some(RequestApiKey::DescribeTopicPartitions)
        } else {
            None
        }
    }

    /// The API key of a wire value, for exactly the four known values.
    pub fn from_code(code: i16) -> (r: Option<RequestApiKey>)
        ensures
            r == RequestApiKey::spec_from_code(code),
    {
        if code == PRODUCE_API_KEY {
            Some(RequestApiKey::Produce)
        } else if code == FETCH_API_KEY {
            Some(RequestApiKey::Fetch)
        } else if code == API_VERSIONS_API_KEY {
            Some(RequestApiKey::ApiVersions)
        } else if code == DESCRIBE_TOPIC_PARTITIONS_API_KEY {
            Some(RequestApiKey::DescribeTopicPartitions)
        } else {
            None
        }
    }
}

} // verus!
