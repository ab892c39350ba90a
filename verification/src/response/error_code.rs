//! The error codes a response can carry, and their wire values.
use vstd::prelude::*;

verus! {

/// The protocol error codes this server emits.
#[derive(Debug, PartialEq, Eq, Structural, Copy, Clone)]
pub enum KafkaError {
    UnknownServerError,
    NoError,
    UnknownTopicOrPartition,
    UnsupportedVersion,
    InvalidRequest,
    UnknownTopicId,
}

impl KafkaError {
    /// The wire value of this error code.
    pub open spec fn spec_code(self) -> i16 {
        match self {
            KafkaError::UnknownServerError => -1i16,
            KafkaError::NoError => 0,
            KafkaError::UnknownTopicOrPartition => 3,
            KafkaError::UnsupportedVersion => 35,
            KafkaError::InvalidRequest => 42,
            KafkaError::UnknownTopicId => 100,
        }
    }

    /// The wire value of this error code.
    pub fn code(self) -> (r: i16)
        ensures
            r == self.spec_code(),
    {
        match self {
            KafkaError::UnknownServerError => -1i16,
            KafkaError::NoError => 0,
            KafkaError::UnknownTopicOrPartition => 3,
            KafkaError::UnsupportedVersion => 35,
            KafkaError::InvalidRequest => 42,
            KafkaError::UnknownTopicId => 100,
        }
    }
}

} // verus!
