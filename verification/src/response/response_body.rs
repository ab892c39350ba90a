//! The response body union: one encoder per API, plus the empty body used
//! when a malformed request can only be answered with an echoed header.
pub mod api_versions;
pub mod describe_topic_partitions;
pub mod fetch;

use vstd::prelude::*;

verus! {

} // verus!
