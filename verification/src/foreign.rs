//! Contracts for the two outside computations the codec leans on: the
//! CRC-32C checksum of the `crc32c` crate, and UTF-8 validation through
//! `String::from_utf8`. Everything else in the crate is verified against
//! these contracts.
use vstd::prelude::*;
use vstd::utf8::{decode_utf8, valid_utf8};

verus! {

/// The CRC-32C (Castagnoli) checksum of a byte sequence. The checksum is a
/// pure function of the bytes; its value is pinned only by the contract
/// below, never restated.
pub uninterp spec fn crc32c_of(data: Seq<u8>) -> u32;

/// Relies on crc32c::crc32c: the CRC-32C checksum, computed from the bytes
/// of `data` alone.
pub assume_specification [ crc32c::crc32c ](data: &[u8]) -> (r: u32)
    ensures
        r == crc32c_of(data@),
;

/// Declares std's `FromUtf8Error` so `String::from_utf8` can be given a
/// contract; the error value itself is opaque and never inspected.
#[verifier::external_type_specification]
#[verifier::external_body]
pub struct ExFromUtf8Error(std::string::FromUtf8Error);

/// Relies on String::from_utf8: returns the string decoded from the bytes
/// exactly when they are valid UTF-8, and an error otherwise.
pub assume_specification [ String::from_utf8 ](v: Vec<u8>) -> (r: Result<
    String,
    std::string::FromUtf8Error,
>)
    ensures
        (match r {
            Ok(s) => valid_utf8(v@) && s@ == decode_utf8(v@),
            Err(_) => !valid_utf8(v@),
        }),
;

} // verus!
