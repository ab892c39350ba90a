//! Variable-length integer codec: unsigned LEB128-style varints (7 data bits
//! per byte, little-endian group order, high bit marks continuation) and
//! zig-zag-mapped signed varints, as used throughout the wire protocol and
//! the record-batch format.
//!
//! The decoders accept exactly the canonical encodings that the encoders
//! produce: a continuation chain whose final group is zero, or a value that
//! does not fit in 64 bits, is rejected.
use vstd::prelude::*;

verus! {

/// Canonical unsigned varint encoding of `x`: groups of 7 bits, least
/// significant group first, each byte but the last carrying the high bit.
pub open spec fn spec_enc_uvarint(x: u64) -> Seq<u8>
    decreases x,
{
    if x < 128 {
        seq![x as u8]
    } else {
        seq![(128 + (x % 128)) as u8] + spec_enc_uvarint(x / 128)
    }
}

/// Parse an unsigned varint at `pos`, yielding the value and the position
/// just past it. Fails on a truncated chain, a non-canonical encoding
/// (trailing zero group), or a value above `u64::MAX`.
pub open spec fn spec_parse_uvarint(s: Seq<u8>, pos: int) -> Option<(u64, int)>
    decreases s.len() - pos,
{
    if pos < 0 || pos >= s.len() {
        None
    } else if s[pos] < 128 {
        Some((s[pos] as u64, pos + 1))
    } else {
        match spec_parse_uvarint(s, pos + 1) {
            Some((hi, end)) => {
                if hi == 0 {
                    None
                } else if hi > u64::MAX / 128 {
                    None
                } else {
                    Some(((128 * hi + (s[pos] - 128)) as u64, end))
                }
            },
            None => None,
        }
    }
}

/// The zig-zag mapping folds signed values into unsigned ones so that small
/// magnitudes get short encodings: 0, -1, 1, -2, ... map to 0, 1, 2, 3, ...
pub open spec fn spec_zigzag(x: i64) -> u64 {
    if x >= 0 {
        (2 * x) as u64
    } else {
        (-2 * x - 1) as u64
    }
}

/// Inverse of the zig-zag mapping.
pub open spec fn spec_unzigzag(n: u64) -> i64 {
    if n % 2 == 0 {
        (n / 2) as i64
    } else {
        (-((n + 1) as int / 2)) as i64
    }
}

/// Canonical signed (zig-zag) varint encoding of `x`.
pub open spec fn spec_enc_svarint(x: i64) -> Seq<u8> {
    spec_enc_uvarint(spec_zigzag(x))
}

/// Parse a signed (zig-zag) varint at `pos`.
pub open spec fn spec_parse_svarint(s: Seq<u8>, pos: int) -> Option<(i64, int)> {
    match spec_parse_uvarint(s, pos) {
        Some((n, end)) => Some((spec_unzigzag(n), end)),
        None => None,
    }
}

/// Zig-zag then un-zig-zag is the identity.
pub proof fn lemma_zigzag_roundtrip(x: i64)
    ensures
        spec_unzigzag(spec_zigzag(x)) == x,
{
}

/// A parsed unsigned varint always consumes at least one byte and stays
/// inside the input.
pub proof fn lemma_parse_uvarint_bounds(s: Seq<u8>, pos: int)
    requires
        spec_parse_uvarint(s, pos) is Some,
    ensures
        pos < spec_parse_uvarint(s, pos)->Some_0.1 <= s.len(),
    decreases s.len() - pos,
{
    if !(pos < 0 || pos >= s.len()) && s[pos] >= 128 {
        lemma_parse_uvarint_bounds(s, pos + 1);
    }
}

/// A parsed signed varint always consumes at least one byte and stays
/// inside the input.
pub proof fn lemma_parse_svarint_bounds(s: Seq<u8>, pos: int)
    requires
        spec_parse_svarint(s, pos) is Some,
    ensures
        pos < spec_parse_svarint(s, pos)->Some_0.1 <= s.len(),
{
    lemma_parse_uvarint_bounds(s, pos);
}

/// Wherever the canonical encoding of `x` sits in a byte sequence, parsing
/// at its start yields exactly `x` and stops exactly past it.
pub proof fn lemma_parse_uvarint_of_enc(s: Seq<u8>, pos: int, x: u64)
    requires
        0 <= pos,
        pos + spec_enc_uvarint(x).len() <= s.len(),
        s.subrange(pos, pos + spec_enc_uvarint(x).len() as int) =~= spec_enc_uvarint(x),
    ensures
        spec_parse_uvarint(s, pos) == Some((x, pos + spec_enc_uvarint(x).len())),
    decreases x,
{
    let e = spec_enc_uvarint(x);
    if x < 128 {
        assert(s[pos] == e[0]);
    } else {
        let e2 = spec_enc_uvarint(x / 128);
        assert(s[pos] == e[0]);
        assert(s.subrange(pos + 1, pos + 1 + e2.len() as int) =~= e2) by {
            assert forall|i: int| 0 <= i < e2.len() implies s.subrange(
                pos + 1,
                pos + 1 + e2.len() as int,
            )[i] == e2[i] by {
                assert(s[pos + 1 + i] == s.subrange(pos, pos + e.len() as int)[i + 1]);
            }
        }
        lemma_parse_uvarint_of_enc(s, pos + 1, x / 128);
        assert(x / 128 >= 1);
        assert(x / 128 <= u64::MAX / 128);
        assert(128 * (x / 128) + (s[pos] - 128) == x) by {
            assert(s[pos] == 128 + (x % 128));
            assert(128 * (x / 128) + x % 128 == x) by {
                vstd::arithmetic::div_mod::lemma_fundamental_div_mod(x as int, 128);
            }
        }
    }
}

/// Wherever the canonical signed encoding of `x` sits in a byte sequence,
/// parsing at its start yields exactly `x` and stops exactly past it.
pub proof fn lemma_parse_svarint_of_enc(s: Seq<u8>, pos: int, x: i64)
    requires
        0 <= pos,
        pos + spec_enc_svarint(x).len() <= s.len(),
        s.subrange(pos, pos + spec_enc_svarint(x).len() as int) =~= spec_enc_svarint(x),
    ensures
        spec_parse_svarint(s, pos) == Some((x, pos + spec_enc_svarint(x).len())),
{
    lemma_parse_uvarint_of_enc(s, pos, spec_zigzag(x));
    lemma_zigzag_roundtrip(x);
}

/// Decode an unsigned varint, returning the value and the position just past
/// it, exactly as the specification-level parse does.
pub fn decode_uvarint(input: &[u8], pos: usize) -> (r: Option<(u64, usize)>)
    ensures
        match r {
            Some((x, end)) => spec_parse_uvarint(input@, pos as int) == Some((x, end as int))
                && pos < end <= input@.len(),
            None => spec_parse_uvarint(input@, pos as int) is None,
        },
    decreases input@.len() - pos,
{
    if pos >= input.len() {
        return None;
    }
    let b = input[pos];
    if b < 128 {
        Some((b as u64, pos + 1))
    } else {
        match decode_uvarint(input, pos + 1) {
            Some((hi, end)) => {
                if hi == 0 {
                    None
                } else if hi > u64::MAX / 128 {
                    None
                } else {
                    proof {
                        assert(128 * hi + (b - 128) <= u64::MAX) by {
                            vstd::arithmetic::div_mod::lemma_fundamental_div_mod(
                                u64::MAX as int,
                                128,
                            );
                        }
                    }
                    Some((128 * hi + (b - 128) as u64, end))
                }
            },
            None => None,
        }
    }
}

/// Decode a signed (zig-zag) varint.
pub fn decode_svarint(input: &[u8], pos: usize) -> (r: Option<(i64, usize)>)
    ensures
        match r {
            Some((x, end)) => spec_parse_svarint(input@, pos as int) == Some((x, end as int))
                && pos < end <= input@.len(),
            None => spec_parse_svarint(input@, pos as int) is None,
        },
{
    match decode_uvarint(input, pos) {
        Some((n, end)) => {
            let x: i64 = if n % 2 == 0 {
                (n / 2) as i64
            } else {
                -((n / 2) as i64) - 1
            };
            proof {
                if n % 2 != 0 {
                    assert((n / 2) as int + 1 == (n + 1) as int / 2) by {
                        vstd::arithmetic::div_mod::lemma_fundamental_div_mod(n as int, 2);
                    }
                }
            }
            Some((x, end))
        },
        None => None,
    }
}

/// Append the canonical unsigned varint encoding of `x` to `out`.
pub fn encode_uvarint(out: &mut Vec<u8>, x: u64)
    ensures
        final(out)@ == old(out)@ + spec_enc_uvarint(x),
    decreases x,
{
    if x < 128 {
        out.push(x as u8);
        assert(out@ =~= old(out)@ + spec_enc_uvarint(x));
    } else {
        out.push((128 + (x % 128)) as u8);
        encode_uvarint(out, x / 128);
        assert(out@ =~= old(out)@ + spec_enc_uvarint(x));
    }
}

/// Append the canonical signed (zig-zag) varint encoding of `x` to `out`.
pub fn encode_svarint(out: &mut Vec<u8>, x: i64)
    ensures
        final(out)@ == old(out)@ + spec_enc_svarint(x),
{
    let n: u64 = if x >= 0 {
        2 * (x as u64)
    } else {
        2 * ((-(x + 1)) as u64) + 1
    };
    assert(n == spec_zigzag(x));
    encode_uvarint(out, n);
}

} // verus!
