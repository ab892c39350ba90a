//! Compact wire primitives shared by every other part of the protocol:
//! compact (varint-length) strings and byte arrays, signed-varint-length
//! byte fields, nullable fixed-width strings, element lists, and the
//! tagged-field epilogue carried by many structures.
use vstd::prelude::*;
use vstd::slice::{slice_subrange, slice_to_vec};
use vstd::utf8::{decode_utf8, valid_utf8};

use crate::be::{decode_i16, spec_parse_i16};
use crate::varint::{decode_svarint, decode_uvarint, encode_svarint, encode_uvarint,
    lemma_parse_svarint_of_enc, lemma_parse_uvarint_of_enc, spec_enc_svarint, spec_enc_uvarint,
    spec_parse_svarint, spec_parse_uvarint};

verus! {

broadcast use vstd::seq_lib::group_seq_lib_default;

/// A vector never holds more than `usize::MAX` elements.
pub proof fn lemma_vec_len_bounded<T>(v: &Vec<T>)
    ensures
        v@.len() <= usize::MAX,
{
    broadcast use vstd::std_specs::vec::axiom_spec_len;

    assert(vstd::std_specs::vec::spec_vec_len(v) == v@.len());
}

/// Append all of `other` to `out`.
pub fn extend_bytes(out: &mut Vec<u8>, other: &[u8])
    ensures
        final(out)@ == old(out)@ + other@,
{
    let mut i: usize = 0;
    while i < other.len()
        invariant
            i <= other.len(),
            out@ =~= old(out)@ + other@.subrange(0, i as int),
        decreases other.len() - i,
    {
        out.push(other[i]);
        i = i + 1;
    }
    assert(out@ =~= old(out)@ + other@);
}

/// Splitting a subrange known to equal a concatenation into its two halves.
pub proof fn lemma_subrange_split(s: Seq<u8>, pos: int, a: Seq<u8>, b: Seq<u8>)
    requires
        0 <= pos,
        pos + a.len() + b.len() <= s.len(),
        s.subrange(pos, pos + a.len() + b.len()) =~= a + b,
    ensures
        s.subrange(pos, pos + a.len() as int) =~= a,
        s.subrange(pos + a.len(), pos + a.len() + b.len()) =~= b,
{
    let whole = s.subrange(pos, pos + a.len() + b.len());
    assert forall|i: int| 0 <= i < a.len() implies s.subrange(pos, pos + a.len() as int)[i]
        == a[i] by {
        assert(s[pos + i] == whole[i]);
    }
    assert forall|i: int| 0 <= i < b.len() implies s.subrange(
        pos + a.len(),
        pos + a.len() + b.len(),
    )[i] == b[i] by {
        assert(s[pos + a.len() + i] == whole[a.len() + i]);
    }
}

/// Encoding of the count prefix of a compact array: `0` for an empty array,
/// `count + 1` otherwise, as an unsigned varint.
pub open spec fn spec_enc_compact_count(n: nat) -> Seq<u8> {
    if n == 0 {
        spec_enc_uvarint(0)
    } else {
        spec_enc_uvarint((n + 1) as u64)
    }
}

/// Parse the count prefix of a compact array. Both the null marker `0` and
/// the explicit empty count `1` yield zero elements.
pub open spec fn spec_parse_compact_count(s: Seq<u8>, pos: int) -> Option<(nat, int)> {
    match spec_parse_uvarint(s, pos) {
        Some((n, p)) => if n == 0 {
            Some((0 as nat, p))
        } else {
            Some(((n - 1) as nat, p))
        },
        None => None,
    }
}

/// A compact count round-trips for every count below `u64::MAX`.
pub proof fn lemma_parse_compact_count_of_enc(s: Seq<u8>, pos: int, n: nat)
    requires
        0 <= pos,
        n + 1 <= u64::MAX,
        pos + spec_enc_compact_count(n).len() <= s.len(),
        s.subrange(pos, pos + spec_enc_compact_count(n).len() as int) =~= spec_enc_compact_count(n),
    ensures
        spec_parse_compact_count(s, pos) == Some((n, pos + spec_enc_compact_count(n).len())),
{
    if n == 0 {
        lemma_parse_uvarint_of_enc(s, pos, 0);
    } else {
        lemma_parse_uvarint_of_enc(s, pos, (n + 1) as u64);
    }
}

/// The empty compact array is exactly the single byte `0x00`, and the two
/// wire forms of emptiness — the null marker `0x00` and the explicit zero
/// count `0x01` — parse to the same zero count.
pub proof fn lemma_compact_array_empty()
    ensures
        spec_enc_compact_count(0) =~= seq![0u8],
        spec_parse_compact_count(seq![0u8], 0) == Some((0 as nat, 1int)),
        spec_parse_compact_count(seq![1u8], 0) == Some((0 as nat, 1int)),
{
    assert(spec_enc_uvarint(0) =~= seq![0u8]);
    reveal_with_fuel(spec_parse_uvarint, 2);
}

/// Decode a compact-array count prefix.
pub fn decode_compact_count(input: &[u8], pos: usize) -> (r: Option<(u64, usize)>)
    ensures
        match r {
            Some((n, end)) => spec_parse_compact_count(input@, pos as int) == Some(
                (n as nat, end as int),
            ) && pos < end <= input@.len(),
            None => spec_parse_compact_count(input@, pos as int) is None,
        },
{
    match decode_uvarint(input, pos) {
        Some((n, p)) => if n == 0 {
            Some((0, p))
        } else {
            Some((n - 1, p))
        },
        None => None,
    }
}

/// Compact byte-array encoding: varint `len + 1` then the bytes, with the
/// single byte `0` for an empty array.
pub open spec fn spec_enc_compact_bytes(b: Seq<u8>) -> Seq<u8> {
    spec_enc_compact_count(b.len()) + b
}

/// Parse a compact byte array.
pub open spec fn spec_parse_compact_bytes(s: Seq<u8>, pos: int) -> Option<(Seq<u8>, int)> {
    match spec_parse_compact_count(s, pos) {
        Some((n, p)) => if p + n <= s.len() {
            Some((s.subrange(p, p + n), p + n))
        } else {
            None
        },
        None => None,
    }
}

/// A compact byte array round-trips.
pub proof fn lemma_parse_compact_bytes_of_enc(s: Seq<u8>, pos: int, b: Seq<u8>)
    requires
        0 <= pos,
        b.len() + 1 <= u64::MAX,
        pos + spec_enc_compact_bytes(b).len() <= s.len(),
        s.subrange(pos, pos + spec_enc_compact_bytes(b).len() as int) =~= spec_enc_compact_bytes(b),
    ensures
        spec_parse_compact_bytes(s, pos) == Some((b, pos + spec_enc_compact_bytes(b).len())),
{
    let c = spec_enc_compact_count(b.len());
    lemma_subrange_split(s, pos, c, b);
    lemma_parse_compact_count_of_enc(s, pos, b.len());
}

/// Decode a compact byte array.
pub fn decode_compact_bytes(input: &[u8], pos: usize) -> (r: Option<(Vec<u8>, usize)>)
    ensures
        match r {
            Some((v, end)) => spec_parse_compact_bytes(input@, pos as int) == Some(
                (v@, end as int),
            ) && pos < end <= input@.len(),
            None => spec_parse_compact_bytes(input@, pos as int) is None,
        },
{
    match decode_compact_count(input, pos) {
        Some((n, p)) => {
            if n <= (input.len() - p) as u64 {
                let len = n as usize;
                let v = slice_to_vec(slice_subrange(input, p, p + len));
                Some((v, p + len))
            } else {
                None
            }
        },
        None => None,
    }
}

/// Append the compact encoding of a byte array, exactly when its length
/// fits the length varint.
pub fn encode_compact_bytes(out: &mut Vec<u8>, b: &[u8]) -> (r: bool)
    ensures
        r == (b@.len() + 1 <= u64::MAX),
        r ==> final(out)@ == old(out)@ + spec_enc_compact_bytes(b@),
{
    if b.len() == 0 {
        encode_uvarint(out, 0);
    } else {
        if (b.len() as u64) == u64::MAX {
            return false;
        }
        encode_uvarint(out, (b.len() as u64) + 1);
    }
    extend_bytes(out, b);
    true
}

/// Compact string encoding: the compact byte-array encoding of the string's
/// UTF-8 bytes.
pub open spec fn spec_enc_compact_string(cs: Seq<char>) -> Seq<u8> {
    spec_enc_compact_bytes(vstd::utf8::encode_utf8(cs))
}

/// Parse a compact string; the bytes must be valid UTF-8.
pub open spec fn spec_parse_compact_string(s: Seq<u8>, pos: int) -> Option<(Seq<char>, int)> {
    match spec_parse_compact_bytes(s, pos) {
        Some((b, p)) => if valid_utf8(b) {
            Some((decode_utf8(b), p))
        } else {
            None
        },
        None => None,
    }
}

/// A compact string round-trips.
pub proof fn lemma_parse_compact_string_of_enc(s: Seq<u8>, pos: int, cs: Seq<char>)
    requires
        0 <= pos,
        vstd::utf8::encode_utf8(cs).len() + 1 <= u64::MAX,
        pos + spec_enc_compact_string(cs).len() <= s.len(),
        s.subrange(pos, pos + spec_enc_compact_string(cs).len() as int) =~= spec_enc_compact_string(
            cs,
        ),
    ensures
        spec_parse_compact_string(s, pos) == Some(
            (cs, pos + spec_enc_compact_string(cs).len()),
        ),
{
    let b = vstd::utf8::encode_utf8(cs);
    lemma_parse_compact_bytes_of_enc(s, pos, b);
    vstd::utf8::encode_utf8_valid_utf8(cs);
    vstd::utf8::encode_utf8_decode_utf8(cs);
}

/// Decode a compact string.
pub fn parse_compact_string(input: &[u8], pos: usize) -> (r: Option<(String, usize)>)
    ensures
        match r {
            Some((v, end)) => spec_parse_compact_string(input@, pos as int) == Some(
                (v@, end as int),
            ) && pos < end <= input@.len(),
            None => spec_parse_compact_string(input@, pos as int) is None,
        },
{
    match decode_compact_bytes(input, pos) {
        Some((b, p)) => match String::from_utf8(b) {
            Ok(st) => Some((st, p)),
            Err(_) => None,
        },
        None => None,
    }
}

/// Append the compact encoding of a string, exactly when the length of its
/// UTF-8 bytes fits the length varint.
pub fn write_compact_string(out: &mut Vec<u8>, s: &str) -> (r: bool)
    ensures
        r == (vstd::utf8::encode_utf8(s@).len() + 1 <= u64::MAX),
        r ==> final(out)@ == old(out)@ + spec_enc_compact_string(s@),
{
    encode_compact_bytes(out, s.as_bytes())
}

/// Signed-length byte-field encoding: a signed varint length then the
/// bytes. This is the key/value framing inside records; it is distinct from
/// the compact-array convention and must stay so.
pub open spec fn spec_enc_signed_bytes(b: Seq<u8>) -> Seq<u8> {
    spec_enc_svarint(b.len() as i64) + b
}

/// Parse a signed-length byte field: a non-positive length means empty.
pub open spec fn spec_parse_signed_bytes(s: Seq<u8>, pos: int) -> Option<(Seq<u8>, int)> {
    match spec_parse_svarint(s, pos) {
        Some((n, p)) => if n <= 0 {
            Some((Seq::empty(), p))
        } else if p + n <= s.len() {
            Some((s.subrange(p, p + n), p + n))
        } else {
            None
        },
        None => None,
    }
}

/// A signed-length byte field round-trips.
pub proof fn lemma_parse_signed_bytes_of_enc(s: Seq<u8>, pos: int, b: Seq<u8>)
    requires
        0 <= pos,
        b.len() <= i64::MAX,
        pos + spec_enc_signed_bytes(b).len() <= s.len(),
        s.subrange(pos, pos + spec_enc_signed_bytes(b).len() as int) =~= spec_enc_signed_bytes(b),
    ensures
        spec_parse_signed_bytes(s, pos) == Some((b, pos + spec_enc_signed_bytes(b).len())),
{
    let c = spec_enc_svarint(b.len() as i64);
    lemma_subrange_split(s, pos, c, b);
    lemma_parse_svarint_of_enc(s, pos, b.len() as i64);
    if b.len() == 0 {
        assert(Seq::<u8>::empty() =~= b);
    }
}

/// Decode a signed-length byte field.
pub fn parse_vec_u8_with_signed_varint_length(input: &[u8], pos: usize) -> (r: Option<
    (Vec<u8>, usize),
>)
    ensures
        match r {
            Some((v, end)) => spec_parse_signed_bytes(input@, pos as int) == Some(
                (v@, end as int),
            ) && pos < end <= input@.len(),
            None => spec_parse_signed_bytes(input@, pos as int) is None,
        },
{
    match decode_svarint(input, pos) {
        Some((n, p)) => {
            if n <= 0 {
                let v: Vec<u8> = Vec::new();
                assert(v@ =~= Seq::<u8>::empty());
                Some((v, p))
            } else if (n as u64) <= (input.len() - p) as u64 {
                let len = n as usize;
                let v = slice_to_vec(slice_subrange(input, p, p + len));
                Some((v, p + len))
            } else {
                None
            }
        },
        None => None,
    }
}

/// Append the signed-length encoding of a byte field, exactly when its
/// length fits the signed length varint.
pub fn write_vec_u8_with_signed_varint_length(out: &mut Vec<u8>, b: &[u8]) -> (r: bool)
    ensures
        r == (b@.len() <= i64::MAX),
        r ==> final(out)@ == old(out)@ + spec_enc_signed_bytes(b@),
{
    if (b.len() as u64) > (i64::MAX as u64) {
        return false;
    }
    encode_svarint(out, b.len() as i64);
    extend_bytes(out, b);
    true
}

/// Parse a nullable fixed-width string: a big-endian 16-bit length, `-1`
/// meaning absent (decoded as the empty string), any other negative length
/// a format error, otherwise that many UTF-8 bytes.
pub open spec fn spec_parse_nullable_string(s: Seq<u8>, pos: int) -> Option<(Seq<char>, int)> {
    match spec_parse_i16(s, pos) {
        Some((n, p)) => if n == -1 {
            Some((Seq::empty(), p))
        } else if n < 0 {
            None
        } else if p + n <= s.len() {
            let b = s.subrange(p, p + n);
            if valid_utf8(b) {
                Some((decode_utf8(b), p + n))
            } else {
                None
            }
        } else {
            None
        },
        None => None,
    }
}

/// Decode a nullable fixed-width string.
pub fn try_read_nullable_string(input: &[u8], pos: usize) -> (r: Option<(String, usize)>)
    ensures
        match r {
            Some((v, end)) => spec_parse_nullable_string(input@, pos as int) == Some(
                (v@, end as int),
            ) && pos < end <= input@.len(),
            None => spec_parse_nullable_string(input@, pos as int) is None,
        },
{
    match decode_i16(input, pos) {
        Some((n, p)) => {
            if n == -1 {
                Some((String::new(), p))
            } else if n < 0 {
                None
            } else if (n as usize) <= input.len() - p {
                let len = n as usize;
                let b = slice_to_vec(slice_subrange(input, p, p + len));
                match String::from_utf8(b) {
                    Ok(st) => Some((st, p + len)),
                    Err(_) => None,
                }
            } else {
                None
            }
        },
        None => None,
    }
}

/// Parse a 16-byte identifier (a topic or directory UUID) as raw bytes.
pub open spec fn spec_parse_uuid(s: Seq<u8>, pos: int) -> Option<(Seq<u8>, int)> {
    if pos < 0 || pos + 16 > s.len() {
        None
    } else {
        Some((s.subrange(pos, pos + 16), pos + 16))
    }
}

/// Decode a 16-byte identifier.
pub fn decode_uuid(input: &[u8], pos: usize) -> (r: Option<(Vec<u8>, usize)>)
    ensures
        match r {
            Some((v, end)) => spec_parse_uuid(input@, pos as int) == Some((v@, end as int)) && pos
                < end <= input@.len(),
            None => spec_parse_uuid(input@, pos as int) is None,
        },
{
    if pos < input.len() && input.len() - pos >= 16 {
        let v = slice_to_vec(slice_subrange(input, pos, pos + 16));
        Some((v, pos + 16))
    } else {
        None
    }
}

/// Whether two byte vectors hold the same bytes.
pub fn bytes_eq(a: &Vec<u8>, b: &Vec<u8>) -> (r: bool)
    ensures
        r == (a@ == b@),
{
    if a.len() != b.len() {
        assert(a@ != b@);
        return false;
    }
    let mut i: usize = 0;
    while i < a.len()
        invariant
            i <= a.len(),
            a@.len() == b@.len(),
            forall|j: int| 0 <= j < i ==> a@[j] == b@[j],
        decreases a.len() - i,
    {
        if a[i] != b[i] {
            return false;
        }
        i = i + 1;
    }
    proof {
        assert(a@ =~= b@);
    }
    true
}

/// Copy a byte vector.
pub fn clone_bytes(v: &Vec<u8>) -> (r: Vec<u8>)
    ensures
        r@ == v@,
{
    slice_to_vec(slice_subrange(v.as_slice(), 0, v.len()))
}

/// Copy a vector of 32-bit integers.
pub fn clone_i32s(v: &Vec<i32>) -> (r: Vec<i32>)
    ensures
        r@ == v@,
{
    slice_to_vec(slice_subrange(v.as_slice(), 0, v.len()))
}

/// Copy a string.
pub fn clone_string(s: &String) -> (r: String)
    ensures
        r@ == s@,
{
    s.clone()
}

} // verus!
