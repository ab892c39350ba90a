//! Fixed-width big-endian integer codec. The frame length prefix, the
//! request-header fields, and every fixed-width field of the record-batch
//! format use this byte order; signed fields travel as the unsigned
//! two's-complement image of their value.
use vstd::prelude::*;

verus! {

/// A single signed byte (two's complement).
pub open spec fn spec_enc_i8(x: i8) -> Seq<u8> {
    seq![x as u8]
}

/// Big-endian bytes of a 16-bit unsigned integer.
pub open spec fn spec_enc_u16(x: u16) -> Seq<u8> {
    seq![((x >> 8) & 0xff) as u8, (x & 0xff) as u8]
}

/// Big-endian bytes of a 32-bit unsigned integer.
pub open spec fn spec_enc_u32(x: u32) -> Seq<u8> {
    seq![
        ((x >> 24) & 0xff) as u8,
        ((x >> 16) & 0xff) as u8,
        ((x >> 8) & 0xff) as u8,
        (x & 0xff) as u8,
    ]
}

/// Big-endian bytes of a 64-bit unsigned integer.
pub open spec fn spec_enc_u64(x: u64) -> Seq<u8> {
    seq![
        ((x >> 56) & 0xff) as u8,
        ((x >> 48) & 0xff) as u8,
        ((x >> 40) & 0xff) as u8,
        ((x >> 32) & 0xff) as u8,
        ((x >> 24) & 0xff) as u8,
        ((x >> 16) & 0xff) as u8,
        ((x >> 8) & 0xff) as u8,
        (x & 0xff) as u8,
    ]
}

/// Big-endian bytes of a signed 16-bit integer (two's complement).
pub open spec fn spec_enc_i16(x: i16) -> Seq<u8> {
    spec_enc_u16(x as u16)
}

/// Big-endian bytes of a signed 32-bit integer (two's complement).
pub open spec fn spec_enc_i32(x: i32) -> Seq<u8> {
    spec_enc_u32(x as u32)
}

/// Big-endian bytes of a signed 64-bit integer (two's complement).
pub open spec fn spec_enc_i64(x: i64) -> Seq<u8> {
    spec_enc_u64(x as u64)
}

/// Parse one signed byte.
pub open spec fn spec_parse_i8(s: Seq<u8>, pos: int) -> Option<(i8, int)> {
    if pos < 0 || pos + 1 > s.len() {
        None
    } else {
        Some((s[pos] as i8, pos + 1))
    }
}

/// Parse a big-endian 16-bit unsigned integer.
pub open spec fn spec_parse_u16(s: Seq<u8>, pos: int) -> Option<(u16, int)> {
    if pos < 0 || pos + 2 > s.len() {
        None
    } else {
        Some((((s[pos] as u16) << 8 | (s[pos + 1] as u16)), pos + 2))
    }
}

/// Parse a big-endian 32-bit unsigned integer.
pub open spec fn spec_parse_u32(s: Seq<u8>, pos: int) -> Option<(u32, int)> {
    if pos < 0 || pos + 4 > s.len() {
        None
    } else {
        Some(
            (
                ((s[pos] as u32) << 24 | (s[pos + 1] as u32) << 16 | (s[pos + 2] as u32) << 8 | (s[
                    pos + 3] as u32)),
                pos + 4,
            ),
        )
    }
}

/// Parse a big-endian 64-bit unsigned integer.
pub open spec fn spec_parse_u64(s: Seq<u8>, pos: int) -> Option<(u64, int)> {
    if pos < 0 || pos + 8 > s.len() {
        None
    } else {
        Some(
            (
                ((s[pos] as u64) << 56 | (s[pos + 1] as u64) << 48 | (s[pos + 2] as u64) << 40 | (
                s[pos + 3] as u64) << 32 | (s[pos + 4] as u64) << 24 | (s[pos + 5] as u64) << 16 | (
                s[pos + 6] as u64) << 8 | (s[pos + 7] as u64)),
                pos + 8,
            ),
        )
    }
}

/// Parse a big-endian signed 16-bit integer.
pub open spec fn spec_parse_i16(s: Seq<u8>, pos: int) -> Option<(i16, int)> {
    match spec_parse_u16(s, pos) {
        Some((v, end)) => Some((v as i16, end)),
        None => None,
    }
}

/// Parse a big-endian signed 32-bit integer.
pub open spec fn spec_parse_i32(s: Seq<u8>, pos: int) -> Option<(i32, int)> {
    match spec_parse_u32(s, pos) {
        Some((v, end)) => Some((v as i32, end)),
        None => None,
    }
}

/// Parse a big-endian signed 64-bit integer.
pub open spec fn spec_parse_i64(s: Seq<u8>, pos: int) -> Option<(i64, int)> {
    match spec_parse_u64(s, pos) {
        Some((v, end)) => Some((v as i64, end)),
        None => None,
    }
}

/// A signed byte survives the trip through its unsigned image.
pub proof fn lemma_parse_i8_of_enc(s: Seq<u8>, pos: int, x: i8)
    requires
        0 <= pos,
        pos + 1 <= s.len(),
        s.subrange(pos, pos + 1) =~= spec_enc_i8(x),
    ensures
        spec_parse_i8(s, pos) == Some((x, pos + 1)),
{
    assert(s[pos] == spec_enc_i8(x)[0]);
    assert((x as u8) as i8 == x) by (bit_vector);
}

/// Splitting a 16-bit value into big-endian bytes and reassembling them is
/// the identity.
pub proof fn lemma_parse_u16_of_enc(s: Seq<u8>, pos: int, x: u16)
    requires
        0 <= pos,
        pos + 2 <= s.len(),
        s.subrange(pos, pos + 2) =~= spec_enc_u16(x),
    ensures
        spec_parse_u16(s, pos) == Some((x, pos + 2)),
{
    assert(s[pos] == spec_enc_u16(x)[0] && s[pos + 1] == spec_enc_u16(x)[1]);
    assert(((((x >> 8) & 0xff) as u8 as u16) << 8 | ((x & 0xff) as u8 as u16)) == x)
        by (bit_vector);
}

/// Splitting a 32-bit value into big-endian bytes and reassembling them is
/// the identity.
pub proof fn lemma_parse_u32_of_enc(s: Seq<u8>, pos: int, x: u32)
    requires
        0 <= pos,
        pos + 4 <= s.len(),
        s.subrange(pos, pos + 4) =~= spec_enc_u32(x),
    ensures
        spec_parse_u32(s, pos) == Some((x, pos + 4)),
{
    assert(forall|i: int| 0 <= i < 4 ==> s[pos + i] == spec_enc_u32(x)[i]);
    assert(((((x >> 24) & 0xff) as u8 as u32) << 24 | (((x >> 16) & 0xff) as u8 as u32) << 16 | (((
    x >> 8) & 0xff) as u8 as u32) << 8 | ((x & 0xff) as u8 as u32)) == x) by (bit_vector);
}

/// Splitting a 64-bit value into big-endian bytes and reassembling them is
/// the identity.
pub proof fn lemma_parse_u64_of_enc(s: Seq<u8>, pos: int, x: u64)
    requires
        0 <= pos,
        pos + 8 <= s.len(),
        s.subrange(pos, pos + 8) =~= spec_enc_u64(x),
    ensures
        spec_parse_u64(s, pos) == Some((x, pos + 8)),
{
    assert(forall|i: int| 0 <= i < 8 ==> s[pos + i] == spec_enc_u64(x)[i]);
    assert(((((x >> 56) & 0xff) as u8 as u64) << 56 | (((x >> 48) & 0xff) as u8 as u64) << 48 | (((
    x >> 40) & 0xff) as u8 as u64) << 40 | (((x >> 32) & 0xff) as u8 as u64) << 32 | (((x >> 24)
        & 0xff) as u8 as u64) << 24 | (((x >> 16) & 0xff) as u8 as u64) << 16 | (((x >> 8)
        & 0xff) as u8 as u64) << 8 | ((x & 0xff) as u8 as u64)) == x) by (bit_vector);
}

/// Round trip through the unsigned image for signed 16-bit values.
pub proof fn lemma_parse_i16_of_enc(s: Seq<u8>, pos: int, x: i16)
    requires
        0 <= pos,
        pos + 2 <= s.len(),
        s.subrange(pos, pos + 2) =~= spec_enc_i16(x),
    ensures
        spec_parse_i16(s, pos) == Some((x, pos + 2)),
{
    lemma_parse_u16_of_enc(s, pos, x as u16);
    assert((x as u16) as i16 == x) by (bit_vector);
}

/// Round trip through the unsigned image for signed 32-bit values.
pub proof fn lemma_parse_i32_of_enc(s: Seq<u8>, pos: int, x: i32)
    requires
        0 <= pos,
        pos + 4 <= s.len(),
        s.subrange(pos, pos + 4) =~= spec_enc_i32(x),
    ensures
        spec_parse_i32(s, pos) == Some((x, pos + 4)),
{
    lemma_parse_u32_of_enc(s, pos, x as u32);
    assert((x as u32) as i32 == x) by (bit_vector);
}

/// Round trip through the unsigned image for signed 64-bit values.
pub proof fn lemma_parse_i64_of_enc(s: Seq<u8>, pos: int, x: i64)
    requires
        0 <= pos,
        pos + 8 <= s.len(),
        s.subrange(pos, pos + 8) =~= spec_enc_i64(x),
    ensures
        spec_parse_i64(s, pos) == Some((x, pos + 8)),
{
    lemma_parse_u64_of_enc(s, pos, x as u64);
    assert((x as u64) as i64 == x) by (bit_vector);
}

/// Read one signed byte.
pub fn decode_i8(input: &[u8], pos: usize) -> (r: Option<(i8, usize)>)
    ensures
        match r {
            Some((x, end)) => spec_parse_i8(input@, pos as int) == Some((x, end as int)) && pos
                < end <= input@.len(),
            None => spec_parse_i8(input@, pos as int) is None,
        },
{
    if pos < input.len() {
        Some((input[pos] as i8, pos + 1))
    } else {
        None
    }
}

/// Read a big-endian 16-bit unsigned integer.
pub fn decode_u16(input: &[u8], pos: usize) -> (r: Option<(u16, usize)>)
    ensures
        match r {
            Some((x, end)) => spec_parse_u16(input@, pos as int) == Some((x, end as int)) && pos
                < end <= input@.len(),
            None => spec_parse_u16(input@, pos as int) is None,
        },
{
    if pos < input.len() && input.len() - pos >= 2 {
        Some(((input[pos] as u16) << 8 | (input[pos + 1] as u16), pos + 2))
    } else {
        None
    }
}

/// Read a big-endian signed 16-bit integer.
pub fn decode_i16(input: &[u8], pos: usize) -> (r: Option<(i16, usize)>)
    ensures
        match r {
            Some((x, end)) => spec_parse_i16(input@, pos as int) == Some((x, end as int)) && pos
                < end <= input@.len(),
            None => spec_parse_i16(input@, pos as int) is None,
        },
{
    match decode_u16(input, pos) {
        Some((v, end)) => Some((v as i16, end)),
        None => None,
    }
}

/// Read a big-endian 32-bit unsigned integer.
pub fn decode_u32(input: &[u8], pos: usize) -> (r: Option<(u32, usize)>)
    ensures
        match r {
            Some((x, end)) => spec_parse_u32(input@, pos as int) == Some((x, end as int)) && pos
                < end <= input@.len(),
            None => spec_parse_u32(input@, pos as int) is None,
        },
{
    if pos < input.len() && input.len() - pos >= 4 {
        Some(
            (
                (input[pos] as u32) << 24 | (input[pos + 1] as u32) << 16 | (input[pos
                    + 2] as u32) << 8 | (input[pos + 3] as u32),
                pos + 4,
            ),
        )
    } else {
        None
    }
}

/// Read a big-endian signed 32-bit integer.
pub fn decode_i32(input: &[u8], pos: usize) -> (r: Option<(i32, usize)>)
    ensures
        match r {
            Some((x, end)) => spec_parse_i32(input@, pos as int) == Some((x, end as int)) && pos
                < end <= input@.len(),
            None => spec_parse_i32(input@, pos as int) is None,
        },
{
    match decode_u32(input, pos) {
        Some((v, end)) => Some((v as i32, end)),
        None => None,
    }
}

/// Read a big-endian 64-bit unsigned integer.
pub fn decode_u64(input: &[u8], pos: usize) -> (r: Option<(u64, usize)>)
    ensures
        match r {
            Some((x, end)) => spec_parse_u64(input@, pos as int) == Some((x, end as int)) && pos
                < end <= input@.len(),
            None => spec_parse_u64(input@, pos as int) is None,
        },
{
    if pos < input.len() && input.len() - pos >= 8 {
        Some(
            (
                (input[pos] as u64) << 56 | (input[pos + 1] as u64) << 48 | (input[pos
                    + 2] as u64) << 40 | (input[pos + 3] as u64) << 32 | (input[pos
                    + 4] as u64) << 24 | (input[pos + 5] as u64) << 16 | (input[pos
                    + 6] as u64) << 8 | (input[pos + 7] as u64),
                pos + 8,
            ),
        )
    } else {
        None
    }
}

/// Read a big-endian signed 64-bit integer.
pub fn decode_i64(input: &[u8], pos: usize) -> (r: Option<(i64, usize)>)
    ensures
        match r {
            Some((x, end)) => spec_parse_i64(input@, pos as int) == Some((x, end as int)) && pos
                < end <= input@.len(),
            None => spec_parse_i64(input@, pos as int) is None,
        },
{
    match decode_u64(input, pos) {
        Some((v, end)) => Some((v as i64, end)),
        None => None,
    }
}

/// Append one signed byte.
pub fn encode_i8(out: &mut Vec<u8>, x: i8)
    ensures
        final(out)@ == old(out)@ + spec_enc_i8(x),
{
    out.push(x as u8);
    assert(out@ =~= old(out)@ + spec_enc_i8(x));
}

/// Append the big-endian bytes of a 16-bit unsigned integer.
pub fn encode_u16(out: &mut Vec<u8>, x: u16)
    ensures
        final(out)@ == old(out)@ + spec_enc_u16(x),
{
    out.push(((x >> 8) & 0xff) as u8);
    out.push((x & 0xff) as u8);
    assert(out@ =~= old(out)@ + spec_enc_u16(x));
}

/// Append the big-endian bytes of a 32-bit unsigned integer.
pub fn encode_u32(out: &mut Vec<u8>, x: u32)
    ensures
        final(out)@ == old(out)@ + spec_enc_u32(x),
{
    out.push(((x >> 24) & 0xff) as u8);
    out.push(((x >> 16) & 0xff) as u8);
    out.push(((x >> 8) & 0xff) as u8);
    out.push((x & 0xff) as u8);
    assert(out@ =~= old(out)@ + spec_enc_u32(x));
}

/// Append the big-endian bytes of a 64-bit unsigned integer.
pub fn encode_u64(out: &mut Vec<u8>, x: u64)
    ensures
        final(out)@ == old(out)@ + spec_enc_u64(x),
{
    out.push(((x >> 56) & 0xff) as u8);
    out.push(((x >> 48) & 0xff) as u8);
    out.push(((x >> 40) & 0xff) as u8);
    out.push(((x >> 32) & 0xff) as u8);
    out.push(((x >> 24) & 0xff) as u8);
    out.push(((x >> 16) & 0xff) as u8);
    out.push(((x >> 8) & 0xff) as u8);
    out.push((x & 0xff) as u8);
    assert(out@ =~= old(out)@ + spec_enc_u64(x));
}

/// Append the big-endian bytes of a signed 16-bit integer.
pub fn encode_i16(out: &mut Vec<u8>, x: i16)
    ensures
        final(out)@ == old(out)@ + spec_enc_i16(x),
{
    encode_u16(out, x as u16);
}

/// Append the big-endian bytes of a signed 32-bit integer.
pub fn encode_i32(out: &mut Vec<u8>, x: i32)
    ensures
        final(out)@ == old(out)@ + spec_enc_i32(x),
{
    encode_u32(out, x as u32);
}

/// Append the big-endian bytes of a signed 64-bit integer.
pub fn encode_i64(out: &mut Vec<u8>, x: i64)
    ensures
        final(out)@ == old(out)@ + spec_enc_i64(x),
{
    encode_u64(out, x as u64);
}

} // verus!
