//! Shared request-decoding helpers: compact strings, nullable strings,
//! tagged-field draining, and compact arrays whose element failures carry
//! the request's diagnostic error.
use vstd::prelude::*;

use crate::primitives::{decode_compact_count, spec_parse_compact_count,
    spec_parse_compact_string, spec_parse_nullable_string};
use crate::request::error::{RequestError, RequestErrorV};
use crate::tagged_field::{spec_parse_tagged_fields, TaggedField};

verus! {

/// Decode a compact string inside a request body.
pub fn try_read_compact_string(input: &[u8], pos: usize) -> (r: Option<(String, usize)>)
    ensures
        match r {
            Some((v, end)) => spec_parse_compact_string(input@, pos as int) == Some(
                (v@, end as int),
            ) && pos < end <= input@.len(),
            None => spec_parse_compact_string(input@, pos as int) is None,
        },
{
    crate::primitives::parse_compact_string(input, pos)
}

/// Decode a nullable fixed-width string inside a request header.
pub fn try_read_nullable_string(input: &[u8], pos: usize) -> (r: Option<(String, usize)>)
    ensures
        match r {
            Some((v, end)) => spec_parse_nullable_string(input@, pos as int) == Some(
                (v@, end as int),
            ) && pos < end <= input@.len(),
            None => spec_parse_nullable_string(input@, pos as int) is None,
        },
{
    crate::primitives::try_read_nullable_string(input, pos)
}

/// Drain a tagged-field epilogue, keeping the fields.
pub fn try_read_tagged_fields(input: &[u8], pos: usize) -> (r: Option<(Vec<TaggedField>, usize)>)
    requires
        pos <= input@.len(),
    ensures
        match r {
            Some((v, end)) => spec_parse_tagged_fields(input@, pos as int) == Some(
                (v.deep_view(), end as int),
            ) && pos < end <= input@.len(),
            None => spec_parse_tagged_fields(input@, pos as int) is None,
        },
{
    crate::tagged_field::parse_tagged_fields(input, pos)
}

/// How reading a compact array can fail: on its length prefix, or inside an
/// element.
#[derive(Debug)]
pub enum ReadCompactStringError<E> {
    LengthError,
    InnerError(E),
}

impl ReadCompactStringError<RequestError> {
    /// Collapse into the uniform request error: a length failure gets the
    /// given field name, an element failure keeps its own error.
    pub fn into_request_error(self, length_field: &'static str, correlation_id: i32) -> (r:
        RequestError)
        ensures
            r@ == match self {
                ReadCompactStringError::LengthError => crate::request::error::spec_invalid_format(
                    length_field@,
                    correlation_id,
                ),
                ReadCompactStringError::InnerError(e) => e@,
            },
    {
        match self {
            ReadCompactStringError::LengthError => RequestError::invalid_format(
                length_field,
                correlation_id,
            ),
            ReadCompactStringError::InnerError(inner) => inner,
        }
    }
}

/// A type decoded as a request-body list element, whose failures carry the
/// request's diagnostic error.
pub trait WireDecodeErr: Sized + DeepView {
    /// Parse one element at `pos`, with the correlation id its errors name.
    spec fn sp_parse_err(s: Seq<u8>, pos: int, cid: i32) -> Result<(Self::V, int), RequestErrorV>;

    /// Decode one element, exactly as `sp_parse_err` does.
    fn wire_decode_err(input: &[u8], pos: usize, cid: i32) -> (r: Result<
        (Self, usize),
        RequestError,
    >)
        requires
            pos <= input@.len(),
        ensures
            match r {
                Ok((v, end)) => Self::sp_parse_err(input@, pos as int, cid) == Ok::<
                    _,
                    RequestErrorV,
                >((v.deep_view(), end as int)) && pos <= end <= input@.len(),
                Err(e) => Self::sp_parse_err(input@, pos as int, cid) == Err::<
                    (Self::V, int),
                    _,
                >(e@),
            },
    ;
}

/// The element parser of `T` under a correlation id, as a first-class spec
/// function.
pub open spec fn parse_err_fn<T: WireDecodeErr>(cid: i32) -> spec_fn(Seq<u8>, int) -> Result<
    (T::V, int),
    RequestErrorV,
> {
    |s: Seq<u8>, pos: int| T::sp_parse_err(s, pos, cid)
}

/// Parse exactly `n` consecutive elements, stopping at the first element
/// error.
pub open spec fn spec_parse_elems_err<TV>(
    s: Seq<u8>,
    pos: int,
    n: nat,
    parse: spec_fn(Seq<u8>, int) -> Result<(TV, int), RequestErrorV>,
) -> Result<(Seq<TV>, int), RequestErrorV>
    decreases n,
{
    if n == 0 {
        Ok((Seq::empty(), pos))
    } else {
        match parse(s, pos) {
            Ok((v, p)) => match spec_parse_elems_err(s, p, (n - 1) as nat, parse) {
                Ok((l, end)) => Ok((seq![v] + l, end)),
                Err(e) => Err(e),
            },
            Err(e) => Err(e),
        }
    }
}

/// Parse a compact array of request-body elements: the count prefix, then
/// that many elements; a failing count prefix yields no elements at all.
pub open spec fn spec_parse_compact_array_err<TV>(
    s: Seq<u8>,
    pos: int,
    parse: spec_fn(Seq<u8>, int) -> Result<(TV, int), RequestErrorV>,
) -> Option<Result<(Seq<TV>, int), RequestErrorV>> {
    match spec_parse_compact_count(s, pos) {
        Some((n, p)) => Some(spec_parse_elems_err(s, p, n, parse)),
        None => None,
    }
}

/// Decode exactly `n` consecutive request-body elements, exactly as the
/// specification-level parse does.
#[verifier::loop_isolation(false)]
pub fn decode_elems_err<T: WireDecodeErr>(input: &[u8], pos: usize, n: u64, cid: i32) -> (r:
    Result<(Vec<T>, usize), RequestError>)
    requires
        pos <= input@.len(),
    ensures
        match r {
            Ok((v, end)) => spec_parse_elems_err(input@, pos as int, n as nat, parse_err_fn::<
                T,
            >(cid)) == Ok::<_, RequestErrorV>((v.deep_view(), end as int)) && pos <= end
                <= input@.len(),
            Err(e) => spec_parse_elems_err(input@, pos as int, n as nat, parse_err_fn::<T>(cid))
                == Err::<(Seq<T::V>, int), _>(e@),
        },
{
    let ghost total = spec_parse_elems_err(input@, pos as int, n as nat, parse_err_fn::<T>(cid));
    let mut acc: Vec<T> = Vec::new();
    let mut p: usize = pos;
    let mut i: u64 = 0;
    assert(acc.deep_view() =~= Seq::<T::V>::empty());
    while i < n
        invariant
            i <= n,
            pos <= p <= input@.len(),
            acc.deep_view().len() == i,
            total == match spec_parse_elems_err(
                input@,
                p as int,
                (n - i) as nat,
                parse_err_fn::<T>(cid),
            ) {
                Ok((l2, end)) => Ok((acc.deep_view() + l2, end)),
                Err(e) => Err::<(Seq<T::V>, int), RequestErrorV>(e),
            },
        decreases n - i,
    {
        let ghost acc0 = acc.deep_view();
        match T::wire_decode_err(input, p, cid) {
            Ok((v, p2)) => {
                proof {
                    let sub = spec_parse_elems_err(
                        input@,
                        p2 as int,
                        (n - i - 1) as nat,
                        parse_err_fn::<T>(cid),
                    );
                    if sub is Ok {
                        let (l3, end) = sub->Ok_0;
                        assert(acc0 + (seq![v.deep_view()] + l3) =~= (acc0 + seq![v.deep_view()])
                            + l3);
                    }
                }
                acc.push(v);
                proof {
                    assert(acc.deep_view() =~= acc0 + seq![v.deep_view()]);
                }
                p = p2;
                i = i + 1;
            },
            Err(e) => {
                proof {
                    assert((n - i) as nat > 0);
                    assert(parse_err_fn::<T>(cid)(input@, p as int) == T::sp_parse_err(
                        input@,
                        p as int,
                        cid,
                    ));
                }
                return Err(e);
            },
        }
    }
    assert(acc.deep_view() + Seq::<T::V>::empty() =~= acc.deep_view());
    Ok((acc, p))
}

/// Decode a compact array inside a request body: the count prefix, then
/// that many elements. A failing count prefix is reported apart from a
/// failing element, so the caller can name it.
pub fn try_read_vec_from_compact_array<T: WireDecodeErr>(input: &[u8], pos: usize, cid: i32) -> (r:
    Result<(Vec<T>, usize), ReadCompactStringError<RequestError>>)
    requires
        pos <= input@.len(),
    ensures
        match r {
            Ok((v, end)) => spec_parse_compact_array_err(input@, pos as int, parse_err_fn::<
                T,
            >(cid)) == Some(Ok::<_, RequestErrorV>((v.deep_view(), end as int))) && pos <= end
                <= input@.len(),
            Err(ReadCompactStringError::LengthError) => spec_parse_compact_array_err(
                input@,
                pos as int,
                parse_err_fn::<T>(cid),
            ) is None,
            Err(ReadCompactStringError::InnerError(e)) => spec_parse_compact_array_err(
                input@,
                pos as int,
                parse_err_fn::<T>(cid),
            ) == Some(Err::<(Seq<T::V>, int), _>(e@)),
        },
{
    match decode_compact_count(input, pos) {
        Some((n, p)) => match decode_elems_err::<T>(input, p, n, cid) {
            Ok(x) => Ok(x),
            Err(e) => Err(ReadCompactStringError::InnerError(e)),
        },
        None => Err(ReadCompactStringError::LengthError),
    }
}

} // verus!
