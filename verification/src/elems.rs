//! Lists of consecutively encoded wire elements. Every structure that is
//! parsed or written as part of a counted list — tagged fields, record
//! headers, records, replica ids, topic entries — implements the traits
//! here, and the generic list decoder, encoder and round-trip lemma then
//! apply to it.
use vstd::prelude::*;

use crate::primitives::{lemma_parse_compact_count_of_enc, lemma_subrange_split,
    spec_enc_compact_count, spec_parse_compact_count};

verus! {

broadcast use vstd::seq_lib::group_seq_lib_default;

/// A type that can be decoded from the wire, with a specification-level
/// parse over its mathematical view.
pub trait WireDecode: Sized + DeepView {
    /// Parse one element at `pos`, yielding its model and the position just
    /// past it.
    spec fn sp_parse(s: Seq<u8>, pos: int) -> Option<(Self::V, int)>;

    /// A parsed element always consumes at least one byte and stays inside
    /// the input.
    proof fn lemma_parse_bounds(s: Seq<u8>, pos: int)
        requires
            Self::sp_parse(s, pos) is Some,
        ensures
            pos < Self::sp_parse(s, pos)->Some_0.1 <= s.len(),
    ;

    /// Decode one element, exactly as `sp_parse` does.
    fn wire_decode(input: &[u8], pos: usize) -> (r: Option<(Self, usize)>)
        requires
            pos <= input@.len(),
        ensures
            match r {
                Some((v, end)) => Self::sp_parse(input@, pos as int) == Some(
                    (v.deep_view(), end as int),
                ) && pos <= end <= input@.len(),
                None => Self::sp_parse(input@, pos as int) is None,
            },
    ;
}

/// A type that can be encoded to the wire, with a specification-level
/// encoding of its mathematical view.
pub trait WireEncode: Sized + DeepView {
    /// The values whose encoding is defined; typically size bounds that the
    /// machine forces.
    spec fn sp_wf(m: Self::V) -> bool;

    /// The encoding of a model value.
    spec fn sp_enc(m: Self::V) -> Seq<u8>;

    /// Append the encoding of `self` to `out`, exactly when the value is
    /// well-formed. On failure `out` may hold a partial prefix; callers
    /// build into a scratch buffer they can discard.
    fn wire_encode(&self, out: &mut Vec<u8>) -> (r: bool)
        ensures
            r == Self::sp_wf(self.deep_view()),
            r ==> final(out)@ == old(out)@ + Self::sp_enc(self.deep_view()),
    ;
}

/// A type whose decoder inverts its encoder: wherever the encoding of a
/// well-formed model value sits in a byte sequence, parsing at its start
/// yields exactly that value.
pub trait WireRoundTrip: WireDecode + WireEncode {
    proof fn lemma_parse_of_enc(s: Seq<u8>, pos: int, m: Self::V)
        requires
            Self::sp_wf(m),
            0 <= pos,
            pos + Self::sp_enc(m).len() <= s.len(),
            s.subrange(pos, pos + Self::sp_enc(m).len() as int) == Self::sp_enc(m),
        ensures
            Self::sp_parse(s, pos) == Some((m, pos + Self::sp_enc(m).len())),
    ;
}

/// The element parser of `T`, as a first-class spec function.
pub open spec fn parse_fn<T: WireDecode>() -> spec_fn(Seq<u8>, int) -> Option<(T::V, int)> {
    |s: Seq<u8>, pos: int| T::sp_parse(s, pos)
}

/// The element encoder of `T`, as a first-class spec function.
pub open spec fn enc_fn<T: WireEncode>() -> spec_fn(T::V) -> Seq<u8> {
    |m: T::V| T::sp_enc(m)
}

/// Concatenated encodings of the elements of a list.
pub open spec fn spec_enc_elems<TV>(l: Seq<TV>, enc: spec_fn(TV) -> Seq<u8>) -> Seq<u8>
    decreases l.len(),
{
    if l.len() == 0 {
        Seq::empty()
    } else {
        enc(l[0]) + spec_enc_elems(l.drop_first(), enc)
    }
}

/// Parse exactly `n` consecutive elements starting at `pos`.
pub open spec fn spec_parse_elems<TV>(
    s: Seq<u8>,
    pos: int,
    n: nat,
    parse: spec_fn(Seq<u8>, int) -> Option<(TV, int)>,
) -> Option<(Seq<TV>, int)>
    decreases n,
{
    if n == 0 {
        Some((Seq::empty(), pos))
    } else {
        match parse(s, pos) {
            Some((v, p)) => match spec_parse_elems(s, p, (n - 1) as nat, parse) {
                Some((l, end)) => Some((seq![v] + l, end)),
                None => None,
            },
            None => None,
        }
    }
}

/// A parsed element list never reads past the input.
pub proof fn lemma_parse_elems_bounds<T: WireDecode>(s: Seq<u8>, pos: int, n: nat)
    requires
        pos <= s.len(),
        spec_parse_elems(s, pos, n, parse_fn::<T>()) is Some,
    ensures
        pos <= spec_parse_elems(s, pos, n, parse_fn::<T>())->Some_0.1 <= s.len(),
    decreases n,
{
    if n > 0 {
        assert(parse_fn::<T>()(s, pos) == T::sp_parse(s, pos));
        let (v, p) = T::sp_parse(s, pos)->Some_0;
        T::lemma_parse_bounds(s, pos);
        lemma_parse_elems_bounds::<T>(s, p, (n - 1) as nat);
    }
}

/// A list of well-formed elements round-trips: parsing its concatenated
/// encoding with its own length yields exactly the list.
pub proof fn lemma_parse_elems_of_enc<T: WireRoundTrip>(s: Seq<u8>, pos: int, l: Seq<T::V>)
    requires
        0 <= pos,
        forall|i: int| 0 <= i < l.len() ==> T::sp_wf(#[trigger] l[i]),
        pos + spec_enc_elems(l, enc_fn::<T>()).len() <= s.len(),
        s.subrange(pos, pos + spec_enc_elems(l, enc_fn::<T>()).len() as int) =~= spec_enc_elems(
            l,
            enc_fn::<T>(),
        ),
    ensures
        spec_parse_elems(s, pos, l.len(), parse_fn::<T>()) == Some(
            (l, pos + spec_enc_elems(l, enc_fn::<T>()).len()),
        ),
    decreases l.len(),
{
    if l.len() > 0 {
        let e0 = T::sp_enc(l[0]);
        let rest = l.drop_first();
        let erest = spec_enc_elems(rest, enc_fn::<T>());
        lemma_subrange_split(s, pos, e0, erest);
        T::lemma_parse_of_enc(s, pos, l[0]);
        assert(forall|i: int| 0 <= i < rest.len() ==> T::sp_wf(#[trigger] rest[i]));
        lemma_parse_elems_of_enc::<T>(s, pos + e0.len(), rest);
        assert(seq![l[0]] + rest =~= l);
    }
}

/// Decode exactly `n` consecutive elements, exactly as the
/// specification-level parse does.
#[verifier::loop_isolation(false)]
pub fn decode_elems<T: WireDecode>(input: &[u8], pos: usize, n: u64) -> (r: Option<
    (Vec<T>, usize),
>)
    requires
        pos <= input@.len(),
    ensures
        match r {
            Some((v, end)) => spec_parse_elems(input@, pos as int, n as nat, parse_fn::<T>())
                == Some((v.deep_view(), end as int)) && pos <= end <= input@.len(),
            None => spec_parse_elems(input@, pos as int, n as nat, parse_fn::<T>()) is None,
        },
{
    let ghost total = spec_parse_elems(input@, pos as int, n as nat, parse_fn::<T>());
    let mut acc: Vec<T> = Vec::new();
    let mut p: usize = pos;
    let mut i: u64 = 0;
    assert(acc.deep_view() =~= Seq::<T::V>::empty());
    while i < n
        invariant
            i <= n,
            pos <= p <= input@.len(),
            acc.deep_view().len() == i,
            total == match spec_parse_elems(input@, p as int, (n - i) as nat, parse_fn::<T>()) {
                Some((l2, end)) => Some((acc.deep_view() + l2, end)),
                None => None::<(Seq<T::V>, int)>,
            },
        decreases n - i,
    {
        let ghost acc0 = acc.deep_view();
        match T::wire_decode(input, p) {
            Some((v, p2)) => {
                proof {
                    let sub = spec_parse_elems(
                        input@,
                        p2 as int,
                        (n - i - 1) as nat,
                        parse_fn::<T>(),
                    );
                    if sub is Some {
                        let (l3, end) = sub->Some_0;
                        assert(acc0 + (seq![v.deep_view()] + l3) =~= (acc0 + seq![v.deep_view()])
                            + l3);
                    }
                }
                acc.push(v);
                proof {
                    assert(acc.deep_view() =~= acc0 + seq![v.deep_view()]);
                }
                p = p2;
                i = i + 1;
            },
            None => {
                proof {
                    assert((n - i) as nat > 0);
                    assert(parse_fn::<T>()(input@, p as int) == T::sp_parse(input@, p as int));
                    assert(spec_parse_elems(
                        input@,
                        p as int,
                        (n - i) as nat,
                        parse_fn::<T>(),
                    ) is None);
                    assert(total is None);
                }
                return None;
            },
        }
    }
    assert(acc.deep_view() + Seq::<T::V>::empty() =~= acc.deep_view());
    Some((acc, p))
}

/// Append the encodings of all elements of `l` to `out`, exactly when every
/// element is well-formed.
#[verifier::loop_isolation(false)]
pub fn encode_elems<T: WireEncode>(out: &mut Vec<u8>, l: &Vec<T>) -> (r: bool)
    ensures
        r == (forall|i: int| 0 <= i < l.deep_view().len() ==> T::sp_wf(#[trigger] l.deep_view()[i])),
        r ==> final(out)@ == old(out)@ + spec_enc_elems(l.deep_view(), enc_fn::<T>()),
{
    let ghost dv = l.deep_view();
    let mut i: usize = 0;
    assert(dv.skip(0) =~= dv);
    while i < l.len()
        invariant
            i <= l.len(),
            dv == l.deep_view(),
            dv.len() == l@.len(),
            forall|j: int| 0 <= j < i ==> T::sp_wf(#[trigger] dv[j]),
            out@ + spec_enc_elems(dv.skip(i as int), enc_fn::<T>()) == old(out)@ + spec_enc_elems(
                dv,
                enc_fn::<T>(),
            ),
        decreases l.len() - i,
    {
        let ghost tail = dv.skip(i as int);
        proof {
            assert(tail[0] == dv[i as int]);
            assert(tail.drop_first() =~= dv.skip(i as int + 1));
            assert(l@[i as int].deep_view() == dv[i as int]);
        }
        let ok = l[i].wire_encode(out);
        if !ok {
            return false;
        }
        i = i + 1;
    }
    proof {
        assert(dv.skip(l@.len() as int) =~= Seq::<T::V>::empty());
        assert(out@ + Seq::<u8>::empty() =~= out@);
    }
    true
}

/// Compact-array encoding of a list: the count prefix (`0` for empty,
/// `count + 1` otherwise) followed by the element encodings.
pub open spec fn spec_enc_compact_array<TV>(l: Seq<TV>, enc: spec_fn(TV) -> Seq<u8>) -> Seq<u8> {
    spec_enc_compact_count(l.len()) + spec_enc_elems(l, enc)
}

/// Parse a compact array: the count prefix, then that many elements.
pub open spec fn spec_parse_compact_array<TV>(
    s: Seq<u8>,
    pos: int,
    parse: spec_fn(Seq<u8>, int) -> Option<(TV, int)>,
) -> Option<(Seq<TV>, int)> {
    match spec_parse_compact_count(s, pos) {
        Some((n, p)) => spec_parse_elems(s, p, n, parse),
        None => None,
    }
}

/// A compact array of well-formed elements round-trips.
pub proof fn lemma_parse_compact_array_of_enc<T: WireRoundTrip>(s: Seq<u8>, pos: int, l: Seq<T::V>)
    requires
        0 <= pos,
        l.len() + 1 <= u64::MAX,
        forall|i: int| 0 <= i < l.len() ==> T::sp_wf(#[trigger] l[i]),
        pos + spec_enc_compact_array(l, enc_fn::<T>()).len() <= s.len(),
        s.subrange(pos, pos + spec_enc_compact_array(l, enc_fn::<T>()).len() as int)
            =~= spec_enc_compact_array(l, enc_fn::<T>()),
    ensures
        spec_parse_compact_array(s, pos, parse_fn::<T>()) == Some(
            (l, pos + spec_enc_compact_array(l, enc_fn::<T>()).len()),
        ),
{
    let c = spec_enc_compact_count(l.len());
    let e = spec_enc_elems(l, enc_fn::<T>());
    lemma_subrange_split(s, pos, c, e);
    lemma_parse_compact_count_of_enc(s, pos, l.len());
    lemma_parse_elems_of_enc::<T>(s, pos + c.len(), l);
}

/// Decode a compact array: the count prefix, then that many elements,
/// exactly as the specification-level parse does.
pub fn parse_compact_array<T: WireDecode>(input: &[u8], pos: usize) -> (r: Option<
    (Vec<T>, usize),
>)
    requires
        pos <= input@.len(),
    ensures
        match r {
            Some((v, end)) => spec_parse_compact_array(input@, pos as int, parse_fn::<T>())
                == Some((v.deep_view(), end as int)) && pos < end <= input@.len(),
            None => spec_parse_compact_array(input@, pos as int, parse_fn::<T>()) is None,
        },
{
    match crate::primitives::decode_compact_count(input, pos) {
        Some((n, p)) => match decode_elems::<T>(input, p, n) {
            Some((v, end)) => Some((v, end)),
            None => None,
        },
        None => None,
    }
}

/// Append the compact-array encoding of `l` to `out`, exactly when the
/// count fits the count varint and every element is well-formed.
pub fn write_compact_array<T: WireEncode>(out: &mut Vec<u8>, l: &Vec<T>) -> (r: bool)
    ensures
        r == (l.deep_view().len() + 1 <= u64::MAX && forall|i: int|
            0 <= i < l.deep_view().len() ==> T::sp_wf(#[trigger] l.deep_view()[i])),
        r ==> final(out)@ == old(out)@ + spec_enc_compact_array(l.deep_view(), enc_fn::<T>()),
{
    assert(l.deep_view().len() == l@.len());
    if l.len() == 0 {
        crate::varint::encode_uvarint(out, 0);
    } else {
        if (l.len() as u64) == u64::MAX {
            return false;
        }
        crate::varint::encode_uvarint(out, (l.len() as u64) + 1);
    }
    let ok = encode_elems::<T>(out, l);
    if !ok {
        return false;
    }
    assert(out@ =~= old(out)@ + spec_enc_compact_array(l.deep_view(), enc_fn::<T>()));
    true
}

/// Broker and replica ids travel as big-endian 32-bit integers inside
/// compact arrays.
impl WireDecode for i32 {
    open spec fn sp_parse(s: Seq<u8>, pos: int) -> Option<(i32, int)> {
        crate::be::spec_parse_i32(s, pos)
    }

    proof fn lemma_parse_bounds(s: Seq<u8>, pos: int) {
    }

    fn wire_decode(input: &[u8], pos: usize) -> (r: Option<(Self, usize)>) {
        crate::be::decode_i32(input, pos)
    }
}

impl WireEncode for i32 {
    open spec fn sp_wf(m: i32) -> bool {
        true
    }

    open spec fn sp_enc(m: i32) -> Seq<u8> {
        crate::be::spec_enc_i32(m)
    }

    fn wire_encode(&self, out: &mut Vec<u8>) -> (r: bool) {
        crate::be::encode_i32(out, *self);
        true
    }
}

impl WireRoundTrip for i32 {
    proof fn lemma_parse_of_enc(s: Seq<u8>, pos: int, m: i32) {
        crate::be::lemma_parse_i32_of_enc(s, pos, m);
    }
}

/// A 16-byte identifier (a topic or directory UUID), carried as raw bytes
/// with no length prefix.
impl WireDecode for Vec<u8> {
    open spec fn sp_parse(s: Seq<u8>, pos: int) -> Option<(Seq<u8>, int)> {
        crate::primitives::spec_parse_uuid(s, pos)
    }

    proof fn lemma_parse_bounds(s: Seq<u8>, pos: int) {
    }

    fn wire_decode(input: &[u8], pos: usize) -> (r: Option<(Self, usize)>) {
        crate::primitives::decode_uuid(input, pos)
    }
}

impl WireEncode for Vec<u8> {
    open spec fn sp_wf(m: Seq<u8>) -> bool {
        m.len() == 16
    }

    open spec fn sp_enc(m: Seq<u8>) -> Seq<u8> {
        m
    }

    fn wire_encode(&self, out: &mut Vec<u8>) -> (r: bool) {
        if self.len() != 16 {
            return false;
        }
        crate::primitives::extend_bytes(out, self.as_slice());
        true
    }
}

impl WireRoundTrip for Vec<u8> {
    proof fn lemma_parse_of_enc(s: Seq<u8>, pos: int, m: Seq<u8>) {
    }
}

} // verus!
