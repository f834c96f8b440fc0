use vstd::prelude::*;
use vstd::utf8::{encode_utf8, encode_utf8_decode_utf8};
use crate::request::{PitchLakeJobRequest, PitchLakeJobRequestParams, identifiers_view};

verus! {

/// Byte that opens one escaped byte of an identifier.
pub const BYTE_MARK: u8 = 1;

/// Byte that closes one identifier.
pub const TEXT_END: u8 = 0;

/// Byte that closes the list of identifiers.
pub const LIST_END: u8 = 2;

/// Every byte of `b`, each preceded by `BYTE_MARK`.
pub open spec fn escaped(b: Seq<u8>) -> Seq<u8>
    decreases b.len(),
{
    if b.len() == 0 {
        Seq::empty()
    } else {
        seq![BYTE_MARK, b[0]] + escaped(b.drop_first())
    }
}

/// One identifier: its UTF-8 bytes escaped, then `TEXT_END`.
pub open spec fn text_code(s: Seq<char>) -> Seq<u8> {
    escaped(encode_utf8(s)) + seq![TEXT_END]
}

/// The identifiers one after the other, in their order.
pub open spec fn list_code(ids: Seq<Seq<char>>) -> Seq<u8>
    decreases ids.len(),
{
    if ids.len() == 0 {
        Seq::empty()
    } else {
        text_code(ids[0]) + list_code(ids.drop_first())
    }
}

/// A bound as the eight bytes of its two's complement, most significant first.
pub open spec fn bound_code(x: i64) -> Seq<u8> {
    let u = x as u64;
    seq![
        (u >> 56u64) as u8,
        (u >> 48u64) as u8,
        (u >> 40u64) as u8,
        (u >> 32u64) as u8,
        (u >> 24u64) as u8,
        (u >> 16u64) as u8,
        (u >> 8u64) as u8,
        u as u8,
    ]
}

/// The six bounds: twap, volatility, reserve price, each lower then upper.
pub open spec fn params_code(p: PitchLakeJobRequestParams) -> Seq<u8> {
    bound_code(p.twap.0) + bound_code(p.twap.1) + bound_code(p.volatility.0) + bound_code(
        p.volatility.1,
    ) + bound_code(p.reserve_price.0) + bound_code(p.reserve_price.1)
}

/// The canonical bytes of what a job's identity depends on.
pub open spec fn canonical_name(ids: Seq<Seq<char>>, p: PitchLakeJobRequestParams) -> Seq<u8> {
    list_code(ids) + seq![LIST_END] + params_code(p)
}

/// The text of the name-based (version 5) UUID of `name`.
pub uninterp spec fn uuid_v5_text(name: Seq<u8>) -> Seq<char>;

/// The identity of a job with these identifiers and ranges.
pub open spec fn fingerprint_of(ids: Seq<Seq<char>>, p: PitchLakeJobRequestParams) -> Seq<char> {
    uuid_v5_text(canonical_name(ids, p))
}

/// Relies on uuid's `Uuid::new_v5` (SHA-1 of a namespace and `name`), which
/// depends on its arguments alone, and on its `Display`, which writes the
/// hyphenated form of 36 characters.
#[verifier::external_body]
fn uuid_v5_string(name: &Vec<u8>) -> (r: String)
    ensures
        r@ == uuid_v5_text(name@),
        r@.len() == 36,
{
    uuid::Uuid::new_v5(&uuid::Uuid::NAMESPACE_OID, name.as_slice()).to_string()
}

/// Relies on uuid's `Uuid::new_v4`, a random UUID, and on its `Display`, which
/// writes the hyphenated form of 36 characters.
#[verifier::external_body]
fn uuid_v4_string() -> (r: String)
    ensures
        r@.len() == 36,
{
    uuid::Uuid::new_v4().to_string()
}

proof fn lemma_escaped_push(b: Seq<u8>, x: u8)
    ensures
        escaped(b.push(x)) == escaped(b) + seq![BYTE_MARK, x],
    decreases b.len(),
{
    if b.len() == 0 {
        assert(b.push(x).drop_first() =~= b);
        assert(escaped(b.push(x)) =~= escaped(b) + seq![BYTE_MARK, x]);
    } else {
        assert(b.push(x).drop_first() =~= b.drop_first().push(x));
        lemma_escaped_push(b.drop_first(), x);
        assert(escaped(b.push(x)) =~= escaped(b) + seq![BYTE_MARK, x]);
    }
}

proof fn lemma_list_code_push(ids: Seq<Seq<char>>, s: Seq<char>)
    ensures
        list_code(ids.push(s)) == list_code(ids) + text_code(s),
    decreases ids.len(),
{
    if ids.len() == 0 {
        assert(ids.push(s).drop_first() =~= ids);
        assert(list_code(ids.push(s)) =~= list_code(ids) + text_code(s));
    } else {
        assert(ids.push(s).drop_first() =~= ids.drop_first().push(s));
        lemma_list_code_push(ids.drop_first(), s);
        assert(list_code(ids.push(s)) =~= list_code(ids) + text_code(s));
    }
}

proof fn lemma_text_code_unique(a: Seq<u8>, b: Seq<u8>, ra: Seq<u8>, rb: Seq<u8>)
    requires
        escaped(a) + seq![TEXT_END] + ra == escaped(b) + seq![TEXT_END] + rb,
    ensures
        a == b,
        ra == rb,
    decreases a.len(),
{
    let x = escaped(a) + seq![TEXT_END] + ra;
    let y = escaped(b) + seq![TEXT_END] + rb;
    if a.len() == 0 {
        assert(x[0] == TEXT_END);
        if b.len() > 0 {
            assert(y[0] == BYTE_MARK);
        }
        assert(b =~= a);
        assert(ra =~= x.drop_first());
        assert(rb =~= y.drop_first());
    } else {
        if b.len() == 0 {
            assert(x[0] == BYTE_MARK);
            assert(y[0] == TEXT_END);
        }
        assert(x[1] == a[0]);
        assert(y[1] == b[0]);
        assert(x.subrange(2, x.len() as int) =~= escaped(a.drop_first()) + seq![TEXT_END] + ra);
        assert(y.subrange(2, y.len() as int) =~= escaped(b.drop_first()) + seq![TEXT_END] + rb);
        lemma_text_code_unique(a.drop_first(), b.drop_first(), ra, rb);
        assert(a =~= seq![a[0]] + a.drop_first());
        assert(b =~= seq![b[0]] + b.drop_first());
    }
}

proof fn lemma_list_code_unique(s: Seq<Seq<char>>, t: Seq<Seq<char>>, ra: Seq<u8>, rb: Seq<u8>)
    requires
        list_code(s) + seq![LIST_END] + ra == list_code(t) + seq![LIST_END] + rb,
    ensures
        s == t,
        ra == rb,
    decreases s.len(),
{
    let x = list_code(s) + seq![LIST_END] + ra;
    let y = list_code(t) + seq![LIST_END] + rb;
    if s.len() == 0 {
        assert(x[0] == LIST_END);
        if t.len() > 0 {
            let e = encode_utf8(t[0]);
            if e.len() == 0 {
                assert(y[0] == TEXT_END);
            } else {
                assert(y[0] == BYTE_MARK);
            }
        }
        assert(t =~= s);
        assert(ra =~= x.drop_first());
        assert(rb =~= y.drop_first());
    } else {
        if t.len() == 0 {
            let e = encode_utf8(s[0]);
            if e.len() == 0 {
                assert(x[0] == TEXT_END);
            } else {
                assert(x[0] == BYTE_MARK);
            }
            assert(y[0] == LIST_END);
        }
        let xa = list_code(s.drop_first()) + seq![LIST_END] + ra;
        let yb = list_code(t.drop_first()) + seq![LIST_END] + rb;
        assert(x =~= escaped(encode_utf8(s[0])) + seq![TEXT_END] + xa);
        assert(y =~= escaped(encode_utf8(t[0])) + seq![TEXT_END] + yb);
        lemma_text_code_unique(encode_utf8(s[0]), encode_utf8(t[0]), xa, yb);
        encode_utf8_decode_utf8(s[0]);
        encode_utf8_decode_utf8(t[0]);
        lemma_list_code_unique(s.drop_first(), t.drop_first(), ra, rb);
        assert(s =~= seq![s[0]] + s.drop_first());
        assert(t =~= seq![t[0]] + t.drop_first());
    }
}

proof fn lemma_bound_code_unique(a: i64, b: i64)
    requires
        bound_code(a) == bound_code(b),
    ensures
        a == b,
{
    let x = a as u64;
    let y = b as u64;
    assert(bound_code(a)[0] == bound_code(b)[0]);
    assert(bound_code(a)[1] == bound_code(b)[1]);
    assert(bound_code(a)[2] == bound_code(b)[2]);
    assert(bound_code(a)[3] == bound_code(b)[3]);
    assert(bound_code(a)[4] == bound_code(b)[4]);
    assert(bound_code(a)[5] == bound_code(b)[5]);
    assert(bound_code(a)[6] == bound_code(b)[6]);
    assert(bound_code(a)[7] == bound_code(b)[7]);
    assert(((x >> 56u64) as u8 == (y >> 56u64) as u8 && (x >> 48u64) as u8 == (y >> 48u64) as u8
        && (x >> 40u64) as u8 == (y >> 40u64) as u8 && (x >> 32u64) as u8 == (y >> 32u64) as u8
        && (x >> 24u64) as u8 == (y >> 24u64) as u8 && (x >> 16u64) as u8 == (y >> 16u64) as u8
        && (x >> 8u64) as u8 == (y >> 8u64) as u8 && x as u8 == y as u8) ==> x == y)
        by (bit_vector);
    assert(a as u64 == b as u64 ==> a == b) by (bit_vector);
}

/// The canonical bytes tell requests apart: two lists of identifiers, or two
/// sets of ranges, that differ in anything (an identifier, their order, their
/// number, a bound) give different bytes, and so different names for the
/// identity's hash.
pub proof fn lemma_canonical_name_unique(
    s: Seq<Seq<char>>,
    p: PitchLakeJobRequestParams,
    t: Seq<Seq<char>>,
    q: PitchLakeJobRequestParams,
)
    requires
        canonical_name(s, p) == canonical_name(t, q),
    ensures
        s == t,
        p == q,
{
    lemma_list_code_unique(s, t, params_code(p), params_code(q));
    let a = params_code(p);
    let b = params_code(q);
    assert(a.subrange(0, 8) =~= bound_code(p.twap.0));
    assert(b.subrange(0, 8) =~= bound_code(q.twap.0));
    assert(a.subrange(8, 16) =~= bound_code(p.twap.1));
    assert(b.subrange(8, 16) =~= bound_code(q.twap.1));
    assert(a.subrange(16, 24) =~= bound_code(p.volatility.0));
    assert(b.subrange(16, 24) =~= bound_code(q.volatility.0));
    assert(a.subrange(24, 32) =~= bound_code(p.volatility.1));
    assert(b.subrange(24, 32) =~= bound_code(q.volatility.1));
    assert(a.subrange(32, 40) =~= bound_code(p.reserve_price.0));
    assert(b.subrange(32, 40) =~= bound_code(q.reserve_price.0));
    assert(a.subrange(40, 48) =~= bound_code(p.reserve_price.1));
    assert(b.subrange(40, 48) =~= bound_code(q.reserve_price.1));
    lemma_bound_code_unique(p.twap.0, q.twap.0);
    lemma_bound_code_unique(p.twap.1, q.twap.1);
    lemma_bound_code_unique(p.volatility.0, q.volatility.0);
    lemma_bound_code_unique(p.volatility.1, q.volatility.1);
    lemma_bound_code_unique(p.reserve_price.0, q.reserve_price.0);
    lemma_bound_code_unique(p.reserve_price.1, q.reserve_price.1);
}

/// A job's identity depends on the identifiers and ranges of its request
/// alone: two requests that agree on them get the same identity, whatever
/// their client context, on every call.
pub proof fn lemma_fingerprint_deterministic(r1: PitchLakeJobRequest, r2: PitchLakeJobRequest)
    requires
        r1.identifiers_spec() == r2.identifiers_spec(),
        r1.params == r2.params,
    ensures
        fingerprint_of(r1.identifiers_spec(), r1.params) == fingerprint_of(
            r2.identifiers_spec(),
            r2.params,
        ),
{
}

/// Appends the code of one identifier.
fn push_text_code(out: &mut Vec<u8>, s: &String)
    ensures
        final(out)@ == old(out)@ + text_code(s@),
{
    let ghost start = out@;
    let bytes = s.as_str().as_bytes();
    let mut i: usize = 0;
    while i < bytes.len()
        invariant
            0 <= i <= bytes@.len(),
            bytes@ == encode_utf8(s@),
            out@ == start + escaped(bytes@.take(i as int)),
        decreases bytes@.len() - i,
    {
        proof {
            lemma_escaped_push(bytes@.take(i as int), bytes@[i as int]);
            assert(bytes@.take(i + 1) =~= bytes@.take(i as int).push(bytes@[i as int]));
        }
        out.push(BYTE_MARK);
        out.push(bytes[i]);
        i = i + 1;
        assert(out@ =~= start + escaped(bytes@.take(i as int)));
    }
    out.push(TEXT_END);
    assert(bytes@.take(i as int) =~= bytes@);
    assert(out@ =~= start + text_code(s@));
}

/// Appends the code of one bound.
fn push_bound_code(out: &mut Vec<u8>, x: i64)
    ensures
        final(out)@ == old(out)@ + bound_code(x),
{
    let ghost start = out@;
    let u = x as u64;
    out.push((u >> 56u64) as u8);
    out.push((u >> 48u64) as u8);
    out.push((u >> 40u64) as u8);
    out.push((u >> 32u64) as u8);
    out.push((u >> 24u64) as u8);
    out.push((u >> 16u64) as u8);
    out.push((u >> 8u64) as u8);
    out.push(u as u8);
    assert(out@ =~= start + bound_code(x));
}

/// The canonical bytes of a request's identifiers and ranges.
pub fn canonical_bytes(identifiers: &Vec<String>, params: &PitchLakeJobRequestParams) -> (r: Vec<
    u8,
>)
    ensures
        r@ == canonical_name(identifiers_view(identifiers), *params),
{
    let ghost ids = identifiers_view(identifiers);
    let mut out: Vec<u8> = Vec::new();
    let mut i: usize = 0;
    while i < identifiers.len()
        invariant
            0 <= i <= identifiers@.len(),
            ids == identifiers_view(identifiers),
            out@ == list_code(ids.take(i as int)),
        decreases identifiers@.len() - i,
    {
        proof {
            lemma_list_code_push(ids.take(i as int), ids[i as int]);
            assert(ids.take(i + 1) =~= ids.take(i as int).push(ids[i as int]));
        }
        push_text_code(&mut out, &identifiers[i]);
        i = i + 1;
    }
    assert(ids.take(i as int) =~= ids);
    out.push(LIST_END);
    push_bound_code(&mut out, params.twap.0);
    push_bound_code(&mut out, params.twap.1);
    push_bound_code(&mut out, params.volatility.0);
    push_bound_code(&mut out, params.volatility.1);
    push_bound_code(&mut out, params.reserve_price.0);
    push_bound_code(&mut out, params.reserve_price.1);
    assert(out@ =~= canonical_name(ids, *params));
    out
}

/// The content-addressed identity of a job: the name-based UUID of the
/// canonical bytes of its identifiers and ranges.
pub fn generate_job_id(identifiers: &Vec<String>, params: &PitchLakeJobRequestParams) -> (r:
    String)
    ensures
        r@ == fingerprint_of(identifiers_view(identifiers), *params),
        r@.len() == 36,
{
    let name = canonical_bytes(identifiers, params);
    uuid_v5_string(&name)
}

/// A fresh random identity, for callers that want every request treated as new.
pub fn generate_random_job_id() -> (r: String)
    ensures
        r@.len() == 36,
{
    uuid_v4_string()
}

} // verus!
