//! Deterministic, order-preserving encoding of an ordered sequence of
//! key/value string pairs into one opaque byte span. The ledger compares
//! composite arguments only as encoded bytes, so two pair sequences are
//! equal to it exactly when their encodings are byte-for-byte equal; pair
//! order therefore matters for a match.

use vstd::prelude::*;
use vstd::string::StrSliceExecFns;
use vstd::string::StringSliceAdditionalSpecFns;

verus! {

/// Little-endian eight-byte image of a length.
pub open spec fn enc_u64(n: u64) -> Seq<u8> {
    seq![
        (n & 0xff) as u8,
        ((n >> 8) & 0xff) as u8,
        ((n >> 16) & 0xff) as u8,
        ((n >> 24) & 0xff) as u8,
        ((n >> 32) & 0xff) as u8,
        ((n >> 40) & 0xff) as u8,
        ((n >> 48) & 0xff) as u8,
        ((n >> 56) & 0xff) as u8,
    ]
}

/// One field of a pair: its byte length, then its bytes.
pub open spec fn enc_field(bs: Seq<u8>) -> Seq<u8> {
    enc_u64(bs.len() as u64) + bs
}

/// The pairs' fields in sequence order, each length-prefixed.
pub open spec fn enc_body(ps: Seq<(Seq<u8>, Seq<u8>)>) -> Seq<u8>
    decreases ps.len(),
{
    if ps.len() == 0 {
        Seq::empty()
    } else {
        enc_field(ps[0].0) + enc_field(ps[0].1) + enc_body(ps.drop_first())
    }
}

/// The encoding of an ordered pair sequence: the number of pairs, then
/// each pair's key and value in sequence order, each length-prefixed.
pub open spec fn encode_pairs(ps: Seq<(Seq<u8>, Seq<u8>)>) -> Seq<u8> {
    enc_u64(ps.len() as u64) + enc_body(ps)
}

/// The byte images of a sequence of borrowed string pairs.
pub open spec fn pairs_view(ps: Seq<(&str, &str)>) -> Seq<(Seq<u8>, Seq<u8>)> {
    ps.map_values(|p: (&str, &str)| (p.0.spec_bytes(), p.1.spec_bytes()))
}

/// Appending a pair at the back extends the body encoding at the back.
pub proof fn lemma_enc_body_snoc(ps: Seq<(Seq<u8>, Seq<u8>)>, p: (Seq<u8>, Seq<u8>))
    ensures
        enc_body(ps.push(p)) == enc_body(ps) + enc_field(p.0) + enc_field(p.1),
    decreases ps.len(),
{
    if ps.len() == 0 {
        assert(ps.push(p).drop_first() =~= Seq::<(Seq<u8>, Seq<u8>)>::empty());
        assert(enc_body(Seq::<(Seq<u8>, Seq<u8>)>::empty()) == Seq::<u8>::empty());
        assert(ps.push(p)[0] == p);
        assert(enc_body(ps.push(p)) == enc_field(p.0) + enc_field(p.1) + Seq::<u8>::empty());
        assert(enc_body(ps.push(p)) =~= enc_body(ps) + enc_field(p.0) + enc_field(p.1));
    } else {
        assert(ps.push(p).drop_first() =~= ps.drop_first().push(p));
        lemma_enc_body_snoc(ps.drop_first(), p);
        assert(enc_body(ps.push(p)) =~= enc_body(ps) + enc_field(p.0) + enc_field(p.1));
    }
}

fn push_u64(out: &mut Vec<u8>, n: u64)
    ensures
        final(out)@ == old(out)@ + enc_u64(n),
{
    out.push((n & 0xff) as u8);
    out.push(((n >> 8) & 0xff) as u8);
    out.push(((n >> 16) & 0xff) as u8);
    out.push(((n >> 24) & 0xff) as u8);
    out.push(((n >> 32) & 0xff) as u8);
    out.push(((n >> 40) & 0xff) as u8);
    out.push(((n >> 48) & 0xff) as u8);
    out.push(((n >> 56) & 0xff) as u8);
    proof {
        assert(out@ =~= old(out)@ + enc_u64(n));
    }
}

fn push_field(out: &mut Vec<u8>, s: &str)
    ensures
        final(out)@ == old(out)@ + enc_field(s.spec_bytes()),
{
    let bytes: Vec<u8> = s.as_bytes_vec();
    push_u64(out, bytes.len() as u64);
    let mut i: usize = 0;
    while i < bytes.len()
        invariant
            i <= bytes@.len(),
            bytes@ == s.spec_bytes(),
            out@ == old(out)@ + enc_u64(s.spec_bytes().len() as u64) + bytes@.take(i as int),
        decreases bytes@.len() - i,
    {
        out.push(bytes[i]);
        proof {
            assert(bytes@.take(i + 1) =~= bytes@.take(i as int).push(bytes@[i as int]));
        }
        i = i + 1;
    }
    proof {
        assert(bytes@.take(i as int) =~= bytes@);
        assert(out@ =~= old(out)@ + enc_field(s.spec_bytes()));
    }
}

/// Encodes an ordered sequence of key/value pairs into one byte span.
/// The encoding is a pure function of the pair sequence, so equal
/// sequences always encode to equal bytes, and the order of the pairs is
/// kept.
pub fn serialize_map(pairs: &Vec<(&str, &str)>) -> (out: Vec<u8>)
    ensures
        out@ == encode_pairs(pairs_view(pairs@)),
{
    let mut out: Vec<u8> = Vec::new();
    push_u64(&mut out, pairs.len() as u64);
    let ghost pv = pairs_view(pairs@);
    let mut i: usize = 0;
    while i < pairs.len()
        invariant
            i <= pairs@.len(),
            pv == pairs_view(pairs@),
            pv.len() == pairs@.len(),
            out@ == enc_u64(pairs@.len() as u64) + enc_body(pv.take(i as int)),
        decreases pairs@.len() - i,
    {
        let p = pairs[i];
        push_field(&mut out, p.0);
        push_field(&mut out, p.1);
        proof {
            assert(pv.take(i + 1) =~= pv.take(i as int).push(pv[i as int]));
            lemma_enc_body_snoc(pv.take(i as int), pv[i as int]);
            assert(out@ =~= enc_u64(pairs@.len() as u64) + enc_body(pv.take(i + 1)));
        }
        i = i + 1;
    }
    proof {
        assert(pv.take(i as int) =~= pv);
    }
    out
}

} // verus!
