//! Canonical, deterministic binary encoding used for the signed payloads.
//!
//! Integers are encoded little-endian with a fixed width; byte strings carry a
//! 32-bit length prefix; records are the concatenation of their fields in
//! declaration order. The encoding is proved injective, which is what makes a
//! single hash over the encoded action cover every field of it.
use vstd::prelude::*;

verus! {

/// Little-endian bytes of a 32-bit integer.
pub open spec fn enc_u32(v: u32) -> Seq<u8> {
    seq![v as u8, (v >> 8) as u8, (v >> 16) as u8, (v >> 24) as u8]
}

/// Little-endian bytes of a 64-bit integer.
pub open spec fn enc_u64(v: u64) -> Seq<u8> {
    seq![
        v as u8,
        (v >> 8) as u8,
        (v >> 16) as u8,
        (v >> 24) as u8,
        (v >> 32) as u8,
        (v >> 40) as u8,
        (v >> 48) as u8,
        (v >> 56) as u8,
    ]
}

/// Little-endian bytes of a 128-bit integer.
pub open spec fn enc_u128(v: u128) -> Seq<u8> {
    seq![
        v as u8,
        (v >> 8) as u8,
        (v >> 16) as u8,
        (v >> 24) as u8,
        (v >> 32) as u8,
        (v >> 40) as u8,
        (v >> 48) as u8,
        (v >> 56) as u8,
        (v >> 64) as u8,
        (v >> 72) as u8,
        (v >> 80) as u8,
        (v >> 88) as u8,
        (v >> 96) as u8,
        (v >> 104) as u8,
        (v >> 112) as u8,
        (v >> 120) as u8,
    ]
}

/// A single byte: 1 for true, 0 for false.
pub open spec fn enc_bool(b: bool) -> Seq<u8> {
    if b {
        seq![1u8]
    } else {
        seq![0u8]
    }
}

/// A byte string: 32-bit length prefix followed by the bytes themselves.
pub open spec fn enc_bytes(b: Seq<u8>) -> Seq<u8> {
    enc_u32(b.len() as u32) + b
}

/// Longest byte-string length the encoding can carry.
pub open spec fn max_enc_len() -> nat {
    0xffff_ffff
}

pub fn push_u32(out: &mut Vec<u8>, v: u32)
    ensures
        final(out)@ == old(out)@ + enc_u32(v),
{
    out.push(v as u8);
    out.push((v >> 8u32) as u8);
    out.push((v >> 16u32) as u8);
    out.push((v >> 24u32) as u8);
    proof {
        assert(out@ =~= old(out)@ + enc_u32(v));
    }
}

pub fn push_u64(out: &mut Vec<u8>, v: u64)
    ensures
        final(out)@ == old(out)@ + enc_u64(v),
{
    out.push(v as u8);
    out.push((v >> 8u64) as u8);
    out.push((v >> 16u64) as u8);
    out.push((v >> 24u64) as u8);
    out.push((v >> 32u64) as u8);
    out.push((v >> 40u64) as u8);
    out.push((v >> 48u64) as u8);
    out.push((v >> 56u64) as u8);
    proof {
        assert(out@ =~= old(out)@ + enc_u64(v));
    }
}

pub fn push_u128(out: &mut Vec<u8>, v: u128)
    ensures
        final(out)@ == old(out)@ + enc_u128(v),
{
    out.push(v as u8);
    out.push((v >> 8u128) as u8);
    out.push((v >> 16u128) as u8);
    out.push((v >> 24u128) as u8);
    out.push((v >> 32u128) as u8);
    out.push((v >> 40u128) as u8);
    out.push((v >> 48u128) as u8);
    out.push((v >> 56u128) as u8);
    out.push((v >> 64u128) as u8);
    out.push((v >> 72u128) as u8);
    out.push((v >> 80u128) as u8);
    out.push((v >> 88u128) as u8);
    out.push((v >> 96u128) as u8);
    out.push((v >> 104u128) as u8);
    out.push((v >> 112u128) as u8);
    out.push((v >> 120u128) as u8);
    proof {
        assert(out@ =~= old(out)@ + enc_u128(v));
    }
}

pub fn push_bool(out: &mut Vec<u8>, b: bool)
    ensures
        final(out)@ == old(out)@ + enc_bool(b),
{
    if b {
        out.push(1u8);
    } else {
        out.push(0u8);
    }
    proof {
        assert(out@ =~= old(out)@ + enc_bool(b));
    }
}

/// Appends the raw bytes of `b` to `out`, without a length prefix.
pub fn push_raw(out: &mut Vec<u8>, b: &Vec<u8>)
    ensures
        final(out)@ == old(out)@ + b@,
{
    let mut i: usize = 0;
    while i < b.len()
        invariant
            i <= b.len(),
            out@ == old(out)@ + b@.take(i as int),
        decreases b.len() - i,
    {
        out.push(b[i]);
        i = i + 1;
        proof {
            assert(out@ =~= old(out)@ + b@.take(i as int));
        }
    }
    proof {
        assert(b@.take(b@.len() as int) =~= b@);
    }
}

/// Appends the 32 raw bytes of `a`, without a length prefix.
pub fn push_array32(out: &mut Vec<u8>, a: &[u8; 32])
    ensures
        final(out)@ == old(out)@ + a@,
{
    let mut i: usize = 0;
    while i < 32
        invariant
            i <= 32,
            out@ == old(out)@ + a@.take(i as int),
        decreases 32 - i,
    {
        out.push(a[i]);
        i = i + 1;
        proof {
            assert(out@ =~= old(out)@ + a@.take(i as int));
        }
    }
    proof {
        assert(a@.take(32) =~= a@);
    }
}

/// Appends the length-prefixed encoding of the byte string `b`.
pub fn push_bytes(out: &mut Vec<u8>, b: &Vec<u8>)
    requires
        b@.len() <= max_enc_len(),
    ensures
        final(out)@ == old(out)@ + enc_bytes(b@),
{
    push_u32(out, b.len() as u32);
    push_raw(out, b);
    proof {
        assert(out@ =~= old(out)@ + enc_bytes(b@));
    }
}

/// Splitting a concatenation at the same offset yields the same parts.
pub proof fn lemma_concat_parts(a1: Seq<u8>, b1: Seq<u8>, a2: Seq<u8>, b2: Seq<u8>)
    requires
        a1 + b1 == a2 + b2,
        a1.len() == a2.len(),
    ensures
        a1 == a2,
        b1 == b2,
{
    assert((a1 + b1).len() == a1.len() + b1.len());
    assert((a2 + b2).len() == a2.len() + b2.len());
    assert(b1.len() == b2.len());
    assert forall|i: int| 0 <= i < a1.len() implies a1[i] == a2[i] by {
        assert((a1 + b1)[i] == a1[i]);
        assert((a2 + b2)[i] == a2[i]);
    }
    assert(a1 =~= a2);
    assert forall|i: int| 0 <= i < b1.len() implies b1[i] == b2[i] by {
        assert((a1 + b1)[a1.len() + i] == b1[i]);
        assert((a2 + b2)[a2.len() + i] == b2[i]);
    }
    assert(b1 =~= b2);
}

/// The little-endian encoding of a 32-bit integer determines the integer.
pub proof fn lemma_enc_u32_injective(x: u32, y: u32)
    requires
        enc_u32(x) == enc_u32(y),
    ensures
        x == y,
{
    assert(enc_u32(x)[0] == enc_u32(y)[0]);
    assert(enc_u32(x)[1] == enc_u32(y)[1]);
    assert(enc_u32(x)[2] == enc_u32(y)[2]);
    assert(enc_u32(x)[3] == enc_u32(y)[3]);
    assert(x == y) by (bit_vector)
        requires
            x as u8 == y as u8,
            (x >> 8) as u8 == (y >> 8) as u8,
            (x >> 16) as u8 == (y >> 16) as u8,
            (x >> 24) as u8 == (y >> 24) as u8,
    ;
}

/// The little-endian encoding of a 64-bit integer determines the integer.
pub proof fn lemma_enc_u64_injective(x: u64, y: u64)
    requires
        enc_u64(x) == enc_u64(y),
    ensures
        x == y,
{
    assert(enc_u64(x)[0] == enc_u64(y)[0]);
    assert(enc_u64(x)[1] == enc_u64(y)[1]);
    assert(enc_u64(x)[2] == enc_u64(y)[2]);
    assert(enc_u64(x)[3] == enc_u64(y)[3]);
    assert(enc_u64(x)[4] == enc_u64(y)[4]);
    assert(enc_u64(x)[5] == enc_u64(y)[5]);
    assert(enc_u64(x)[6] == enc_u64(y)[6]);
    assert(enc_u64(x)[7] == enc_u64(y)[7]);
    assert(x == y) by (bit_vector)
        requires
            x as u8 == y as u8,
            (x >> 8) as u8 == (y >> 8) as u8,
            (x >> 16) as u8 == (y >> 16) as u8,
            (x >> 24) as u8 == (y >> 24) as u8,
            (x >> 32) as u8 == (y >> 32) as u8,
            (x >> 40) as u8 == (y >> 40) as u8,
            (x >> 48) as u8 == (y >> 48) as u8,
            (x >> 56) as u8 == (y >> 56) as u8,
    ;
}

/// The little-endian encoding of a 128-bit integer determines the integer.
pub proof fn lemma_enc_u128_injective(x: u128, y: u128)
    requires
        enc_u128(x) == enc_u128(y),
    ensures
        x == y,
{
    assert(enc_u128(x)[0] == enc_u128(y)[0]);
    assert(enc_u128(x)[1] == enc_u128(y)[1]);
    assert(enc_u128(x)[2] == enc_u128(y)[2]);
    assert(enc_u128(x)[3] == enc_u128(y)[3]);
    assert(enc_u128(x)[4] == enc_u128(y)[4]);
    assert(enc_u128(x)[5] == enc_u128(y)[5]);
    assert(enc_u128(x)[6] == enc_u128(y)[6]);
    assert(enc_u128(x)[7] == enc_u128(y)[7]);
    assert(enc_u128(x)[8] == enc_u128(y)[8]);
    assert(enc_u128(x)[9] == enc_u128(y)[9]);
    assert(enc_u128(x)[10] == enc_u128(y)[10]);
    assert(enc_u128(x)[11] == enc_u128(y)[11]);
    assert(enc_u128(x)[12] == enc_u128(y)[12]);
    assert(enc_u128(x)[13] == enc_u128(y)[13]);
    assert(enc_u128(x)[14] == enc_u128(y)[14]);
    assert(enc_u128(x)[15] == enc_u128(y)[15]);
    assert(x == y) by (bit_vector)
        requires
            x as u8 == y as u8,
            (x >> 8) as u8 == (y >> 8) as u8,
            (x >> 16) as u8 == (y >> 16) as u8,
            (x >> 24) as u8 == (y >> 24) as u8,
            (x >> 32) as u8 == (y >> 32) as u8,
            (x >> 40) as u8 == (y >> 40) as u8,
            (x >> 48) as u8 == (y >> 48) as u8,
            (x >> 56) as u8 == (y >> 56) as u8,
            (x >> 64) as u8 == (y >> 64) as u8,
            (x >> 72) as u8 == (y >> 72) as u8,
            (x >> 80) as u8 == (y >> 80) as u8,
            (x >> 88) as u8 == (y >> 88) as u8,
            (x >> 96) as u8 == (y >> 96) as u8,
            (x >> 104) as u8 == (y >> 104) as u8,
            (x >> 112) as u8 == (y >> 112) as u8,
            (x >> 120) as u8 == (y >> 120) as u8,
    ;
}

/// A fixed-width field at the front of two equal streams determines its
/// integer and leaves equal remainders.
pub proof fn lemma_u64_field(x: u64, r1: Seq<u8>, y: u64, r2: Seq<u8>)
    requires
        enc_u64(x) + r1 == enc_u64(y) + r2,
    ensures
        x == y,
        r1 == r2,
{
    lemma_concat_parts(enc_u64(x), r1, enc_u64(y), r2);
    lemma_enc_u64_injective(x, y);
}

/// As `lemma_u64_field`, for a 128-bit field.
pub proof fn lemma_u128_field(x: u128, r1: Seq<u8>, y: u128, r2: Seq<u8>)
    requires
        enc_u128(x) + r1 == enc_u128(y) + r2,
    ensures
        x == y,
        r1 == r2,
{
    lemma_concat_parts(enc_u128(x), r1, enc_u128(y), r2);
    lemma_enc_u128_injective(x, y);
}

/// A length-prefixed byte string at the front of two equal streams determines
/// the string and leaves equal remainders.
pub proof fn lemma_bytes_field(b1: Seq<u8>, r1: Seq<u8>, b2: Seq<u8>, r2: Seq<u8>)
    requires
        enc_bytes(b1) + r1 == enc_bytes(b2) + r2,
        b1.len() <= max_enc_len(),
        b2.len() <= max_enc_len(),
    ensures
        b1 == b2,
        r1 == r2,
{
    assert(enc_u32(b1.len() as u32) + (b1 + r1) =~= enc_bytes(b1) + r1);
    assert(enc_u32(b2.len() as u32) + (b2 + r2) =~= enc_bytes(b2) + r2);
    lemma_concat_parts(enc_u32(b1.len() as u32), b1 + r1, enc_u32(b2.len() as u32), b2 + r2);
    lemma_enc_u32_injective(b1.len() as u32, b2.len() as u32);
    assert(b1.len() == b2.len());
    lemma_concat_parts(b1, r1, b2, r2);
}

} // verus!
