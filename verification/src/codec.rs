//! Wire framing: delimiter + XOR checksum around an opaque payload.
//!
//! `encode` wraps any byte sequence as `[DELIMITER] ++ payload ++ [checksum]`,
//! where the checksum is the XOR fold of the delimiter and the payload.
//! `decode` is the inverse: it validates the length, the delimiter and the
//! checksum, and strips the framing. Both are pure and stateless.

use vstd::prelude::*;

use crate::error::DecodeError;

verus! {

/// Fixed leading byte marking the start of every frame.
pub const DELIMITER: u8 = 0xB3;

/// XOR fold of a byte sequence: `0` for the empty sequence, otherwise the
/// XOR of every byte. This is the frame checksum function.
pub open spec fn xor_fold(s: Seq<u8>) -> u8
    decreases s.len(),
{
    if s.len() == 0 {
        0u8
    } else {
        xor_fold(s.drop_last()) ^ s.last()
    }
}

/// The wire image of a payload: delimiter, payload bytes, then the XOR fold
/// of everything before the checksum byte.
pub open spec fn encode_spec(p: Seq<u8>) -> Seq<u8> {
    let body = seq![DELIMITER].add(p);
    body.push(xor_fold(body))
}

/// Validation and unframing of received wire bytes, in the order the decoder
/// applies the checks: length first, then delimiter, then checksum.
pub open spec fn decode_spec(w: Seq<u8>) -> Result<Seq<u8>, DecodeError> {
    if w.len() < 2 {
        Err(DecodeError::TooShort)
    } else if w[0] != DELIMITER {
        Err(DecodeError::BadDelimiter)
    } else if xor_fold(w.take(w.len() - 1)) != w[w.len() - 1] {
        Err(DecodeError::BadChecksum)
    } else {
        Ok(w.subrange(1, w.len() - 1))
    }
}

/// XOR fold of `bytes[0..end]`, computed in a single pass.
fn xor_fold_prefix(bytes: &[u8], end: usize) -> (r: u8)
    requires
        end <= bytes@.len(),
    ensures
        r == xor_fold(bytes@.take(end as int)),
{
    let mut acc: u8 = 0;
    let mut i: usize = 0;
    while i < end
        invariant
            i <= end <= bytes@.len(),
            acc == xor_fold(bytes@.take(i as int)),
        decreases end - i,
    {
        proof {
            assert(bytes@.take(i + 1).drop_last() =~= bytes@.take(i as int));
            assert(bytes@.take(i + 1).last() == bytes@[i as int]);
        }
        acc = acc ^ bytes[i];
        i = i + 1;
    }
    acc
}

/// Frames a payload for transmission: prepends the delimiter and appends the
/// XOR checksum. Total: never fails, for any payload including the empty one.
pub fn encode(bytes: &[u8]) -> (r: Vec<u8>)
    ensures
        r@ == encode_spec(bytes@),
        r@.len() == bytes@.len() + 2,
{
    let mut out: Vec<u8> = Vec::new();
    out.push(DELIMITER);
    let mut i: usize = 0;
    while i < bytes.len()
        invariant
            i <= bytes@.len(),
            out@ =~= seq![DELIMITER].add(bytes@.take(i as int)),
        decreases bytes@.len() - i,
    {
        out.push(bytes[i]);
        i = i + 1;
        proof {
            assert(bytes@.take(i as int).drop_last() =~= bytes@.take(i - 1));
            assert(out@ =~= seq![DELIMITER].add(bytes@.take(i as int)));
        }
    }
    proof {
        assert(bytes@.take(bytes@.len() as int) =~= bytes@);
        assert(out@ =~= seq![DELIMITER].add(bytes@));
    }
    let checksum = xor_fold_prefix(out.as_slice(), out.len());
    proof {
        assert(out@.take(out@.len() as int) =~= out@);
    }
    out.push(checksum);
    out
}

/// Replacing one byte of a sequence XORs its fold with the old and the new
/// byte.
proof fn lemma_xor_fold_update(s: Seq<u8>, i: int, v: u8)
    requires
        0 <= i < s.len(),
    ensures
        xor_fold(s.update(i, v)) == (xor_fold(s) ^ s[i]) ^ v,
    decreases s.len(),
{
    let t = s.update(i, v);
    let a = xor_fold(s.drop_last());
    let b = s.last();
    if i == s.len() - 1 {
        assert(t.drop_last() =~= s.drop_last());
        assert(a ^ v == ((a ^ b) ^ b) ^ v) by (bit_vector);
    } else {
        assert(t.drop_last() =~= s.drop_last().update(i, v));
        lemma_xor_fold_update(s.drop_last(), i, v);
        let c = s[i];
        assert(((a ^ c) ^ v) ^ b == ((a ^ b) ^ c) ^ v) by (bit_vector);
    }
}

/// Round trip: decoding an encoded payload gives back exactly that payload,
/// for every byte sequence including the empty one.
pub proof fn lemma_encode_decode_round_trip(p: Seq<u8>)
    ensures
        decode_spec(encode_spec(p)) == Ok::<Seq<u8>, DecodeError>(p),
{
    let body = seq![DELIMITER].add(p);
    let w = encode_spec(p);
    assert(w[0] == DELIMITER);
    assert(w.take(w.len() - 1) =~= body);
    assert(w.subrange(1, w.len() - 1) =~= p);
}

/// A byte with one bit flipped.
pub open spec fn flip_bit(b: u8, k: u8) -> u8 {
    b ^ (1u8 << k)
}

/// Checksum sensitivity: flipping any single bit of an encoded frame makes
/// `decode` reject it. A flip anywhere but the delimiter byte is caught by
/// the checksum comparison and reported as `BadChecksum`; a flip inside the
/// delimiter byte itself is caught first by the delimiter check and
/// reported as `BadDelimiter`.
pub proof fn lemma_single_bit_flip_detected(p: Seq<u8>, i: int, k: u8)
    requires
        0 <= i < p.len() + 2,
        k < 8,
    ensures
        ({
            let w = encode_spec(p);
            let bad = w.update(i, flip_bit(w[i], k));
            &&& decode_spec(bad) is Err
            &&& i == 0 ==> decode_spec(bad) == Err::<Seq<u8>, DecodeError>(
                DecodeError::BadDelimiter,
            )
            &&& i >= 1 ==> decode_spec(bad) == Err::<Seq<u8>, DecodeError>(
                DecodeError::BadChecksum,
            )
        }),
{
    let body = seq![DELIMITER].add(p);
    let w = encode_spec(p);
    let n = w.len() as int;
    let m = 1u8 << k;
    let x = w[i];
    assert(m != 0) by (bit_vector)
        requires
            m == 1u8 << k,
            k < 8,
    ;
    assert(x ^ m != x) by (bit_vector)
        requires
            m != 0,
    ;
    let bad = w.update(i, x ^ m);
    if i == 0 {
        assert(bad[0] != DELIMITER);
    } else {
        let ck = xor_fold(body);
        assert(w.take(n - 1) =~= body);
        if i < n - 1 {
            assert(bad.take(n - 1) =~= w.take(n - 1).update(i, x ^ m));
            lemma_xor_fold_update(w.take(n - 1), i, x ^ m);
            assert(((ck ^ x) ^ (x ^ m)) != ck) by (bit_vector)
                requires
                    m != 0,
            ;
            assert(bad[n - 1] == ck);
        } else {
            assert(bad.take(n - 1) =~= w.take(n - 1));
            assert(bad[n - 1] == ck ^ m);
            assert(ck ^ m != ck) by (bit_vector)
                requires
                    m != 0,
            ;
        }
    }
}

/// Unframes received wire bytes: checks the minimum length, the leading
/// delimiter and the XOR checksum, and returns the payload with delimiter
/// and checksum stripped. Each failure is reported as the typed error that
/// `decode_spec` assigns to the input.
pub fn decode(bytes: &[u8]) -> (r: Result<Vec<u8>, DecodeError>)
    ensures
        r is Ok <==> decode_spec(bytes@) is Ok,
        r is Ok ==> r->Ok_0@ == decode_spec(bytes@)->Ok_0,
        r is Err ==> r->Err_0 == decode_spec(bytes@)->Err_0,
{
    if bytes.len() < 2 {
        return Err(DecodeError::TooShort);
    }
    if bytes[0] != DELIMITER {
        return Err(DecodeError::BadDelimiter);
    }
    let end = bytes.len() - 1;
    let checksum = xor_fold_prefix(bytes, end);
    if checksum != bytes[end] {
        return Err(DecodeError::BadChecksum);
    }
    let mut out: Vec<u8> = Vec::new();
    let mut i: usize = 1;
    while i < end
        invariant
            1 <= i <= end,
            end == bytes@.len() - 1,
            out@ =~= bytes@.subrange(1, i as int),
        decreases end - i,
    {
        out.push(bytes[i]);
        i = i + 1;
    }
    Ok(out)
}

} // verus!
