//! Eight-bit additive checksum used by the Ostrich serial protocol.

use vstd::prelude::*;

verus! {

/// Sum of all bytes of `s`, as an unbounded integer.
pub open spec fn byte_sum(s: Seq<u8>) -> nat
    decreases s.len(),
{
    if s.len() == 0 {
        0
    } else {
        byte_sum(s.drop_last()) + s.last() as nat
    }
}

/// The protocol checksum of `s`: the byte sum reduced modulo 256.
pub open spec fn checksum_spec(s: Seq<u8>) -> u8 {
    (byte_sum(s) % 256) as u8
}

/// The byte sum of a concatenation is the sum of the byte sums.
pub proof fn lemma_byte_sum_concat(a: Seq<u8>, b: Seq<u8>)
    ensures
        byte_sum(a + b) == byte_sum(a) + byte_sum(b),
    decreases b.len(),
{
    if b.len() == 0 {
        assert(a + b =~= a);
    } else {
        lemma_byte_sum_concat(a, b.drop_last());
        assert((a + b).drop_last() =~= a + b.drop_last());
    }
}

/// Law: the checksum of a concatenation is the wrapping sum of the checksums
/// of its parts; this is what lets a frame's trailer be computed from the
/// header checksum and the payload checksum separately.
pub proof fn checksum_concat(a: Seq<u8>, b: Seq<u8>)
    ensures
        checksum_spec(a + b) == ((checksum_spec(a) as nat + checksum_spec(b) as nat) % 256) as u8,
{
    lemma_byte_sum_concat(a, b);
    let x = byte_sum(a);
    let y = byte_sum(b);
    assert((x + y) % 256 == ((x % 256) + (y % 256)) % 256) by (nonlinear_arith);
}

/// Wrapping sum of all bytes (`checksum8` in the protocol).
pub fn checksum8(bytes: &[u8]) -> (sum: u8)
    ensures
        sum == checksum_spec(bytes@),
{
    let mut acc: u8 = 0;
    let mut i: usize = 0;
    while i < bytes.len()
        invariant
            i <= bytes.len(),
            acc == checksum_spec(bytes@.take(i as int)),
        decreases bytes.len() - i,
    {
        proof {
            assert(bytes@.take(i + 1).drop_last() =~= bytes@.take(i as int));
            let x = byte_sum(bytes@.take(i as int));
            let b = bytes@[i as int] as nat;
            assert((x + b) % 256 == ((x % 256) + b) % 256) by (nonlinear_arith);
        }
        acc = acc.wrapping_add(bytes[i]);
        i = i + 1;
    }
    proof {
        assert(bytes@.take(bytes.len() as int) =~= bytes@);
    }
    acc
}

} // verus!
