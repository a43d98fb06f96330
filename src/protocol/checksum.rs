//! Length and data checksums of the FeliCa wire frame.

use vstd::prelude::*;

verus! {

/// Sum of the bytes of `s`, as an unbounded integer.
pub open spec fn byte_sum(s: Seq<u8>) -> int
    decreases s.len(),
{
    if s.len() == 0 {
        0
    } else {
        byte_sum(s.drop_last()) + s.last() as int
    }
}

/// The byte that, added to `n`, gives a multiple of 256.
pub open spec fn neg_mod256(n: int) -> u8 {
    ((256 - n % 256) % 256) as u8
}

/// Length checksum of a frame whose payload has `len` bytes.
pub open spec fn lcs_of(len: u8) -> u8 {
    neg_mod256(len as int)
}

/// Data checksum of a payload.
pub open spec fn dcs_of(payload: Seq<u8>) -> u8 {
    neg_mod256(byte_sum(payload))
}

/// Computes the length checksum (LCS): `-len mod 256`.
pub fn lcs(len: u8) -> (r: u8)
    ensures
        r == lcs_of(len),
        (r as int + len as int) % 256 == 0,
{
    0u8.wrapping_sub(len)
}

/// Computes the data checksum (DCS): `-(sum of payload) mod 256`.
pub fn dcs(payload: &[u8]) -> (r: u8)
    ensures
        r == dcs_of(payload@),
        (r as int + byte_sum(payload@)) % 256 == 0,
{
    let mut sum: u8 = 0;
    let mut i: usize = 0;
    while i < payload.len()
        invariant
            i <= payload.len(),
            sum as int == byte_sum(payload@.subrange(0, i as int)) % 256,
        decreases payload.len() - i,
    {
        proof {
            assert(payload@.subrange(0, i + 1).drop_last() == payload@.subrange(0, i as int));
        }
        sum = sum.wrapping_add(payload[i]);
        i += 1;
    }
    proof {
        assert(payload@.subrange(0, payload@.len() as int) == payload@);
    }
    0u8.wrapping_sub(sum)
}

/// The length checksum cancels the length: `LCS(n) + n ≡ 0 (mod 256)`.
pub proof fn lcs_cancels_length(n: u8)
    ensures
        (lcs_of(n) as int + n as int) % 256 == 0,
{
}

/// The data checksum cancels the byte sum: `DCS(b) + Σb ≡ 0 (mod 256)`.
pub proof fn dcs_cancels_sum(b: Seq<u8>)
    ensures
        (dcs_of(b) as int + byte_sum(b)) % 256 == 0,
{
}

} // verus!
