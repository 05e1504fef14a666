use vstd::prelude::*;

verus! {

/// The 8-byte little-endian encoding of a 64-bit value, least significant
/// byte first. All Solana execution targets are little-endian, so this is
/// also the host's native order there; it is adopted here explicitly as the
/// wire-format decision for the numeric seed and the persisted record.
pub open spec fn le_bytes_of_u64(v: u64) -> Seq<u8> {
    Seq::new(8, |i: int| (((v >> ((8 * i) as u64)) & 0xff) as u8))
}

/// The 64-bit value read little-endian from the first 8 bytes of `s`.
pub open spec fn u64_of_le_bytes(s: Seq<u8>) -> u64
    recommends
        s.len() >= 8,
{
    ((s[0] as u64) | ((s[1] as u64) << 8u64) | ((s[2] as u64) << 16u64) | ((s[3] as u64) << 24u64)
        | ((s[4] as u64) << 32u64) | ((s[5] as u64) << 40u64) | ((s[6] as u64) << 48u64)
        | ((s[7] as u64) << 56u64)) as u64
}

/// Law: the little-endian encoding is lossless; decoding the 8 bytes written
/// for `v` yields `v` again.
pub proof fn lemma_le_round_trip(v: u64)
    ensures
        u64_of_le_bytes(le_bytes_of_u64(v)) == v,
{
    let s = le_bytes_of_u64(v);
    assert(((v >> 0u64) & 0xff) <= 0xff && ((v >> 8u64) & 0xff) <= 0xff && ((v >> 16u64) & 0xff)
        <= 0xff && ((v >> 24u64) & 0xff) <= 0xff && ((v >> 32u64) & 0xff) <= 0xff && ((v >> 40u64)
        & 0xff) <= 0xff && ((v >> 48u64) & 0xff) <= 0xff && ((v >> 56u64) & 0xff) <= 0xff)
        by (bit_vector);
    assert(s[0] == (((v >> 0u64) & 0xff) as u8));
    assert(s[1] == (((v >> 8u64) & 0xff) as u8));
    assert(s[2] == (((v >> 16u64) & 0xff) as u8));
    assert(s[3] == (((v >> 24u64) & 0xff) as u8));
    assert(s[4] == (((v >> 32u64) & 0xff) as u8));
    assert(s[5] == (((v >> 40u64) & 0xff) as u8));
    assert(s[6] == (((v >> 48u64) & 0xff) as u8));
    assert(s[7] == (((v >> 56u64) & 0xff) as u8));
    assert((((v >> 0u64) & 0xff) | (((v >> 8u64) & 0xff) << 8u64) | (((v >> 16u64) & 0xff)
        << 16u64) | (((v >> 24u64) & 0xff) << 24u64) | (((v >> 32u64) & 0xff) << 32u64) | (((v
        >> 40u64) & 0xff) << 40u64) | (((v >> 48u64) & 0xff) << 48u64) | (((v >> 56u64) & 0xff)
        << 56u64)) == v) by (bit_vector);
}

/// Writes the 8-byte little-endian encoding of `v`.
pub fn u64_to_le_vec(v: u64) -> (r: Vec<u8>)
    ensures
        r@ == le_bytes_of_u64(v),
{
    let mut out: Vec<u8> = Vec::new();
    out.push(((v >> 0u64) & 0xff) as u8);
    out.push(((v >> 8u64) & 0xff) as u8);
    out.push(((v >> 16u64) & 0xff) as u8);
    out.push(((v >> 24u64) & 0xff) as u8);
    out.push(((v >> 32u64) & 0xff) as u8);
    out.push(((v >> 40u64) & 0xff) as u8);
    out.push(((v >> 48u64) & 0xff) as u8);
    out.push(((v >> 56u64) & 0xff) as u8);
    proof {
        assert(out@ =~= le_bytes_of_u64(v));
    }
    out
}

/// Reads a 64-bit value little-endian from `s[offset..offset + 8]`.
pub fn u64_from_le(s: &Vec<u8>, offset: usize) -> (r: u64)
    requires
        offset + 8 <= s@.len(),
    ensures
        r == u64_of_le_bytes(s@.skip(offset as int)),
{
    let n = s.len();
    proof {
        assert(offset + 8 <= n);
    }
    let r: u64 = (s[offset] as u64) | ((s[offset + 1] as u64) << 8u64) | ((s[offset + 2] as u64)
        << 16u64) | ((s[offset + 3] as u64) << 24u64) | ((s[offset + 4] as u64) << 32u64) | ((s[
        offset + 5] as u64) << 40u64) | ((s[offset + 6] as u64) << 48u64) | ((s[offset + 7] as u64)
        << 56u64);
    proof {
        let t = s@.skip(offset as int);
        assert(t[0] == s@[offset as int]);
        assert(t[1] == s@[offset + 1]);
        assert(t[2] == s@[offset + 2]);
        assert(t[3] == s@[offset + 3]);
        assert(t[4] == s@[offset + 4]);
        assert(t[5] == s@[offset + 5]);
        assert(t[6] == s@[offset + 6]);
        assert(t[7] == s@[offset + 7]);
    }
    r
}

} // verus!
