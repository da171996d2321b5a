//! Little-endian encoding of 64-bit unsigned integers.

use vstd::prelude::*;

verus! {

/// The eight bytes of `x`, least significant first.
pub open spec fn u64_le_bytes(x: u64) -> Seq<u8> {
    seq![
        (x % 0x100) as u8,
        (x / 0x100 % 0x100) as u8,
        (x / 0x1_0000 % 0x100) as u8,
        (x / 0x100_0000 % 0x100) as u8,
        (x / 0x1_0000_0000 % 0x100) as u8,
        (x / 0x100_0000_0000 % 0x100) as u8,
        (x / 0x1_0000_0000_0000 % 0x100) as u8,
        (x / 0x100_0000_0000_0000 % 0x100) as u8,
    ]
}

/// The number whose little-endian bytes are the first eight of `s`.
pub open spec fn u64_from_le_bytes(s: Seq<u8>) -> int
    recommends
        s.len() >= 8,
{
    s[0] + s[1] * 0x100 + s[2] * 0x1_0000 + s[3] * 0x100_0000 + s[4] * 0x1_0000_0000 + s[5]
        * 0x100_0000_0000 + s[6] * 0x1_0000_0000_0000 + s[7] * 0x100_0000_0000_0000
}

/// Encodes `x` as eight little-endian bytes.
pub fn u64_to_le(x: u64) -> (r: Vec<u8>)
    ensures
        r@ == u64_le_bytes(x),
{
    let mut r: Vec<u8> = Vec::new();
    r.push((x % 0x100) as u8);
    r.push((x / 0x100 % 0x100) as u8);
    r.push((x / 0x1_0000 % 0x100) as u8);
    r.push((x / 0x100_0000 % 0x100) as u8);
    r.push((x / 0x1_0000_0000 % 0x100) as u8);
    r.push((x / 0x100_0000_0000 % 0x100) as u8);
    r.push((x / 0x1_0000_0000_0000 % 0x100) as u8);
    r.push((x / 0x100_0000_0000_0000 % 0x100) as u8);
    assert(r@ =~= u64_le_bytes(x));
    r
}

/// Decodes eight little-endian bytes.
pub fn u64_from_le(s: &[u8]) -> (r: u64)
    requires
        s@.len() == 8,
    ensures
        r == u64_from_le_bytes(s@),
{
    let b0: u64 = s[0] as u64;
    let b1: u64 = s[1] as u64;
    let b2: u64 = s[2] as u64;
    let b3: u64 = s[3] as u64;
    let b4: u64 = s[4] as u64;
    let b5: u64 = s[5] as u64;
    let b6: u64 = s[6] as u64;
    let b7: u64 = s[7] as u64;
    b0 + b1 * 0x100 + b2 * 0x1_0000 + b3 * 0x100_0000 + b4 * 0x1_0000_0000 + b5 * 0x100_0000_0000
        + b6 * 0x1_0000_0000_0000 + b7 * 0x100_0000_0000_0000
}

/// Decoding undoes encoding: every 64-bit number is read back from its own
/// little-endian bytes.
pub proof fn lemma_u64_le_round_trip(x: u64)
    ensures
        u64_le_bytes(x).len() == 8,
        u64_from_le_bytes(u64_le_bytes(x)) == x,
{
    assert(x == (x % 0x100) + (x / 0x100 % 0x100) * 0x100 + (x / 0x1_0000 % 0x100) * 0x1_0000 + (x
        / 0x100_0000 % 0x100) * 0x100_0000 + (x / 0x1_0000_0000 % 0x100) * 0x1_0000_0000 + (x
        / 0x100_0000_0000 % 0x100) * 0x100_0000_0000 + (x / 0x1_0000_0000_0000 % 0x100)
        * 0x1_0000_0000_0000 + (x / 0x100_0000_0000_0000 % 0x100) * 0x100_0000_0000_0000)
        by (bit_vector);
}

/// Every value read from eight bytes fits in 64 bits, and encoding it gives
/// the same eight bytes back.
pub proof fn lemma_u64_le_bytes_of_decoded(s: Seq<u8>)
    requires
        s.len() == 8,
    ensures
        0 <= u64_from_le_bytes(s) <= u64::MAX,
        u64_le_bytes(u64_from_le_bytes(s) as u64) =~= s,
{
    let b0: u64 = s[0] as u64;
    let b1: u64 = s[1] as u64;
    let b2: u64 = s[2] as u64;
    let b3: u64 = s[3] as u64;
    let b4: u64 = s[4] as u64;
    let b5: u64 = s[5] as u64;
    let b6: u64 = s[6] as u64;
    let b7: u64 = s[7] as u64;
    let v: u64 = (b0 + b1 * 0x100 + b2 * 0x1_0000 + b3 * 0x100_0000 + b4 * 0x1_0000_0000 + b5
        * 0x100_0000_0000 + b6 * 0x1_0000_0000_0000 + b7 * 0x100_0000_0000_0000) as u64;
    assert(v == u64_from_le_bytes(s));
    assert(b0 < 0x100 && b1 < 0x100 && b2 < 0x100 && b3 < 0x100 && b4 < 0x100 && b5 < 0x100 && b6
        < 0x100 && b7 < 0x100 && v == b0 + b1 * 0x100 + b2 * 0x1_0000 + b3 * 0x100_0000 + b4
        * 0x1_0000_0000 + b5 * 0x100_0000_0000 + b6 * 0x1_0000_0000_0000 + b7
        * 0x100_0000_0000_0000 ==> v % 0x100 == b0 && v / 0x100 % 0x100 == b1 && v / 0x1_0000
        % 0x100 == b2 && v / 0x100_0000 % 0x100 == b3 && v / 0x1_0000_0000 % 0x100 == b4 && v
        / 0x100_0000_0000 % 0x100 == b5 && v / 0x1_0000_0000_0000 % 0x100 == b6 && v
        / 0x100_0000_0000_0000 % 0x100 == b7) by (bit_vector);
}

} // verus!
