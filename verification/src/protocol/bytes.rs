use vstd::prelude::*;

use vstd::arithmetic::div_mod::lemma_fundamental_div_mod_converse;

verus! {

/// The 16-bit number whose little-endian bytes are `lo` and `hi`.
pub open spec fn le_u16(lo: u8, hi: u8) -> u16 {
    (lo + 256 * hi) as u16
}

/// The 32-bit number whose little-endian bytes are `b0` to `b3`.
pub open spec fn le_u32(b0: u8, b1: u8, b2: u8, b3: u8) -> u32 {
    (b0 + 256 * b1 + 65536 * b2 + 16777216 * b3) as u32
}

/// The little-endian bytes of a 16-bit number.
pub open spec fn u16_le_bytes(v: u16) -> Seq<u8> {
    seq![(v % 256) as u8, (v / 256) as u8]
}

/// The little-endian bytes of a 32-bit number.
pub open spec fn u32_le_bytes(v: u32) -> Seq<u8> {
    seq![(v % 256) as u8, ((v / 256) % 256) as u8, ((v / 65536) % 256) as u8, (v / 16777216) as u8]
}

/// The number that the first four bytes of `s` hold, little end first.
pub open spec fn le_u32_of(s: Seq<u8>) -> u32 {
    le_u32(s[0], s[1], s[2], s[3])
}

/// The little-endian bytes of a 32-bit number.
pub fn u32_to_le_bytes(v: u32) -> (r: Vec<u8>)
    ensures
        r@ == u32_le_bytes(v),
{
    let mut r: Vec<u8> = Vec::new();
    r.push((v % 256) as u8);
    r.push(((v / 256) % 256) as u8);
    r.push(((v / 65536) % 256) as u8);
    r.push((v / 16777216) as u8);
    assert(r@ =~= u32_le_bytes(v));
    r
}

/// The 32-bit number held by four bytes, little end first.
pub fn u32_from_le_bytes(b0: u8, b1: u8, b2: u8, b3: u8) -> (r: u32)
    ensures
        r == le_u32(b0, b1, b2, b3),
{
    b0 as u32 + 256 * (b1 as u32) + 65536 * (b2 as u32) + 16777216 * (b3 as u32)
}

/// The 16-bit number held by two bytes, little end first.
pub fn u16_from_le_bytes(lo: u8, hi: u8) -> (r: u16)
    ensures
        r == le_u16(lo, hi),
{
    lo as u16 + 256 * (hi as u16)
}

/// Reading back the little-endian bytes of a 16-bit number gives the number.
pub proof fn lemma_u16_value_roundtrip(v: u16)
    ensures
        le_u16(u16_le_bytes(v)[0], u16_le_bytes(v)[1]) == v,
{
}

/// Writing out the number held by two bytes gives back the bytes.
pub proof fn lemma_u16_bytes_roundtrip(lo: u8, hi: u8)
    ensures
        u16_le_bytes(le_u16(lo, hi)) == seq![lo, hi],
{
    assert(u16_le_bytes(le_u16(lo, hi)) =~= seq![lo, hi]);
}

/// Reading back the little-endian bytes of a 32-bit number gives the number.
pub proof fn lemma_u32_value_roundtrip(v: u32)
    ensures
        le_u32_of(u32_le_bytes(v)) == v,
{
    assert(v == (v % 256) + 256 * ((v / 256) % 256) + 65536 * ((v / 65536) % 256) + 16777216 * (v
        / 16777216)) by (bit_vector);
}

/// Writing out the number held by four bytes gives back the bytes.
pub proof fn lemma_u32_bytes_roundtrip(b0: u8, b1: u8, b2: u8, b3: u8)
    ensures
        u32_le_bytes(le_u32(b0, b1, b2, b3)) == seq![b0, b1, b2, b3],
{
    let x: int = b0 + 256 * b1 + 65536 * b2 + 16777216 * b3;
    let v = le_u32(b0, b1, b2, b3);
    assert(v == x);
    lemma_fundamental_div_mod_converse(x, 256, b1 + 256 * b2 + 65536 * b3, b0 as int);
    lemma_fundamental_div_mod_converse(b1 + 256 * b2 + 65536 * b3, 256, b2 + 256 * b3, b1 as int);
    lemma_fundamental_div_mod_converse(x, 65536, b2 + 256 * b3, b0 + 256 * b1);
    lemma_fundamental_div_mod_converse(b2 + 256 * b3, 256, b3 as int, b2 as int);
    lemma_fundamental_div_mod_converse(x, 16777216, b3 as int, b0 + 256 * b1 + 65536 * b2);
    assert(u32_le_bytes(v) =~= seq![b0, b1, b2, b3]);
}

/// Two bytes hold the number `lo + 256 * hi`, and the two bytes of a 16-bit
/// number are its low and high byte.
pub proof fn lemma_u16_le_layout(lo: u8, hi: u8, v: u16)
    ensures
        le_u16(lo, hi) == lo + 256 * hi,
        u16_le_bytes(v).len() == 2,
        u16_le_bytes(v)[0] + 256 * u16_le_bytes(v)[1] == v,
{
}

/// Four bytes hold the number `b0 + 256 * b1 + 65536 * b2 + 16777216 * b3`,
/// and the four bytes of a 32-bit number hold it in that order.
pub proof fn lemma_u32_le_layout(b0: u8, b1: u8, b2: u8, b3: u8, v: u32)
    ensures
        le_u32(b0, b1, b2, b3) == b0 + 256 * b1 + 65536 * b2 + 16777216 * b3,
        u32_le_bytes(v).len() == 4,
        u32_le_bytes(v)[0] + 256 * u32_le_bytes(v)[1] + 65536 * u32_le_bytes(v)[2] + 16777216
            * u32_le_bytes(v)[3] == v,
{
    lemma_u32_value_roundtrip(v);
}

/// The number that the first four bytes of a sequence hold is the first
/// byte plus 256 times the second, plus 65536 times the third, plus
/// 16777216 times the fourth.
pub proof fn lemma_le_u32_of_layout(s: Seq<u8>)
    requires
        s.len() >= 4,
    ensures
        le_u32_of(s) == s[0] + 256 * s[1] + 65536 * s[2] + 16777216 * s[3],
{
}

} // verus!
