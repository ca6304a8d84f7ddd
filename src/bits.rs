use vstd::prelude::*;

verus! {

/// A mask bounds the result of `&`.
pub proof fn lemma_and_le(a: u8, b: u8)
    ensures
        a & b <= a,
        a & b <= b,
        0u8 & b == 0,
{
    assert(a & b <= a && a & b <= b && 0u8 & b == 0) by (bit_vector);
}

/// Bounds of `>>` on bytes.
pub proof fn lemma_shr_le(a: u8, s: u8)
    ensures
        a >> s <= a,
        s >= 4 ==> a >> s < 16,
        s >= 6 ==> a >> s < 4,
        s >= 3 ==> a >> s < 32,
{
    assert(a >> s <= a && (s >= 4 ==> a >> s < 16) && (s >= 6 ==> a >> s < 4) && (s >= 3 ==> a
        >> s < 32)) by (bit_vector);
}

/// `>>` does not grow a 16-bit value.
pub proof fn lemma_shr_le_u16(a: u16, s: u16)
    ensures
        a >> s <= a,
{
    assert(a >> s <= a) by (bit_vector);
}

/// The low byte of an address in the top page is its offset in that page.
pub proof fn lemma_low_byte(a: u16)
    ensures
        a >= 0xFF00 ==> a & 0xFF == a - 0xFF00,
{
    assert(a >= 0xFF00 ==> a & 0xFF == a - 0xFF00) by (bit_vector);
}

/// `|` regroups, and zero is its unit.
pub proof fn lemma_or_assoc(a: u8, b: u8, c: u8)
    ensures
        (a | b) | c == a | (b | c),
        a | 0 == a,
        0u8 | b == b,
{
    assert((a | b) | c == a | (b | c) && a | 0 == a && 0u8 | b == b) by (bit_vector);
}

/// Mode bits survive the STAT updates of the pixel unit.
pub proof fn lemma_stat_bits(s: u8, m: u8)
    ensures
        m < 4 ==> ((s & 0x7C) | m) & 0x03 == m,
        (s | 0x04) & 0x03 == s & 0x03,
        (s & !0x04u8) & 0x03 == s & 0x03,
        s & 0x03 < 4,
        m < 4 ==> ((s & 0x7C) | m) & 0x08 == s & 0x08,
        m < 4 ==> ((s & 0x7C) | m) & 0x10 == s & 0x10,
        m < 4 ==> ((s & 0x7C) | m) & 0x20 == s & 0x20,
{
    assert((m < 4 ==> ((s & 0x7C) | m) & 0x03 == m) && (s | 0x04) & 0x03 == s & 0x03 && (s
        & !0x04u8) & 0x03 == s & 0x03 && s & 0x03 < 4 && (m < 4 ==> ((s & 0x7C) | m) & 0x08 == s
        & 0x08) && (m < 4 ==> ((s & 0x7C) | m) & 0x10 == s & 0x10) && (m < 4 ==> ((s & 0x7C) | m)
        & 0x20 == s & 0x20)) by (bit_vector);
}

} // verus!
