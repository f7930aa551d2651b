//! Words: 16-bit two's-complement integers, and the two views that the
//! machine takes of them (a signed value, an unsigned bit pattern).

use vstd::prelude::*;

verus! {

/// The bit pattern of `w` read as an unsigned number, `0 ..= 0xFFFF`.
pub open spec fn bit_pattern(w: i16) -> int {
    if w < 0 {
        w + 0x1_0000
    } else {
        w as int
    }
}

/// The low 15 bits of `w`: the cell that `w` addresses.
pub open spec fn mask15(w: i16) -> int {
    bit_pattern(w) % 0x8000
}

/// The word whose bit pattern is `bits`.
pub open spec fn word_of(bits: u16) -> i16 {
    if bits >= 0x8000 {
        (bits - 0x1_0000) as i16
    } else {
        bits as i16
    }
}

/// `v` reduced into the range of a word, as two's-complement overflow does.
pub open spec fn wrap(v: int) -> i16 {
    ((v + 0x8000) % 0x1_0000 - 0x8000) as i16
}

/// The bit pattern of `w`.
pub fn to_bits(w: i16) -> (bits: u16)
    ensures
        bits == bit_pattern(w),
        word_of(bits) == w,
{
    let bits: u16 = #[verifier::truncate] (w as u16);
    assert(bits == (if w < 0 { w + 0x1_0000 } else { w as int })) by (bit_vector)
        requires
            bits == #[verifier::truncate] (w as u16),
    ;
    bits
}

/// The word whose bit pattern is `bits`.
pub fn from_bits(bits: u16) -> (w: i16)
    ensures
        w == word_of(bits),
        bit_pattern(w) == bits,
{
    let w: i16 = #[verifier::truncate] (bits as i16);
    assert(w == (if bits >= 0x8000 { bits - 0x1_0000 } else { bits as int })) by (bit_vector)
        requires
            w == #[verifier::truncate] (bits as i16),
    ;
    w
}

/// The cell that `w` addresses: its low 15 bits.
pub fn address_of(w: i16) -> (index: usize)
    ensures
        index == mask15(w),
        index < 0x8000,
{
    let bits: u16 = to_bits(w);
    let low: u16 = bits & 0x7FFF;
    assert(low == bits % 0x8000) by (bit_vector)
        requires
            low == bits & 0x7FFF,
    ;
    low as usize
}

} // verus!
