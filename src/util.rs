use vstd::prelude::*;

verus! {

/// The low sixteen bits of a packed 32-bit message parameter.
pub open spec fn low_word(value: u32) -> u16 {
    (value % 0x10000) as u16
}

/// The high sixteen bits of a packed 32-bit message parameter.
pub open spec fn high_word(value: u32) -> u16 {
    (value / 0x10000) as u16
}

/// Extracts the low word of `value`.
pub fn loword(value: u32) -> (r: u16)
    ensures
        r == low_word(value),
{
    assert((value & 0xffff) == value % 0x10000) by (bit_vector);
    (value & 0xffff) as u16
}

/// Extracts the high word of `value`.
pub fn hiword(value: u32) -> (r: u16)
    ensures
        r == high_word(value),
{
    assert(((value >> 16) & 0xffff) == value / 0x10000) by (bit_vector);
    ((value >> 16) & 0xffff) as u16
}

} // verus!
