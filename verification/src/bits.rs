//! Bit-level access to register words through the `bit_field` crate.

use bit_field::BitField;
use vstd::prelude::*;

verus! {

/// Reads bit `bit` of a 32-bit word with `BitField::get_bit`, which panics on a bit index of 32
/// or more and otherwise tests the bit.
#[verifier::external_body]
pub(crate) fn u32_get_bit(x: u32, bit: usize) -> (r: bool)
    requires
        bit < 32,
    ensures
        r == ((x >> (bit as u32)) & 1u32 == 1u32),
{
    x.get_bit(bit)
}

/// Sets bit `bit` of a 32-bit word to `value` with `BitField::set_bit`, which panics on a bit
/// index of 32 or more and leaves all other bits as they are.
#[verifier::external_body]
pub(crate) fn u32_set_bit(x: &mut u32, bit: usize, value: bool)
    requires
        bit < 32,
    ensures
        *final(x) == if value {
            *old(x) | (1u32 << (bit as u32))
        } else {
            *old(x) & !(1u32 << (bit as u32))
        },
{
    x.set_bit(bit, value);
}

/// Reads the bits `start..end` of a 32-bit word with `BitField::get_bits`: the field shifted
/// down to bit 0. The crate panics on ranges outside the word; ranges of the full width are
/// left out here.
#[verifier::external_body]
pub(crate) fn u32_get_bits(x: u32, start: usize, end: usize) -> (r: u32)
    requires
        start < end <= 32,
        end - start < 32,
    ensures
        r == (x >> (start as u32)) & (((1u32 << ((end - start) as u32)) - 1) as u32),
{
    x.get_bits(start..end)
}

/// Writes `value` into the bits `start..end` of a 32-bit word with `BitField::set_bits`, which
/// panics when the value does not fit into the range; all other bits keep their value.
#[verifier::external_body]
pub(crate) fn u32_set_bits(x: &mut u32, start: usize, end: usize, value: u32)
    requires
        start < end <= 32,
        end - start < 32,
        value < (1u32 << ((end - start) as u32)),
    ensures
        *final(x) == (*old(x) & !((((1u32 << ((end - start) as u32)) - 1) as u32) << (start as u32)))
            | (value << (start as u32)),
{
    x.set_bits(start..end, value);
}

/// Reads bit `bit` of a 16-bit word with `BitField::get_bit`, which panics on a bit index of 16
/// or more and otherwise tests the bit.
#[verifier::external_body]
pub(crate) fn u16_get_bit(x: u16, bit: usize) -> (r: bool)
    requires
        bit < 16,
    ensures
        r == ((x >> (bit as u16)) & 1u16 == 1u16),
{
    x.get_bit(bit)
}

/// Reads the bits `start..end` of a 16-bit word with `BitField::get_bits`: the field shifted
/// down to bit 0. Ranges of the full width are left out here.
#[verifier::external_body]
pub(crate) fn u16_get_bits(x: u16, start: usize, end: usize) -> (r: u16)
    requires
        start < end <= 16,
        end - start < 16,
    ensures
        r == (x >> (start as u16)) & (((1u16 << ((end - start) as u16)) - 1) as u16),
{
    x.get_bits(start..end)
}

} // verus!
