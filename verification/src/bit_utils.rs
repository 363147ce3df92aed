//! Small bit-manipulation helpers shared by the CPU, PPU and mappers.

use vstd::prelude::*;

verus! {

/// Whether bit `bit` of `value` is set.
pub fn get_bit(value: u8, bit: u8) -> (r: bool)
    requires
        bit < 8,
    ensures
        r == (value & (1u8 << bit) != 0),
{
    (value & (1u8 << bit)) != 0
}

/// `value` with bit `bit` set.
pub fn set_bit(value: u8, bit: u8) -> (r: u8)
    requires
        bit < 8,
    ensures
        r == (value | (1u8 << bit)),
{
    value | (1u8 << bit)
}

/// `value` with bit `bit` cleared.
pub fn clear_bit(value: u8, bit: u8) -> (r: u8)
    requires
        bit < 8,
    ensures
        r == (value & !(1u8 << bit)),
{
    value & !(1u8 << bit)
}

/// `value` with bit `bit` flipped.
pub fn toggle_bit(value: u8, bit: u8) -> (r: u8)
    requires
        bit < 8,
    ensures
        r == (value ^ (1u8 << bit)),
{
    value ^ (1u8 << bit)
}

/// A byte whose low `count` bits are ones.
pub open spec fn low_mask(count: u8) -> u8 {
    (((1u8 << count) as int - 1) % 256) as u8
}

/// The `count` bits of `value` starting at bit `start`.
pub fn get_bits(value: u8, start: u8, count: u8) -> (r: u8)
    requires
        start < 8,
        0 < count < 8,
        start + count <= 8,
    ensures
        r == ((value >> start) & low_mask(count)),
{
    proof {
        assert(0 < count < 8 ==> (1u8 << count) >= 1) by (bit_vector);
    }
    let mask: u8 = (1u8 << count) - 1;
    (value >> start) & mask
}

/// `value` with its `count` bits starting at bit `start` replaced by the
/// low `count` bits of `new_value`.
pub fn set_bits(value: u8, start: u8, count: u8, new_value: u8) -> (r: u8)
    requires
        start < 8,
        0 < count < 8,
        start + count <= 8,
    ensures
        r == ((value & !(low_mask(count) << start)) | ((new_value & low_mask(count)) << start)),
{
    proof {
        assert(0 < count < 8 ==> (1u8 << count) >= 1) by (bit_vector);
    }
    let mask: u8 = (1u8 << count) - 1;
    let cleared = value & !(mask << start);
    cleared | ((new_value & mask) << start)
}

/// The 16-bit word with low byte `low` and high byte `high`.
pub open spec fn word(low: u8, high: u8) -> u16 {
    (high as u16 * 256 + low as u16) as u16
}

/// Combining a high and a low byte by shifting equals the arithmetic
/// form `high * 256 + low`.
pub proof fn lemma_word_shift(low: u8, high: u8)
    ensures
        ((high as u16) << 8) | (low as u16) == word(low, high),
{
    assert(((high as u16) << 8) | (low as u16) == high as u16 * 256 + low as u16) by (bit_vector);
}

/// Convert two bytes to a little-endian 16-bit word.
pub fn make_word(low: u8, high: u8) -> (r: u16)
    ensures
        r == word(low, high),
{
    proof {
        lemma_word_shift(low, high);
    }
    ((high as u16) << 8) | (low as u16)
}

/// Extract the low byte of a word.
pub fn low_byte(value: u16) -> (r: u8)
    ensures
        r == (value & 0xFF) as u8,
{
    (value & 0xFF) as u8
}

/// Extract the high byte of a word.
pub fn high_byte(value: u16) -> (r: u8)
    ensures
        r == (value >> 8) as u8,
{
    (value >> 8) as u8
}

/// Whether adding the two bytes would leave the 8-bit range.
pub fn would_overflow_add(a: u8, b: u8) -> (r: bool)
    ensures
        r == (a + b > 255),
{
    a.checked_add(b).is_none()
}

/// Whether subtracting `b` from `a` would fall below zero.
pub fn would_underflow_sub(a: u8, b: u8) -> (r: bool)
    ensures
        r == (a < b),
{
    a < b
}

/// Whether the two addresses lie on different 256-byte pages.
pub open spec fn spec_page_crossed(addr1: u16, addr2: u16) -> bool {
    (addr1 & 0xFF00) != (addr2 & 0xFF00)
}

#[verifier::when_used_as_spec(spec_page_crossed)]
pub fn page_crossed(addr1: u16, addr2: u16) -> (r: bool)
    ensures
        r == spec_page_crossed(addr1, addr2),
{
    (addr1 & 0xFF00) != (addr2 & 0xFF00)
}

/// The address one past `addr`, wrapping within its 256-byte page.
pub fn wrap_page(addr: u16) -> (r: u16)
    ensures
        r == ((addr & 0xFF00) | (addr.wrapping_add(1) & 0xFF)),
{
    (addr & 0xFF00) | (addr.wrapping_add(1) & 0xFF)
}

/// The address masked down to a mirror of a smaller window.
pub fn mirror_address(address: u16, mask: u16) -> (r: u16)
    ensures
        r == (address & mask),
{
    address & mask
}

/// The offset of `address` into a bank-switched region: the distance from
/// `base` plus the selected bank's start.
pub fn calculate_bank_address(address: u16, base: u16, bank: u8, bank_size: u16) -> (r: u32)
    requires
        address >= base,
    ensures
        r == (address - base) + bank as u32 * bank_size as u32,
{
    proof {
        assert(bank as int * bank_size as int <= 255 * 65535) by (nonlinear_arith)
            requires
                bank <= 255,
                bank_size <= 65535,
        ;
    }
    (address - base) as u32 + bank as u32 * bank_size as u32
}

/// The PRG ROM offset for a CPU address at `0x8000` or above: a 16 KiB
/// image is mirrored across the 32 KiB window, a larger one is read flat.
pub fn mirror_rom_16k(address: u16, rom_size: usize) -> (r: u32)
    requires
        address >= 0x8000,
    ensures
        rom_size <= 0x4000 ==> r == (((address - 0x8000) as u16 & 0x3FFF)) as u32,
        rom_size > 0x4000 ==> r == (address - 0x8000) as u32,
{
    let offset = address - 0x8000;
    if rom_size <= 0x4000 {
        (offset & 0x3FFF) as u32
    } else {
        offset as u32
    }
}

} // verus!
