//! The 6502 status register: eight individually named flag bits packed
//! into one byte (NV-BDIZC, with the unused bit at position 5).

use vstd::prelude::*;

verus! {

/// One of the eight bits of the status register `P`.
#[derive(Clone, Copy, Debug, PartialEq, Eq, Structural)]
pub enum StatusFlag {
    Carry,
    Zero,
    InterruptDisable,
    Decimal,
    Break,
    Unused,
    Overflow,
    Negative,
}

impl StatusFlag {
    /// The bit of `P` that this flag occupies.
    pub open spec fn spec_mask(self) -> u8 {
        match self {
            StatusFlag::Carry => 0x01,
            StatusFlag::Zero => 0x02,
            StatusFlag::InterruptDisable => 0x04,
            StatusFlag::Decimal => 0x08,
            StatusFlag::Break => 0x10,
            StatusFlag::Unused => 0x20,
            StatusFlag::Overflow => 0x40,
            StatusFlag::Negative => 0x80,
        }
    }

    #[verifier::when_used_as_spec(spec_mask)]
    pub fn mask(self) -> (r: u8)
        ensures
            r == self.spec_mask(),
    {
        match self {
            StatusFlag::Carry => 0x01,
            StatusFlag::Zero => 0x02,
            StatusFlag::InterruptDisable => 0x04,
            StatusFlag::Decimal => 0x08,
            StatusFlag::Break => 0x10,
            StatusFlag::Unused => 0x20,
            StatusFlag::Overflow => 0x40,
            StatusFlag::Negative => 0x80,
        }
    }
}

/// The status byte with the bits under `mask` forced to `value`.
pub open spec fn set_flag_bits(p: u8, mask: u8, value: bool) -> u8 {
    if value {
        p | mask
    } else {
        p & !mask
    }
}

/// Whether any bit under `mask` is set in `p`.
pub open spec fn flag_bit_set(p: u8, mask: u8) -> bool {
    p & mask != 0
}

/// The status byte after an instruction stored `v` in a register or a
/// memory cell: Zero tracks `v == 0`, Negative tracks bit 7 of `v`.
pub open spec fn nz_bits(p: u8, v: u8) -> u8 {
    set_flag_bits(set_flag_bits(p, 0x02, v == 0), 0x80, v & 0x80 != 0)
}

/// After any store of `v` that refreshes the Zero and Negative flags,
/// the Zero flag reads back as `v == 0` and the Negative flag as bit 7
/// of `v`, whatever the other flags were.
pub proof fn lemma_nz_flags(p: u8, v: u8)
    ensures
        flag_bit_set(nz_bits(p, v), StatusFlag::Zero.spec_mask()) == (v == 0),
        flag_bit_set(nz_bits(p, v), StatusFlag::Negative.spec_mask()) == (v & 0x80 != 0),
{
    assert((((p | 0x02) | 0x80) & 0x02 != 0) && (((p | 0x02) & !0x80) & 0x02 != 0)
        && (((p & !0x02) | 0x80) & 0x02 == 0) && (((p & !0x02) & !0x80) & 0x02 == 0)
        && (((p | 0x02) | 0x80) & 0x80 != 0) && (((p & !0x02) | 0x80) & 0x80 != 0)
        && (((p | 0x02) & !0x80) & 0x80 == 0) && (((p & !0x02) & !0x80) & 0x80 == 0))
        by (bit_vector);
}

/// Setting one flag leaves every other flag unchanged, and reads back
/// as the value written. Stated for the eight single-bit masks.
pub proof fn lemma_set_flag_frame(p: u8, f: StatusFlag, g: StatusFlag, value: bool)
    ensures
        flag_bit_set(set_flag_bits(p, f.spec_mask(), value), f.spec_mask()) == value,
        f != g ==> flag_bit_set(set_flag_bits(p, f.spec_mask(), value), g.spec_mask())
            == flag_bit_set(p, g.spec_mask()),
{
    let m = f.spec_mask();
    let n = g.spec_mask();
    assert(m == 1 || m == 2 || m == 4 || m == 8 || m == 16 || m == 32 || m == 64 || m == 128);
    assert(n == 1 || n == 2 || n == 4 || n == 8 || n == 16 || n == 32 || n == 64 || n == 128);
    assert(f != g ==> m != n);
    assert(((p | m) & m != 0) && ((p & !m) & m == 0)
        && (m != n ==> ((p | m) & n != 0) == (p & n != 0))
        && (m != n ==> ((p & !m) & n != 0) == (p & n != 0))) by (bit_vector)
        requires
            m == 1 || m == 2 || m == 4 || m == 8 || m == 16 || m == 32 || m == 64 || m == 128,
            n == 1 || n == 2 || n == 4 || n == 8 || n == 16 || n == 32 || n == 64 || n == 128,
    ;
}

} // verus!
