//! The 32-byte palette RAM with its mirrored backdrop slots, and the
//! fixed master palette that turns a palette byte into an RGB triple.

use vstd::prelude::*;
use crate::rom::zero_vec;

verus! {

/// The palette RAM cell an address selects, after mirroring the window
/// down to 32 bytes: the sprite backdrop slots `0x10`, `0x14`, `0x18`
/// and `0x1C` alias the background slots `0x00`, `0x04`, `0x08`, `0x0C`.
pub open spec fn palette_slot(address: u8) -> int {
    let a = address & 0x1F;
    if a == 0x10 {
        0x00
    } else if a == 0x14 {
        0x04
    } else if a == 0x18 {
        0x08
    } else if a == 0x1C {
        0x0C
    } else {
        a as int
    }
}

/// The RGB triple of each of the 64 master palette entries; the index
/// is taken modulo 64.
pub open spec fn spec_system_rgb(index: u8) -> (u8, u8, u8) {
    match index & 0x3F {
        0x00 => (84u8, 84u8, 84u8),
        0x01 => (0u8, 30u8, 116u8),
        0x02 => (8u8, 16u8, 144u8),
        0x03 => (48u8, 0u8, 136u8),
        0x04 => (68u8, 0u8, 100u8),
        0x05 => (92u8, 0u8, 48u8),
        0x06 => (84u8, 4u8, 0u8),
        0x07 => (60u8, 24u8, 0u8),
        0x08 => (32u8, 42u8, 0u8),
        0x09 => (8u8, 58u8, 0u8),
        0x0A => (0u8, 64u8, 0u8),
        0x0B => (0u8, 60u8, 0u8),
        0x0C => (0u8, 50u8, 60u8),
        0x0D => (0u8, 0u8, 0u8),
        0x0E => (0u8, 0u8, 0u8),
        0x0F => (0u8, 0u8, 0u8),
        0x10 => (152u8, 150u8, 152u8),
        0x11 => (8u8, 76u8, 196u8),
        0x12 => (48u8, 50u8, 236u8),
        0x13 => (92u8, 30u8, 228u8),
        0x14 => (136u8, 20u8, 176u8),
        0x15 => (160u8, 20u8, 100u8),
        0x16 => (152u8, 34u8, 32u8),
        0x17 => (120u8, 60u8, 0u8),
        0x18 => (84u8, 90u8, 0u8),
        0x19 => (40u8, 114u8, 0u8),
        0x1A => (8u8, 124u8, 0u8),
        0x1B => (0u8, 118u8, 40u8),
        0x1C => (0u8, 102u8, 120u8),
        0x1D => (0u8, 0u8, 0u8),
        0x1E => (0u8, 0u8, 0u8),
        0x1F => (0u8, 0u8, 0u8),
        0x20 => (236u8, 238u8, 236u8),
        0x21 => (76u8, 154u8, 236u8),
        0x22 => (120u8, 124u8, 236u8),
        0x23 => (176u8, 98u8, 236u8),
        0x24 => (228u8, 84u8, 236u8),
        0x25 => (236u8, 88u8, 180u8),
        0x26 => (236u8, 106u8, 100u8),
        0x27 => (212u8, 136u8, 32u8),
        0x28 => (160u8, 170u8, 0u8),
        0x29 => (116u8, 196u8, 0u8),
        0x2A => (76u8, 208u8, 32u8),
        0x2B => (56u8, 204u8, 108u8),
        0x2C => (56u8, 180u8, 204u8),
        0x2D => (60u8, 60u8, 60u8),
        0x2E => (0u8, 0u8, 0u8),
        0x2F => (0u8, 0u8, 0u8),
        0x30 => (236u8, 238u8, 236u8),
        0x31 => (168u8, 204u8, 236u8),
        0x32 => (188u8, 188u8, 236u8),
        0x33 => (212u8, 178u8, 236u8),
        0x34 => (236u8, 174u8, 236u8),
        0x35 => (236u8, 174u8, 212u8),
        0x36 => (236u8, 180u8, 176u8),
        0x37 => (228u8, 196u8, 144u8),
        0x38 => (204u8, 210u8, 120u8),
        0x39 => (180u8, 222u8, 120u8),
        0x3A => (168u8, 226u8, 144u8),
        0x3B => (152u8, 226u8, 180u8),
        0x3C => (160u8, 214u8, 228u8),
        0x3D => (160u8, 162u8, 160u8),
        0x3E => (0u8, 0u8, 0u8),
        0x3F => (0u8, 0u8, 0u8),
        _ => (0u8, 0u8, 0u8),
    }
}

/// The 32 bytes of palette RAM.
pub struct Palette {
    pub data: Vec<u8>,
}

impl Palette {
    pub open spec fn wf(&self) -> bool {
        self.data@.len() == 32
    }

    /// Palette RAM with every slot zeroed.
    pub fn new() -> (r: Palette)
        ensures
            r.wf(),
            forall|i: int| 0 <= i < 32 ==> r.data@[i] == 0u8,
    {
        Palette { data: zero_vec(32) }
    }

    /// The byte in the slot `address` selects, alias slots included.
    pub fn read(&self, address: u8) -> (r: u8)
        requires
            self.wf(),
        ensures
            r == self.data@[palette_slot(address)],
    {
        proof {
            assert(address & 0x1F < 32) by (bit_vector);
        }
        let addr = address & 0x1F;
        match addr {
            0x10 => self.data[0x00],
            0x14 => self.data[0x04],
            0x18 => self.data[0x08],
            0x1C => self.data[0x0C],
            _ => self.data[addr as usize],
        }
    }

    /// Store a byte into the slot `address` selects, alias slots included.
    pub fn write(&mut self, address: u8, value: u8)
        requires
            old(self).wf(),
        ensures
            final(self).wf(),
            final(self).data@ == old(self).data@.update(palette_slot(address), value),
    {
        proof {
            assert(address & 0x1F < 32) by (bit_vector);
        }
        let addr = address & 0x1F;
        match addr {
            0x10 => self.data[0x00] = value,
            0x14 => self.data[0x04] = value,
            0x18 => self.data[0x08] = value,
            0x1C => self.data[0x0C] = value,
            _ => self.data[addr as usize] = value,
        }
    }

    /// The RGB triple of the colour a palette and colour index select.
    pub fn get_rgb(&self, palette_index: u8, color_index: u8) -> (r: (u8, u8, u8))
        requires
            self.wf(),
            palette_index * 4 + color_index <= 255,
        ensures
            r == spec_system_rgb(self.data@[palette_slot(
                (palette_index * 4 + color_index) as u8)]),
    {
        let index = self.read(palette_index * 4 + color_index);
        self.system_palette_to_rgb(index)
    }

    /// The NES master palette: one RGB triple for each of the 64 colours.
    fn system_palette_to_rgb(&self, index: u8) -> (r: (u8, u8, u8))
        ensures
            r == spec_system_rgb(index),
    {
        proof {
            assert(index & 0x3F < 64) by (bit_vector);
        }
        match index & 0x3F {
            0x00 => (84, 84, 84),
            0x01 => (0, 30, 116),
            0x02 => (8, 16, 144),
            0x03 => (48, 0, 136),
            0x04 => (68, 0, 100),
            0x05 => (92, 0, 48),
            0x06 => (84, 4, 0),
            0x07 => (60, 24, 0),
            0x08 => (32, 42, 0),
            0x09 => (8, 58, 0),
            0x0A => (0, 64, 0),
            0x0B => (0, 60, 0),
            0x0C => (0, 50, 60),
            0x0D => (0, 0, 0),
            0x0E => (0, 0, 0),
            0x0F => (0, 0, 0),
            0x10 => (152, 150, 152),
            0x11 => (8, 76, 196),
            0x12 => (48, 50, 236),
            0x13 => (92, 30, 228),
            0x14 => (136, 20, 176),
            0x15 => (160, 20, 100),
            0x16 => (152, 34, 32),
            0x17 => (120, 60, 0),
            0x18 => (84, 90, 0),
            0x19 => (40, 114, 0),
            0x1A => (8, 124, 0),
            0x1B => (0, 118, 40),
            0x1C => (0, 102, 120),
            0x1D => (0, 0, 0),
            0x1E => (0, 0, 0),
            0x1F => (0, 0, 0),
            0x20 => (236, 238, 236),
            0x21 => (76, 154, 236),
            0x22 => (120, 124, 236),
            0x23 => (176, 98, 236),
            0x24 => (228, 84, 236),
            0x25 => (236, 88, 180),
            0x26 => (236, 106, 100),
            0x27 => (212, 136, 32),
            0x28 => (160, 170, 0),
            0x29 => (116, 196, 0),
            0x2A => (76, 208, 32),
            0x2B => (56, 204, 108),
            0x2C => (56, 180, 204),
            0x2D => (60, 60, 60),
            0x2E => (0, 0, 0),
            0x2F => (0, 0, 0),
            0x30 => (236, 238, 236),
            0x31 => (168, 204, 236),
            0x32 => (188, 188, 236),
            0x33 => (212, 178, 236),
            0x34 => (236, 174, 236),
            0x35 => (236, 174, 212),
            0x36 => (236, 180, 176),
            0x37 => (228, 196, 144),
            0x38 => (204, 210, 120),
            0x39 => (180, 222, 120),
            0x3A => (168, 226, 144),
            0x3B => (152, 226, 180),
            0x3C => (160, 214, 228),
            0x3D => (160, 162, 160),
            0x3E => (0, 0, 0),
            0x3F => (0, 0, 0),
            _ => (0, 0, 0),
        }
    }
}

/// Writing any of the four alias slots and reading the background slot
/// it mirrors gives back the byte just written, and the other way
/// round: both addresses select the same cell.
pub proof fn lemma_palette_alias(pre: Palette, post: Palette, address: u8, value: u8)
    requires
        pre.wf(),
        address == 0x10 || address == 0x14 || address == 0x18 || address == 0x1C,
        post.data@ == pre.data@.update(palette_slot(address), value),
    ensures
        post.data@[palette_slot((address - 0x10) as u8)] == value,
        post.data@[palette_slot(address)] == value,
{
    assert(0x10u8 & 0x1F == 0x10 && 0x14u8 & 0x1F == 0x14 && 0x18u8 & 0x1F == 0x18
        && 0x1Cu8 & 0x1F == 0x1C && 0x00u8 & 0x1F == 0x00 && 0x04u8 & 0x1F == 0x04
        && 0x08u8 & 0x1F == 0x08 && 0x0Cu8 & 0x1F == 0x0C) by (bit_vector);
}

} // verus!
