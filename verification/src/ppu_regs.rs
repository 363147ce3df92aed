//! Bit-level views of the three PPU registers a program reads and
//! writes most: control, mask and status.

use vstd::prelude::*;

verus! {

/// The PPU control register (`0x2000`).
pub struct PpuControl(pub u8);

impl PpuControl {
    pub fn nametable_x(&self) -> (r: u8)
        ensures
            r == (self.0 & 0x01),
    {
        self.0 & 0x01
    }

    pub fn nametable_y(&self) -> (r: u8)
        ensures
            r == ((self.0 & 0x02) >> 1),
    {
        (self.0 & 0x02) >> 1
    }

    pub fn vram_increment(&self) -> (r: u8)
        ensures
            r == ((self.0 & 0x04) >> 2),
    {
        (self.0 & 0x04) >> 2
    }

    pub fn sprite_pattern_table(&self) -> (r: u8)
        ensures
            r == ((self.0 & 0x08) >> 3),
    {
        (self.0 & 0x08) >> 3
    }

    pub fn background_pattern_table(&self) -> (r: u8)
        ensures
            r == ((self.0 & 0x10) >> 4),
    {
        (self.0 & 0x10) >> 4
    }

    pub fn sprite_size(&self) -> (r: u8)
        ensures
            r == ((self.0 & 0x20) >> 5),
    {
        (self.0 & 0x20) >> 5
    }

    pub fn master_slave(&self) -> (r: u8)
        ensures
            r == ((self.0 & 0x40) >> 6),
    {
        (self.0 & 0x40) >> 6
    }

    pub fn nmi_enable(&self) -> (r: bool)
        ensures
            r == (self.0 & 0x80 != 0),
    {
        (self.0 & 0x80) != 0
    }
}

/// The PPU mask register (`0x2001`).
pub struct PpuMask(pub u8);

impl PpuMask {
    pub fn grayscale(&self) -> (r: bool)
        ensures
            r == (self.0 & 0x01 != 0),
    {
        (self.0 & 0x01) != 0
    }

    pub fn show_background_left(&self) -> (r: bool)
        ensures
            r == (self.0 & 0x02 != 0),
    {
        (self.0 & 0x02) != 0
    }

    pub fn show_sprites_left(&self) -> (r: bool)
        ensures
            r == (self.0 & 0x04 != 0),
    {
        (self.0 & 0x04) != 0
    }

    pub fn show_background(&self) -> (r: bool)
        ensures
            r == (self.0 & 0x08 != 0),
    {
        (self.0 & 0x08) != 0
    }

    pub fn show_sprites(&self) -> (r: bool)
        ensures
            r == (self.0 & 0x10 != 0),
    {
        (self.0 & 0x10) != 0
    }

    pub fn emphasize_red(&self) -> (r: bool)
        ensures
            r == (self.0 & 0x20 != 0),
    {
        (self.0 & 0x20) != 0
    }

    pub fn emphasize_green(&self) -> (r: bool)
        ensures
            r == (self.0 & 0x40 != 0),
    {
        (self.0 & 0x40) != 0
    }

    pub fn emphasize_blue(&self) -> (r: bool)
        ensures
            r == (self.0 & 0x80 != 0),
    {
        (self.0 & 0x80) != 0
    }
}

/// The PPU status register (`0x2002`).
pub struct PpuStatus(pub u8);

impl PpuStatus {
    pub fn sprite_overflow(&self) -> (r: bool)
        ensures
            r == (self.0 & 0x20 != 0),
    {
        (self.0 & 0x20) != 0
    }

    pub fn sprite_zero_hit(&self) -> (r: bool)
        ensures
            r == (self.0 & 0x40 != 0),
    {
        (self.0 & 0x40) != 0
    }

    pub fn vblank(&self) -> (r: bool)
        ensures
            r == (self.0 & 0x80 != 0),
    {
        (self.0 & 0x80) != 0
    }

    pub fn set_sprite_overflow(&mut self, value: bool)
        ensures
            final(self).0 == crate::flags::set_flag_bits(old(self).0, 0x20, value),
    {
        if value {
            self.0 = self.0 | 0x20;
        } else {
            self.0 = self.0 & !0x20;
        }
    }

    pub fn set_sprite_zero_hit(&mut self, value: bool)
        ensures
            final(self).0 == crate::flags::set_flag_bits(old(self).0, 0x40, value),
    {
        if value {
            self.0 = self.0 | 0x40;
        } else {
            self.0 = self.0 & !0x40;
        }
    }

    pub fn set_vblank(&mut self, value: bool)
        ensures
            final(self).0 == crate::flags::set_flag_bits(old(self).0, 0x80, value),
    {
        if value {
            self.0 = self.0 | 0x80;
        } else {
            self.0 = self.0 & !0x80;
        }
    }
}

} // verus!
