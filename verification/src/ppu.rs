//! The picture processing unit: dot and scanline timing, the scroll
//! register protocol, VRAM and palette access through the register
//! window, VBlank and NMI generation, and the double-buffered frame.

use vstd::prelude::*;
use crate::error::{MemoryError, MemoryResult};
use crate::palette::palette_slot;
use crate::rom::zero_vec;

verus! {

/// The width of the frame in dots of one scanline.
pub const DOTS_PER_SCANLINE: u16 = 341;

/// The number of scanlines in one frame, the pre-render line included.
pub const SCANLINES_PER_FRAME: u16 = 262;

/// The PPU: its externally visible registers, its VRAM, palette and
/// sprite memory, the scroll register pair, the dot clock, and the two
/// frame buffers.
pub struct Ppu {
    /// Control register (`0x2000`).
    pub ctrl: u8,
    /// Mask register (`0x2001`).
    pub mask: u8,
    /// Status register (`0x2002`): VBlank, sprite-zero hit, overflow.
    pub status: u8,
    /// OAM address register (`0x2003`).
    pub oam_addr: u8,
    /// The internal read buffer behind `0x2007` reads.
    pub data: u8,
    /// Pattern memory (`0x0000-0x1FFF`).
    pub pattern_table: Vec<u8>,
    /// Nametable memory (`0x2000-0x2FFF`, mirrored to `0x3EFF`).
    pub name_table: Vec<u8>,
    /// The 32 bytes of palette RAM (`0x3F00-0x3FFF`).
    pub palette: Vec<u8>,
    /// Object attribute memory: four bytes for each of 64 sprites.
    pub oam: Vec<u8>,
    /// Dot counter within the scanline.
    pub cycle: u16,
    /// Scanline counter; 261 is the pre-render line.
    pub scanline: u16,
    /// Completed frames.
    pub frame: u64,
    /// Latched when VBlank begins with NMI enabled; the orchestrator
    /// takes it and interrupts the CPU.
    pub nmi_occurred: bool,
    /// Current VRAM address; 15 bits.
    pub v: u16,
    /// Temporary VRAM address; 15 bits.
    pub t: u16,
    /// Fine X scroll; 3 bits.
    pub x: u8,
    /// Write toggle for the two-write registers.
    pub w: bool,
    /// Odd-frame flag.
    pub f: bool,
    /// The completed frame shown to the host.
    pub front_buffer: Vec<u8>,
    /// The frame being drawn.
    pub back_buffer: Vec<u8>,
}

/// Whether the mask register enables background rendering.
pub open spec fn bg_enabled(mask: u8) -> bool {
    mask & 0x08 != 0
}

/// The (scanline, dot) pair one tick after `(s, c)`: the dot steps
/// forward, wraps at 341 into the next scanline, and the scanline wraps
/// at 262 into the next frame. On an odd frame with background
/// rendering enabled the pre-render line ends one dot early.
pub open spec fn next_dot(s: u16, c: u16, odd: bool, bg: bool) -> (u16, u16) {
    if s == 261 && c == 339 && odd && bg {
        (0u16, 0u16)
    } else if c >= 340 {
        if s >= 261 {
            (0u16, 0u16)
        } else {
            ((s + 1) as u16, 0u16)
        }
    } else {
        (s, (c + 1) as u16)
    }
}

/// Whether the tick taken from this state completes a frame: the dot
/// clock wraps to (0, 0) from anywhere but the frame's very first dot.
pub open spec fn ppu_frame_done(pre: Ppu) -> bool {
    let (s2, c2) = next_dot(pre.scanline, pre.cycle, pre.f, bg_enabled(pre.mask));
    s2 == 0 && c2 == 0 && !(pre.scanline == 0 && pre.cycle == 0)
}

/// Everything one dot tick does: the (scanline, dot) pair advances per
/// `next_dot`; a completed frame bumps the frame counter and flips the
/// odd-frame flag; entering dot 1 of scanline 241 sets VBlank (latching
/// an NMI when enabled) and dot 1 of the pre-render line clears the
/// status flags; all registers, scroll state and memories are untouched.
#[verifier::opaque]
pub open spec fn ppu_step_rel(pre: Ppu, post: Ppu) -> bool {
    let (s2, c2) = next_dot(pre.scanline, pre.cycle, pre.f, bg_enabled(pre.mask));
    &&& post.scanline == s2
    &&& post.cycle == c2
    &&& post.frame == (if ppu_frame_done(pre) {
        pre.frame.wrapping_add(1)
    } else {
        pre.frame
    })
    &&& post.f == (if ppu_frame_done(pre) {
        !pre.f
    } else {
        pre.f
    })
    &&& post.status == (if s2 == 241 && c2 == 1 {
        pre.status | 0x80
    } else if s2 == 261 && c2 == 1 {
        pre.status & 0x1F
    } else {
        pre.status
    })
    &&& post.nmi_occurred == (if s2 == 241 && c2 == 1 && pre.ctrl & 0x80 != 0 {
        true
    } else {
        pre.nmi_occurred
    })
    &&& post.ctrl == pre.ctrl && post.mask == pre.mask && post.oam_addr == pre.oam_addr
        && post.data == pre.data && post.v == pre.v && post.t == pre.t && post.x == pre.x
        && post.w == pre.w
    &&& same_ppu_mem(pre, post)
}

/// The two frame buffers exchanged, everything else untouched.
pub open spec fn swap_rel(pre: Ppu, post: Ppu) -> bool {
    post == (Ppu { front_buffer: pre.back_buffer, back_buffer: pre.front_buffer, ..pre })
}

/// The VRAM cell behind a PPU address, mirrored down to 14 bits:
/// pattern memory, nametables (with their `0x3000` mirror), or palette.
pub open spec fn vram_read_spec(p: Ppu, address: u16) -> u8 {
    let a = address & 0x3FFF;
    if a < 0x2000 {
        p.pattern_table@[a as int]
    } else if a < 0x3000 {
        p.name_table@[(a - 0x2000) % 0x1000]
    } else if a < 0x3F00 {
        p.name_table@[(a - 0x3000) % 0x1000]
    } else {
        p.palette@[palette_slot((a & 0x1F) as u8)]
    }
}

/// How a VRAM write changes the PPU's memories: exactly one cell of the
/// region the mirrored address selects.
pub open spec fn vram_write_rel(pre: Ppu, post: Ppu, address: u16, value: u8) -> bool {
    let a = address & 0x3FFF;
    &&& post.pattern_table@ == (if a < 0x2000 {
        pre.pattern_table@.update(a as int, value)
    } else {
        pre.pattern_table@
    })
    &&& post.name_table@ == (if 0x2000 <= a && a < 0x3000 {
        pre.name_table@.update((a - 0x2000) % 0x1000, value)
    } else if 0x3000 <= a && a < 0x3F00 {
        pre.name_table@.update((a - 0x3000) % 0x1000, value)
    } else {
        pre.name_table@
    })
    &&& post.palette@ == (if a >= 0x3F00 {
        pre.palette@.update(palette_slot((a & 0x1F) as u8), value)
    } else {
        pre.palette@
    })
    &&& post.oam@ == pre.oam@
}

/// The registers, scroll state and timing state are unchanged.
pub open spec fn same_ppu_regs(pre: Ppu, post: Ppu) -> bool {
    &&& post.ctrl == pre.ctrl
    &&& post.mask == pre.mask
    &&& post.status == pre.status
    &&& post.oam_addr == pre.oam_addr
    &&& post.data == pre.data
    &&& post.v == pre.v
    &&& post.t == pre.t
    &&& post.x == pre.x
    &&& post.w == pre.w
}

/// The dot clock and frame state are unchanged.
pub open spec fn same_ppu_timing(pre: Ppu, post: Ppu) -> bool {
    &&& post.cycle == pre.cycle
    &&& post.scanline == pre.scanline
    &&& post.frame == pre.frame
    &&& post.nmi_occurred == pre.nmi_occurred
    &&& post.f == pre.f
}

/// The VRAM, palette, sprite memory and both frame buffers are unchanged.
pub open spec fn same_ppu_mem(pre: Ppu, post: Ppu) -> bool {
    &&& post.pattern_table@ == pre.pattern_table@
    &&& post.name_table@ == pre.name_table@
    &&& post.palette@ == pre.palette@
    &&& post.oam@ == pre.oam@
    &&& post.front_buffer@ == pre.front_buffer@
    &&& post.back_buffer@ == pre.back_buffer@
}

/// The address the VRAM pointer steps by after a `0x2007` access: one
/// row (32) when control bit 2 is set, else one byte. The pointer stays
/// inside its 15 bits.
pub open spec fn v_next(v: u16, ctrl: u8) -> u16 {
    if ctrl & 0x04 != 0 {
        ((v + 32) % 0x8000) as u16
    } else {
        ((v + 1) % 0x8000) as u16
    }
}

/// Everything a read of one CPU-visible PPU register does, with the
/// result it returns: the status read clears VBlank and the write
/// toggle, the OAM read is side-effect free, the data read returns the
/// buffer (palette reads bypass it), refills it and steps the VRAM
/// pointer, and a write-only register refuses the read and changes
/// nothing.
#[verifier::opaque]
pub open spec fn ppu_reg_read_rel(pre: Ppu, post: Ppu, address: u16, r: MemoryResult<u8>) -> bool {
    &&& same_ppu_mem(pre, post)
    &&& same_ppu_timing(pre, post)
    &&& (address == 0x2002 ==> r == Ok::<u8, MemoryError>(pre.status) && post.status == (pre.status
        & 0x7F) && post.w == false && post.ctrl == pre.ctrl && post.mask == pre.mask
        && post.oam_addr == pre.oam_addr && post.data == pre.data && post.v == pre.v && post.t
        == pre.t && post.x == pre.x)
    &&& (address == 0x2004 ==> r == Ok::<u8, MemoryError>(pre.oam@[pre.oam_addr as int])
        && same_ppu_regs(pre, post))
    &&& (address == 0x2007 ==> r == Ok::<u8, MemoryError>(
        if pre.v & 0x3FFF >= 0x3F00 {
            vram_read_spec(pre, pre.v)
        } else {
            pre.data
        },
    ) && post.data == vram_read_spec(pre, pre.v) && post.v == v_next(pre.v, pre.ctrl) && post.ctrl
        == pre.ctrl && post.mask == pre.mask && post.status == pre.status && post.oam_addr
        == pre.oam_addr && post.t == pre.t && post.x == pre.x && post.w == pre.w)
    &&& (!(address == 0x2002 || address == 0x2004 || address == 0x2007) ==> r == Err::<u8,
        MemoryError>(MemoryError::InvalidRegion(address)) && post == pre)
}

/// Everything a write of one CPU-visible PPU register does: control and
/// mask store their bytes (control also feeds the nametable bits of the
/// temporary address), the OAM pair drives sprite memory, the scroll and
/// address pair run the two-write protocol, the data write stores
/// through the VRAM pointer and steps it, and a write to the read-only
/// status register is refused and changes nothing.
#[verifier::opaque]
pub open spec fn ppu_reg_write_rel(pre: Ppu, post: Ppu, address: u16, value: u8, r: MemoryResult<
    (),
>) -> bool {
    &&& same_ppu_timing(pre, post)
    &&& (address == 0x2000 ==> r == Ok::<(), MemoryError>(()) && post.ctrl == value && post.t == ((
    pre.t & 0xF3FF) | (((value & 0x03) as u16) << 10)) && post.mask == pre.mask && post.status
        == pre.status && post.oam_addr == pre.oam_addr && post.data == pre.data && post.v == pre.v
        && post.x == pre.x && post.w == pre.w && same_ppu_mem(pre, post))
    &&& (address == 0x2001 ==> r == Ok::<(), MemoryError>(()) && post.mask == value && post.ctrl
        == pre.ctrl && post.status == pre.status && post.oam_addr == pre.oam_addr && post.data
        == pre.data && post.v == pre.v && post.t == pre.t && post.x == pre.x && post.w == pre.w
        && same_ppu_mem(pre, post))
    &&& (address == 0x2003 ==> r == Ok::<(), MemoryError>(()) && post.oam_addr == value && post.ctrl
        == pre.ctrl && post.mask == pre.mask && post.status == pre.status && post.data == pre.data
        && post.v == pre.v && post.t == pre.t && post.x == pre.x && post.w == pre.w
        && same_ppu_mem(pre, post))
    &&& (address == 0x2004 ==> r == Ok::<(), MemoryError>(()) && post.oam@ == pre.oam@.update(
        pre.oam_addr as int, value) && post.oam_addr == pre.oam_addr.wrapping_add(1) && post.ctrl
        == pre.ctrl && post.mask == pre.mask && post.status == pre.status && post.data == pre.data
        && post.v == pre.v && post.t == pre.t && post.x == pre.x && post.w == pre.w
        && post.pattern_table@ == pre.pattern_table@ && post.name_table@ == pre.name_table@
        && post.palette@ == pre.palette@ && post.front_buffer@ == pre.front_buffer@
        && post.back_buffer@ == pre.back_buffer@)
    &&& (address == 0x2005 ==> r == Ok::<(), MemoryError>(()) && same_ppu_mem(pre, post)
        && post.ctrl == pre.ctrl && post.mask == pre.mask && post.status == pre.status
        && post.oam_addr == pre.oam_addr && post.data == pre.data && post.v == pre.v && (
    if !pre.w {
        &&& post.t == ((pre.t & 0xFFE0) | ((value as u16) >> 3))
        &&& post.x == (value & 0x07)
        &&& post.w == true
    } else {
        &&& post.t == (((pre.t & 0x8FFF) | (((value & 0x07) as u16) << 12)) & 0xFC1F | (((value
            & 0xF8) as u16) << 2))
        &&& post.x == pre.x
        &&& post.w == false
    }))
    &&& (address == 0x2006 ==> r == Ok::<(), MemoryError>(()) && same_ppu_mem(pre, post)
        && post.ctrl == pre.ctrl && post.mask == pre.mask && post.status == pre.status
        && post.oam_addr == pre.oam_addr && post.data == pre.data && post.x == pre.x && (
    if !pre.w {
        &&& post.t == ((pre.t & 0x80FF) | (((value & 0x3F) as u16) << 8))
        &&& post.v == pre.v
        &&& post.w == true
    } else {
        &&& post.t == ((pre.t & 0xFF00) | value as u16)
        &&& post.v == post.t
        &&& post.w == false
    }))
    &&& (address == 0x2007 ==> r == Ok::<(), MemoryError>(()) && vram_write_rel(pre, post, pre.v,
        value) && post.v == v_next(pre.v, pre.ctrl) && post.ctrl == pre.ctrl && post.mask
        == pre.mask && post.status == pre.status && post.oam_addr == pre.oam_addr && post.data
        == pre.data && post.t == pre.t && post.x == pre.x && post.w == pre.w && post.front_buffer@
        == pre.front_buffer@ && post.back_buffer@ == pre.back_buffer@)
    &&& (!(address == 0x2000 || address == 0x2001 || address == 0x2003 || address == 0x2004
        || address == 0x2005 || address == 0x2006 || address == 0x2007) ==> r == Err::<(),
        MemoryError>(MemoryError::InvalidRegion(address)) && post == pre)
}

impl Ppu {
    /// Every memory region has its full size, the scroll registers fit
    /// in 15 bits, and the dot clock is inside one frame.
    pub open spec fn wf(&self) -> bool {
        &&& self.pattern_table@.len() == 0x2000
        &&& self.name_table@.len() == 0x1000
        &&& self.palette@.len() == 32
        &&& self.oam@.len() == 256
        &&& self.front_buffer@.len() == 256 * 240 * 3
        &&& self.back_buffer@.len() == 256 * 240 * 3
        &&& self.v < 0x8000
        &&& self.t < 0x8000
        &&& self.cycle < 341
        &&& self.scanline < 262
    }

    /// A PPU in its power-on state: everything zeroed, even frame.
    pub fn new() -> (r: Ppu)
        ensures
            r.wf(),
            r.ctrl == 0 && r.mask == 0 && r.status == 0 && r.oam_addr == 0 && r.data == 0,
            r.cycle == 0 && r.scanline == 0 && r.frame == 0,
            !r.nmi_occurred && !r.w && !r.f,
            r.v == 0 && r.t == 0 && r.x == 0,
    {
        Ppu {
            ctrl: 0,
            mask: 0,
            status: 0,
            oam_addr: 0,
            data: 0,
            pattern_table: zero_vec(0x2000),
            name_table: zero_vec(0x1000),
            palette: zero_vec(32),
            oam: zero_vec(256),
            cycle: 0,
            scanline: 0,
            frame: 0,
            nmi_occurred: false,
            v: 0,
            t: 0,
            x: 0,
            w: false,
            f: false,
            front_buffer: zero_vec(256 * 240 * 3),
            back_buffer: zero_vec(256 * 240 * 3),
        }
    }

    /// Back to the power-on register and timing state; memories keep
    /// their contents.
    pub fn reset(&mut self)
        requires
            old(self).wf(),
        ensures
            final(self).wf(),
            final(self).ctrl == 0 && final(self).mask == 0 && final(self).status == 0,
            final(self).oam_addr == 0 && final(self).data == 0,
            final(self).cycle == 0 && final(self).scanline == 0 && final(self).frame == 0,
            !final(self).nmi_occurred && !final(self).w && !final(self).f,
            final(self).v == 0 && final(self).t == 0 && final(self).x == 0,
            same_ppu_mem(*old(self), *final(self)),
    {
        self.cycle = 0;
        self.scanline = 0;
        self.frame = 0;
        self.ctrl = 0;
        self.mask = 0;
        self.status = 0;
        self.oam_addr = 0;
        self.data = 0;
        self.v = 0;
        self.t = 0;
        self.x = 0;
        self.w = false;
        self.f = false;
        self.nmi_occurred = false;
    }

    /// Advance the dot clock by one tick. The (scanline, dot) pair steps
    /// modulo (262, 341), skipping the pre-render line's last dot on odd
    /// frames when background rendering is on. Entering dot 1 of
    /// scanline 241 sets the VBlank flag and, with NMI enabled in the
    /// control register, latches an NMI; entering dot 1 of the
    /// pre-render line clears VBlank, sprite-zero hit and overflow. The
    /// call reports whether a frame just completed.
    pub fn step(&mut self) -> (r: MemoryResult<bool>)
        requires
            old(self).wf(),
        ensures
            final(self).wf(),
            ppu_step_rel(*old(self), *final(self)),
            r == Ok::<bool, MemoryError>(ppu_frame_done(*old(self))),
    {
        proof {
            reveal(ppu_step_rel);
        }
        let starting_fresh_frame = self.scanline == 0 && self.cycle == 0;

        if self.scanline == 261 && self.cycle == 339 && self.f && (self.mask & 0x08) != 0 {
            // Odd frames with rendering on skip the last pre-render dot.
            self.scanline = 0;
            self.cycle = 0;
        } else if self.cycle >= 340 {
            self.cycle = 0;
            if self.scanline >= 261 {
                self.scanline = 0;
            } else {
                self.scanline = self.scanline + 1;
            }
        } else {
            self.cycle = self.cycle + 1;
        }

        let completed = self.scanline == 0 && self.cycle == 0 && !starting_fresh_frame;
        if completed {
            self.frame = self.frame.wrapping_add(1);
            self.f = !self.f;
        }

        if self.scanline == 241 && self.cycle == 1 {
            self.status = self.status | 0x80;
            if self.ctrl & 0x80 != 0 {
                self.nmi_occurred = true;
            }
        }
        if self.scanline == 261 && self.cycle == 1 {
            self.status = self.status & 0x1F;
        }

        Ok(completed)
    }

    /// Read a PPU register through the CPU-visible window. Reading the
    /// status register returns it, then clears VBlank and the write
    /// toggle; reading `0x2007` returns the internal buffer, refills it
    /// from VRAM and steps the VRAM pointer. Reading a write-only
    /// register is refused.
    pub fn read_register(&mut self, address: u16) -> (r: MemoryResult<u8>)
        requires
            old(self).wf(),
        ensures
            final(self).wf(),
            ppu_reg_read_rel(*old(self), *final(self), address, r),
    {
        proof {
            reveal(ppu_reg_read_rel);
        }
        if address == 0x2002 {
            let result = self.status;
            self.status = self.status & 0x7F;
            self.w = false;
            Ok(result)
        } else if address == 0x2004 {
            Ok(self.oam[self.oam_addr as usize])
        } else if address == 0x2007 {
            // Palette reads bypass the buffer and return at once; other
            // VRAM reads return the buffer and refill it.
            let buffered = self.data;
            self.data = self.read_memory(self.v);
            let result = if self.v & 0x3FFF >= 0x3F00 {
                self.data
            } else {
                buffered
            };
            self.v = self.increment_v();
            Ok(result)
        } else {
            Err(MemoryError::InvalidRegion(address))
        }
    }

    /// The VRAM pointer after one `0x2007` access.
    fn increment_v(&self) -> (r: u16)
        requires
            self.wf(),
        ensures
            r == v_next(self.v, self.ctrl),
            r < 0x8000,
    {
        let step: u16 = if self.ctrl & 0x04 != 0 {
            32
        } else {
            1
        };
        (self.v + step) % 0x8000
    }

    /// Write a PPU register through the CPU-visible window: control and
    /// mask store their bytes (control also feeds the nametable bits of
    /// `t`), `0x2003`/`0x2004` drive OAM, `0x2005` and `0x2006` run the
    /// two-write scroll and address protocol on `t`, `w` and `x`, and
    /// `0x2007` stores through the VRAM pointer and steps it. Writing
    /// the read-only status register is refused.
    pub fn write_register(&mut self, address: u16, value: u8) -> (r: MemoryResult<()>)
        requires
            old(self).wf(),
        ensures
            final(self).wf(),
            ppu_reg_write_rel(*old(self), *final(self), address, value, r),
    {
        proof {
            reveal(ppu_reg_write_rel);
        }
        if address == 0x2000 {
            self.ctrl = value;
            proof {
                let t0 = self.t;
                assert((t0 & 0xF3FF) | (((value & 0x03) as u16) << 10) < 0x8000) by (bit_vector)
                    requires
                        t0 < 0x8000,
                ;
            }
            self.t = (self.t & 0xF3FF) | (((value & 0x03) as u16) << 10);
            Ok(())
        } else if address == 0x2001 {
            self.mask = value;
            Ok(())
        } else if address == 0x2003 {
            self.oam_addr = value;
            Ok(())
        } else if address == 0x2004 {
            self.oam[self.oam_addr as usize] = value;
            self.oam_addr = self.oam_addr.wrapping_add(1);
            Ok(())
        } else if address == 0x2005 {
            if !self.w {
                proof {
                    let t0 = self.t;
                    assert((t0 & 0xFFE0) | ((value as u16) >> 3) < 0x8000) by (bit_vector)
                        requires
                            t0 < 0x8000,
                    ;
                }
                self.t = (self.t & 0xFFE0) | ((value as u16) >> 3);
                self.x = value & 0x07;
                self.w = true;
            } else {
                proof {
                    let t0 = self.t;
                    assert(((t0 & 0x8FFF) | (((value & 0x07) as u16) << 12)) & 0xFC1F | (((value
                        & 0xF8) as u16) << 2) < 0x8000) by (bit_vector)
                        requires
                            t0 < 0x8000,
                    ;
                }
                self.t = (self.t & 0x8FFF) | (((value & 0x07) as u16) << 12);
                self.t = (self.t & 0xFC1F) | (((value & 0xF8) as u16) << 2);
                self.w = false;
            }
            Ok(())
        } else if address == 0x2006 {
            if !self.w {
                proof {
                    let t0 = self.t;
                    assert((t0 & 0x80FF) | (((value & 0x3F) as u16) << 8) < 0x8000) by (bit_vector)
                        requires
                            t0 < 0x8000,
                    ;
                }
                self.t = (self.t & 0x80FF) | (((value & 0x3F) as u16) << 8);
                self.w = true;
            } else {
                proof {
                    let t0 = self.t;
                    assert((t0 & 0xFF00) | (value as u16) < 0x8000) by (bit_vector)
                        requires
                            t0 < 0x8000,
                    ;
                }
                self.t = (self.t & 0xFF00) | (value as u16);
                self.v = self.t;
                self.w = false;
            }
            Ok(())
        } else if address == 0x2007 {
            let v = self.v;
            self.write_memory(v, value);
            self.v = self.increment_v();
            Ok(())
        } else {
            Err(MemoryError::InvalidRegion(address))
        }
    }

    /// The VRAM byte behind a (mirrored) PPU address.
    fn read_memory(&self, address: u16) -> (r: u8)
        requires
            self.wf(),
        ensures
            r == vram_read_spec(*self, address),
    {
        proof {
            assert(address & 0x3FFF < 0x4000 && (address & 0x3FFF) & 0x1F < 32
                && (((address & 0x3FFF) & 0x1F) as u8) & 0x1F == ((address & 0x3FFF) & 0x1F) as u8)
                by (bit_vector);
        }
        let a = address & 0x3FFF;
        if a < 0x2000 {
            self.pattern_table[a as usize]
        } else if a < 0x3000 {
            self.name_table[((a - 0x2000) % 0x1000) as usize]
        } else if a < 0x3F00 {
            self.name_table[((a - 0x3000) % 0x1000) as usize]
        } else {
            let slot = (a & 0x1F) as u8;
            if slot == 0x10 {
                self.palette[0x00]
            } else if slot == 0x14 {
                self.palette[0x04]
            } else if slot == 0x18 {
                self.palette[0x08]
            } else if slot == 0x1C {
                self.palette[0x0C]
            } else {
                self.palette[slot as usize]
            }
        }
    }

    /// Store a byte into the VRAM cell behind a (mirrored) PPU address.
    fn write_memory(&mut self, address: u16, value: u8)
        requires
            old(self).wf(),
        ensures
            final(self).wf(),
            vram_write_rel(*old(self), *final(self), address, value),
            same_ppu_regs(*old(self), *final(self)),
            same_ppu_timing(*old(self), *final(self)),
            final(self).front_buffer@ == old(self).front_buffer@,
            final(self).back_buffer@ == old(self).back_buffer@,
    {
        proof {
            assert(address & 0x3FFF < 0x4000 && (address & 0x3FFF) & 0x1F < 32
                && (((address & 0x3FFF) & 0x1F) as u8) & 0x1F == ((address & 0x3FFF) & 0x1F) as u8)
                by (bit_vector);
        }
        let a = address & 0x3FFF;
        if a < 0x2000 {
            self.pattern_table[a as usize] = value;
        } else if a < 0x3000 {
            self.name_table[((a - 0x2000) % 0x1000) as usize] = value;
        } else if a < 0x3F00 {
            self.name_table[((a - 0x3000) % 0x1000) as usize] = value;
        } else {
            let slot = (a & 0x1F) as u8;
            if slot == 0x10 {
                self.palette[0x00] = value;
            } else if slot == 0x14 {
                self.palette[0x04] = value;
            } else if slot == 0x18 {
                self.palette[0x08] = value;
            } else if slot == 0x1C {
                self.palette[0x0C] = value;
            } else {
                self.palette[slot as usize] = value;
            }
        }
    }

    /// Take the latched NMI request, clearing the latch: the
    /// orchestrator calls this once per tick batch and interrupts the
    /// CPU when it returns true.
    pub fn take_nmi(&mut self) -> (r: bool)
        requires
            old(self).wf(),
        ensures
            final(self).wf(),
            r == old(self).nmi_occurred,
            *final(self) == (Ppu { nmi_occurred: false, ..*old(self) }),
    {
        let r = self.nmi_occurred;
        self.nmi_occurred = false;
        r
    }

    /// The completed frame, for the host to show.
    pub fn get_frame_buffer(&self) -> (r: &Vec<u8>)
        ensures
            r@ == self.front_buffer@,
    {
        &self.front_buffer
    }

    /// Swap the completed frame with the one being drawn.
    pub fn swap_buffers(&mut self)
        requires
            old(self).wf(),
        ensures
            final(self).wf(),
            swap_rel(*old(self), *final(self)),
    {
        core::mem::swap(&mut self.front_buffer, &mut self.back_buffer);
    }
}

/// Two consecutive reads of the status register clear VBlank on the
/// first: whatever the second returns has the VBlank bit clear, and the
/// register itself stays cleared.
pub proof fn lemma_status_read_idempotent(s0: u8, s1: u8, s2: u8)
    requires
        s1 == s0 & 0x7F,
        s2 == s1 & 0x7F,
    ensures
        s1 & 0x80 == 0,
        s2 == s1,
{
    assert((s0 & 0x7F) & 0x80 == 0 && (s0 & 0x7F) & 0x7F == s0 & 0x7F) by (bit_vector);
}

/// The master-palette index of the screen pixel at `(x, y)`, read from
/// CHR pattern data laid out as a flat grid of 8-by-8 tiles, 32 tiles to
/// a row: two bit planes per tile give a two-bit colour, mapped onto
/// black, the two grays and white. Where the pattern data does not
/// cover the pixel, a checkerboard test pattern stands in.
pub open spec fn pixel_color_spec(chr: Seq<u8>, x: u32, y: u32) -> u8 {
    let tile_index = (y / 8) * 32 + x / 8;
    let pixel_x = x % 8;
    let pixel_y = y % 8;
    if chr.len() > 0 && tile_index * 16 + 15 < chr.len() {
        let tile_offset = tile_index * 16;
        let low_byte = chr[tile_offset + pixel_y];
        let high_byte = chr[tile_offset + 8 + pixel_y];
        let bit_pos = (7 - pixel_x) as u8;
        let low_bit = (low_byte >> bit_pos) & 1;
        let high_bit = (high_byte >> bit_pos) & 1;
        let color_index = (high_bit << 1) | low_bit;
        if color_index == 0 {
            0x0F
        } else if color_index == 1 {
            0x00
        } else if color_index == 2 {
            0x10
        } else {
            0x20
        }
    } else {
        if ((x / 8) + (y / 8)) % 2 == 0 {
            (((x + y) / 8) % 64) as u8
        } else {
            (((x * 2 + y) / 16) % 64) as u8
        }
    }
}

/// Compute the master-palette index shown at screen pixel `(x, y)` from
/// flat CHR pattern data; see `pixel_color_spec`.
pub fn get_pixel_color(chr_data: &[u8], x: u32, y: u32) -> (r: u8)
    requires
        x < 256,
        y < 240,
    ensures
        r == pixel_color_spec(chr_data@, x, y),
{
    let tile_x = x / 8;
    let tile_y = y / 8;
    let tiles_per_row: u32 = 32;
    let tile_index = (tile_y * tiles_per_row + tile_x) as usize;

    let pixel_x = x % 8;
    let pixel_y = y % 8;

    if chr_data.len() > 0 && tile_index * 16 + 15 < chr_data.len() {
        let tile_offset = tile_index * 16;

        let low_byte = chr_data[tile_offset + pixel_y as usize];
        let high_byte = chr_data[tile_offset + 8 + pixel_y as usize];

        let bit_pos = (7 - pixel_x) as u8;
        proof {
            let b = bit_pos;
            assert(b < 8 ==> b < 64) by (bit_vector);
        }
        let low_bit = (low_byte >> bit_pos) & 1;
        let high_bit = (high_byte >> bit_pos) & 1;

        let color_index = (high_bit << 1) | low_bit;

        if color_index == 0 {
            0x0F
        } else if color_index == 1 {
            0x00
        } else if color_index == 2 {
            0x10
        } else {
            0x20
        }
    } else {
        if (tile_x + tile_y) % 2 == 0 {
            (((x + y) / 8) % 64) as u8
        } else {
            (((x * 2 + y) / 16) % 64) as u8
        }
    }
}

} // verus!

