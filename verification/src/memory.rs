//! The CPU-visible memory map: 2 KiB of internal RAM mirrored four
//! times, the PPU register window, the APU and I/O register block,
//! 8 KiB of PRG RAM, and the cartridge's PRG ROM.

use vstd::prelude::*;
use crate::bit_utils;
use crate::rom::{Rom, prg_byte_spec};
use crate::rom::zero_vec;

verus! {

/// Byte-addressed storage with a 16-bit address space. `read_spec` is
/// the value a read returns, `write_rel` relates the storage before and
/// after a write; little-endian word access is built from both.
pub trait Memory: Sized {
    /// The storage's internal validity: every region has its full size.
    spec fn inv(&self) -> bool;

    /// The byte a read of `addr` returns.
    spec fn read_spec(&self, addr: u16) -> u8;

    /// How a write of `value` to `addr` changes the storage.
    spec fn write_rel(pre: Self, post: Self, addr: u16, value: u8) -> bool;

    fn read_byte(&self, address: u16) -> (r: u8)
        requires
            self.inv(),
        ensures
            r == self.read_spec(address),
    ;

    fn write_byte(&mut self, address: u16, value: u8)
        requires
            old(self).inv(),
        ensures
            final(self).inv(),
            Self::write_rel(*old(self), *final(self), address, value),
    ;

    fn read_word(&self, address: u16) -> (r: u16)
        requires
            self.inv(),
            address < 0xFFFF,
        ensures
            r == bit_utils::word(self.read_spec(address), self.read_spec((address + 1) as u16)),
    ;

    fn write_word(&mut self, address: u16, value: u16)
        requires
            old(self).inv(),
            address < 0xFFFF,
        ensures
            final(self).inv(),
            exists|mid: Self|
                Self::write_rel(*old(self), mid, address, (value & 0xFF) as u8)
                    && Self::write_rel(mid, *final(self), (address + 1) as u16, (value >> 8) as u8)
                    && mid.inv(),
    ;
}

/// The CPU's memory map, with each region stored at its real size and
/// mirrors resolved on access. Reads and writes here are plain storage,
/// even in the two register windows: the CPU's own fetches see these
/// bytes, and the registers' side effects live with the PPU and APU
/// themselves, reached through the orchestrator's bus methods. One
/// deliberate quirk is kept: the test block `0x4018-0x401F` aliases the
/// first eight APU slots, so a write to `0x4018` lands in the byte
/// stored for `0x4000`.
pub struct NesMemory {
    /// The 2 KiB of internal RAM behind `0x0000-0x1FFF`.
    pub internal_ram: Vec<u8>,
    /// The eight PPU register slots behind `0x2000-0x3FFF`.
    pub ppu_registers: Vec<u8>,
    /// The 32 APU and I/O register slots behind `0x4000-0x401F`.
    pub apu_io_registers: Vec<u8>,
    /// The cartridge, once one is loaded.
    pub rom: Option<Rom>,
    /// The 8 KiB of PRG RAM behind `0x6000-0x7FFF`.
    pub prg_ram: Vec<u8>,
}

/// The value a read of `addr` returns from this memory map. The PPU and
/// APU register windows read back the stored bytes (no side effects
/// here); the test block `0x4018-0x401F` aliases the first eight APU
/// slots.
pub open spec fn nes_read_spec(m: NesMemory, addr: u16) -> u8 {
    if addr < 0x2000 {
        m.internal_ram@[(addr & 0x07FF) as int]
    } else if addr < 0x4000 {
        m.ppu_registers@[(addr & 0x0007) as int]
    } else if addr <= 0x4017 {
        m.apu_io_registers@[addr - 0x4000]
    } else if addr <= 0x401F {
        m.apu_io_registers@[addr - 0x4018]
    } else if 0x6000 <= addr && addr < 0x8000 {
        m.prg_ram@[addr - 0x6000]
    } else if addr >= 0x8000 {
        match m.rom {
            Some(rom) => prg_byte_spec(rom, (addr - 0x8000) as u16),
            None => 0,
        }
    } else {
        0
    }
}

/// How a write of `value` to `addr` changes this memory map: exactly one
/// RAM or register cell changes in a writable region, nothing changes in
/// the unmapped gap or the ROM window, and the cartridge never changes.
pub open spec fn nes_write_rel(pre: NesMemory, post: NesMemory, addr: u16, value: u8) -> bool {
    &&& post.internal_ram@ == (if addr < 0x2000 {
        pre.internal_ram@.update((addr & 0x07FF) as int, value)
    } else {
        pre.internal_ram@
    })
    &&& post.ppu_registers@ == (if 0x2000 <= addr && addr < 0x4000 {
        pre.ppu_registers@.update((addr & 0x0007) as int, value)
    } else {
        pre.ppu_registers@
    })
    &&& post.apu_io_registers@ == (if 0x4000 <= addr && addr <= 0x4017 {
        pre.apu_io_registers@.update(addr - 0x4000, value)
    } else if 0x4018 <= addr && addr <= 0x401F {
        pre.apu_io_registers@.update(addr - 0x4018, value)
    } else {
        pre.apu_io_registers@
    })
    &&& post.prg_ram@ == (if 0x6000 <= addr && addr < 0x8000 {
        pre.prg_ram@.update(addr - 0x6000, value)
    } else {
        pre.prg_ram@
    })
    &&& post.rom == pre.rom
}

impl NesMemory {
    /// An empty memory map: all RAM zeroed, no cartridge.
    pub fn new() -> (r: NesMemory)
        ensures
            r.inv(),
            r.rom is None,
            forall|a: u16| #[trigger] nes_read_spec(r, a) == 0,
    {
        let r = NesMemory {
            internal_ram: zero_vec(0x800),
            ppu_registers: zero_vec(8),
            apu_io_registers: zero_vec(0x20),
            rom: None,
            prg_ram: zero_vec(0x2000),
        };
        proof {
            assert forall|a: u16| #[trigger] nes_read_spec(r, a) == 0 by {
                if a < 0x2000 {
                    assert(r.internal_ram@[(a & 0x07FF) as int] == 0) by {
                        assert(a & 0x07FF < 0x800) by (bit_vector);
                    }
                } else if a < 0x4000 {
                    assert(r.ppu_registers@[(a & 0x0007) as int] == 0) by {
                        assert(a & 0x0007 < 8) by (bit_vector);
                    }
                }
            }
        }
        r
    }

    /// Insert a cartridge; its PRG ROM becomes visible at `0x8000`.
    pub fn load_prg_rom(&mut self, rom: Rom)
        requires
            old(self).inv(),
        ensures
            final(self).inv(),
            final(self).rom == Some(rom),
            final(self).internal_ram@ == old(self).internal_ram@,
            final(self).ppu_registers@ == old(self).ppu_registers@,
            final(self).apu_io_registers@ == old(self).apu_io_registers@,
            final(self).prg_ram@ == old(self).prg_ram@,
    {
        self.rom = Some(rom);
    }

    /// The cartridge's CHR data, once a cartridge is loaded.
    pub fn get_chr_rom(&self) -> (r: Option<&Vec<u8>>)
        ensures
            match r {
                Some(chr) => self.rom matches Some(rom) && chr@ == rom.chr_rom@,
                None => self.rom is None,
            },
    {
        match &self.rom {
            Some(rom) => Some(&rom.chr_rom),
            None => None,
        }
    }

    /// The cartridge's PRG data, once a cartridge is loaded.
    pub fn get_prg_rom(&self) -> (r: Option<&Vec<u8>>)
        ensures
            match r {
                Some(prg) => self.rom matches Some(rom) && prg@ == rom.prg_rom@,
                None => self.rom is None,
            },
    {
        match &self.rom {
            Some(rom) => Some(&rom.prg_rom),
            None => None,
        }
    }
}

impl Memory for NesMemory {
    open spec fn inv(&self) -> bool {
        &&& self.internal_ram@.len() == 0x800
        &&& self.ppu_registers@.len() == 8
        &&& self.apu_io_registers@.len() == 0x20
        &&& self.prg_ram@.len() == 0x2000
    }

    open spec fn read_spec(&self, addr: u16) -> u8 {
        nes_read_spec(*self, addr)
    }

    open spec fn write_rel(pre: Self, post: Self, addr: u16, value: u8) -> bool {
        nes_write_rel(pre, post, addr, value)
    }

    fn read_byte(&self, address: u16) -> (r: u8) {
        proof {
            assert(address & 0x07FF < 0x800 && address & 0x0007 < 8) by (bit_vector);
        }
        if address < 0x2000 {
            self.internal_ram[(address & 0x07FF) as usize]
        } else if address < 0x4000 {
            self.ppu_registers[(address & 0x0007) as usize]
        } else if address <= 0x4017 {
            self.apu_io_registers[(address - 0x4000) as usize]
        } else if address <= 0x401F {
            self.apu_io_registers[(address - 0x4018) as usize]
        } else if 0x6000 <= address && address < 0x8000 {
            self.prg_ram[(address - 0x6000) as usize]
        } else if address >= 0x8000 {
            match &self.rom {
                Some(rom) => rom.read_prg_byte(address - 0x8000),
                None => 0,
            }
        } else {
            0
        }
    }

    fn write_byte(&mut self, address: u16, value: u8) {
        proof {
            assert(address & 0x07FF < 0x800 && address & 0x0007 < 8) by (bit_vector);
        }
        if address < 0x2000 {
            self.internal_ram[(address & 0x07FF) as usize] = value;
        } else if address < 0x4000 {
            self.ppu_registers[(address & 0x0007) as usize] = value;
        } else if address <= 0x4017 {
            self.apu_io_registers[(address - 0x4000) as usize] = value;
        } else if address <= 0x401F {
            self.apu_io_registers[(address - 0x4018) as usize] = value;
        } else if 0x6000 <= address && address < 0x8000 {
            self.prg_ram[(address - 0x6000) as usize] = value;
        }
    }

    fn read_word(&self, address: u16) -> (r: u16) {
        let lo = self.read_byte(address);
        let hi = self.read_byte(address + 1);
        bit_utils::make_word(lo, hi)
    }

    fn write_word(&mut self, address: u16, value: u16) {
        let lo = (value & 0xFF) as u8;
        let hi = (value >> 8) as u8;
        self.write_byte(address, lo);
        let ghost mid = *self;
        self.write_byte(address + 1, hi);
        proof {
            assert(Self::write_rel(*old(self), mid, address, (value & 0xFF) as u8)
                && Self::write_rel(mid, *self, (address + 1) as u16, (value >> 8) as u8)
                && mid.inv());
        }
    }
}

/// Writing a byte and reading the same address back gives the byte just
/// written, for every address whose reads and writes are plain storage:
/// the RAM mirrors, the APU test block, and PRG RAM. (The PPU and APU
/// register windows have read and write side effects, a write into the
/// ROM window is dropped, and the gap below `0x6000` is unmapped, so
/// none of those is covered.)
pub proof fn lemma_read_after_write(pre: NesMemory, post: NesMemory, addr: u16, value: u8)
    requires
        pre.inv(),
        nes_write_rel(pre, post, addr, value),
        addr < 0x2000 || (0x4018 <= addr && addr <= 0x401F) || (0x6000 <= addr && addr < 0x8000),
    ensures
        nes_read_spec(post, addr) == value,
{
    if addr < 0x2000 {
        assert(addr & 0x07FF < 0x800) by (bit_vector);
    }
}

} // verus!
