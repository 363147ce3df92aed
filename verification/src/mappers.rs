//! The cartridge mappers: translation of CPU and PPU addresses into PRG
//! and CHR offsets, and the write-triggered bank-switching state machines.

use vstd::prelude::*;
use crate::error::{MemoryResult, RomError};
use crate::rom::MirrorMode;

verus! {

/// NROM: 16 KiB of PRG ROM mirrored across the 32 KiB window, or 32 KiB
/// mapped flat. No bank switching and no interrupts.
pub struct Mapper000 {
    pub prg_banks: u8,
    pub chr_banks: u8,
    pub mirror_mode: MirrorMode,
}

/// The PRG offset NROM maps a CPU address to: reads below the cartridge
/// window map to nothing.
pub open spec fn m000_prg_read(m: Mapper000, address: u16) -> Option<u32> {
    if address >= 0x8000 {
        if m.prg_banks == 1 {
            Some(((address - 0x8000) as u16 & 0x3FFF) as u32)
        } else {
            Some((address - 0x8000) as u32)
        }
    } else {
        None
    }
}

/// The CHR offset NROM maps a PPU address to.
pub open spec fn m000_chr_read(m: Mapper000, address: u16) -> Option<u32> {
    if address <= 0x1FFF {
        Some(address as u32)
    } else {
        None
    }
}

impl Mapper000 {
    pub fn new(prg_banks: u8, chr_banks: u8) -> (r: Mapper000)
        ensures
            r.prg_banks == prg_banks,
            r.chr_banks == chr_banks,
            r.mirror_mode == MirrorMode::Horizontal,
    {
        Mapper000 { prg_banks, chr_banks, mirror_mode: MirrorMode::Horizontal }
    }

    pub fn set_mirror_mode(&mut self, mode: MirrorMode)
        ensures
            final(self).mirror_mode == mode,
            final(self).prg_banks == old(self).prg_banks,
            final(self).chr_banks == old(self).chr_banks,
    {
        self.mirror_mode = mode;
    }

    /// Map a CPU read: the 16 KiB image repeats across the window.
    pub fn map_prg_read(&self, address: u16) -> (r: MemoryResult<Option<u32>>)
        ensures
            r == Ok::<Option<u32>, crate::error::MemoryError>(m000_prg_read(*self, address)),
    {
        if address >= 0x8000 {
            let mut addr = address - 0x8000;
            if self.prg_banks == 1 {
                addr = addr & 0x3FFF;
            }
            Ok(Some(addr as u32))
        } else {
            Ok(None)
        }
    }

    /// Map a CPU write: NROM's PRG ROM is read-only, so every write into
    /// the window is consumed.
    pub fn map_prg_write(&mut self, address: u16, value: u8) -> (r: MemoryResult<Option<u32>>)
        ensures
            r == Ok::<Option<u32>, crate::error::MemoryError>(None::<u32>),
            *final(self) == *old(self),
    {
        let _ = address;
        let _ = value;
        Ok(None)
    }

    /// Map a PPU read: CHR is addressed flat.
    pub fn map_chr_read(&self, address: u16) -> (r: MemoryResult<Option<u32>>)
        ensures
            r == Ok::<Option<u32>, crate::error::MemoryError>(m000_chr_read(*self, address)),
    {
        if address <= 0x1FFF {
            Ok(Some(address as u32))
        } else {
            Ok(None)
        }
    }

    /// Map a PPU write: allowed only on a cartridge with CHR RAM.
    pub fn map_chr_write(&mut self, address: u16, value: u8) -> (r: MemoryResult<Option<u32>>)
        ensures
            r == Ok::<Option<u32>, crate::error::MemoryError>(
                if address <= 0x1FFF && old(self).chr_banks == 0 {
                    Some(address as u32)
                } else {
                    None::<u32>
                },
            ),
            *final(self) == *old(self),
    {
        let _ = value;
        if address <= 0x1FFF && self.chr_banks == 0 {
            Ok(Some(address as u32))
        } else {
            Ok(None)
        }
    }

    pub fn get_mirror_mode(&self) -> (r: MirrorMode)
        ensures
            r == self.mirror_mode,
    {
        self.mirror_mode
    }

    /// NROM has no state to reset.
    pub fn reset(&mut self)
        ensures
            *final(self) == *old(self),
    {
    }

    /// NROM never raises an interrupt.
    pub fn irq_state(&self) -> (r: bool)
        ensures
            r == false,
    {
        false
    }

    pub fn irq_clear(&mut self)
        ensures
            *final(self) == *old(self),
    {
    }

    /// NROM keeps no scanline counter.
    pub fn scanline(&mut self)
        ensures
            *final(self) == *old(self),
    {
    }
}

/// MMC1: a five-bit serial shift register, filled by five writes into
/// the cartridge window, commits into one of four registers selected by
/// the fifth write's address: control, the two CHR banks, or the PRG bank.
pub struct Mapper001 {
    pub prg_banks: u8,
    pub chr_banks: u8,
    pub mirror_mode: MirrorMode,
    /// Bits shifted in so far, low bit first.
    pub shift_register: u8,
    /// How many bits have been shifted in; commits on the fifth.
    pub shift_count: u8,
    pub control_register: u8,
    pub chr_bank_0: u8,
    pub chr_bank_1: u8,
    pub prg_bank: u8,
    pub prg_ram_enabled: bool,
}

impl Mapper001 {
    /// The shift register never holds five bits between calls, and the
    /// cartridge has at least one PRG bank.
    pub open spec fn wf(&self) -> bool {
        &&& self.shift_count < 5
        &&& self.prg_banks >= 1
    }
}

/// The mirror mode MMC1's control register selects. The two one-screen
/// settings are folded into horizontal, as the nametable model here has
/// no one-screen arrangement.
pub open spec fn m001_mirror(control: u8) -> MirrorMode {
    if control & 0x03 == 2 {
        MirrorMode::Vertical
    } else {
        MirrorMode::Horizontal
    }
}

/// How one write into the cartridge window moves the MMC1 register
/// machine: a value with bit 7 set resets the shift register and locks
/// the control register back into 16 KiB PRG mode; otherwise one bit is
/// shifted in, and the fifth bit commits the assembled value into the
/// register picked by bits 13-14 of the address.
pub open spec fn m001_write_rel(pre: Mapper001, post: Mapper001, address: u16, value: u8) -> bool {
    &&& post.prg_banks == pre.prg_banks
    &&& post.chr_banks == pre.chr_banks
    &&& if value & 0x80 != 0 {
        &&& post.shift_register == 0
        &&& post.shift_count == 0
        &&& post.control_register == (pre.control_register | 0x0C)
        &&& post.mirror_mode == pre.mirror_mode
        &&& post.chr_bank_0 == pre.chr_bank_0
        &&& post.chr_bank_1 == pre.chr_bank_1
        &&& post.prg_bank == pre.prg_bank
        &&& post.prg_ram_enabled == pre.prg_ram_enabled
    } else {
        let sr = (pre.shift_register >> 1) | ((value & 0x01) << 4);
        if pre.shift_count + 1 == 5 {
            &&& post.shift_register == 0
            &&& post.shift_count == 0
            &&& if address < 0xA000 {
                &&& post.control_register == sr
                &&& post.mirror_mode == m001_mirror(sr)
                &&& post.chr_bank_0 == pre.chr_bank_0
                &&& post.chr_bank_1 == pre.chr_bank_1
                &&& post.prg_bank == pre.prg_bank
                &&& post.prg_ram_enabled == pre.prg_ram_enabled
            } else if address < 0xC000 {
                &&& post.chr_bank_0 == sr
                &&& post.control_register == pre.control_register
                &&& post.mirror_mode == pre.mirror_mode
                &&& post.chr_bank_1 == pre.chr_bank_1
                &&& post.prg_bank == pre.prg_bank
                &&& post.prg_ram_enabled == pre.prg_ram_enabled
            } else if address < 0xE000 {
                &&& post.chr_bank_1 == sr
                &&& post.control_register == pre.control_register
                &&& post.mirror_mode == pre.mirror_mode
                &&& post.chr_bank_0 == pre.chr_bank_0
                &&& post.prg_bank == pre.prg_bank
                &&& post.prg_ram_enabled == pre.prg_ram_enabled
            } else {
                &&& post.prg_bank == (sr & 0x0F)
                &&& post.prg_ram_enabled == (sr & 0x10 == 0)
                &&& post.control_register == pre.control_register
                &&& post.mirror_mode == pre.mirror_mode
                &&& post.chr_bank_0 == pre.chr_bank_0
                &&& post.chr_bank_1 == pre.chr_bank_1
            }
        } else {
            &&& post.shift_register == sr
            &&& post.shift_count == pre.shift_count + 1
            &&& post.control_register == pre.control_register
            &&& post.mirror_mode == pre.mirror_mode
            &&& post.chr_bank_0 == pre.chr_bank_0
            &&& post.chr_bank_1 == pre.chr_bank_1
            &&& post.prg_bank == pre.prg_bank
            &&& post.prg_ram_enabled == pre.prg_ram_enabled
        }
    }
}

/// The PRG offset MMC1 maps a CPU address to, under the PRG mode in the
/// control register: both 32 KiB settings, fixed-first, or fixed-last.
pub open spec fn m001_prg_read(m: Mapper001, address: u16) -> Option<u32> {
    if 0x6000 <= address && address < 0x8000 {
        if m.prg_ram_enabled {
            Some((address - 0x6000) as u32)
        } else {
            None
        }
    } else if address >= 0x8000 {
        let prg_mode = (m.control_register >> 2) & 0x03;
        if prg_mode == 0 || prg_mode == 1 {
            Some(((address - 0x8000) + ((m.prg_bank & 0x0E) >> 1) * 0x4000) as u32)
        } else if prg_mode == 2 {
            if address < 0xC000 {
                Some((address - 0x8000) as u32)
            } else {
                Some(((address - 0xC000) + m.prg_bank * 0x4000) as u32)
            }
        } else {
            if address < 0xC000 {
                Some(((address - 0x8000) + m.prg_bank * 0x4000) as u32)
            } else {
                Some(((address - 0xC000) + (m.prg_banks - 1) * 0x4000) as u32)
            }
        }
    } else {
        None
    }
}

/// The CHR offset MMC1 maps a PPU address to: one 8 KiB bank, or two
/// independent 4 KiB banks.
pub open spec fn m001_chr_read(m: Mapper001, address: u16) -> Option<u32> {
    if address <= 0x1FFF {
        let chr_mode = (m.control_register >> 4) & 0x01;
        if chr_mode == 0 {
            Some((address + ((m.chr_bank_0 & 0x1E) >> 1) * 0x2000) as u32)
        } else {
            if address < 0x1000 {
                Some((address + m.chr_bank_0 * 0x1000) as u32)
            } else {
                Some(((address - 0x1000) + m.chr_bank_1 * 0x1000) as u32)
            }
        }
    } else {
        None
    }
}

impl Mapper001 {
    pub fn new(prg_banks: u8, chr_banks: u8) -> (r: Mapper001)
        requires
            prg_banks >= 1,
        ensures
            r.wf(),
            r.prg_banks == prg_banks,
            r.chr_banks == chr_banks,
            r.mirror_mode == MirrorMode::Horizontal,
            r.shift_register == 0,
            r.shift_count == 0,
            r.control_register == 0x0C,
            r.chr_bank_0 == 0,
            r.chr_bank_1 == 0,
            r.prg_bank == 0,
            r.prg_ram_enabled,
    {
        Mapper001 {
            prg_banks,
            chr_banks,
            mirror_mode: MirrorMode::Horizontal,
            shift_register: 0,
            shift_count: 0,
            control_register: 0x0C,
            chr_bank_0: 0,
            chr_bank_1: 0,
            prg_bank: 0,
            prg_ram_enabled: true,
        }
    }

    /// Feed one write into the serial shift register.
    fn write_register(&mut self, address: u16, value: u8) -> (r: MemoryResult<()>)
        requires
            old(self).wf(),
        ensures
            final(self).wf(),
            r == Ok::<(), crate::error::MemoryError>(()),
            m001_write_rel(*old(self), *final(self), address, value),
    {
        if (value & 0x80) != 0 {
            self.shift_register = 0;
            self.shift_count = 0;
            self.control_register = self.control_register | 0x0C;
            return Ok(());
        }

        self.shift_register = (self.shift_register >> 1) | ((value & 0x01) << 4);
        self.shift_count = self.shift_count + 1;

        if self.shift_count == 5 {
            if address < 0xA000 {
                self.control_register = self.shift_register;
                self.mirror_mode = if self.control_register & 0x03 == 2 {
                    MirrorMode::Vertical
                } else {
                    MirrorMode::Horizontal
                };
            } else if address < 0xC000 {
                self.chr_bank_0 = self.shift_register;
            } else if address < 0xE000 {
                self.chr_bank_1 = self.shift_register;
            } else {
                self.prg_bank = self.shift_register & 0x0F;
                self.prg_ram_enabled = (self.shift_register & 0x10) == 0;
            }

            self.shift_register = 0;
            self.shift_count = 0;
        }

        Ok(())
    }

    /// Map a CPU read through PRG RAM or the banked PRG ROM window.
    pub fn map_prg_read(&self, address: u16) -> (r: MemoryResult<Option<u32>>)
        requires
            self.wf(),
        ensures
            r == Ok::<Option<u32>, crate::error::MemoryError>(m001_prg_read(*self, address)),
    {
        if 0x6000 <= address && address < 0x8000 {
            if self.prg_ram_enabled {
                Ok(Some((address - 0x6000) as u32))
            } else {
                Ok(None)
            }
        } else if address >= 0x8000 {
            let prg_mode = (self.control_register >> 2) & 0x03;
            if prg_mode == 0 || prg_mode == 1 {
                let bank = (self.prg_bank & 0x0E) >> 1;
                Ok(Some((address - 0x8000) as u32 + bank as u32 * 0x4000))
            } else if prg_mode == 2 {
                if address < 0xC000 {
                    Ok(Some((address - 0x8000) as u32))
                } else {
                    Ok(Some((address - 0xC000) as u32 + self.prg_bank as u32 * 0x4000))
                }
            } else {
                if address < 0xC000 {
                    Ok(Some((address - 0x8000) as u32 + self.prg_bank as u32 * 0x4000))
                } else {
                    let last_bank = self.prg_banks - 1;
                    Ok(Some((address - 0xC000) as u32 + last_bank as u32 * 0x4000))
                }
            }
        } else {
            Ok(None)
        }
    }

    /// Map a CPU write: PRG RAM accepts it, the ROM window feeds the
    /// register machine and consumes it.
    pub fn map_prg_write(&mut self, address: u16, value: u8) -> (r: MemoryResult<Option<u32>>)
        requires
            old(self).wf(),
        ensures
            final(self).wf(),
            0x6000 <= address && address < 0x8000 ==> *final(self) == *old(self) && r == Ok::<
                Option<u32>, crate::error::MemoryError>(
                if old(self).prg_ram_enabled {
                    Some((address - 0x6000) as u32)
                } else {
                    None::<u32>
                },
            ),
            address >= 0x8000 ==> r == Ok::<Option<u32>, crate::error::MemoryError>(None::<u32>)
                && m001_write_rel(*old(self), *final(self), address, value),
            address < 0x6000 ==> *final(self) == *old(self) && r == Ok::<Option<u32>,
                crate::error::MemoryError>(None::<u32>),
    {
        if 0x6000 <= address && address < 0x8000 {
            if self.prg_ram_enabled {
                Ok(Some((address - 0x6000) as u32))
            } else {
                Ok(None)
            }
        } else if address >= 0x8000 {
            let _ = self.write_register(address, value);
            Ok(None)
        } else {
            Ok(None)
        }
    }

    /// Map a PPU read through the banked CHR window.
    pub fn map_chr_read(&self, address: u16) -> (r: MemoryResult<Option<u32>>)
        ensures
            r == Ok::<Option<u32>, crate::error::MemoryError>(m001_chr_read(*self, address)),
    {
        if address <= 0x1FFF {
            let chr_mode = (self.control_register >> 4) & 0x01;
            if chr_mode == 0 {
                let bank = (self.chr_bank_0 & 0x1E) >> 1;
                Ok(Some(address as u32 + bank as u32 * 0x2000))
            } else {
                if address < 0x1000 {
                    Ok(Some(address as u32 + self.chr_bank_0 as u32 * 0x1000))
                } else {
                    Ok(Some((address - 0x1000) as u32 + self.chr_bank_1 as u32 * 0x1000))
                }
            }
        } else {
            Ok(None)
        }
    }

    /// Map a PPU write: allowed only on a cartridge with CHR RAM, at the
    /// same banked offset a read would use.
    pub fn map_chr_write(&mut self, address: u16, value: u8) -> (r: MemoryResult<Option<u32>>)
        ensures
            *final(self) == *old(self),
            r == Ok::<Option<u32>, crate::error::MemoryError>(
                if address <= 0x1FFF && old(self).chr_banks == 0 {
                    m001_chr_read(*old(self), address)
                } else {
                    None::<u32>
                },
            ),
    {
        let _ = value;
        if address <= 0x1FFF && self.chr_banks == 0 {
            self.map_chr_read(address)
        } else {
            Ok(None)
        }
    }

    pub fn get_mirror_mode(&self) -> (r: MirrorMode)
        ensures
            r == self.mirror_mode,
    {
        self.mirror_mode
    }

    /// Back to the power-on register state.
    pub fn reset(&mut self)
        ensures
            final(self).wf() == (final(self).prg_banks >= 1),
            final(self).prg_banks == old(self).prg_banks,
            final(self).chr_banks == old(self).chr_banks,
            final(self).mirror_mode == MirrorMode::Horizontal,
            final(self).shift_register == 0,
            final(self).shift_count == 0,
            final(self).control_register == 0x0C,
            final(self).chr_bank_0 == 0,
            final(self).chr_bank_1 == 0,
            final(self).prg_bank == 0,
            final(self).prg_ram_enabled,
    {
        self.shift_register = 0;
        self.shift_count = 0;
        self.control_register = 0x0C;
        self.chr_bank_0 = 0;
        self.chr_bank_1 = 0;
        self.prg_bank = 0;
        self.prg_ram_enabled = true;
        self.mirror_mode = MirrorMode::Horizontal;
    }

    /// MMC1 never raises an interrupt.
    pub fn irq_state(&self) -> (r: bool)
        ensures
            r == false,
    {
        false
    }

    pub fn irq_clear(&mut self)
        ensures
            *final(self) == *old(self),
    {
    }

    /// MMC1 keeps no scanline counter.
    pub fn scanline(&mut self)
        ensures
            *final(self) == *old(self),
    {
    }
}

/// The cartridge's mapper, dispatched as a tagged variant per kind.
pub enum MapperKind {
    Nrom(Mapper000),
    Mmc1(Mapper001),
}

impl MapperKind {
    pub open spec fn wf(&self) -> bool {
        match self {
            MapperKind::Nrom(_) => true,
            MapperKind::Mmc1(m) => m.wf(),
        }
    }

    /// Map a CPU read through whichever mapper the cartridge carries.
    pub fn map_prg_read(&self, address: u16) -> (r: MemoryResult<Option<u32>>)
        requires
            self.wf(),
        ensures
            match self {
                MapperKind::Nrom(m) => r == Ok::<Option<u32>, crate::error::MemoryError>(
                    m000_prg_read(*m, address)),
                MapperKind::Mmc1(m) => r == Ok::<Option<u32>, crate::error::MemoryError>(
                    m001_prg_read(*m, address)),
            },
    {
        match self {
            MapperKind::Nrom(m) => m.map_prg_read(address),
            MapperKind::Mmc1(m) => m.map_prg_read(address),
        }
    }

    /// Map a PPU read through whichever mapper the cartridge carries.
    pub fn map_chr_read(&self, address: u16) -> (r: MemoryResult<Option<u32>>)
        ensures
            match self {
                MapperKind::Nrom(m) => r == Ok::<Option<u32>, crate::error::MemoryError>(
                    m000_chr_read(*m, address)),
                MapperKind::Mmc1(m) => r == Ok::<Option<u32>, crate::error::MemoryError>(
                    m001_chr_read(*m, address)),
            },
    {
        match self {
            MapperKind::Nrom(m) => m.map_chr_read(address),
            MapperKind::Mmc1(m) => m.map_chr_read(address),
        }
    }

    /// The mirror mode the mapper currently selects.
    pub fn get_mirror_mode(&self) -> (r: MirrorMode)
        ensures
            match self {
                MapperKind::Nrom(m) => r == m.mirror_mode,
                MapperKind::Mmc1(m) => r == m.mirror_mode,
            },
    {
        match self {
            MapperKind::Nrom(m) => m.get_mirror_mode(),
            MapperKind::Mmc1(m) => m.get_mirror_mode(),
        }
    }

    /// Map a CPU write through whichever mapper the cartridge carries:
    /// NROM consumes writes into its read-only window, and MMC1 feeds
    /// its serial register machine.
    pub fn map_prg_write(&mut self, address: u16, value: u8) -> (r: MemoryResult<Option<u32>>)
        requires
            old(self).wf(),
        ensures
            final(self).wf(),
            (*old(self)) is Nrom ==> *final(self) == *old(self) && r == Ok::<Option<u32>,
                crate::error::MemoryError>(None::<u32>),
            (*old(self)) matches MapperKind::Mmc1(m) ==> ((*final(self)) matches MapperKind::Mmc1(m2)
                && {
                &&& (0x6000 <= address && address < 0x8000 ==> m2 == m && r == Ok::<Option<u32>,
                    crate::error::MemoryError>(
                    if m.prg_ram_enabled {
                        Some((address - 0x6000) as u32)
                    } else {
                        None::<u32>
                    },
                ))
                &&& (address >= 0x8000 ==> r == Ok::<Option<u32>, crate::error::MemoryError>(
                    None::<u32>) && m001_write_rel(m, m2, address, value))
                &&& (address < 0x6000 ==> m2 == m && r == Ok::<Option<u32>,
                    crate::error::MemoryError>(None::<u32>))
            }),
    {
        match self {
            MapperKind::Nrom(m) => m.map_prg_write(address, value),
            MapperKind::Mmc1(m) => m.map_prg_write(address, value),
        }
    }

    /// Map a PPU write through whichever mapper the cartridge carries;
    /// only a cartridge with CHR RAM accepts it.
    pub fn map_chr_write(&mut self, address: u16, value: u8) -> (r: MemoryResult<Option<u32>>)
        ensures
            *final(self) == *old(self),
            match *old(self) {
                MapperKind::Nrom(m) => r == Ok::<Option<u32>, crate::error::MemoryError>(
                    if address <= 0x1FFF && m.chr_banks == 0 {
                        Some(address as u32)
                    } else {
                        None::<u32>
                    },
                ),
                MapperKind::Mmc1(m) => r == Ok::<Option<u32>, crate::error::MemoryError>(
                    if address <= 0x1FFF && m.chr_banks == 0 {
                        m001_chr_read(m, address)
                    } else {
                        None::<u32>
                    },
                ),
            },
    {
        match self {
            MapperKind::Nrom(m) => m.map_chr_write(address, value),
            MapperKind::Mmc1(m) => m.map_chr_write(address, value),
        }
    }

    /// Reset whichever mapper the cartridge carries to its power-on
    /// register state.
    pub fn reset(&mut self)
        ensures
            old(self).wf() ==> final(self).wf(),
            (*old(self)) is Nrom ==> *final(self) == *old(self),
            (*old(self)) matches MapperKind::Mmc1(m) ==> ((*final(self)) matches MapperKind::Mmc1(m2)
                && m2.prg_banks == m.prg_banks && m2.chr_banks == m.chr_banks && m2.mirror_mode
                == MirrorMode::Horizontal && m2.shift_register == 0 && m2.shift_count == 0
                && m2.control_register == 0x0C && m2.chr_bank_0 == 0 && m2.chr_bank_1 == 0
                && m2.prg_bank == 0 && m2.prg_ram_enabled),
    {
        match self {
            MapperKind::Nrom(m) => m.reset(),
            MapperKind::Mmc1(m) => m.reset(),
        }
    }

    /// Clear the mapper's interrupt line; a no-op on both implemented
    /// mappers, which never assert it.
    pub fn irq_clear(&mut self)
        ensures
            *final(self) == *old(self),
    {
        match self {
            MapperKind::Nrom(m) => m.irq_clear(),
            MapperKind::Mmc1(m) => m.irq_clear(),
        }
    }

    /// Feed the mapper one scanline; a no-op on both implemented
    /// mappers, which keep no scanline counter.
    pub fn scanline(&mut self)
        ensures
            *final(self) == *old(self),
    {
        match self {
            MapperKind::Nrom(m) => m.scanline(),
            MapperKind::Mmc1(m) => m.scanline(),
        }
    }

    /// Whether the mapper is asserting its interrupt line; neither of
    /// the two implemented mappers ever does.
    pub fn irq_state(&self) -> (r: bool)
        ensures
            r == false,
    {
        match self {
            MapperKind::Nrom(m) => m.irq_state(),
            MapperKind::Mmc1(m) => m.irq_state(),
        }
    }
}

/// Build the mapper a cartridge asks for; a mapper number this core does
/// not implement is refused.
pub fn create_mapper(mapper_number: u8, prg_banks: u8, chr_banks: u8) -> (r: Result<
    MapperKind,
    RomError,
>)
    requires
        prg_banks >= 1,
    ensures
        mapper_number == 0 ==> (r matches Ok(k) && (k matches MapperKind::Nrom(m)
            && m.prg_banks == prg_banks && m.chr_banks == chr_banks)),
        mapper_number == 1 ==> (r matches Ok(k) && k.wf() && (k matches MapperKind::Mmc1(m)
            && m.prg_banks == prg_banks && m.chr_banks == chr_banks
            && m.control_register == 0x0C)),
        mapper_number > 1 ==> r == Err::<MapperKind, RomError>(RomError::UnsupportedMapper(
            mapper_number)),
{
    match mapper_number {
        0 => Ok(MapperKind::Nrom(Mapper000::new(prg_banks, chr_banks))),
        1 => Ok(MapperKind::Mmc1(Mapper001::new(prg_banks, chr_banks))),
        _ => Err(RomError::UnsupportedMapper(mapper_number)),
    }
}

} // verus!
