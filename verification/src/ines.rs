//! The 16-byte iNES container header: validation, field extraction, and
//! serialization back to bytes.

use vstd::prelude::*;
use crate::error::RomError;
use crate::rom::MirrorMode;

verus! {

/// Whether the data begins with the four signature bytes `N E S 0x1A`.
pub open spec fn has_ines_signature(data: Seq<u8>) -> bool {
    &&& data.len() >= 4
    &&& data[0] == 0x4Eu8
    &&& data[1] == 0x45u8
    &&& data[2] == 0x53u8
    &&& data[3] == 0x1Au8
}

/// The mirror mode encoded in header byte 6: bit 3 forces four-screen
/// mirroring, otherwise bit 0 picks vertical over horizontal.
pub open spec fn mirror_of(flags6: u8) -> MirrorMode {
    if flags6 & 0x08 != 0 {
        MirrorMode::FourScreen
    } else if flags6 & 0x01 != 0 {
        MirrorMode::Vertical
    } else {
        MirrorMode::Horizontal
    }
}

/// The fields of a validated iNES header, in the order they sit in the
/// file after the four signature bytes.
#[derive(Debug, Clone)]
pub struct InesHeader {
    /// PRG ROM size in 16 KiB units.
    pub prg_rom_size: u8,
    /// CHR ROM size in 8 KiB units; zero means the cartridge has CHR RAM.
    pub chr_rom_size: u8,
    /// Mirroring, battery, trainer, and the low nibble of the mapper.
    pub flags6: u8,
    /// VS/Playchoice bits, the NES 2.0 marker, and the high nibble of the mapper.
    pub flags7: u8,
    /// PRG RAM size in 8 KiB units; zero means the 8 KiB default.
    pub prg_ram_size: u8,
    pub flags9: u8,
    pub flags10: u8,
    /// The five unused bytes at the end of the header.
    pub padding: [u8; 5],
}

/// How a parsed header relates to the first sixteen bytes of the file.
pub open spec fn header_parsed(data: Seq<u8>, h: InesHeader) -> bool {
    &&& h.prg_rom_size == data[4]
    &&& h.chr_rom_size == data[5]
    &&& h.flags6 == data[6]
    &&& h.flags7 == data[7]
    &&& h.prg_ram_size == data[8]
    &&& h.flags9 == data[9]
    &&& h.flags10 == data[10]
    &&& h.padding@ == data.subrange(11, 16)
}

/// How a sixteen-byte serialization relates to the header it came from.
pub open spec fn header_bytes(h: InesHeader, out: Seq<u8>) -> bool {
    &&& out.len() == 16
    &&& has_ines_signature(out)
    &&& out[4] == h.prg_rom_size
    &&& out[5] == h.chr_rom_size
    &&& out[6] == h.flags6
    &&& out[7] == h.flags7
    &&& out[8] == h.prg_ram_size
    &&& out[9] == h.flags9
    &&& out[10] == h.flags10
    &&& out.subrange(11, 16) == h.padding@
}

impl InesHeader {
    /// Validate the signature and read the header fields out of the first
    /// sixteen bytes of a file.
    pub fn parse(data: &[u8]) -> (r: Result<InesHeader, RomError>)
        ensures
            data@.len() < 16 ==> r == Err::<InesHeader, RomError>(RomError::FileTooSmall {
                expected: 16,
                actual: data@.len() as usize,
            }),
            data@.len() >= 16 && !has_ines_signature(data@) ==> r
                == Err::<InesHeader, RomError>(RomError::InvalidHeader),
            data@.len() >= 16 && has_ines_signature(data@) ==> (r matches Ok(h)
                && header_parsed(data@, h)),
    {
        if data.len() < 16 {
            return Err(RomError::FileTooSmall { expected: 16, actual: data.len() });
        }

        if !(data[0] == 0x4E && data[1] == 0x45 && data[2] == 0x53 && data[3] == 0x1A) {
            return Err(RomError::InvalidHeader);
        }

        let r = InesHeader {
            prg_rom_size: data[4],
            chr_rom_size: data[5],
            flags6: data[6],
            flags7: data[7],
            prg_ram_size: data[8],
            flags9: data[9],
            flags10: data[10],
            padding: [data[11], data[12], data[13], data[14], data[15]],
        };
        proof {
            assert(r.padding@ =~= data@.subrange(11, 16));
        }
        Ok(r)
    }

    /// Serialize the header back to the sixteen bytes it was read from.
    pub fn to_bytes(&self) -> (r: Vec<u8>)
        ensures
            header_bytes(*self, r@),
    {
        let mut out: Vec<u8> = Vec::new();
        out.push(0x4E);
        out.push(0x45);
        out.push(0x53);
        out.push(0x1A);
        out.push(self.prg_rom_size);
        out.push(self.chr_rom_size);
        out.push(self.flags6);
        out.push(self.flags7);
        out.push(self.prg_ram_size);
        out.push(self.flags9);
        out.push(self.flags10);
        out.push(self.padding[0]);
        out.push(self.padding[1]);
        out.push(self.padding[2]);
        out.push(self.padding[3]);
        out.push(self.padding[4]);
        proof {
            assert(out@.subrange(11, 16) =~= self.padding@);
        }
        out
    }

    /// The mapper number: high nibble from byte 7, low nibble from byte 6.
    pub fn get_mapper_number(&self) -> (r: u8)
        ensures
            r == ((self.flags7 & 0xF0) | (self.flags6 >> 4)),
    {
        (self.flags7 & 0xF0) | (self.flags6 >> 4)
    }

    /// The mirror mode encoded in byte 6.
    pub fn get_mirror_mode(&self) -> (r: MirrorMode)
        ensures
            r == mirror_of(self.flags6),
    {
        if self.flags6 & 0x08 != 0 {
            MirrorMode::FourScreen
        } else if self.flags6 & 0x01 != 0 {
            MirrorMode::Vertical
        } else {
            MirrorMode::Horizontal
        }
    }

    /// Whether the cartridge has battery-backed PRG RAM.
    pub fn has_battery(&self) -> (r: bool)
        ensures
            r == (self.flags6 & 0x02 != 0),
    {
        (self.flags6 & 0x02) != 0
    }

    /// Whether a 512-byte trainer sits between the header and PRG ROM.
    pub fn has_trainer(&self) -> (r: bool)
        ensures
            r == (self.flags6 & 0x04 != 0),
    {
        (self.flags6 & 0x04) != 0
    }

    /// Whether the VS UniSystem bit is set in byte 7.
    pub fn is_vs_unisystem(&self) -> (r: bool)
        ensures
            r == (self.flags7 & 0x01 != 0),
    {
        (self.flags7 & 0x01) != 0
    }

    /// Whether the PlayChoice-10 bit is set in byte 7.
    pub fn is_playchoice_10(&self) -> (r: bool)
        ensures
            r == (self.flags7 & 0x02 != 0),
    {
        (self.flags7 & 0x02) != 0
    }

    /// Whether bits 2-3 of byte 7 mark an NES 2.0 extended header.
    pub fn is_nes2(&self) -> (r: bool)
        ensures
            r == (self.flags7 & 0x0C == 0x08),
    {
        (self.flags7 & 0x0C) == 0x08
    }

    /// The PRG ROM size in bytes.
    pub fn get_prg_rom_size_bytes(&self) -> (r: usize)
        ensures
            r == self.prg_rom_size as int * 0x4000,
    {
        self.prg_rom_size as usize * 16 * 1024
    }

    /// The CHR ROM size in bytes.
    pub fn get_chr_rom_size_bytes(&self) -> (r: usize)
        ensures
            r == self.chr_rom_size as int * 0x2000,
    {
        self.chr_rom_size as usize * 8 * 1024
    }

    /// The PRG RAM size in bytes; a zero field means the 8 KiB default.
    pub fn get_prg_ram_size_bytes(&self) -> (r: usize)
        ensures
            self.prg_ram_size == 0 ==> r == 0x2000,
            self.prg_ram_size != 0 ==> r == self.prg_ram_size as int * 0x2000,
    {
        if self.prg_ram_size == 0 {
            8 * 1024
        } else {
            self.prg_ram_size as usize * 8 * 1024
        }
    }

    /// The trainer's size: 512 bytes when present, otherwise zero.
    pub fn get_trainer_size(&self) -> (r: usize)
        ensures
            self.flags6 & 0x04 != 0 ==> r == 512,
            self.flags6 & 0x04 == 0 ==> r == 0,
    {
        if self.has_trainer() {
            512
        } else {
            0
        }
    }
}

/// Serializing a parsed header gives back exactly the sixteen header
/// bytes of the file it was parsed from.
pub proof fn lemma_header_round_trip(data: Seq<u8>, h: InesHeader, out: Seq<u8>)
    requires
        data.len() >= 16,
        has_ines_signature(data),
        header_parsed(data, h),
        header_bytes(h, out),
    ensures
        out =~= data.subrange(0, 16),
{
    assert forall|i: int| 0 <= i < 16 implies out[i] == data.subrange(0, 16)[i] by {
        if 11 <= i < 16 {
            assert(out.subrange(11, 16)[i - 11] == h.padding@[i - 11]);
            assert(data.subrange(11, 16)[i - 11] == h.padding@[i - 11]);
        }
    }
}

} // verus!
