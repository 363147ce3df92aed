//! The cartridge image: PRG ROM and CHR ROM bytes plus the facts the
//! header declared about them.

use vstd::prelude::*;
use crate::error::RomError;
use crate::ines::InesHeader;
use crate::ines;

verus! {

/// How the two nametables are mirrored into the four addressable slots.
#[derive(Clone, Copy, Debug, PartialEq, Eq, Structural)]
pub enum MirrorMode {
    Horizontal,
    Vertical,
    FourScreen,
}

/// A parsed cartridge: the ROM sections and the header facts that the
/// mappers and the bus need.
#[derive(Debug, Clone)]
pub struct Rom {
    pub prg_rom: Vec<u8>,
    pub chr_rom: Vec<u8>,
    pub mirror_mode: MirrorMode,
    pub mapper: u8,
    pub prg_ram_size: usize,
}

/// The PRG ROM byte visible at `address` (an offset from `0x8000`): a
/// 16 KiB image is mirrored into the upper 16 KiB, reads past the end of
/// a larger image give zero.
pub open spec fn prg_byte_spec(rom: Rom, address: u16) -> u8 {
    if address < rom.prg_rom@.len() {
        rom.prg_rom@[address as int]
    } else if rom.prg_rom@.len() == 0x4000 && 0x4000 <= address < 0x8000 {
        rom.prg_rom@[address - 0x4000]
    } else {
        0
    }
}

/// The CHR byte at `address`; reads past the end give zero.
pub open spec fn chr_byte_spec(rom: Rom, address: u16) -> u8 {
    if address < rom.chr_rom@.len() {
        rom.chr_rom@[address as int]
    } else {
        0
    }
}

/// A fresh `Vec` holding `data[start..end]`.
pub(crate) fn copy_range(data: &[u8], start: usize, end: usize) -> (r: Vec<u8>)
    requires
        start <= end <= data@.len(),
    ensures
        r@ == data@.subrange(start as int, end as int),
{
    let mut out: Vec<u8> = Vec::new();
    let mut i: usize = start;
    while i < end
        invariant
            start <= i <= end <= data@.len(),
            out@ == data@.subrange(start as int, i as int),
        decreases end - i,
    {
        out.push(data[i]);
        i = i + 1;
        proof {
            assert(out@ =~= data@.subrange(start as int, i as int));
        }
    }
    out
}

/// A fresh `Vec` of `n` zero bytes.
pub(crate) fn zero_vec(n: usize) -> (r: Vec<u8>)
    ensures
        r@.len() == n,
        forall|i: int| 0 <= i < n ==> r@[i] == 0u8,
{
    let mut out: Vec<u8> = Vec::new();
    let mut i: usize = 0;
    while i < n
        invariant
            i <= n,
            out@.len() == i,
            forall|k: int| 0 <= k < i ==> out@[k] == 0u8,
        decreases n - i,
    {
        out.push(0u8);
        i = i + 1;
    }
    out
}

impl Rom {
    /// Parse a whole iNES file: validate the header, skip the trainer if
    /// one is present, and slice out the PRG and CHR sections. A file
    /// with no CHR section gets 8 KiB of zeroed CHR RAM instead.
    pub fn new(rom_data: &[u8]) -> (r: Result<Rom, RomError>)
        ensures
            rom_data@.len() < 16 ==> r == Err::<Rom, RomError>(RomError::FileTooSmall {
                expected: 16,
                actual: rom_data@.len() as usize,
            }),
            rom_data@.len() >= 16 && !ines::has_ines_signature(rom_data@) ==> r
                == Err::<Rom, RomError>(RomError::InvalidHeader),
            rom_data@.len() >= 16 && ines::has_ines_signature(rom_data@) ==> {
                let prg_size = rom_data@[4] as int * 0x4000;
                let chr_size = rom_data@[5] as int * 0x2000;
                let trainer = if rom_data@[6] & 0x04 != 0 { 512int } else { 0int };
                let expected = 16 + trainer + prg_size + chr_size;
                if rom_data@.len() < expected {
                    r == Err::<Rom, RomError>(RomError::FileTooSmall {
                        expected: expected as usize,
                        actual: rom_data@.len() as usize,
                    })
                } else if prg_size == 0 {
                    r == Err::<Rom, RomError>(RomError::MissingData)
                } else {
                    (r matches Ok(rom) && rom_parsed(rom_data@, rom))
                }
            },
    {
        let header = InesHeader::parse(rom_data)?;

        let prg_rom_size = header.get_prg_rom_size_bytes();
        let chr_rom_size = header.get_chr_rom_size_bytes();
        let trainer_size = header.get_trainer_size();

        let prg_rom_start = 16 + trainer_size;
        let chr_rom_start = prg_rom_start + prg_rom_size;

        let expected_size = chr_rom_start + chr_rom_size;
        if rom_data.len() < expected_size {
            return Err(RomError::FileTooSmall {
                expected: expected_size,
                actual: rom_data.len(),
            });
        }

        if prg_rom_size == 0 {
            return Err(RomError::MissingData);
        }

        let prg_rom = copy_range(rom_data, prg_rom_start, prg_rom_start + prg_rom_size);

        let chr_rom = if chr_rom_size > 0 {
            copy_range(rom_data, chr_rom_start, chr_rom_start + chr_rom_size)
        } else {
            zero_vec(8 * 1024)
        };

        Ok(Rom {
            prg_rom,
            chr_rom,
            mirror_mode: header.get_mirror_mode(),
            mapper: header.get_mapper_number(),
            prg_ram_size: header.get_prg_ram_size_bytes(),
        })
    }

    /// The PRG ROM byte at `address`, an offset from `0x8000`.
    pub fn read_prg_byte(&self, address: u16) -> (r: u8)
        ensures
            r == prg_byte_spec(*self, address),
    {
        let offset = address as usize;
        if offset < self.prg_rom.len() {
            self.prg_rom[offset]
        } else if self.prg_rom.len() == 16 * 1024 && offset >= 16 * 1024 && offset < 32 * 1024 {
            self.prg_rom[offset - 16 * 1024]
        } else {
            0
        }
    }

    /// The CHR byte at `address`.
    pub fn read_chr_byte(&self, address: u16) -> (r: u8)
        ensures
            r == chr_byte_spec(*self, address),
    {
        let offset = address as usize;
        if offset < self.chr_rom.len() {
            self.chr_rom[offset]
        } else {
            0
        }
    }

    /// Store a byte into CHR RAM; a write past the end is dropped, as a
    /// write to CHR ROM would be on a cartridge without CHR RAM.
    pub fn write_chr_byte(&mut self, address: u16, value: u8)
        ensures
            address < old(self).chr_rom@.len() ==> final(self).chr_rom@
                == old(self).chr_rom@.update(address as int, value),
            address >= old(self).chr_rom@.len() ==> final(self).chr_rom@ == old(self).chr_rom@,
            final(self).prg_rom@ == old(self).prg_rom@,
            final(self).mirror_mode == old(self).mirror_mode,
            final(self).mapper == old(self).mapper,
            final(self).prg_ram_size == old(self).prg_ram_size,
    {
        let offset = address as usize;
        if offset < self.chr_rom.len() {
            self.chr_rom[offset] = value;
        }
    }
}

/// How a successfully parsed `Rom` relates to the bytes of the file it
/// came from.
pub open spec fn rom_parsed(data: Seq<u8>, rom: Rom) -> bool {
    let prg_size = data[4] as int * 0x4000;
    let chr_size = data[5] as int * 0x2000;
    let trainer = if data[6] & 0x04 != 0 { 512int } else { 0int };
    let prg_start = 16 + trainer;
    let chr_start = prg_start + prg_size;
    &&& rom.prg_rom@ == data.subrange(prg_start, prg_start + prg_size)
    &&& (chr_size > 0 ==> rom.chr_rom@ == data.subrange(chr_start, chr_start + chr_size))
    &&& (chr_size == 0 ==> rom.chr_rom@.len() == 0x2000 && forall|i: int|
        0 <= i < 0x2000 ==> rom.chr_rom@[i] == 0u8)
    &&& rom.mirror_mode == ines::mirror_of(data[6])
    &&& rom.mapper == ((data[7] & 0xF0) | (data[6] >> 4))
    &&& rom.prg_ram_size == (if data[8] == 0 { 0x2000int } else { data[8] as int * 0x2000 })
}

} // verus!
