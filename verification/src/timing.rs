//! Clock-domain bookkeeping: the NTSC timing constants and the counters
//! that correlate the CPU, PPU and APU clocks.

use vstd::prelude::*;

verus! {

/// The NTSC CPU clock, in hertz.
pub const NES_CPU_FREQUENCY: u32 = 1_789_773;

/// The PPU runs three dots per CPU cycle.
pub const NES_PPU_FREQUENCY: u32 = 5_369_319;

/// CPU cycles in one sixtieth of a second.
pub const CYCLES_PER_FRAME: u32 = 29_829;

/// Running counts of the cycles each clock domain has consumed; the
/// master count follows the CPU.
pub struct CycleCounter {
    pub cpu_cycles: u64,
    pub ppu_cycles: u64,
    pub apu_cycles: u64,
    pub master_cycles: u64,
}

impl CycleCounter {
    /// All four counters at zero.
    pub fn new() -> (r: CycleCounter)
        ensures
            r.cpu_cycles == 0 && r.ppu_cycles == 0 && r.apu_cycles == 0 && r.master_cycles == 0,
    {
        CycleCounter { cpu_cycles: 0, ppu_cycles: 0, apu_cycles: 0, master_cycles: 0 }
    }

    /// Rewind all four counters.
    pub fn reset(&mut self)
        ensures
            final(self).cpu_cycles == 0 && final(self).ppu_cycles == 0 && final(self).apu_cycles
                == 0 && final(self).master_cycles == 0,
    {
        self.cpu_cycles = 0;
        self.ppu_cycles = 0;
        self.apu_cycles = 0;
        self.master_cycles = 0;
    }

    /// Charge `cycles` CPU cycles; the master count follows.
    pub fn step_cpu(&mut self, cycles: u64)
        ensures
            final(self).cpu_cycles == old(self).cpu_cycles.wrapping_add(cycles),
            final(self).master_cycles == old(self).master_cycles.wrapping_add(cycles),
            final(self).ppu_cycles == old(self).ppu_cycles,
            final(self).apu_cycles == old(self).apu_cycles,
    {
        self.cpu_cycles = self.cpu_cycles.wrapping_add(cycles);
        self.master_cycles = self.master_cycles.wrapping_add(cycles);
    }

    /// Charge `cycles` PPU dots.
    pub fn step_ppu(&mut self, cycles: u64)
        ensures
            final(self).ppu_cycles == old(self).ppu_cycles.wrapping_add(cycles),
            final(self).cpu_cycles == old(self).cpu_cycles,
            final(self).apu_cycles == old(self).apu_cycles,
            final(self).master_cycles == old(self).master_cycles,
    {
        self.ppu_cycles = self.ppu_cycles.wrapping_add(cycles);
    }

    /// Charge `cycles` APU cycles.
    pub fn step_apu(&mut self, cycles: u64)
        ensures
            final(self).apu_cycles == old(self).apu_cycles.wrapping_add(cycles),
            final(self).cpu_cycles == old(self).cpu_cycles,
            final(self).ppu_cycles == old(self).ppu_cycles,
            final(self).master_cycles == old(self).master_cycles,
    {
        self.apu_cycles = self.apu_cycles.wrapping_add(cycles);
    }

    pub fn get_cpu_cycles(&self) -> (r: u64)
        ensures
            r == self.cpu_cycles,
    {
        self.cpu_cycles
    }

    pub fn get_ppu_cycles(&self) -> (r: u64)
        ensures
            r == self.ppu_cycles,
    {
        self.ppu_cycles
    }

    pub fn get_apu_cycles(&self) -> (r: u64)
        ensures
            r == self.apu_cycles,
    {
        self.apu_cycles
    }

    pub fn get_master_cycles(&self) -> (r: u64)
        ensures
            r == self.master_cycles,
    {
        self.master_cycles
    }

    /// How many PPU dots a count of CPU cycles spans: three per cycle.
    pub fn cpu_to_ppu_cycles(&self, cpu_cycles: u64) -> (r: u64)
        requires
            cpu_cycles <= 0x5555_5555_5555_5555,
        ensures
            r == cpu_cycles * 3,
    {
        cpu_cycles * 3
    }

    /// Whether a frame's worth of CPU cycles has been consumed.
    pub fn frame_complete(&self) -> (r: bool)
        ensures
            r == (self.cpu_cycles >= 29_829),
    {
        self.cpu_cycles >= CYCLES_PER_FRAME as u64
    }
}

} // verus!
