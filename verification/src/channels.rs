//! The five APU tone generators: two pulses, the triangle, the noise
//! channel with its linear-feedback shift register, and the delta
//! modulation channel.

use vstd::prelude::*;
use crate::error::{MemoryError, MemoryResult};

verus! {

/// The length counter load values, indexed by the top five bits of a
/// channel's length-load register write.
pub open spec fn spec_length_table(index: u8) -> u8 {
    match index & 0x1F {
        0x00 => 10,
        0x01 => 254,
        0x02 => 20,
        0x03 => 2,
        0x04 => 40,
        0x05 => 4,
        0x06 => 80,
        0x07 => 6,
        0x08 => 160,
        0x09 => 8,
        0x0A => 60,
        0x0B => 10,
        0x0C => 14,
        0x0D => 12,
        0x0E => 26,
        0x0F => 14,
        0x10 => 12,
        0x11 => 16,
        0x12 => 24,
        0x13 => 18,
        0x14 => 48,
        0x15 => 20,
        0x16 => 96,
        0x17 => 22,
        0x18 => 192,
        0x19 => 24,
        0x1A => 72,
        0x1B => 26,
        0x1C => 16,
        0x1D => 28,
        0x1E => 32,
        _ => 30,
    }
}

/// Look up the length counter load value for a register write.
pub fn length_table(index: u8) -> (r: u8)
    ensures
        r == spec_length_table(index),
{
    proof {
        assert(index & 0x1F < 32) by (bit_vector);
    }
    match index & 0x1F {
        0x00 => 10,
        0x01 => 254,
        0x02 => 20,
        0x03 => 2,
        0x04 => 40,
        0x05 => 4,
        0x06 => 80,
        0x07 => 6,
        0x08 => 160,
        0x09 => 8,
        0x0A => 60,
        0x0B => 10,
        0x0C => 14,
        0x0D => 12,
        0x0E => 26,
        0x0F => 14,
        0x10 => 12,
        0x11 => 16,
        0x12 => 24,
        0x13 => 18,
        0x14 => 48,
        0x15 => 20,
        0x16 => 96,
        0x17 => 22,
        0x18 => 192,
        0x19 => 24,
        0x1A => 72,
        0x1B => 26,
        0x1C => 16,
        0x1D => 28,
        0x1E => 32,
        _ => 30,
    }
}

/// The noise channel's timer period for each of its sixteen rates.
pub open spec fn spec_noise_period(index: u8) -> u16 {
    match index & 0x0F {
        0x0 => 4,
        0x1 => 8,
        0x2 => 16,
        0x3 => 32,
        0x4 => 64,
        0x5 => 96,
        0x6 => 128,
        0x7 => 160,
        0x8 => 202,
        0x9 => 254,
        0xA => 380,
        0xB => 508,
        0xC => 762,
        0xD => 1016,
        0xE => 2034,
        _ => 4068,
    }
}

fn noise_period(index: u8) -> (r: u16)
    ensures
        r == spec_noise_period(index),
{
    proof {
        assert(index & 0x0F < 16) by (bit_vector);
    }
    match index & 0x0F {
        0x0 => 4,
        0x1 => 8,
        0x2 => 16,
        0x3 => 32,
        0x4 => 64,
        0x5 => 96,
        0x6 => 128,
        0x7 => 160,
        0x8 => 202,
        0x9 => 254,
        0xA => 380,
        0xB => 508,
        0xC => 762,
        0xD => 1016,
        0xE => 2034,
        _ => 4068,
    }
}

/// The delta modulation channel's timer period for each of its sixteen
/// rates.
pub open spec fn spec_dmc_rate(index: u8) -> u16 {
    match index & 0x0F {
        0x0 => 428,
        0x1 => 380,
        0x2 => 340,
        0x3 => 320,
        0x4 => 286,
        0x5 => 254,
        0x6 => 226,
        0x7 => 214,
        0x8 => 190,
        0x9 => 160,
        0xA => 142,
        0xB => 128,
        0xC => 106,
        0xD => 84,
        0xE => 72,
        _ => 54,
    }
}

fn dmc_rate(index: u8) -> (r: u16)
    ensures
        r == spec_dmc_rate(index),
{
    proof {
        assert(index & 0x0F < 16) by (bit_vector);
    }
    match index & 0x0F {
        0x0 => 428,
        0x1 => 380,
        0x2 => 340,
        0x3 => 320,
        0x4 => 286,
        0x5 => 254,
        0x6 => 226,
        0x7 => 214,
        0x8 => 190,
        0x9 => 160,
        0xA => 142,
        0xB => 128,
        0xC => 106,
        0xD => 84,
        0xE => 72,
        _ => 54,
    }
}

/// The eight-step duty sequences of the pulse channels, one bit each.
pub open spec fn duty_bit(duty: u8, seq: u8) -> bool {
    let d = duty & 0x03;
    let s = seq & 0x07;
    if d == 0 {
        s == 1
    } else if d == 1 {
        s == 1 || s == 2
    } else if d == 2 {
        1 <= s && s <= 4
    } else {
        !(s == 1 || s == 2)
    }
}

/// One square-wave channel: duty sequencer, envelope, sweep, length
/// counter and an 11-bit timer.
pub struct PulseChannel {
    pub enabled: bool,
    /// Which of the two pulse channels this is; the first negates its
    /// sweep by one's complement, the second by two's complement.
    pub channel: u8,
    pub duty_cycle: u8,
    pub length_counter: u8,
    pub envelope_enabled: bool,
    pub envelope_loop: bool,
    pub envelope_start: bool,
    pub envelope_divider: u8,
    pub envelope_counter: u8,
    pub envelope_volume: u8,
    pub sweep_enabled: bool,
    pub sweep_period: u8,
    pub sweep_negate: bool,
    pub sweep_shift: u8,
    pub sweep_reload: bool,
    pub sweep_counter: u8,
    pub timer_period: u16,
    pub timer_counter: u16,
    pub sequence_counter: u8,
}

/// One timer tick of a pulse channel: the timer counts down and, on
/// expiry, reloads and steps the duty sequencer.
pub open spec fn pulse_step_spec(c: PulseChannel) -> PulseChannel {
    if c.timer_counter == 0 {
        PulseChannel {
            timer_counter: c.timer_period,
            sequence_counter: ((c.sequence_counter + 1) % 8) as u8,
            ..c
        }
    } else {
        PulseChannel { timer_counter: (c.timer_counter - 1) as u16, ..c }
    }
}

/// One quarter-frame envelope tick of a pulse channel.
pub open spec fn pulse_envelope_spec(c: PulseChannel) -> PulseChannel {
    if c.envelope_start {
        PulseChannel {
            envelope_start: false,
            envelope_counter: 15,
            envelope_divider: c.envelope_volume,
            ..c
        }
    } else if c.envelope_divider == 0 {
        if c.envelope_counter == 0 {
            PulseChannel {
                envelope_divider: c.envelope_volume,
                envelope_counter: if c.envelope_loop {
                    15
                } else {
                    0
                },
                ..c
            }
        } else {
            PulseChannel {
                envelope_divider: c.envelope_volume,
                envelope_counter: (c.envelope_counter - 1) as u8,
                ..c
            }
        }
    } else {
        PulseChannel { envelope_divider: (c.envelope_divider - 1) as u8, ..c }
    }
}

/// One half-frame length tick: the counter steps down unless halted.
pub open spec fn pulse_length_spec(c: PulseChannel) -> PulseChannel {
    if c.length_counter > 0 && !c.envelope_loop {
        PulseChannel { length_counter: (c.length_counter - 1) as u8, ..c }
    } else {
        c
    }
}

/// One half-frame sweep tick: on expiry the timer period moves by the
/// shifted amount, down (with the first channel's extra one) or up.
pub open spec fn pulse_sweep_spec(c: PulseChannel) -> PulseChannel {
    if c.sweep_reload {
        PulseChannel { sweep_reload: false, sweep_counter: c.sweep_period, ..c }
    } else if c.sweep_counter == 0 {
        if c.sweep_enabled {
            let change = c.timer_period >> (c.sweep_shift & 0x0F) as u16;
            let p = if c.sweep_negate {
                if c.channel == 0 {
                    sat_sub16(sat_sub16(c.timer_period, change), 1)
                } else {
                    sat_sub16(c.timer_period, change)
                }
            } else {
                sat_add16(c.timer_period, change)
            };
            PulseChannel { sweep_counter: c.sweep_period, timer_period: p, ..c }
        } else {
            PulseChannel { sweep_counter: c.sweep_period, ..c }
        }
    } else {
        PulseChannel { sweep_counter: (c.sweep_counter - 1) as u8, ..c }
    }
}

/// Saturating 16-bit subtraction.
pub open spec fn sat_sub16(a: u16, b: u16) -> u16 {
    if a >= b {
        (a - b) as u16
    } else {
        0
    }
}

/// Saturating 16-bit addition.
pub open spec fn sat_add16(a: u16, b: u16) -> u16 {
    if a + b > 0xFFFF {
        0xFFFF
    } else {
        (a + b) as u16
    }
}

/// What a write to one of the pulse channel's four registers stores:
/// duty and envelope setup, sweep setup, timer low, or timer high with
/// the length counter load; any other address leaves the channel alone.
pub open spec fn pulse_write_spec(c: PulseChannel, address: u16, value: u8) -> PulseChannel {
    let base: u16 = if c.channel == 0 { 0x4000u16 } else { 0x4004u16 };
    if address == base {
        PulseChannel {
            duty_cycle: (value & 0xC0) >> 6,
            envelope_loop: value & 0x20 != 0,
            envelope_enabled: value & 0x10 == 0,
            envelope_volume: value & 0x0F,
            ..c
        }
    } else if address == base + 1 {
        PulseChannel {
            sweep_enabled: value & 0x80 != 0,
            sweep_period: (value & 0x70) >> 4,
            sweep_negate: value & 0x08 != 0,
            sweep_shift: value & 0x07,
            sweep_reload: true,
            ..c
        }
    } else if address == base + 2 {
        PulseChannel { timer_period: (c.timer_period & 0xFF00) | value as u16, ..c }
    } else if address == base + 3 {
        PulseChannel {
            timer_period: (c.timer_period & 0x00FF) | (((value & 0x07) as u16) << 8),
            length_counter: spec_length_table(value >> 3),
            envelope_start: true,
            sequence_counter: 0,
            ..c
        }
    } else {
        c
    }
}

/// The pulse channel's current amplitude, on the 0 to 15 scale: zero
/// when disabled, run out, or tuned below a period of 8, or when the
/// duty sequencer outputs a low bit; otherwise the envelope's level or
/// the programmed constant volume.
pub open spec fn pulse_level_spec(c: PulseChannel) -> u8 {
    if !c.enabled || c.length_counter == 0 || c.timer_period < 8 {
        0
    } else if !duty_bit(c.duty_cycle, c.sequence_counter) {
        0
    } else if c.envelope_enabled {
        c.envelope_counter
    } else {
        c.envelope_volume
    }
}

/// A pulse channel with its envelope level and programmed volume inside
/// their four bits never outputs above 15.
pub proof fn lemma_pulse_level_bound(c: PulseChannel)
    requires
        c.envelope_counter <= 15,
        c.envelope_volume <= 15,
    ensures
        pulse_level_spec(c) <= 15,
{
}

impl PulseChannel {
    /// The envelope level and the programmed volume stay inside their
    /// four bits.
    pub open spec fn wf(&self) -> bool {
        &&& self.envelope_counter <= 15
        &&& self.envelope_volume <= 15
    }
}

impl PulseChannel {
    pub fn new(channel: u8) -> (r: PulseChannel)
        ensures
            r == (PulseChannel {
                enabled: false,
                channel,
                duty_cycle: 0,
                length_counter: 0,
                envelope_enabled: false,
                envelope_loop: false,
                envelope_start: false,
                envelope_divider: 0,
                envelope_counter: 0,
                envelope_volume: 0,
                sweep_enabled: false,
                sweep_period: 0,
                sweep_negate: false,
                sweep_shift: 0,
                sweep_reload: false,
                sweep_counter: 0,
                timer_period: 0,
                timer_counter: 0,
                sequence_counter: 0,
            }),
    {
        PulseChannel {
            enabled: false,
            channel,
            duty_cycle: 0,
            length_counter: 0,
            envelope_enabled: false,
            envelope_loop: false,
            envelope_start: false,
            envelope_divider: 0,
            envelope_counter: 0,
            envelope_volume: 0,
            sweep_enabled: false,
            sweep_period: 0,
            sweep_negate: false,
            sweep_shift: 0,
            sweep_reload: false,
            sweep_counter: 0,
            timer_period: 0,
            timer_counter: 0,
            sequence_counter: 0,
        }
    }

    /// Silence the channel and clear its counters; the programmed duty,
    /// envelope, sweep and timer settings stay.
    pub fn reset(&mut self)
        ensures
            *final(self) == (PulseChannel {
                enabled: false,
                length_counter: 0,
                envelope_start: false,
                envelope_counter: 0,
                sweep_reload: false,
                sweep_counter: 0,
                timer_counter: 0,
                sequence_counter: 0,
                ..*old(self)
            }),
    {
        self.enabled = false;
        self.length_counter = 0;
        self.envelope_start = false;
        self.envelope_counter = 0;
        self.sweep_reload = false;
        self.sweep_counter = 0;
        self.timer_counter = 0;
        self.sequence_counter = 0;
    }

    /// One CPU-rate timer tick.
    pub fn step(&mut self)
        ensures
            *final(self) == pulse_step_spec(*old(self)),
    {
        if self.timer_counter == 0 {
            self.timer_counter = self.timer_period;
            self.sequence_counter = ((self.sequence_counter as u16 + 1) % 8) as u8;
        } else {
            self.timer_counter = self.timer_counter - 1;
        }
    }

    /// One quarter-frame envelope tick.
    pub fn step_envelope(&mut self)
        ensures
            *final(self) == pulse_envelope_spec(*old(self)),
    {
        if self.envelope_start {
            self.envelope_start = false;
            self.envelope_counter = 15;
            self.envelope_divider = self.envelope_volume;
        } else if self.envelope_divider == 0 {
            self.envelope_divider = self.envelope_volume;
            if self.envelope_counter == 0 {
                if self.envelope_loop {
                    self.envelope_counter = 15;
                }
            } else {
                self.envelope_counter = self.envelope_counter - 1;
            }
        } else {
            self.envelope_divider = self.envelope_divider - 1;
        }
    }

    /// One half-frame length tick.
    pub fn step_length_counter(&mut self)
        ensures
            *final(self) == pulse_length_spec(*old(self)),
    {
        if self.length_counter > 0 && !self.envelope_loop {
            self.length_counter = self.length_counter - 1;
        }
    }

    /// One half-frame sweep tick.
    pub fn step_sweep(&mut self)
        ensures
            *final(self) == pulse_sweep_spec(*old(self)),
    {
        if self.sweep_reload {
            self.sweep_reload = false;
            self.sweep_counter = self.sweep_period;
        } else if self.sweep_counter == 0 {
            self.sweep_counter = self.sweep_period;
            if self.sweep_enabled {
                proof {
                    let sh = self.sweep_shift;
                    assert(sh & 0x0F < 16) by (bit_vector);
                }
                let change = self.timer_period >> ((self.sweep_shift & 0x0F) as u16);
                if self.sweep_negate {
                    self.timer_period = self.timer_period.saturating_sub(change);
                    if self.channel == 0 {
                        self.timer_period = self.timer_period.saturating_sub(1);
                    }
                } else {
                    self.timer_period = self.timer_period.saturating_add(change);
                }
            }
        } else {
            self.sweep_counter = self.sweep_counter - 1;
        }
    }

    /// Store one of the channel's four registers: duty and envelope,
    /// sweep, timer low, or timer high with the length counter load.
    pub fn write_register(&mut self, address: u16, value: u8) -> (r: MemoryResult<()>)
        requires
            old(self).channel == 0 ==> address >= 0x4000,
            old(self).channel != 0 ==> address >= 0x4004,
        ensures
            *final(self) == pulse_write_spec(*old(self), address, value),
            ({
                let base: u16 = if old(self).channel == 0 { 0x4000u16 } else { 0x4004u16 };
                if address == base {
                    r == Ok::<(), MemoryError>(()) && *final(self) == (PulseChannel {
                        duty_cycle: (value & 0xC0) >> 6,
                        envelope_loop: value & 0x20 != 0,
                        envelope_enabled: value & 0x10 == 0,
                        envelope_volume: value & 0x0F,
                        ..*old(self)
                    })
                } else if address == base + 1 {
                    r == Ok::<(), MemoryError>(()) && *final(self) == (PulseChannel {
                        sweep_enabled: value & 0x80 != 0,
                        sweep_period: (value & 0x70) >> 4,
                        sweep_negate: value & 0x08 != 0,
                        sweep_shift: value & 0x07,
                        sweep_reload: true,
                        ..*old(self)
                    })
                } else if address == base + 2 {
                    r == Ok::<(), MemoryError>(()) && *final(self) == (PulseChannel {
                        timer_period: (old(self).timer_period & 0xFF00) | value as u16,
                        ..*old(self)
                    })
                } else if address == base + 3 {
                    r == Ok::<(), MemoryError>(()) && *final(self) == (PulseChannel {
                        timer_period: (old(self).timer_period & 0x00FF) | (((value & 0x07) as u16)
                            << 8),
                        length_counter: spec_length_table(value >> 3),
                        envelope_start: true,
                        sequence_counter: 0,
                        ..*old(self)
                    })
                } else {
                    r == Err::<(), MemoryError>(MemoryError::InvalidRegion(address)) && *final(self)
                        == *old(self)
                }
            }),
    {
        let base: u16 = if self.channel == 0 {
            0x4000
        } else {
            0x4004
        };
        let offset = address - base;
        if offset == 0 {
            self.duty_cycle = (value & 0xC0) >> 6;
            self.envelope_loop = (value & 0x20) != 0;
            self.envelope_enabled = (value & 0x10) == 0;
            self.envelope_volume = value & 0x0F;
            Ok(())
        } else if offset == 1 {
            self.sweep_enabled = (value & 0x80) != 0;
            self.sweep_period = (value & 0x70) >> 4;
            self.sweep_negate = (value & 0x08) != 0;
            self.sweep_shift = value & 0x07;
            self.sweep_reload = true;
            Ok(())
        } else if offset == 2 {
            self.timer_period = (self.timer_period & 0xFF00) | (value as u16);
            Ok(())
        } else if offset == 3 {
            self.timer_period = (self.timer_period & 0x00FF) | (((value & 0x07) as u16) << 8);
            self.length_counter = length_table(value >> 3);
            self.envelope_start = true;
            self.sequence_counter = 0;
            Ok(())
        } else {
            Err(MemoryError::InvalidRegion(address))
        }
    }

    /// The channel's amplitude now, on the 0 to 15 scale.
    pub fn sample_level(&self) -> (r: u8)
        ensures
            r == pulse_level_spec(*self),
    {
        if !self.enabled || self.length_counter == 0 || self.timer_period < 8 {
            return 0;
        }
        let d = self.duty_cycle & 0x03;
        let s = self.sequence_counter & 0x07;
        let bit = if d == 0 {
            s == 1
        } else if d == 1 {
            s == 1 || s == 2
        } else if d == 2 {
            1 <= s && s <= 4
        } else {
            !(s == 1 || s == 2)
        };
        if !bit {
            0
        } else if self.envelope_enabled {
            self.envelope_counter
        } else {
            self.envelope_volume
        }
    }
}

/// The triangle channel: a 32-step sequencer gated by both the length
/// and the linear counter.
pub struct TriangleChannel {
    pub enabled: bool,
    pub length_counter: u8,
    pub linear_counter: u8,
    pub linear_counter_reload: u8,
    pub linear_counter_control: bool,
    pub linear_counter_reload_flag: bool,
    pub timer_period: u16,
    pub timer_counter: u16,
    pub sequence_counter: u8,
}

/// One timer tick of the triangle: the sequencer steps only while both
/// counters are live.
pub open spec fn tri_step_spec(c: TriangleChannel) -> TriangleChannel {
    if c.timer_counter == 0 {
        if c.length_counter > 0 && c.linear_counter > 0 {
            TriangleChannel {
                timer_counter: c.timer_period,
                sequence_counter: ((c.sequence_counter + 1) % 32) as u8,
                ..c
            }
        } else {
            TriangleChannel { timer_counter: c.timer_period, ..c }
        }
    } else {
        TriangleChannel { timer_counter: (c.timer_counter - 1) as u16, ..c }
    }
}

/// One quarter-frame tick of the linear counter.
pub open spec fn tri_linear_spec(c: TriangleChannel) -> TriangleChannel {
    let reloaded = if c.linear_counter_reload_flag {
        TriangleChannel { linear_counter: c.linear_counter_reload, ..c }
    } else if c.linear_counter > 0 {
        TriangleChannel { linear_counter: (c.linear_counter - 1) as u8, ..c }
    } else {
        c
    };
    if !c.linear_counter_control {
        TriangleChannel { linear_counter_reload_flag: false, ..reloaded }
    } else {
        reloaded
    }
}

/// One half-frame length tick; the control flag halts it.
pub open spec fn tri_length_spec(c: TriangleChannel) -> TriangleChannel {
    if c.length_counter > 0 && !c.linear_counter_control {
        TriangleChannel { length_counter: (c.length_counter - 1) as u8, ..c }
    } else {
        c
    }
}

/// What a write to one of the triangle channel's registers stores:
/// linear counter setup, timer low, or timer high with the length
/// counter load; any other address leaves the channel alone.
pub open spec fn tri_write_spec(c: TriangleChannel, address: u16, value: u8) -> TriangleChannel {
    if address == 0x4008 {
        TriangleChannel {
            linear_counter_control: value & 0x80 != 0,
            linear_counter_reload: value & 0x7F,
            ..c
        }
    } else if address == 0x400A {
        TriangleChannel { timer_period: (c.timer_period & 0xFF00) | value as u16, ..c }
    } else if address == 0x400B {
        TriangleChannel {
            timer_period: (c.timer_period & 0x00FF) | (((value & 0x07) as u16) << 8),
            length_counter: spec_length_table(value >> 3),
            linear_counter_reload_flag: true,
            ..c
        }
    } else {
        c
    }
}

/// The triangle wave's value at one of its 32 sequencer steps: down
/// from 15 to 0, then back up to 15.
pub open spec fn tri_wave(seq: u8) -> u8 {
    let s = seq & 0x1F;
    if s < 16 {
        (15 - s) as u8
    } else {
        (s - 16) as u8
    }
}

/// The triangle channel's amplitude, on the 0 to 15 scale.
pub open spec fn tri_level_spec(c: TriangleChannel) -> u8 {
    if !c.enabled || c.length_counter == 0 || c.linear_counter == 0 {
        0
    } else {
        tri_wave(c.sequence_counter)
    }
}

/// The triangle wave never rises above 15.
pub proof fn lemma_tri_level_bound(c: TriangleChannel)
    ensures
        tri_level_spec(c) <= 15,
{
    let sq = c.sequence_counter;
    assert(sq & 0x1F < 32) by (bit_vector);
}

impl TriangleChannel {
    pub fn new() -> (r: TriangleChannel)
        ensures
            r == (TriangleChannel {
                enabled: false,
                length_counter: 0,
                linear_counter: 0,
                linear_counter_reload: 0,
                linear_counter_control: false,
                linear_counter_reload_flag: false,
                timer_period: 0,
                timer_counter: 0,
                sequence_counter: 0,
            }),
    {
        TriangleChannel {
            enabled: false,
            length_counter: 0,
            linear_counter: 0,
            linear_counter_reload: 0,
            linear_counter_control: false,
            linear_counter_reload_flag: false,
            timer_period: 0,
            timer_counter: 0,
            sequence_counter: 0,
        }
    }

    /// Silence the channel and clear its counters; the programmed
    /// settings stay.
    pub fn reset(&mut self)
        ensures
            *final(self) == (TriangleChannel {
                enabled: false,
                length_counter: 0,
                linear_counter: 0,
                linear_counter_reload_flag: false,
                timer_counter: 0,
                sequence_counter: 0,
                ..*old(self)
            }),
    {
        self.enabled = false;
        self.length_counter = 0;
        self.linear_counter = 0;
        self.linear_counter_reload_flag = false;
        self.timer_counter = 0;
        self.sequence_counter = 0;
    }

    /// One CPU-rate timer tick.
    pub fn step(&mut self)
        ensures
            *final(self) == tri_step_spec(*old(self)),
    {
        if self.timer_counter == 0 {
            self.timer_counter = self.timer_period;
            if self.length_counter > 0 && self.linear_counter > 0 {
                self.sequence_counter = ((self.sequence_counter as u16 + 1) % 32) as u8;
            }
        } else {
            self.timer_counter = self.timer_counter - 1;
        }
    }

    /// One quarter-frame tick of the linear counter.
    pub fn step_envelope(&mut self)
        ensures
            *final(self) == tri_linear_spec(*old(self)),
    {
        if self.linear_counter_reload_flag {
            self.linear_counter = self.linear_counter_reload;
        } else if self.linear_counter > 0 {
            self.linear_counter = self.linear_counter - 1;
        }

        if !self.linear_counter_control {
            self.linear_counter_reload_flag = false;
        }
    }

    /// One half-frame length tick.
    pub fn step_length_counter(&mut self)
        ensures
            *final(self) == tri_length_spec(*old(self)),
    {
        if self.length_counter > 0 && !self.linear_counter_control {
            self.length_counter = self.length_counter - 1;
        }
    }

    /// Store one of the channel's registers: the linear counter setup,
    /// timer low, or timer high with the length counter load.
    pub fn write_register(&mut self, address: u16, value: u8) -> (r: MemoryResult<()>)
        ensures
            *final(self) == tri_write_spec(*old(self), address, value),
            address == 0x4008 ==> r == Ok::<(), MemoryError>(()) && *final(self)
                == (TriangleChannel {
                linear_counter_control: value & 0x80 != 0,
                linear_counter_reload: value & 0x7F,
                ..*old(self)
            }),
            address == 0x400A ==> r == Ok::<(), MemoryError>(()) && *final(self)
                == (TriangleChannel {
                timer_period: (old(self).timer_period & 0xFF00) | value as u16,
                ..*old(self)
            }),
            address == 0x400B ==> r == Ok::<(), MemoryError>(()) && *final(self)
                == (TriangleChannel {
                timer_period: (old(self).timer_period & 0x00FF) | (((value & 0x07) as u16) << 8),
                length_counter: spec_length_table(value >> 3),
                linear_counter_reload_flag: true,
                ..*old(self)
            }),
            !(address == 0x4008 || address == 0x400A || address == 0x400B) ==> r == Err::<(),
                MemoryError>(MemoryError::InvalidRegion(address)) && *final(self) == *old(self),
    {
        if address == 0x4008 {
            self.linear_counter_control = (value & 0x80) != 0;
            self.linear_counter_reload = value & 0x7F;
            Ok(())
        } else if address == 0x400A {
            self.timer_period = (self.timer_period & 0xFF00) | (value as u16);
            Ok(())
        } else if address == 0x400B {
            self.timer_period = (self.timer_period & 0x00FF) | (((value & 0x07) as u16) << 8);
            self.length_counter = length_table(value >> 3);
            self.linear_counter_reload_flag = true;
            Ok(())
        } else {
            Err(MemoryError::InvalidRegion(address))
        }
    }

    /// The channel's amplitude now, on the 0 to 15 scale.
    pub fn sample_level(&self) -> (r: u8)
        ensures
            r == tri_level_spec(*self),
    {
        if !self.enabled || self.length_counter == 0 || self.linear_counter == 0 {
            return 0;
        }
        let s = self.sequence_counter & 0x1F;
        if s < 16 {
            15 - s
        } else {
            s - 16
        }
    }
}

/// The noise channel: a 15-bit linear-feedback shift register clocked
/// by its timer, with an envelope and a length counter.
pub struct NoiseChannel {
    pub enabled: bool,
    pub length_counter: u8,
    pub envelope_enabled: bool,
    pub envelope_loop: bool,
    pub envelope_start: bool,
    pub envelope_divider: u8,
    pub envelope_counter: u8,
    pub envelope_volume: u8,
    pub timer_period: u16,
    pub timer_counter: u16,
    pub mode: bool,
    /// The 15-bit feedback register; never zero.
    pub shift_register: u16,
}

/// One clock of the feedback register: the new bit is the low bit XOR
/// bit 6 (short mode) or bit 1 (long mode), shifted in at the top.
pub open spec fn lfsr_next(sr: u16, mode: bool) -> u16 {
    let feedback = if mode {
        (sr & 1) ^ ((sr >> 6) & 1)
    } else {
        (sr & 1) ^ ((sr >> 1) & 1)
    };
    (sr >> 1) | (feedback << 14)
}

/// One timer tick of the noise channel.
pub open spec fn noise_step_spec(c: NoiseChannel) -> NoiseChannel {
    if c.timer_counter == 0 {
        NoiseChannel {
            timer_counter: c.timer_period,
            shift_register: lfsr_next(c.shift_register, c.mode),
            ..c
        }
    } else {
        NoiseChannel { timer_counter: (c.timer_counter - 1) as u16, ..c }
    }
}

/// One quarter-frame envelope tick of the noise channel.
pub open spec fn noise_envelope_spec(c: NoiseChannel) -> NoiseChannel {
    if c.envelope_start {
        NoiseChannel {
            envelope_start: false,
            envelope_counter: 15,
            envelope_divider: c.envelope_volume,
            ..c
        }
    } else if c.envelope_divider == 0 {
        if c.envelope_counter == 0 {
            NoiseChannel {
                envelope_divider: c.envelope_volume,
                envelope_counter: if c.envelope_loop {
                    15
                } else {
                    0
                },
                ..c
            }
        } else {
            NoiseChannel {
                envelope_divider: c.envelope_volume,
                envelope_counter: (c.envelope_counter - 1) as u8,
                ..c
            }
        }
    } else {
        NoiseChannel { envelope_divider: (c.envelope_divider - 1) as u8, ..c }
    }
}

/// One half-frame length tick of the noise channel.
pub open spec fn noise_length_spec(c: NoiseChannel) -> NoiseChannel {
    if c.length_counter > 0 && !c.envelope_loop {
        NoiseChannel { length_counter: (c.length_counter - 1) as u8, ..c }
    } else {
        c
    }
}

/// The noise channel's amplitude, on the 0 to 15 scale: silent when the
/// feedback register's low bit is set.
pub open spec fn noise_level_spec(c: NoiseChannel) -> u8 {
    if !c.enabled || c.length_counter == 0 || c.shift_register & 1 != 0 {
        0
    } else if c.envelope_enabled {
        c.envelope_counter
    } else {
        c.envelope_volume
    }
}

/// A noise channel with its envelope level and programmed volume inside
/// their four bits never outputs above 15.
pub proof fn lemma_noise_level_bound(c: NoiseChannel)
    requires
        c.envelope_counter <= 15,
        c.envelope_volume <= 15,
    ensures
        noise_level_spec(c) <= 15,
{
}

/// What a write to one of the noise channel's registers stores:
/// envelope setup, mode and timer rate, or the length counter load; any
/// other address leaves the channel alone.
pub open spec fn noise_write_spec(c: NoiseChannel, address: u16, value: u8) -> NoiseChannel {
    if address == 0x400C {
        NoiseChannel {
            envelope_loop: value & 0x20 != 0,
            envelope_enabled: value & 0x10 == 0,
            envelope_volume: value & 0x0F,
            ..c
        }
    } else if address == 0x400E {
        NoiseChannel { mode: value & 0x80 != 0, timer_period: spec_noise_period(value & 0x0F), ..c }
    } else if address == 0x400F {
        NoiseChannel {
            length_counter: spec_length_table(value >> 3),
            envelope_start: true,
            ..c
        }
    } else {
        c
    }
}

/// A nonzero 15-bit feedback register clocks to another nonzero 15-bit
/// value: the register never reaches the all-zero lock-up state.
pub proof fn lemma_lfsr_never_zero(sr: u16, mode: bool)
    requires
        sr != 0,
        sr < 0x8000,
    ensures
        lfsr_next(sr, mode) != 0,
        lfsr_next(sr, mode) < 0x8000,
{
    assert(sr != 0 && sr < 0x8000 ==> ((sr >> 1) | (((sr & 1) ^ ((sr >> 6) & 1)) << 14)) != 0
        && ((sr >> 1) | (((sr & 1) ^ ((sr >> 6) & 1)) << 14)) < 0x8000
        && ((sr >> 1) | (((sr & 1) ^ ((sr >> 1) & 1)) << 14)) != 0
        && ((sr >> 1) | (((sr & 1) ^ ((sr >> 1) & 1)) << 14)) < 0x8000) by (bit_vector);
}

impl NoiseChannel {
    /// The feedback register stays 15 bits wide and never zero, and the
    /// envelope level and programmed volume stay inside their four bits.
    pub open spec fn wf(&self) -> bool {
        &&& self.shift_register != 0
        &&& self.shift_register < 0x8000
        &&& self.envelope_counter <= 15
        &&& self.envelope_volume <= 15
    }

    pub fn new() -> (r: NoiseChannel)
        ensures
            r.wf(),
            r == (NoiseChannel {
                enabled: false,
                length_counter: 0,
                envelope_enabled: false,
                envelope_loop: false,
                envelope_start: false,
                envelope_divider: 0,
                envelope_counter: 0,
                envelope_volume: 0,
                timer_period: 0,
                timer_counter: 0,
                mode: false,
                shift_register: 1,
            }),
    {
        NoiseChannel {
            enabled: false,
            length_counter: 0,
            envelope_enabled: false,
            envelope_loop: false,
            envelope_start: false,
            envelope_divider: 0,
            envelope_counter: 0,
            envelope_volume: 0,
            timer_period: 0,
            timer_counter: 0,
            mode: false,
            shift_register: 1,
        }
    }

    /// Silence the channel and rewind the feedback register to one.
    pub fn reset(&mut self)
        ensures
            *final(self) == (NoiseChannel {
                enabled: false,
                length_counter: 0,
                envelope_start: false,
                envelope_counter: 0,
                timer_counter: 0,
                shift_register: 1,
                ..*old(self)
            }),
    {
        self.enabled = false;
        self.length_counter = 0;
        self.envelope_start = false;
        self.envelope_counter = 0;
        self.timer_counter = 0;
        self.shift_register = 1;
    }

    /// One CPU-rate timer tick; on expiry the feedback register clocks
    /// once and, never being zero, keeps producing noise.
    pub fn step(&mut self)
        requires
            old(self).wf(),
        ensures
            final(self).wf(),
            *final(self) == noise_step_spec(*old(self)),
    {
        proof {
            lemma_lfsr_never_zero(self.shift_register, self.mode);
        }
        if self.timer_counter == 0 {
            self.timer_counter = self.timer_period;

            let feedback = if self.mode {
                (self.shift_register & 1) ^ ((self.shift_register >> 6) & 1)
            } else {
                (self.shift_register & 1) ^ ((self.shift_register >> 1) & 1)
            };

            self.shift_register = (self.shift_register >> 1) | (feedback << 14);
        } else {
            self.timer_counter = self.timer_counter - 1;
        }
    }

    /// One quarter-frame envelope tick.
    pub fn step_envelope(&mut self)
        ensures
            *final(self) == noise_envelope_spec(*old(self)),
    {
        if self.envelope_start {
            self.envelope_start = false;
            self.envelope_counter = 15;
            self.envelope_divider = self.envelope_volume;
        } else if self.envelope_divider == 0 {
            self.envelope_divider = self.envelope_volume;
            if self.envelope_counter == 0 {
                if self.envelope_loop {
                    self.envelope_counter = 15;
                }
            } else {
                self.envelope_counter = self.envelope_counter - 1;
            }
        } else {
            self.envelope_divider = self.envelope_divider - 1;
        }
    }

    /// One half-frame length tick.
    pub fn step_length_counter(&mut self)
        ensures
            *final(self) == noise_length_spec(*old(self)),
    {
        if self.length_counter > 0 && !self.envelope_loop {
            self.length_counter = self.length_counter - 1;
        }
    }

    /// Store one of the channel's registers: envelope, timer rate and
    /// mode, or the length counter load.
    pub fn write_register(&mut self, address: u16, value: u8) -> (r: MemoryResult<()>)
        ensures
            *final(self) == noise_write_spec(*old(self), address, value),
            address == 0x400C ==> r == Ok::<(), MemoryError>(()) && *final(self) == (NoiseChannel {
                envelope_loop: value & 0x20 != 0,
                envelope_enabled: value & 0x10 == 0,
                envelope_volume: value & 0x0F,
                ..*old(self)
            }),
            address == 0x400E ==> r == Ok::<(), MemoryError>(()) && *final(self) == (NoiseChannel {
                mode: value & 0x80 != 0,
                timer_period: spec_noise_period(value & 0x0F),
                ..*old(self)
            }),
            address == 0x400F ==> r == Ok::<(), MemoryError>(()) && *final(self) == (NoiseChannel {
                length_counter: spec_length_table(value >> 3),
                envelope_start: true,
                ..*old(self)
            }),
            !(address == 0x400C || address == 0x400E || address == 0x400F) ==> r == Err::<(),
                MemoryError>(MemoryError::InvalidRegion(address)) && *final(self) == *old(self),
    {
        if address == 0x400C {
            self.envelope_loop = (value & 0x20) != 0;
            self.envelope_enabled = (value & 0x10) == 0;
            self.envelope_volume = value & 0x0F;
            Ok(())
        } else if address == 0x400E {
            self.mode = (value & 0x80) != 0;
            self.timer_period = noise_period(value & 0x0F);
            Ok(())
        } else if address == 0x400F {
            self.length_counter = length_table(value >> 3);
            self.envelope_start = true;
            Ok(())
        } else {
            Err(MemoryError::InvalidRegion(address))
        }
    }

    /// The channel's amplitude now, on the 0 to 15 scale.
    pub fn sample_level(&self) -> (r: u8)
        ensures
            r == noise_level_spec(*self),
    {
        if !self.enabled || self.length_counter == 0 || (self.shift_register & 1) != 0 {
            0
        } else if self.envelope_enabled {
            self.envelope_counter
        } else {
            self.envelope_volume
        }
    }
}

/// The delta modulation channel: an output level in 0 to 127 nudged up
/// or down by the bits of a sample buffer.
pub struct DmcChannel {
    pub enabled: bool,
    pub irq_enabled: bool,
    pub loop_flag: bool,
    pub rate_index: u8,
    pub timer_period: u16,
    pub timer_counter: u16,
    pub sample_address: u16,
    pub sample_length: u16,
    pub current_address: u16,
    pub bytes_remaining: u16,
    pub sample_buffer: u8,
    pub sample_buffer_empty: bool,
    pub shift_register: u8,
    pub bits_remaining: u8,
    pub silence_flag: bool,
    /// The 7-bit output level; stays in 0 to 127.
    pub output_level: u8,
}

/// One timer tick of the delta channel: on expiry the next sample bit
/// nudges the output level by two within its 7-bit range, and an
/// emptied bit counter refills the shift register from the sample
/// buffer or goes silent.
pub open spec fn dmc_step_spec(c: DmcChannel) -> DmcChannel {
    if c.timer_counter == 0 {
        let level = if !c.silence_flag && c.bits_remaining > 0 {
            if c.shift_register & 1 != 0 {
                if c.output_level <= 125 {
                    (c.output_level + 2) as u8
                } else {
                    c.output_level
                }
            } else {
                if c.output_level >= 2 {
                    (c.output_level - 2) as u8
                } else {
                    c.output_level
                }
            }
        } else {
            c.output_level
        };
        let shifted = if c.bits_remaining > 0 {
            DmcChannel {
                output_level: level,
                shift_register: c.shift_register >> 1,
                bits_remaining: (c.bits_remaining - 1) as u8,
                timer_counter: c.timer_period,
                ..c
            }
        } else {
            DmcChannel { output_level: level, timer_counter: c.timer_period, ..c }
        };
        if shifted.bits_remaining == 0 {
            if c.sample_buffer_empty {
                DmcChannel { bits_remaining: 8, silence_flag: true, ..shifted }
            } else {
                DmcChannel {
                    bits_remaining: 8,
                    silence_flag: false,
                    shift_register: c.sample_buffer,
                    sample_buffer_empty: true,
                    ..shifted
                }
            }
        } else {
            shifted
        }
    } else {
        DmcChannel { timer_counter: (c.timer_counter - 1) as u16, ..c }
    }
}

/// What a write to one of the delta channel's registers stores: rate
/// and flags, a direct output load, the sample start address, or the
/// sample length; any other address leaves the channel alone.
pub open spec fn dmc_write_spec(c: DmcChannel, address: u16, value: u8) -> DmcChannel {
    if address == 0x4010 {
        DmcChannel {
            irq_enabled: value & 0x80 != 0,
            loop_flag: value & 0x40 != 0,
            rate_index: value & 0x0F,
            timer_period: spec_dmc_rate(value & 0x0F),
            ..c
        }
    } else if address == 0x4011 {
        DmcChannel { output_level: value & 0x7F, ..c }
    } else if address == 0x4012 {
        DmcChannel { sample_address: (0xC000 + ((value as u16) << 6)) as u16, ..c }
    } else if address == 0x4013 {
        DmcChannel { sample_length: (((value as u16) << 4) + 1) as u16, ..c }
    } else {
        c
    }
}

/// The delta channel's amplitude: its output level, zero when disabled.
pub open spec fn dmc_level_spec(c: DmcChannel) -> u8 {
    if !c.enabled {
        0
    } else {
        c.output_level
    }
}

impl DmcChannel {
    /// The output level stays inside its seven bits.
    pub open spec fn wf(&self) -> bool {
        self.output_level <= 127
    }

    pub fn new() -> (r: DmcChannel)
        ensures
            r.wf(),
            r == (DmcChannel {
                enabled: false,
                irq_enabled: false,
                loop_flag: false,
                rate_index: 0,
                timer_period: 0,
                timer_counter: 0,
                sample_address: 0,
                sample_length: 0,
                current_address: 0,
                bytes_remaining: 0,
                sample_buffer: 0,
                sample_buffer_empty: true,
                shift_register: 0,
                bits_remaining: 0,
                silence_flag: true,
                output_level: 0,
            }),
    {
        DmcChannel {
            enabled: false,
            irq_enabled: false,
            loop_flag: false,
            rate_index: 0,
            timer_period: 0,
            timer_counter: 0,
            sample_address: 0,
            sample_length: 0,
            current_address: 0,
            bytes_remaining: 0,
            sample_buffer: 0,
            sample_buffer_empty: true,
            shift_register: 0,
            bits_remaining: 0,
            silence_flag: true,
            output_level: 0,
        }
    }

    /// Silence the channel; its programmed rate and addresses stay.
    pub fn reset(&mut self)
        ensures
            final(self).wf(),
            *final(self) == (DmcChannel {
                enabled: false,
                bytes_remaining: 0,
                sample_buffer_empty: true,
                bits_remaining: 0,
                silence_flag: true,
                output_level: 0,
                ..*old(self)
            }),
    {
        self.enabled = false;
        self.bytes_remaining = 0;
        self.sample_buffer_empty = true;
        self.bits_remaining = 0;
        self.silence_flag = true;
        self.output_level = 0;
    }

    /// One CPU-rate timer tick.
    pub fn step(&mut self)
        requires
            old(self).wf(),
        ensures
            final(self).wf(),
            *final(self) == dmc_step_spec(*old(self)),
    {
        if self.timer_counter == 0 {
            self.timer_counter = self.timer_period;

            if !self.silence_flag && self.bits_remaining > 0 {
                if (self.shift_register & 1) != 0 {
                    if self.output_level <= 125 {
                        self.output_level = self.output_level + 2;
                    }
                } else {
                    if self.output_level >= 2 {
                        self.output_level = self.output_level - 2;
                    }
                }
            }

            if self.bits_remaining > 0 {
                self.shift_register = self.shift_register >> 1;
                self.bits_remaining = self.bits_remaining - 1;
            }

            if self.bits_remaining == 0 {
                self.bits_remaining = 8;
                if self.sample_buffer_empty {
                    self.silence_flag = true;
                } else {
                    self.silence_flag = false;
                    self.shift_register = self.sample_buffer;
                    self.sample_buffer_empty = true;
                }
            }
        } else {
            self.timer_counter = self.timer_counter - 1;
        }
    }

    /// The delta channel has no envelope; a quarter-frame tick does
    /// nothing.
    pub fn step_envelope(&mut self)
        ensures
            *final(self) == *old(self),
    {
    }

    /// The delta channel has no length counter; a half-frame tick does
    /// nothing.
    pub fn step_length_counter(&mut self)
        ensures
            *final(self) == *old(self),
    {
    }

    /// Store one of the channel's registers: rate and flags, a direct
    /// output load, the sample start address, or the sample length.
    pub fn write_register(&mut self, address: u16, value: u8) -> (r: MemoryResult<()>)
        requires
            old(self).wf(),
        ensures
            final(self).wf(),
            *final(self) == dmc_write_spec(*old(self), address, value),
            address == 0x4010 ==> r == Ok::<(), MemoryError>(()) && *final(self) == (DmcChannel {
                irq_enabled: value & 0x80 != 0,
                loop_flag: value & 0x40 != 0,
                rate_index: value & 0x0F,
                timer_period: spec_dmc_rate(value & 0x0F),
                ..*old(self)
            }),
            address == 0x4011 ==> r == Ok::<(), MemoryError>(()) && *final(self) == (DmcChannel {
                output_level: value & 0x7F,
                ..*old(self)
            }),
            address == 0x4012 ==> r == Ok::<(), MemoryError>(()) && *final(self) == (DmcChannel {
                sample_address: (0xC000 + ((value as u16) << 6)) as u16,
                ..*old(self)
            }),
            address == 0x4013 ==> r == Ok::<(), MemoryError>(()) && *final(self) == (DmcChannel {
                sample_length: (((value as u16) << 4) + 1) as u16,
                ..*old(self)
            }),
            !(address == 0x4010 || address == 0x4011 || address == 0x4012 || address == 0x4013)
                ==> r == Err::<(), MemoryError>(MemoryError::InvalidRegion(address))
                && *final(self) == *old(self),
    {
        if address == 0x4010 {
            self.irq_enabled = (value & 0x80) != 0;
            self.loop_flag = (value & 0x40) != 0;
            self.rate_index = value & 0x0F;
            self.timer_period = dmc_rate(self.rate_index);
            Ok(())
        } else if address == 0x4011 {
            proof {
                assert(value & 0x7F <= 127) by (bit_vector);
            }
            self.output_level = value & 0x7F;
            Ok(())
        } else if address == 0x4012 {
            proof {
                assert(((value as u16) << 6) <= 0x3FC0) by (bit_vector);
            }
            self.sample_address = 0xC000 + ((value as u16) << 6);
            Ok(())
        } else if address == 0x4013 {
            proof {
                assert(((value as u16) << 4) <= 0xFF0) by (bit_vector);
            }
            self.sample_length = ((value as u16) << 4) + 1;
            Ok(())
        } else {
            Err(MemoryError::InvalidRegion(address))
        }
    }

    /// The channel's amplitude now, on the 0 to 127 scale.
    pub fn sample_level(&self) -> (r: u8)
        ensures
            r == dmc_level_spec(*self),
    {
        if !self.enabled {
            0
        } else {
            self.output_level
        }
    }
}

impl PulseChannel {
    /// Switch the channel on or off; switching it off clears its length
    /// counter.
    pub fn set_enabled(&mut self, on: bool)
        ensures
            *final(self) == (PulseChannel {
                enabled: on,
                length_counter: if on {
                    old(self).length_counter
                } else {
                    0
                },
                ..*old(self)
            }),
    {
        self.enabled = on;
        if !on {
            self.length_counter = 0;
        }
    }
}

impl TriangleChannel {
    /// Switch the channel on or off; switching it off clears its length
    /// counter.
    pub fn set_enabled(&mut self, on: bool)
        ensures
            *final(self) == (TriangleChannel {
                enabled: on,
                length_counter: if on {
                    old(self).length_counter
                } else {
                    0
                },
                ..*old(self)
            }),
    {
        self.enabled = on;
        if !on {
            self.length_counter = 0;
        }
    }
}

impl NoiseChannel {
    /// Switch the channel on or off; switching it off clears its length
    /// counter.
    pub fn set_enabled(&mut self, on: bool)
        ensures
            *final(self) == (NoiseChannel {
                enabled: on,
                length_counter: if on {
                    old(self).length_counter
                } else {
                    0
                },
                ..*old(self)
            }),
    {
        self.enabled = on;
        if !on {
            self.length_counter = 0;
        }
    }
}

impl DmcChannel {
    /// Switch the channel on or off; switching it off clears its
    /// remaining sample bytes.
    pub fn set_enabled(&mut self, on: bool)
        ensures
            *final(self) == (DmcChannel {
                enabled: on,
                bytes_remaining: if on {
                    old(self).bytes_remaining
                } else {
                    0
                },
                ..*old(self)
            }),
    {
        self.enabled = on;
        if !on {
            self.bytes_remaining = 0;
        }
    }
}

} // verus!


