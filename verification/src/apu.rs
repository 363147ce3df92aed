//! The audio processing unit: the five channels, the frame sequencer
//! that drives their envelope, length and sweep units, the status
//! register, and the integer mixing stage.

use vstd::prelude::*;
use crate::channels::{
    PulseChannel, TriangleChannel, NoiseChannel, DmcChannel, pulse_step_spec,
    pulse_envelope_spec, pulse_length_spec, pulse_sweep_spec, pulse_level_spec, pulse_write_spec,
    tri_step_spec, tri_linear_spec, tri_length_spec, tri_level_spec, tri_write_spec,
    noise_step_spec, noise_envelope_spec, noise_length_spec, noise_level_spec, noise_write_spec,
    dmc_step_spec, dmc_level_spec, dmc_write_spec,
};
use crate::error::{MemoryError, MemoryResult};

verus! {

/// How many CPU cycles sit between two frame sequencer ticks.
pub const FRAME_SEQUENCER_PERIOD: u16 = 7457;

/// The APU: five channels, the frame sequencer's divider, step index,
/// mode and interrupt state, and a running cycle count.
pub struct Apu {
    pub pulse1: PulseChannel,
    pub pulse2: PulseChannel,
    pub triangle: TriangleChannel,
    pub noise: NoiseChannel,
    pub dmc: DmcChannel,
    /// Cycles since the last frame sequencer tick.
    pub frame_counter: u16,
    /// The sequencer's step index: 0 to 3 in 4-step mode, 0 to 4 in
    /// 5-step mode.
    pub frame_sequence: u8,
    /// Suppresses the frame interrupt when set.
    pub interrupt_inhibit: bool,
    /// 5-step mode when set, 4-step mode when clear.
    pub five_step_mode: bool,
    /// The frame interrupt flag; asserted on the last 4-step tick and
    /// cleared by reading the status register.
    pub frame_irq: bool,
    pub cycle: u64,
}

/// A quarter-frame tick: every envelope and the linear counter.
pub open spec fn quarter_tick(a: Apu) -> Apu {
    Apu {
        pulse1: pulse_envelope_spec(a.pulse1),
        pulse2: pulse_envelope_spec(a.pulse2),
        triangle: tri_linear_spec(a.triangle),
        noise: noise_envelope_spec(a.noise),
        ..a
    }
}

/// A half-frame tick: every length counter and both sweeps.
pub open spec fn half_tick(a: Apu) -> Apu {
    Apu {
        pulse1: pulse_sweep_spec(pulse_length_spec(a.pulse1)),
        pulse2: pulse_sweep_spec(pulse_length_spec(a.pulse2)),
        triangle: tri_length_spec(a.triangle),
        noise: noise_length_spec(a.noise),
        ..a
    }
}

/// One frame sequencer tick from step index `seq`. In 4-step mode the
/// quarter units tick on every step, the half units on steps 1 and 3,
/// and step 3 raises the frame interrupt unless inhibited. In 5-step
/// mode the quarter units tick on steps 0, 1, 2 and 4 and the half
/// units on 1 and 4; no interrupt.
pub open spec fn sequencer_tick(a: Apu) -> Apu {
    let seq = a.frame_sequence;
    if a.five_step_mode {
        let ticked = if seq == 0 || seq == 2 {
            quarter_tick(a)
        } else if seq == 1 || seq == 4 {
            half_tick(quarter_tick(a))
        } else {
            a
        };
        Apu { frame_sequence: ((seq + 1) % 5) as u8, ..ticked }
    } else {
        let ticked = if seq == 0 || seq == 2 {
            quarter_tick(a)
        } else if seq == 1 || seq == 3 {
            half_tick(quarter_tick(a))
        } else {
            a
        };
        let irq = if seq == 3 && !a.interrupt_inhibit {
            true
        } else {
            a.frame_irq
        };
        Apu { frame_sequence: ((seq + 1) % 4) as u8, frame_irq: irq, ..ticked }
    }
}

/// The index into the pulse mixing table: the two pulse levels summed,
/// 0 to 30.
pub open spec fn pulse_index_spec(a: Apu) -> u8 {
    (pulse_level_spec(a.pulse1) + pulse_level_spec(a.pulse2)) as u8
}

/// The index into the triangle-noise-delta mixing table:
/// `3 * triangle + 2 * noise + delta`, 0 to 202.
pub open spec fn tnd_index_spec(a: Apu) -> u8 {
    (3 * tri_level_spec(a.triangle) + 2 * noise_level_spec(a.noise) + dmc_level_spec(a.dmc)) as u8
}

/// The channel-enable register's effect: each low bit switches one
/// channel on; a cleared bit silences that channel's length counter (or
/// the delta channel's remaining bytes).
pub open spec fn apu_enable_spec(a: Apu, value: u8) -> Apu {
    Apu {
        pulse1: PulseChannel {
            enabled: value & 0x01 != 0,
            length_counter: if value & 0x01 != 0 {
                a.pulse1.length_counter
            } else {
                0
            },
            ..a.pulse1
        },
        pulse2: PulseChannel {
            enabled: value & 0x02 != 0,
            length_counter: if value & 0x02 != 0 {
                a.pulse2.length_counter
            } else {
                0
            },
            ..a.pulse2
        },
        triangle: TriangleChannel {
            enabled: value & 0x04 != 0,
            length_counter: if value & 0x04 != 0 {
                a.triangle.length_counter
            } else {
                0
            },
            ..a.triangle
        },
        noise: NoiseChannel {
            enabled: value & 0x08 != 0,
            length_counter: if value & 0x08 != 0 {
                a.noise.length_counter
            } else {
                0
            },
            ..a.noise
        },
        dmc: DmcChannel {
            enabled: value & 0x10 != 0,
            bytes_remaining: if value & 0x10 != 0 {
                a.dmc.bytes_remaining
            } else {
                0
            },
            ..a.dmc
        },
        ..a
    }
}

/// The frame counter register's effect: program the mode and the
/// interrupt inhibit, rewind the sequencer, and in 5-step mode run one
/// quarter and one half tick at once.
pub open spec fn apu_frame_write_spec(a: Apu, value: u8) -> Apu {
    let programmed = Apu {
        interrupt_inhibit: value & 0x40 != 0,
        five_step_mode: value & 0x80 != 0,
        frame_counter: 0,
        frame_sequence: 0,
        ..a
    };
    if value & 0x80 != 0 {
        half_tick(quarter_tick(programmed))
    } else {
        programmed
    }
}


/// Everything one APU cycle does: every channel's timer ticks, the
/// cycle count steps, and each 7457th cycle runs one frame sequencer
/// step.
pub open spec fn apu_step_spec(a: Apu) -> Apu {
    let ticked = Apu {
        pulse1: pulse_step_spec(a.pulse1),
        pulse2: pulse_step_spec(a.pulse2),
        triangle: tri_step_spec(a.triangle),
        noise: noise_step_spec(a.noise),
        dmc: dmc_step_spec(a.dmc),
        cycle: a.cycle.wrapping_add(1),
        ..a
    };
    if a.frame_counter + 1 == 7457 {
        sequencer_tick(Apu { frame_counter: 0, ..ticked })
    } else {
        Apu { frame_counter: (a.frame_counter + 1) as u16, ..ticked }
    }
}

/// The APU after `n` cycles of `apu_step_spec`.
pub open spec fn apu_steps_spec(a: Apu, n: nat) -> Apu
    decreases n,
{
    if n == 0 {
        a
    } else {
        apu_step_spec(apu_steps_spec(a, (n - 1) as nat))
    }
}

/// The status byte a read of the channel-status register returns: one
/// live bit per channel with a running length counter (or remaining
/// delta bytes), and the frame interrupt in bit 6.
pub open spec fn apu_status_byte(a: Apu) -> u8 {
    (if a.pulse1.length_counter > 0 { 0x01u8 } else { 0u8 })
        | (if a.pulse2.length_counter > 0 { 0x02u8 } else { 0u8 })
        | (if a.triangle.length_counter > 0 { 0x04u8 } else { 0u8 })
        | (if a.noise.length_counter > 0 { 0x08u8 } else { 0u8 })
        | (if a.dmc.bytes_remaining > 0 { 0x10u8 } else { 0u8 })
        | (if a.frame_irq { 0x40u8 } else { 0u8 })
}

/// Everything a read of an APU register does: the status register
/// returns its byte and clears the frame interrupt; every other address
/// in the block is write-only and refuses the read unchanged.
#[verifier::opaque]
pub open spec fn apu_reg_read_rel(pre: Apu, post: Apu, address: u16, r: MemoryResult<u8>) -> bool {
    &&& (address == 0x4015 ==> r == Ok::<u8, MemoryError>(apu_status_byte(pre)) && post == (Apu {
        frame_irq: false,
        ..pre
    }))
    &&& (address != 0x4015 ==> r == Err::<u8, MemoryError>(MemoryError::InvalidRegion(address))
        && post == pre)
}

/// Everything a write of an APU register does: the channel blocks store
/// through their channel's own register map, the status register
/// switches channels on and off, and the frame counter register
/// reprograms the sequencer; the two addresses the APU does not own and
/// anything outside the block refuse the write unchanged.
#[verifier::opaque]
pub open spec fn apu_reg_write_rel(pre: Apu, post: Apu, address: u16, value: u8, r: MemoryResult<
    (),
>) -> bool {
    &&& (0x4000 <= address && address <= 0x4003 ==> r == Ok::<(), MemoryError>(()) && post == (Apu {
        pulse1: pulse_write_spec(pre.pulse1, address, value),
        ..pre
    }))
    &&& (0x4004 <= address && address <= 0x4007 ==> r == Ok::<(), MemoryError>(()) && post == (Apu {
        pulse2: pulse_write_spec(pre.pulse2, address, value),
        ..pre
    }))
    &&& (0x4008 <= address && address <= 0x400B ==> r == (if address == 0x4009 {
        Err::<(), MemoryError>(MemoryError::InvalidRegion(address))
    } else {
        Ok::<(), MemoryError>(())
    }) && post == (Apu { triangle: tri_write_spec(pre.triangle, address, value), ..pre }))
    &&& (0x400C <= address && address <= 0x400F ==> r == (if address == 0x400D {
        Err::<(), MemoryError>(MemoryError::InvalidRegion(address))
    } else {
        Ok::<(), MemoryError>(())
    }) && post == (Apu { noise: noise_write_spec(pre.noise, address, value), ..pre }))
    &&& (0x4010 <= address && address <= 0x4013 ==> r == Ok::<(), MemoryError>(()) && post == (Apu {
        dmc: dmc_write_spec(pre.dmc, address, value),
        ..pre
    }))
    &&& (address == 0x4015 ==> r == Ok::<(), MemoryError>(()) && post == apu_enable_spec(pre,
        value))
    &&& (address == 0x4017 ==> r == Ok::<(), MemoryError>(()) && post == apu_frame_write_spec(pre,
        value))
    &&& (!(0x4000 <= address && address <= 0x4013) && address != 0x4015 && address != 0x4017 ==> r
        == Err::<(), MemoryError>(MemoryError::InvalidRegion(address)) && post == pre)
}

impl Apu {
    /// The channels' own invariants hold and the sequencer divider and
    /// step index are inside their ranges.
    pub open spec fn wf(&self) -> bool {
        &&& self.pulse1.wf()
        &&& self.pulse2.wf()
        &&& self.pulse1.channel == 0
        &&& self.pulse2.channel == 1
        &&& self.noise.wf()
        &&& self.dmc.wf()
        &&& self.frame_counter < 7457
        &&& self.frame_sequence < 5
        &&& (!self.five_step_mode ==> self.frame_sequence < 4)
    }

    /// An APU in its power-on state: every channel silent, 4-step mode.
    pub fn new() -> (r: Apu)
        ensures
            r.wf(),
            r.pulse1.channel == 0 && r.pulse2.channel == 1,
            !r.pulse1.enabled && !r.pulse2.enabled && !r.triangle.enabled && !r.noise.enabled
                && !r.dmc.enabled,
            r.pulse1.length_counter == 0 && r.pulse2.length_counter == 0
                && r.triangle.length_counter == 0 && r.noise.length_counter == 0,
            r.triangle.linear_counter == 0,
            r.noise.shift_register == 1,
            r.dmc.output_level == 0 && r.dmc.bytes_remaining == 0,
            r.frame_counter == 0 && r.frame_sequence == 0 && r.cycle == 0,
            !r.interrupt_inhibit && !r.five_step_mode && !r.frame_irq,
    {
        Apu {
            pulse1: PulseChannel::new(0),
            pulse2: PulseChannel::new(1),
            triangle: TriangleChannel::new(),
            noise: NoiseChannel::new(),
            dmc: DmcChannel::new(),
            frame_counter: 0,
            frame_sequence: 0,
            interrupt_inhibit: false,
            five_step_mode: false,
            frame_irq: false,
            cycle: 0,
        }
    }

    /// Silence every channel and rewind the sequencer.
    pub fn reset(&mut self)
        requires
            old(self).wf(),
        ensures
            final(self).wf(),
            final(self).frame_counter == 0 && final(self).frame_sequence == 0,
            !final(self).interrupt_inhibit && !final(self).five_step_mode
                && !final(self).frame_irq,
            final(self).cycle == 0,
            !final(self).pulse1.enabled && !final(self).pulse2.enabled
                && !final(self).triangle.enabled && !final(self).noise.enabled
                && !final(self).dmc.enabled,
            final(self).pulse1.length_counter == 0 && final(self).pulse2.length_counter == 0
                && final(self).triangle.length_counter == 0
                && final(self).noise.length_counter == 0,
            final(self).noise.shift_register == 1,
    {
        self.pulse1.reset();
        self.pulse2.reset();
        self.triangle.reset();
        self.noise.reset();
        self.dmc.reset();
        self.frame_counter = 0;
        self.frame_sequence = 0;
        self.interrupt_inhibit = false;
        self.five_step_mode = false;
        self.frame_irq = false;
        self.cycle = 0;
    }

    /// One CPU cycle of audio work, exactly as `apu_step_spec` says.
    pub fn step(&mut self) -> (r: MemoryResult<()>)
        requires
            old(self).wf(),
        ensures
            final(self).wf(),
            r == Ok::<(), MemoryError>(()),
            *final(self) == apu_step_spec(*old(self)),
    {
        self.cycle = self.cycle.wrapping_add(1);

        self.pulse1.step();
        self.pulse2.step();
        self.triangle.step();
        self.noise.step();
        self.dmc.step();

        self.frame_counter = self.frame_counter + 1;
        if self.frame_counter == 7457 {
            self.frame_counter = 0;
            self.step_frame_counter();
        }

        Ok(())
    }

    /// Read an APU register: the status register reports one live bit
    /// per channel with a running length counter (or remaining delta
    /// bytes) and the frame interrupt in bit 6, and the read clears the
    /// frame interrupt; bits 5 and 7 read as zero. Every other address
    /// in the block is write-only and refuses the read.
    pub fn read_register(&mut self, address: u16) -> (r: MemoryResult<u8>)
        ensures
            apu_reg_read_rel(*old(self), *final(self), address, r),
    {
        proof {
            reveal(apu_reg_read_rel);
        }
        if address == 0x4015 {
            let status: u8 = (if self.pulse1.length_counter > 0 { 0x01 } else { 0 })
                | (if self.pulse2.length_counter > 0 { 0x02 } else { 0 })
                | (if self.triangle.length_counter > 0 { 0x04 } else { 0 })
                | (if self.noise.length_counter > 0 { 0x08 } else { 0 })
                | (if self.dmc.bytes_remaining > 0 { 0x10 } else { 0 })
                | (if self.frame_irq { 0x40 } else { 0 });
            self.frame_irq = false;
            Ok(status)
        } else {
            Err(MemoryError::InvalidRegion(address))
        }
    }

    /// Write an APU register: the channel registers dispatch to their
    /// channels, `0x4015` enables channels (silencing a disabled one's
    /// length counter), and `0x4017` programs the frame sequencer,
    /// resetting it and, in 5-step mode, immediately running a quarter
    /// and a half tick.
    #[verifier::rlimit(100)]
    #[verifier::spinoff_prover]
    pub fn write_register(&mut self, address: u16, value: u8) -> (r: MemoryResult<()>)
        requires
            old(self).wf(),
        ensures
            final(self).wf(),
            apu_reg_write_rel(*old(self), *final(self), address, value, r),
    {
        proof {
            reveal(apu_reg_write_rel);
            assert(value & 0x0F <= 15) by (bit_vector);
        }
        if address <= 0x4003 && address >= 0x4000 {
            self.pulse1.write_register(address, value)
        } else if address >= 0x4004 && address <= 0x4007 {
            self.pulse2.write_register(address, value)
        } else if address >= 0x4008 && address <= 0x400B {
            self.triangle.write_register(address, value)
        } else if address >= 0x400C && address <= 0x400F {
            self.noise.write_register(address, value)
        } else if address >= 0x4010 && address <= 0x4013 {
            self.dmc.write_register(address, value)
        } else if address == 0x4015 {
            self.write_status(value);
            Ok(())
        } else if address == 0x4017 {
            self.write_frame_counter_register(value);
            Ok(())
        } else {
            Err(MemoryError::InvalidRegion(address))
        }
    }

    /// The channel-enable register: each low bit switches one channel
    /// on; switching a channel off clears its length counter (or the
    /// delta channel's remaining bytes).
    #[verifier::rlimit(100)]
    #[verifier::spinoff_prover]
    fn write_status(&mut self, value: u8)
        ensures
            *final(self) == apu_enable_spec(*old(self), value),
    {
        self.pulse1.set_enabled((value & 0x01) != 0);
        self.pulse2.set_enabled((value & 0x02) != 0);
        self.triangle.set_enabled((value & 0x04) != 0);
        self.noise.set_enabled((value & 0x08) != 0);
        self.dmc.set_enabled((value & 0x10) != 0);
    }

    /// The frame counter register: program the mode and interrupt
    /// inhibit and rewind the sequencer; setting 5-step mode immediately
    /// runs one quarter and one half tick.
    #[verifier::rlimit(100)]
    #[verifier::spinoff_prover]
    fn write_frame_counter_register(&mut self, value: u8)
        ensures
            *final(self) == apu_frame_write_spec(*old(self), value),
    {
        self.interrupt_inhibit = (value & 0x40) != 0;
        self.five_step_mode = (value & 0x80) != 0;
        self.frame_counter = 0;
        self.frame_sequence = 0;

        if self.five_step_mode {
            self.step_envelope();
            self.step_length_counter();
        }
    }

    /// One frame sequencer tick.
    fn step_frame_counter(&mut self)
        requires
            old(self).wf(),
            old(self).frame_counter < 7457,
        ensures
            final(self).wf(),
            *final(self) == sequencer_tick(*old(self)),
    {
        if self.five_step_mode {
            if self.frame_sequence == 0 || self.frame_sequence == 2 {
                self.step_envelope();
            } else if self.frame_sequence == 1 || self.frame_sequence == 4 {
                self.step_envelope();
                self.step_length_counter();
            }
            self.frame_sequence = ((self.frame_sequence as u16 + 1) % 5) as u8;
        } else {
            if self.frame_sequence == 0 || self.frame_sequence == 2 {
                self.step_envelope();
            } else if self.frame_sequence == 1 || self.frame_sequence == 3 {
                self.step_envelope();
                self.step_length_counter();
            }
            if self.frame_sequence == 3 && !self.interrupt_inhibit {
                self.frame_irq = true;
            }
            self.frame_sequence = ((self.frame_sequence as u16 + 1) % 4) as u8;
        }
    }

    /// A quarter-frame tick for every channel.
    fn step_envelope(&mut self)
        ensures
            *final(self) == quarter_tick(*old(self)),
    {
        self.pulse1.step_envelope();
        self.pulse2.step_envelope();
        self.triangle.step_envelope();
        self.noise.step_envelope();
    }

    /// A half-frame tick for every channel.
    fn step_length_counter(&mut self)
        ensures
            *final(self) == half_tick(*old(self)),
    {
        self.pulse1.step_length_counter();
        self.pulse1.step_sweep();
        self.pulse2.step_length_counter();
        self.pulse2.step_sweep();
        self.triangle.step_length_counter();
        self.noise.step_length_counter();
    }

    /// The index into the 31-entry pulse mixing table: the two pulse
    /// levels summed. With both channels muted it is zero, and the
    /// mixing table's zero entry is silence.
    pub fn pulse_table_index(&self) -> (r: u8)
        requires
            self.wf(),
        ensures
            r == pulse_index_spec(*self),
            r <= 30,
    {
        proof {
            crate::channels::lemma_pulse_level_bound(self.pulse1);
            crate::channels::lemma_pulse_level_bound(self.pulse2);
        }
        self.pulse1.sample_level() + self.pulse2.sample_level()
    }

    /// The index into the 203-entry triangle-noise-delta mixing table:
    /// `3 * triangle + 2 * noise + delta`.
    pub fn tnd_table_index(&self) -> (r: u8)
        requires
            self.wf(),
        ensures
            r == tnd_index_spec(*self),
            r <= 202,
    {
        proof {
            crate::channels::lemma_tri_level_bound(self.triangle);
            crate::channels::lemma_noise_level_bound(self.noise);
        }
        3 * self.triangle.sample_level() + 2 * self.noise.sample_level()
            + self.dmc.sample_level()
    }

    /// Whether the frame sequencer is asserting its interrupt.
    pub fn irq_asserted(&self) -> (r: bool)
        ensures
            r == self.frame_irq,
    {
        self.frame_irq
    }
}

} // verus!
