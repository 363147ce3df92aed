//! The orchestrator: it owns the CPU, PPU, APU, controllers and mapper,
//! and clocks them in lockstep — one CPU instruction, then three PPU
//! dots per cycle consumed and one APU step per cycle. An NMI latched by
//! the PPU is delivered to the CPU before its next instruction.

use vstd::prelude::*;
use crate::apu::{Apu, apu_steps_spec, apu_status_byte, apu_reg_read_rel, apu_reg_write_rel};
use crate::controller::InputManager;
use crate::cpu::{Cpu, cpu_step_rel, nmi_rel, irq_rel, getf, same_regs};
use crate::error::{CpuError, CpuResult, MemoryResult, RomError};
use crate::flags::StatusFlag;
use crate::mappers::{MapperKind, create_mapper, m000_prg_read, m001_prg_read, m001_write_rel};
use crate::memory::{Memory, nes_read_spec, nes_write_rel};
use crate::ppu::{
    Ppu, ppu_step_rel, ppu_frame_done, swap_rel, ppu_reg_read_rel, ppu_reg_write_rel,
    same_ppu_regs, same_ppu_timing,
};
use crate::rom::Rom;
use crate::timing::CycleCounter;

verus! {

/// What the orchestrator delivers to the CPU before an instruction.
#[derive(Clone, Copy, Debug, PartialEq, Eq, Structural)]
pub enum PendingInterrupt {
    Nmi,
    Irq,
    NoInterrupt,
}

/// Which interrupt a step delivers: a latched NMI always wins, an
/// asserted IRQ line is taken only while the CPU's interrupt-disable
/// flag is clear, and otherwise nothing is delivered.
pub open spec fn spec_interrupt_decision(nmi_pending: bool, irq_asserted: bool, i_flag: bool)
    -> PendingInterrupt {
    if nmi_pending {
        PendingInterrupt::Nmi
    } else if irq_asserted && !i_flag {
        PendingInterrupt::Irq
    } else {
        PendingInterrupt::NoInterrupt
    }
}

/// Decide which interrupt to deliver before the next instruction.
pub fn interrupt_decision(nmi_pending: bool, irq_asserted: bool, i_flag: bool) -> (r:
    PendingInterrupt)
    ensures
        r == spec_interrupt_decision(nmi_pending, irq_asserted, i_flag),
{
    if nmi_pending {
        PendingInterrupt::Nmi
    } else if irq_asserted && !i_flag {
        PendingInterrupt::Irq
    } else {
        PendingInterrupt::NoInterrupt
    }
}

/// What delivering the decided interrupt does to the CPU: an NMI or an
/// unmasked IRQ is serviced per its relation, and no interrupt leaves
/// the CPU alone.
pub open spec fn delivered_rel(pre: Cpu, post: Cpu, decision: PendingInterrupt) -> bool {
    match decision {
        PendingInterrupt::Nmi => nmi_rel(pre, post),
        PendingInterrupt::Irq => irq_rel(pre, post),
        PendingInterrupt::NoInterrupt => post == pre,
    }
}

/// The cycles one instruction charged, read off the CPU's cycle counter:
/// its change, capped at ten — more than ten only means the 64-bit
/// counter wrapped, and one capped batch stands in for that tick.
pub open spec fn batch_cycles(before: u64, after: u64) -> u64 {
    let delta = after.wrapping_sub(before);
    if delta > 10 {
        10u64
    } else {
        delta
    }
}

/// One orchestrated PPU dot: the PPU ticks once, and when that tick
/// completed a frame the finished buffer is swapped to the front.
pub open spec fn dot_tick_rel(pre: Ppu, post: Ppu) -> bool {
    exists|mid: Ppu|
        #[trigger] ppu_step_rel(pre, mid) && (if ppu_frame_done(pre) {
            swap_rel(mid, post)
        } else {
            post == mid
        })
}

/// A run of orchestrated PPU dots: every adjacent pair of states is one
/// dot tick.
pub open spec fn ppu_dot_trace(states: Seq<Ppu>) -> bool {
    forall|i: int| 0 <= i < states.len() - 1 ==> #[trigger] dot_tick_rel(states[i], states[i + 1])
}

/// Whether any dot of the run completed a frame.
pub open spec fn trace_has_frame(states: Seq<Ppu>) -> bool {
    exists|i: int| 0 <= i < states.len() - 1 && ppu_frame_done(#[trigger] states[i])
}

/// What the OAM DMA port does: the 256 bytes of one CPU memory page
/// land in sprite memory starting at the OAM address register and
/// wrapping around it, the CPU stalls 513 cycles (514 when it was on an
/// odd cycle), and every other part of the console is untouched.
#[verifier::opaque]
pub open spec fn oam_dma_rel(pre: Orchestrator, post: Orchestrator, page: u8) -> bool {
    &&& post.ppu.oam@.len() == 256
    &&& forall|k: u8|
        #[trigger] post.ppu.oam@[pre.ppu.oam_addr.wrapping_add(k) as int] == nes_read_spec(
            pre.cpu.memory, (page as u16 * 256 + k) as u16)
    &&& same_ppu_regs(pre.ppu, post.ppu)
    &&& same_ppu_timing(pre.ppu, post.ppu)
    &&& post.ppu.pattern_table@ == pre.ppu.pattern_table@
    &&& post.ppu.name_table@ == pre.ppu.name_table@
    &&& post.ppu.palette@ == pre.ppu.palette@
    &&& post.ppu.front_buffer@ == pre.ppu.front_buffer@
    &&& post.ppu.back_buffer@ == pre.ppu.back_buffer@
    &&& post.cpu.cycles == pre.cpu.cycles.wrapping_add(
        if pre.cpu.cycles % 2 == 1 {
            514u64
        } else {
            513u64
        },
    )
    &&& post.cpu.a == pre.cpu.a && post.cpu.x == pre.cpu.x && post.cpu.y == pre.cpu.y
        && post.cpu.pc == pre.cpu.pc && post.cpu.sp == pre.cpu.sp && post.cpu.p == pre.cpu.p
        && post.cpu.memory == pre.cpu.memory && post.cpu.instruction_count
        == pre.cpu.instruction_count
    &&& post.apu == pre.apu
    &&& post.counter == pre.counter
    &&& post.input == pre.input
    &&& post.mapper == pre.mapper
    &&& post.nmi_pending == pre.nmi_pending
}

/// The whole console core, clocked together.
pub struct Orchestrator {
    pub cpu: Cpu,
    pub ppu: Ppu,
    pub apu: Apu,
    pub counter: CycleCounter,
    pub input: InputManager,
    pub mapper: MapperKind,
    /// An NMI taken from the PPU, waiting for the next instruction
    /// boundary.
    pub nmi_pending: bool,
}

impl Orchestrator {
    /// Every subsystem's own invariant holds.
    pub open spec fn wf(&self) -> bool {
        &&& self.cpu.inv()
        &&& self.ppu.wf()
        &&& self.apu.wf()
        &&& self.mapper.wf()
    }

    /// Build a console around a parsed cartridge: create its mapper
    /// (refusing a mapper number this core does not implement), load the
    /// PRG ROM, and run the CPU's reset sequence.
    pub fn new(rom: Rom) -> (r: Result<Orchestrator, RomError>)
        requires
            0x4000 <= rom.prg_rom@.len() <= 0x3FC000,
            rom.chr_rom@.len() <= 0x1FE000,
        ensures
            rom.mapper > 1 ==> r == Err::<Orchestrator, RomError>(RomError::UnsupportedMapper(
                rom.mapper)),
            rom.mapper <= 1 ==> (r matches Ok(o) && o.wf() && !o.nmi_pending
                && o.cpu.memory.rom == Some(rom) && o.cpu.sp == 0xFD && o.cpu.cycles == 0
                && !o.ppu.nmi_occurred && o.ppu.scanline == 0 && o.ppu.cycle == 0
                && o.counter.cpu_cycles == 0),
    {
        let prg_banks = (rom.prg_rom.len() / 0x4000) as u8;
        let chr_banks = (rom.chr_rom.len() / 0x2000) as u8;
        let mapper_number = rom.mapper;
        let mapper = match create_mapper(mapper_number, prg_banks, chr_banks) {
            Ok(m) => m,
            Err(e) => {
                return Err(e);
            },
        };

        let mut cpu = Cpu::new();
        cpu.load_rom(rom);
        cpu.reset();

        Ok(Orchestrator {
            cpu,
            ppu: Ppu::new(),
            apu: Apu::new(),
            counter: CycleCounter::new(),
            input: InputManager::new(),
            mapper: mapper,
            nmi_pending: false,
        })
    }

    /// Reset every subsystem; the cartridge stays in place. The CPU runs
    /// its reset sequence, the PPU's clock and registers rewind, the
    /// APU's channels are all disabled with their length counters
    /// silenced, and the cycle counters clear.
    pub fn reset(&mut self)
        requires
            old(self).wf(),
        ensures
            final(self).wf(),
            !final(self).nmi_pending,
            final(self).cpu.sp == 0xFD && final(self).cpu.cycles == 0,
            final(self).ppu.scanline == 0 && final(self).ppu.cycle == 0
                && !final(self).ppu.nmi_occurred,
            !final(self).apu.pulse1.enabled && !final(self).apu.pulse2.enabled
                && !final(self).apu.triangle.enabled && !final(self).apu.noise.enabled
                && !final(self).apu.dmc.enabled,
            final(self).apu.pulse1.length_counter == 0 && final(self).apu.pulse2.length_counter
                == 0 && final(self).apu.triangle.length_counter == 0
                && final(self).apu.noise.length_counter == 0,
            final(self).apu.frame_counter == 0 && final(self).apu.frame_sequence == 0
                && !final(self).apu.frame_irq && final(self).apu.cycle == 0,
            final(self).counter.cpu_cycles == 0 && final(self).counter.ppu_cycles == 0
                && final(self).counter.apu_cycles == 0,
    {
        self.cpu.reset();
        self.ppu.reset();
        self.apu.reset();
        self.counter.reset();
        self.nmi_pending = false;
    }

    /// One orchestrated iteration. A latched NMI — or, with the
    /// interrupt-disable flag clear, an asserted IRQ — is delivered to
    /// the CPU first. The CPU then executes one instruction; for each of
    /// the `c` cycles it consumed the PPU ticks three dots (swapping the
    /// finished frame to the front when one completes) and the APU steps
    /// once, and an NMI the PPU raised along the way is latched for the
    /// next iteration. Returns whether a frame completed, or the CPU's
    /// error on an opcode that does not decode.
    #[verifier::loop_isolation(false)]
    #[verifier::rlimit(100)]
    #[verifier::spinoff_prover]
    pub fn step(&mut self) -> (r: CpuResult<bool>)
        requires
            old(self).wf(),
        ensures
            final(self).wf(),
            !final(self).ppu.nmi_occurred,
            final(self).input == old(self).input,
            final(self).mapper == old(self).mapper,
            ({
                let decision = spec_interrupt_decision(old(self).nmi_pending,
                    old(self).apu.frame_irq, getf(old(self).cpu.p, StatusFlag::InterruptDisable));
                exists|c1: Cpu, r0: CpuResult<bool>, t: Seq<Ppu>|
                    #![trigger delivered_rel(old(self).cpu, c1, decision),
                        cpu_step_rel(c1, final(self).cpu, r0), ppu_dot_trace(t)]
                    {
                        let c = batch_cycles(c1.cycles, final(self).cpu.cycles);
                        &&& delivered_rel(old(self).cpu, c1, decision)
                        &&& cpu_step_rel(c1, final(self).cpu, r0)
                        &&& (r is Ok <==> r0 is Ok)
                        &&& (r0 is Err ==> r == Err::<bool, CpuError>(r0->Err_0))
                        &&& ppu_dot_trace(t)
                        &&& t.len() == 3 * c + 1
                        &&& t[0] == old(self).ppu
                        &&& final(self).ppu == (Ppu { nmi_occurred: false, ..t.last() })
                        &&& final(self).nmi_pending == t.last().nmi_occurred
                        &&& (r0 is Ok ==> r == Ok::<bool, CpuError>(trace_has_frame(t)))
                        &&& final(self).apu == apu_steps_spec(old(self).apu, c as nat)
                        &&& final(self).counter.cpu_cycles
                            == old(self).counter.cpu_cycles.wrapping_add(c)
                        &&& final(self).counter.ppu_cycles
                            == old(self).counter.ppu_cycles.wrapping_add((3 * c) as u64)
                        &&& final(self).counter.apu_cycles
                            == old(self).counter.apu_cycles.wrapping_add(c)
                        &&& final(self).counter.master_cycles
                            == old(self).counter.master_cycles.wrapping_add(c)
                    }
            }),
    {
        let ghost decision_spec = spec_interrupt_decision(old(self).nmi_pending,
            old(self).apu.frame_irq, getf(old(self).cpu.p, StatusFlag::InterruptDisable));

        let i_flag = self.cpu.get_flag(StatusFlag::InterruptDisable);
        let irq_line = self.apu.irq_asserted() || self.mapper.irq_state();
        let decision = interrupt_decision(self.nmi_pending, irq_line, i_flag);
        match decision {
            PendingInterrupt::Nmi => {
                self.cpu.nmi();
                self.nmi_pending = false;
            },
            PendingInterrupt::Irq => {
                self.cpu.irq();
            },
            PendingInterrupt::NoInterrupt => {
            },
        }
        let ghost cpu_delivered = self.cpu;
        proof {
            assert(delivered_rel(old(self).cpu, cpu_delivered, decision_spec));
        }

        let cycles_before = self.cpu.get_cycles();
        let step_result = self.cpu.step();
        let cycles_after = self.cpu.get_cycles();
        let ghost cpu_stepped = self.cpu;
        let ghost r0 = step_result;

        let delta = cycles_after.wrapping_sub(cycles_before);
        // One instruction costs at most ten cycles; anything else means
        // the cycle counter wrapped, and one capped batch stands in.
        let cpu_cycles: u64 = if delta > 10 {
            10
        } else {
            delta
        };
        proof {
            assert(cpu_cycles == batch_cycles(cpu_delivered.cycles, cpu_stepped.cycles));
        }

        let mut frame_completed = false;
        let ghost mut states: Seq<Ppu> = seq![self.ppu];

        let mut dots: u64 = 0;
        while dots < 3 * cpu_cycles
            invariant
                self.wf(),
                cpu_cycles <= 10,
                dots <= 3 * cpu_cycles,
                self.cpu == cpu_stepped,
                self.apu == old(self).apu,
                self.counter == old(self).counter,
                self.input == old(self).input,
                self.mapper == old(self).mapper,
                self.nmi_pending == (if decision_spec == PendingInterrupt::Nmi {
                    false
                } else {
                    old(self).nmi_pending
                }),
                ppu_dot_trace(states),
                states.len() == dots + 1,
                states[0] == old(self).ppu,
                states.last() == self.ppu,
                frame_completed == trace_has_frame(states),
            decreases 3 * cpu_cycles - dots,
        {
            let ghost pre_tick = self.ppu;
            let done = match self.ppu.step() {
                Ok(done) => done,
                Err(_) => false,
            };
            let ghost mid_tick = self.ppu;
            if done {
                frame_completed = true;
                self.ppu.swap_buffers();
            }
            proof {
                assert(ppu_step_rel(pre_tick, mid_tick));
                assert(dot_tick_rel(pre_tick, self.ppu));
                let extended = states.push(self.ppu);
                assert(extended.last() == self.ppu);
                assert forall|i: int| 0 <= i < extended.len() - 1 implies #[trigger] dot_tick_rel(
                    extended[i],
                    extended[i + 1],
                ) by {
                    if i < states.len() - 1 {
                        assert(dot_tick_rel(states[i], states[i + 1]));
                        assert(extended[i] == states[i] && extended[i + 1] == states[i + 1]);
                    } else {
                        assert(extended[i] == pre_tick && extended[i + 1] == self.ppu);
                    }
                }
                if done {
                    assert(ppu_frame_done(extended[states.len() - 1]));
                    assert(trace_has_frame(extended));
                } else {
                    if trace_has_frame(states) {
                        let i = choose|i: int|
                            0 <= i < states.len() - 1 && ppu_frame_done(#[trigger] states[i]);
                        assert(ppu_frame_done(extended[i]));
                        assert(trace_has_frame(extended));
                    }
                    if trace_has_frame(extended) {
                        let i = choose|i: int|
                            0 <= i < extended.len() - 1 && ppu_frame_done(#[trigger] extended[i]);
                        if i < states.len() - 1 {
                            assert(ppu_frame_done(states[i]));
                            assert(trace_has_frame(states));
                        } else {
                            assert(extended[i] == pre_tick);
                        }
                    }
                }
                states = extended;
            }
            dots = dots + 1;
        }

        let ghost ppu_run = self.ppu;
        if self.ppu.take_nmi() {
            self.nmi_pending = true;
        }
        let ghost ppu_harvested = self.ppu;
        let ghost pending_harvested = self.nmi_pending;

        let mut apu_steps: u64 = 0;
        while apu_steps < cpu_cycles
            invariant
                self.wf(),
                cpu_cycles <= 10,
                apu_steps <= cpu_cycles,
                self.cpu == cpu_stepped,
                self.ppu == ppu_harvested,
                !self.ppu.nmi_occurred,
                self.counter == old(self).counter,
                self.input == old(self).input,
                self.mapper == old(self).mapper,
                self.nmi_pending == pending_harvested,
                self.apu == apu_steps_spec(old(self).apu, apu_steps as nat),
            decreases cpu_cycles - apu_steps,
        {
            let _ = self.apu.step();
            apu_steps = apu_steps + 1;
        }

        self.counter.step_cpu(cpu_cycles);
        self.counter.step_ppu(3 * cpu_cycles);
        self.counter.step_apu(cpu_cycles);

        proof {
            assert(states.last() == ppu_run);
            assert(self.ppu == (Ppu { nmi_occurred: false, ..states.last() }));
            assert(self.nmi_pending == states.last().nmi_occurred);
        }

        match step_result {
            Ok(_) => Ok(frame_completed),
            Err(e) => Err(e),
        }
    }

    /// Read one byte through the console's bus, with the register
    /// windows' side effects: RAM and PRG RAM read as plain storage, the
    /// PPU window routes to the PPU registers (a write-only register
    /// reads as zero, the open-bus choice here), `0x4015` reads the APU
    /// status, `0x4016` and `0x4017` shift the two controllers, the rest
    /// of the APU block and the unmapped gap read as zero, and the
    /// cartridge window reads PRG ROM through the mapper.
    #[verifier::rlimit(100)]
    #[verifier::spinoff_prover]
    pub fn bus_read(&mut self, address: u16) -> (r: u8)
        requires
            old(self).wf(),
        ensures
            final(self).wf(),
            address < 0x2000 || (0x6000 <= address && address < 0x8000) ==> r == nes_read_spec(
                old(self).cpu.memory, address) && *final(self) == *old(self),
            0x2000 <= address && address < 0x4000 ==> (exists|res: MemoryResult<u8>|
                #[trigger] ppu_reg_read_rel(old(self).ppu, final(self).ppu,
                    (0x2000 + (address & 0x0007)) as u16, res) && r == (match res {
                    Ok(v) => v,
                    Err(_) => 0u8,
                })) && final(self).cpu == old(self).cpu && final(self).apu == old(self).apu
                && final(self).counter == old(self).counter && final(self).input
                == old(self).input && final(self).mapper == old(self).mapper
                && final(self).nmi_pending == old(self).nmi_pending,
            address == 0x4015 ==> r == apu_status_byte(old(self).apu) && final(self).apu == (Apu {
                frame_irq: false,
                ..old(self).apu
            }) && final(self).cpu == old(self).cpu && final(self).ppu == old(self).ppu
                && final(self).counter == old(self).counter && final(self).input
                == old(self).input && final(self).mapper == old(self).mapper
                && final(self).nmi_pending == old(self).nmi_pending,
            address == 0x4016 || address == 0x4017 ==> ({
                let pre = if address == 0x4016 {
                    old(self).input.controller1
                } else {
                    old(self).input.controller2
                };
                let post = if address == 0x4016 {
                    final(self).input.controller1
                } else {
                    final(self).input.controller2
                };
                &&& (pre.index < 8 ==> r == ((pre.buttons >> pre.index) & 0x01) && post.index == (
                if pre.strobe {
                    pre.index
                } else {
                    (pre.index + 1) as u8
                }))
                &&& (pre.index >= 8 ==> r == 1 && post.index == pre.index)
                &&& post.buttons == pre.buttons && post.strobe == pre.strobe
                &&& (address == 0x4016 ==> final(self).input.controller2
                    == old(self).input.controller2)
                &&& (address == 0x4017 ==> final(self).input.controller1
                    == old(self).input.controller1)
            }) && final(self).cpu == old(self).cpu && final(self).ppu == old(self).ppu
                && final(self).apu == old(self).apu && final(self).counter == old(self).counter
                && final(self).mapper == old(self).mapper && final(self).nmi_pending
                == old(self).nmi_pending,
            (0x4000 <= address && address <= 0x4014) || (0x4018 <= address && address < 0x6000)
                ==> r == 0 && *final(self) == *old(self),
            address >= 0x8000 ==> r == ({
                let mapped = match old(self).mapper {
                    MapperKind::Nrom(m) => m000_prg_read(m, address),
                    MapperKind::Mmc1(m) => m001_prg_read(m, address),
                };
                match mapped {
                    Some(offset) => (match old(self).cpu.memory.rom {
                        Some(rom) => if offset < rom.prg_rom@.len() {
                            rom.prg_rom@[offset as int]
                        } else {
                            0u8
                        },
                        None => 0u8,
                    }),
                    None => 0u8,
                }
            }) && *final(self) == *old(self),
    {
        if address < 0x2000 || (0x6000 <= address && address < 0x8000) {
            self.cpu.read_byte(address)
        } else if address < 0x4000 {
            proof {
                let a = address;
                assert(a & 0x0007 < 8) by (bit_vector);
            }
            let reg = 0x2000 + (address & 0x0007);
            let res = self.ppu.read_register(reg);
            let byte = match res {
                Ok(v) => v,
                Err(_) => 0,
            };
            proof {
                assert(ppu_reg_read_rel(old(self).ppu, self.ppu,
                    (0x2000 + (address & 0x0007)) as u16, res));
                assert(byte == (match res {
                    Ok(v) => v,
                    Err(_) => 0u8,
                }));
                assert(exists|res2: MemoryResult<u8>|
                    #[trigger] ppu_reg_read_rel(old(self).ppu, self.ppu,
                        (0x2000 + (address & 0x0007)) as u16, res2) && byte == (match res2 {
                        Ok(v) => v,
                        Err(_) => 0u8,
                    }));
            }
            byte
        } else if address == 0x4015 {
            proof {
                reveal(apu_reg_read_rel);
            }
            match self.apu.read_register(address) {
                Ok(v) => v,
                Err(_) => 0,
            }
        } else if address == 0x4016 {
            match self.input.read_controller(0) {
                Ok(v) => v,
                Err(_) => 0,
            }
        } else if address == 0x4017 {
            match self.input.read_controller(1) {
                Ok(v) => v,
                Err(_) => 0,
            }
        } else if address < 0x6000 {
            // The rest of the APU block is write-only and the gap above
            // it is unmapped; both read as zero here.
            0
        } else {
            let mapped = match self.mapper.map_prg_read(address) {
                Ok(m) => m,
                Err(_) => None,
            };
            match mapped {
                Some(offset) => {
                    match &self.cpu.memory.rom {
                        Some(rom) => {
                            if (offset as usize) < rom.prg_rom.len() {
                                rom.prg_rom[offset as usize]
                            } else {
                                0
                            }
                        },
                        None => 0,
                    }
                },
                None => 0,
            }
        }
    }

    /// Write one byte through the console's bus, with the register
    /// windows' side effects: RAM and PRG RAM store it, the PPU window
    /// routes to the PPU registers, `0x4014` runs the OAM copy, `0x4016`
    /// drives both controllers' strobe lines, the rest of the APU block
    /// routes to the APU, writes into the test block and the unmapped
    /// gap are dropped, and a write into the cartridge window feeds the
    /// mapper's register machine.
    #[verifier::rlimit(100)]
    #[verifier::spinoff_prover]
    pub fn bus_write(&mut self, address: u16, value: u8)
        requires
            old(self).wf(),
        ensures
            final(self).wf(),
            address < 0x2000 || (0x6000 <= address && address < 0x8000) ==> nes_write_rel(
                old(self).cpu.memory, final(self).cpu.memory, address, value) && same_regs(
                old(self).cpu, final(self).cpu) && final(self).ppu == old(self).ppu
                && final(self).apu == old(self).apu && final(self).counter == old(self).counter
                && final(self).input == old(self).input && final(self).mapper == old(self).mapper
                && final(self).nmi_pending == old(self).nmi_pending,
            0x2000 <= address && address < 0x4000 ==> (exists|res: MemoryResult<()>|
                #[trigger] ppu_reg_write_rel(old(self).ppu, final(self).ppu,
                    (0x2000 + (address & 0x0007)) as u16, value, res)) && final(self).cpu
                == old(self).cpu && final(self).apu == old(self).apu && final(self).counter
                == old(self).counter && final(self).input == old(self).input && final(self).mapper
                == old(self).mapper && final(self).nmi_pending == old(self).nmi_pending,
            address == 0x4014 ==> oam_dma_rel(*old(self), *final(self), value),
            address == 0x4016 ==> ({
                &&& final(self).input.controller1.strobe == (value & 0x01 != 0)
                &&& final(self).input.controller1.index == (
                if old(self).input.controller1.strobe || value & 0x01 != 0 {
                    0u8
                } else {
                    old(self).input.controller1.index
                })
                &&& final(self).input.controller1.buttons == old(self).input.controller1.buttons
                &&& final(self).input.controller2.strobe == (value & 0x01 != 0)
                &&& final(self).input.controller2.index == (
                if old(self).input.controller2.strobe || value & 0x01 != 0 {
                    0u8
                } else {
                    old(self).input.controller2.index
                })
                &&& final(self).input.controller2.buttons == old(self).input.controller2.buttons
            }) && final(self).cpu == old(self).cpu && final(self).ppu == old(self).ppu
                && final(self).apu == old(self).apu && final(self).counter == old(self).counter
                && final(self).mapper == old(self).mapper && final(self).nmi_pending
                == old(self).nmi_pending,
            (0x4000 <= address && address <= 0x4013) || address == 0x4015 || address == 0x4017
                ==> (exists|res: MemoryResult<()>|
                #[trigger] apu_reg_write_rel(old(self).apu, final(self).apu, address, value, res))
                && final(self).cpu == old(self).cpu && final(self).ppu == old(self).ppu
                && final(self).counter == old(self).counter && final(self).input
                == old(self).input && final(self).mapper == old(self).mapper
                && final(self).nmi_pending == old(self).nmi_pending,
            (0x4018 <= address && address < 0x6000) ==> *final(self) == *old(self),
            address >= 0x8000 ==> ((*old(self)).mapper is Nrom ==> final(self).mapper
                == old(self).mapper) && ((*old(self)).mapper matches MapperKind::Mmc1(m) ==> (
            (*final(self)).mapper matches MapperKind::Mmc1(m2) && m001_write_rel(m, m2, address,
                value))) && final(self).cpu == old(self).cpu && final(self).ppu == old(self).ppu
                && final(self).apu == old(self).apu && final(self).counter == old(self).counter
                && final(self).input == old(self).input && final(self).nmi_pending
                == old(self).nmi_pending,
    {
        if address < 0x2000 || (0x6000 <= address && address < 0x8000) {
            self.cpu.write_byte(address, value);
        } else if address < 0x4000 {
            proof {
                let a = address;
                assert(a & 0x0007 < 8) by (bit_vector);
            }
            let reg = 0x2000 + (address & 0x0007);
            let _res = self.ppu.write_register(reg, value);
            proof {
                assert(ppu_reg_write_rel(old(self).ppu, self.ppu,
                    (0x2000 + (address & 0x0007)) as u16, value, _res));
                assert(exists|res2: MemoryResult<()>|
                    #[trigger] ppu_reg_write_rel(old(self).ppu, self.ppu,
                        (0x2000 + (address & 0x0007)) as u16, value, res2));
            }
        } else if address == 0x4014 {
            self.oam_dma(value);
        } else if address == 0x4016 {
            let _ = self.input.write_controller(0, value);
            let _ = self.input.write_controller(1, value);
        } else if address <= 0x4013 || address == 0x4015 || address == 0x4017 {
            let _res = self.apu.write_register(address, value);
            proof {
                assert(apu_reg_write_rel(old(self).apu, self.apu, address, value, _res));
                assert(exists|res2: MemoryResult<()>|
                    #[trigger] apu_reg_write_rel(old(self).apu, self.apu, address, value, res2));
            }
        } else if address < 0x6000 {
            // Writes into the test block and the unmapped gap are dropped.
        } else {
            let _ = self.mapper.map_prg_write(address, value);
        }
    }

    /// The sprite memory copy a write to the OAM DMA port performs:
    /// 256 bytes from the named page of CPU memory land in OAM starting
    /// at the OAM address register (wrapping), the CPU is stalled for
    /// 513 cycles (514 when it was on an odd cycle), and nothing else
    /// moves.
    fn oam_dma(&mut self, page: u8)
        requires
            old(self).wf(),
        ensures
            final(self).wf(),
            oam_dma_rel(*old(self), *final(self), page),
    {
        proof {
            reveal(oam_dma_rel);
        }
        let base: u16 = (page as u16) << 8;
        proof {
            let p = page;
            assert(((p as u16) << 8) == p as u16 * 256) by (bit_vector);
        }
        let start_slot = self.ppu.oam_addr;

        let mut i: u16 = 0;
        while i < 256
            invariant
                self.wf(),
                i <= 256,
                base == page as u16 * 256,
                start_slot == old(self).ppu.oam_addr,
                self.cpu == old(self).cpu,
                self.apu == old(self).apu,
                self.counter == old(self).counter,
                self.input == old(self).input,
                self.mapper == old(self).mapper,
                self.nmi_pending == old(self).nmi_pending,
                same_ppu_regs(old(self).ppu, self.ppu),
                same_ppu_timing(old(self).ppu, self.ppu),
                self.ppu.pattern_table@ == old(self).ppu.pattern_table@,
                self.ppu.name_table@ == old(self).ppu.name_table@,
                self.ppu.palette@ == old(self).ppu.palette@,
                self.ppu.front_buffer@ == old(self).ppu.front_buffer@,
                self.ppu.back_buffer@ == old(self).ppu.back_buffer@,
                forall|k: u8|
                    (k as u16) < i ==> #[trigger] self.ppu.oam@[start_slot.wrapping_add(
                        k) as int] == nes_read_spec(old(self).cpu.memory, (page as u16 * 256
                        + k) as u16),
            decreases 256 - i,
        {
            let byte = self.cpu.read_byte(base + i);
            let dst = start_slot.wrapping_add(i as u8);
            self.ppu.oam[dst as usize] = byte;
            i = i + 1;
        }

        let parity: u64 = self.cpu.cycles % 2;
        self.cpu.cycles = self.cpu.cycles.wrapping_add(513 + parity);
    }

    /// The completed frame, for the host to show.
    pub fn frame_buffer(&self) -> (r: &Vec<u8>)
        ensures
            r@ == self.ppu.front_buffer@,
    {
        self.ppu.get_frame_buffer()
    }
}

} // verus!
