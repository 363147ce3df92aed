//! The 6502 CPU interpreter: the register file, instruction decode and
//! execution, interrupt servicing, and cycle accounting.

use vstd::prelude::*;
use crate::bit_utils;
use crate::bit_utils::word;
use crate::error::{CpuError, CpuResult};
use crate::flags::{StatusFlag, set_flag_bits, flag_bit_set, nz_bits};
use crate::instructions::{get_instruction, Instruction, AddressingMode, spec_decode};
use crate::memory::{Memory, NesMemory, nes_read_spec, nes_write_rel};
use crate::rom::{Rom, MirrorMode, prg_byte_spec};
use crate::rom::zero_vec;

verus! {

/// The 6502: accumulator, index registers, program counter, stack
/// pointer, status register, the memory map it addresses, and its
/// cycle and instruction counters.
pub struct Cpu {
    pub a: u8,
    pub x: u8,
    pub y: u8,
    /// Address of the next byte the CPU will fetch.
    pub pc: u16,
    /// Offset into the fixed stack page `0x0100-0x01FF`; wraps freely.
    pub sp: u8,
    /// The status register, one flag per bit.
    pub p: u8,
    pub memory: NesMemory,
    pub cycles: u64,
    pub instruction_count: u64,
}

/// The byte the CPU sees at `addr`.
pub open spec fn read8(s: Cpu, addr: u16) -> u8 {
    nes_read_spec(s.memory, addr)
}

/// The little-endian word the CPU sees at `addr`, the high byte wrapping
/// around the top of the address space.
pub open spec fn read16(s: Cpu, addr: u16) -> u16 {
    word(read8(s, addr), read8(s, addr.wrapping_add(1)))
}

/// Whether flag `f` is set in status byte `p`.
pub open spec fn getf(p: u8, f: StatusFlag) -> bool {
    flag_bit_set(p, f.spec_mask())
}

/// The stack cell for stack pointer `sp`: the stack lives in the fixed
/// page `0x0100-0x01FF` of internal RAM.
pub open spec fn stack_addr(sp: u8) -> u16 {
    (0x0100 + sp as int) as u16
}

/// A signed branch offset widened to 16 bits.
pub open spec fn sign_ext(b: u8) -> u16 {
    if b < 0x80 {
        b as u16
    } else {
        (0xFF00 + b as int) as u16
    }
}

/// Everything but the memory map is unchanged.
pub open spec fn same_regs(pre: Cpu, post: Cpu) -> bool {
    &&& post.a == pre.a
    &&& post.x == pre.x
    &&& post.y == pre.y
    &&& post.pc == pre.pc
    &&& post.sp == pre.sp
    &&& post.p == pre.p
    &&& post.cycles == pre.cycles
    &&& post.instruction_count == pre.instruction_count
}

/// Two stack pushes in sequence, starting from stack pointer `sp`.
pub open spec fn push2_rel(m0: NesMemory, m2: NesMemory, sp: u8, b1: u8, b2: u8) -> bool {
    exists|m1: NesMemory|
        nes_write_rel(m0, m1, stack_addr(sp), b1)
            && nes_write_rel(m1, m2, stack_addr(sp.wrapping_sub(1)), b2)
}

/// Three stack pushes in sequence, starting from stack pointer `sp`.
pub open spec fn push3_rel(m0: NesMemory, m3: NesMemory, sp: u8, b1: u8, b2: u8, b3: u8) -> bool {
    exists|m1: NesMemory, m2: NesMemory|
        nes_write_rel(m0, m1, stack_addr(sp), b1)
            && nes_write_rel(m1, m2, stack_addr(sp.wrapping_sub(1)), b2)
            && nes_write_rel(m2, m3, stack_addr(sp.wrapping_sub(2)), b3)
}

/// What servicing a non-maskable interrupt does to the CPU: the return
/// address and the status byte (Break clear, Unused set) are pushed,
/// interrupt-disable is set, and execution continues at the NMI vector.
pub open spec fn nmi_rel(pre: Cpu, post: Cpu) -> bool {
    &&& push3_rel(pre.memory, post.memory, pre.sp, (pre.pc >> 8) as u8, (pre.pc & 0xFF) as u8,
        (pre.p & !StatusFlag::Break.spec_mask()) | StatusFlag::Unused.spec_mask())
    &&& post.sp == pre.sp.wrapping_sub(3)
    &&& post.p == set_flag_bits(pre.p, StatusFlag::InterruptDisable.spec_mask(), true)
    &&& post.pc == word(nes_read_spec(post.memory, 0xFFFA), nes_read_spec(post.memory, 0xFFFB))
    &&& post.a == pre.a && post.x == pre.x && post.y == pre.y
    &&& post.cycles == pre.cycles && post.instruction_count == pre.instruction_count
}

/// What servicing a maskable interrupt does to the CPU: nothing while
/// the interrupt-disable flag masks it; otherwise as the non-maskable
/// service, but through the IRQ vector.
pub open spec fn irq_rel(pre: Cpu, post: Cpu) -> bool {
    if getf(pre.p, StatusFlag::InterruptDisable) {
        post == pre
    } else {
        &&& push3_rel(pre.memory, post.memory, pre.sp, (pre.pc >> 8) as u8, (pre.pc & 0xFF) as u8,
            (pre.p & !StatusFlag::Break.spec_mask()) | StatusFlag::Unused.spec_mask())
        &&& post.sp == pre.sp.wrapping_sub(3)
        &&& post.p == set_flag_bits(pre.p, StatusFlag::InterruptDisable.spec_mask(), true)
        &&& post.pc == word(nes_read_spec(post.memory, 0xFFFE),
            nes_read_spec(post.memory, 0xFFFF))
        &&& post.a == pre.a && post.x == pre.x && post.y == pre.y
        &&& post.cycles == pre.cycles && post.instruction_count == pre.instruction_count
    }
}

impl Memory for Cpu {
    /// The memory map behind the CPU is well formed.
    open spec fn inv(&self) -> bool {
        self.memory.inv()
    }

    open spec fn read_spec(&self, addr: u16) -> u8 {
        nes_read_spec(self.memory, addr)
    }

    /// A CPU memory write routes to the memory map and leaves every
    /// register and counter alone.
    open spec fn write_rel(pre: Self, post: Self, addr: u16, value: u8) -> bool {
        &&& nes_write_rel(pre.memory, post.memory, addr, value)
        &&& same_regs(pre, post)
    }

    fn read_byte(&self, address: u16) -> (r: u8) {
        self.memory.read_byte(address)
    }

    fn write_byte(&mut self, address: u16, value: u8) {
        self.memory.write_byte(address, value)
    }

    fn read_word(&self, address: u16) -> (r: u16) {
        self.memory.read_word(address)
    }

    fn write_word(&mut self, address: u16, value: u16) {
        let lo = (value & 0xFF) as u8;
        let hi = (value >> 8) as u8;
        self.write_byte(address, lo);
        let ghost mid = *self;
        self.write_byte(address + 1, hi);
        proof {
            assert(Self::write_rel(*old(self), mid, address, (value & 0xFF) as u8)
                && Self::write_rel(mid, *self, (address + 1) as u16, (value >> 8) as u8)
                && mid.inv());
        }
    }
}

impl Cpu {
    /// A CPU in its power-on state, with zeroed RAM and no cartridge.
    pub fn new() -> (r: Cpu)
        ensures
            r.inv(),
            r.a == 0 && r.x == 0 && r.y == 0 && r.pc == 0,
            r.sp == 0xFD,
            r.p == 0,
            r.cycles == 0 && r.instruction_count == 0,
            r.memory.rom is None,
    {
        Cpu {
            a: 0,
            x: 0,
            y: 0,
            pc: 0,
            sp: 0xFD,
            p: 0,
            memory: NesMemory::new(),
            cycles: 0,
            instruction_count: 0,
        }
    }

    /// The little-endian word at `addr`, wrapping at the top of memory.
    fn read_word_wrap(&self, addr: u16) -> (r: u16)
        requires
            self.inv(),
        ensures
            r == read16(*self, addr),
    {
        let lo = self.read_byte(addr);
        let hi = self.read_byte(addr.wrapping_add(1));
        bit_utils::make_word(lo, hi)
    }

    /// Force flag `flag` to `value` in the status register.
    pub fn set_flag(&mut self, flag: StatusFlag, value: bool)
        ensures
            final(self).p == set_flag_bits(old(self).p, flag.spec_mask(), value),
            final(self).a == old(self).a && final(self).x == old(self).x
                && final(self).y == old(self).y && final(self).pc == old(self).pc
                && final(self).sp == old(self).sp && final(self).memory == old(self).memory
                && final(self).cycles == old(self).cycles
                && final(self).instruction_count == old(self).instruction_count,
    {
        if value {
            self.p = self.p | flag.mask();
        } else {
            self.p = self.p & !flag.mask();
        }
    }

    /// Whether flag `flag` is set in the status register.
    pub fn get_flag(&self, flag: StatusFlag) -> (r: bool)
        ensures
            r == getf(self.p, flag),
    {
        self.p & flag.mask() != 0
    }

    /// Refresh the Zero and Negative flags from a value just stored.
    fn update_nz_flags(&mut self, value: u8)
        ensures
            final(self).p == nz_bits(old(self).p, value),
            final(self).a == old(self).a && final(self).x == old(self).x
                && final(self).y == old(self).y && final(self).pc == old(self).pc
                && final(self).sp == old(self).sp && final(self).memory == old(self).memory
                && final(self).cycles == old(self).cycles
                && final(self).instruction_count == old(self).instruction_count,
    {
        self.set_flag(StatusFlag::Zero, value == 0);
        self.set_flag(StatusFlag::Negative, value & 0x80 != 0);
    }

    pub fn get_a(&self) -> (r: u8)
        ensures
            r == self.a,
    {
        self.a
    }

    pub fn get_x(&self) -> (r: u8)
        ensures
            r == self.x,
    {
        self.x
    }

    pub fn get_y(&self) -> (r: u8)
        ensures
            r == self.y,
    {
        self.y
    }

    pub fn get_sp(&self) -> (r: u8)
        ensures
            r == self.sp,
    {
        self.sp
    }

    pub fn get_status(&self) -> (r: u8)
        ensures
            r == self.p,
    {
        self.p
    }

    pub fn get_cycles(&self) -> (r: u64)
        ensures
            r == self.cycles,
    {
        self.cycles
    }

    pub fn get_pc(&self) -> (r: u16)
        ensures
            r == self.pc,
    {
        self.pc
    }

    pub fn get_instruction_count(&self) -> (r: u64)
        ensures
            r == self.instruction_count,
    {
        self.instruction_count
    }

    /// The cartridge's CHR data, for the host's renderer.
    pub fn get_chr_rom(&self) -> (r: Option<&Vec<u8>>)
        ensures
            match r {
                Some(chr) => self.memory.rom matches Some(rom) && chr@ == rom.chr_rom@,
                None => self.memory.rom is None,
            },
    {
        self.memory.get_chr_rom()
    }

    /// The cartridge's PRG data.
    pub fn get_prg_rom(&self) -> (r: Option<&Vec<u8>>)
        ensures
            match r {
                Some(prg) => self.memory.rom matches Some(rom) && prg@ == rom.prg_rom@,
                None => self.memory.rom is None,
            },
    {
        self.memory.get_prg_rom()
    }

    /// Insert a cartridge into the memory map.
    pub fn load_rom(&mut self, rom: Rom)
        requires
            old(self).inv(),
        ensures
            final(self).inv(),
            final(self).memory.rom == Some(rom),
            final(self).memory.internal_ram@ == old(self).memory.internal_ram@,
            final(self).memory.ppu_registers@ == old(self).memory.ppu_registers@,
            final(self).memory.apu_io_registers@ == old(self).memory.apu_io_registers@,
            final(self).memory.prg_ram@ == old(self).memory.prg_ram@,
            final(self).a == old(self).a && final(self).x == old(self).x
                && final(self).y == old(self).y && final(self).pc == old(self).pc
                && final(self).sp == old(self).sp && final(self).p == old(self).p
                && final(self).cycles == old(self).cycles
                && final(self).instruction_count == old(self).instruction_count,
    {
        self.memory.load_prg_rom(rom);
    }

    /// The reset sequence: clear the registers, reload the program
    /// counter from the reset vector at `0xFFFC`, and set the stack
    /// pointer and status register to their power-on values.
    pub fn reset(&mut self)
        requires
            old(self).inv(),
        ensures
            final(self).inv(),
            final(self).a == 0 && final(self).x == 0 && final(self).y == 0,
            final(self).pc == read16(*old(self), 0xFFFC),
            final(self).sp == 0xFD,
            final(self).p == (StatusFlag::InterruptDisable.spec_mask()
                | StatusFlag::Unused.spec_mask()),
            final(self).cycles == 0,
            final(self).instruction_count == 0,
            final(self).memory == old(self).memory,
    {
        self.a = 0;
        self.x = 0;
        self.y = 0;
        self.pc = self.read_word_wrap(0xFFFC);
        self.sp = 0xFD;
        self.p = StatusFlag::InterruptDisable.mask() | StatusFlag::Unused.mask();
        self.cycles = 0;
        self.instruction_count = 0;
    }

    /// Push one byte onto the stack and step the stack pointer down.
    fn push_stack(&mut self, value: u8)
        requires
            old(self).inv(),
        ensures
            final(self).inv(),
            nes_write_rel(old(self).memory, final(self).memory, stack_addr(old(self).sp), value),
            final(self).sp == old(self).sp.wrapping_sub(1),
            final(self).a == old(self).a && final(self).x == old(self).x
                && final(self).y == old(self).y && final(self).pc == old(self).pc
                && final(self).p == old(self).p && final(self).cycles == old(self).cycles
                && final(self).instruction_count == old(self).instruction_count,
    {
        let addr = 0x0100 + self.sp as u16;
        self.memory.write_byte(addr, value);
        self.sp = self.sp.wrapping_sub(1);
    }

    /// Step the stack pointer up and pull the byte it then points at.
    fn pull_stack(&mut self) -> (r: u8)
        requires
            old(self).inv(),
        ensures
            final(self).inv(),
            final(self).sp == old(self).sp.wrapping_add(1),
            r == read8(*old(self), stack_addr(old(self).sp.wrapping_add(1))),
            final(self).memory == old(self).memory,
            final(self).a == old(self).a && final(self).x == old(self).x
                && final(self).y == old(self).y && final(self).pc == old(self).pc
                && final(self).p == old(self).p && final(self).cycles == old(self).cycles
                && final(self).instruction_count == old(self).instruction_count,
    {
        self.sp = self.sp.wrapping_add(1);
        self.memory.read_byte(0x0100 + self.sp as u16)
    }

    /// Service a maskable interrupt, unless the interrupt-disable flag
    /// masks it: push the program counter and the status byte (Break
    /// clear, Unused set), set interrupt-disable, and jump through the
    /// IRQ vector at `0xFFFE`.
    pub fn irq(&mut self)
        requires
            old(self).inv(),
        ensures
            final(self).inv(),
            irq_rel(*old(self), *final(self)),
            getf(old(self).p, StatusFlag::InterruptDisable) ==> *final(self) == *old(self),
            !getf(old(self).p, StatusFlag::InterruptDisable) ==> {
                &&& push3_rel(old(self).memory, final(self).memory, old(self).sp,
                    (old(self).pc >> 8) as u8, (old(self).pc & 0xFF) as u8,
                    (old(self).p & !StatusFlag::Break.spec_mask())
                        | StatusFlag::Unused.spec_mask())
                &&& final(self).sp == old(self).sp.wrapping_sub(3)
                &&& final(self).p == set_flag_bits(old(self).p,
                    StatusFlag::InterruptDisable.spec_mask(), true)
                &&& final(self).pc == word(nes_read_spec(final(self).memory, 0xFFFE),
                    nes_read_spec(final(self).memory, 0xFFFF))
                &&& final(self).a == old(self).a && final(self).x == old(self).x
                    && final(self).y == old(self).y
                &&& final(self).cycles == old(self).cycles
                &&& final(self).instruction_count == old(self).instruction_count
            },
    {
        if self.get_flag(StatusFlag::InterruptDisable) {
            return;
        }

        let pc_high = (self.pc >> 8) as u8;
        let pc_low = (self.pc & 0xFF) as u8;
        self.push_stack(pc_high);
        let ghost m1 = self.memory;
        self.push_stack(pc_low);
        let ghost m2 = self.memory;

        let status = (self.p & !StatusFlag::Break.mask()) | StatusFlag::Unused.mask();
        self.push_stack(status);

        self.set_flag(StatusFlag::InterruptDisable, true);

        self.pc = self.read_word_wrap(0xFFFE);
        proof {
            assert(nes_write_rel(old(self).memory, m1, stack_addr(old(self).sp),
                (old(self).pc >> 8) as u8)
                && nes_write_rel(m1, m2, stack_addr(old(self).sp.wrapping_sub(1)),
                    (old(self).pc & 0xFF) as u8)
                && nes_write_rel(m2, self.memory, stack_addr(old(self).sp.wrapping_sub(2)),
                    (old(self).p & !StatusFlag::Break.spec_mask())
                        | StatusFlag::Unused.spec_mask()));
        }
    }

    /// Service the non-maskable interrupt: like `irq`, but it cannot be
    /// masked and jumps through the NMI vector at `0xFFFA`.
    pub fn nmi(&mut self)
        requires
            old(self).inv(),
        ensures
            final(self).inv(),
            nmi_rel(*old(self), *final(self)),
            push3_rel(old(self).memory, final(self).memory, old(self).sp,
                (old(self).pc >> 8) as u8, (old(self).pc & 0xFF) as u8,
                (old(self).p & !StatusFlag::Break.spec_mask()) | StatusFlag::Unused.spec_mask()),
            final(self).sp == old(self).sp.wrapping_sub(3),
            final(self).p == set_flag_bits(old(self).p,
                StatusFlag::InterruptDisable.spec_mask(), true),
            final(self).pc == word(nes_read_spec(final(self).memory, 0xFFFA),
                nes_read_spec(final(self).memory, 0xFFFB)),
            final(self).a == old(self).a && final(self).x == old(self).x
                && final(self).y == old(self).y,
            final(self).cycles == old(self).cycles,
            final(self).instruction_count == old(self).instruction_count,
    {
        let pc_high = (self.pc >> 8) as u8;
        let pc_low = (self.pc & 0xFF) as u8;
        self.push_stack(pc_high);
        let ghost m1 = self.memory;
        self.push_stack(pc_low);
        let ghost m2 = self.memory;

        let status = (self.p & !StatusFlag::Break.mask()) | StatusFlag::Unused.mask();
        self.push_stack(status);

        self.set_flag(StatusFlag::InterruptDisable, true);

        self.pc = self.read_word_wrap(0xFFFA);
        proof {
            assert(nes_write_rel(old(self).memory, m1, stack_addr(old(self).sp),
                (old(self).pc >> 8) as u8)
                && nes_write_rel(m1, m2, stack_addr(old(self).sp.wrapping_sub(1)),
                    (old(self).pc & 0xFF) as u8)
                && nes_write_rel(m2, self.memory, stack_addr(old(self).sp.wrapping_sub(2)),
                    (old(self).p & !StatusFlag::Break.spec_mask())
                        | StatusFlag::Unused.spec_mask()));
        }
    }
}

/// Only the accumulator and the status register may differ.
pub open spec fn only_ap(pre: Cpu, post: Cpu) -> bool {
    &&& post.x == pre.x
    &&& post.y == pre.y
    &&& post.pc == pre.pc
    &&& post.sp == pre.sp
    &&& post.memory == pre.memory
    &&& post.cycles == pre.cycles
    &&& post.instruction_count == pre.instruction_count
}

/// Only the X register and the status register may differ.
pub open spec fn only_xp(pre: Cpu, post: Cpu) -> bool {
    &&& post.a == pre.a
    &&& post.y == pre.y
    &&& post.pc == pre.pc
    &&& post.sp == pre.sp
    &&& post.memory == pre.memory
    &&& post.cycles == pre.cycles
    &&& post.instruction_count == pre.instruction_count
}

/// Only the Y register and the status register may differ.
pub open spec fn only_yp(pre: Cpu, post: Cpu) -> bool {
    &&& post.a == pre.a
    &&& post.x == pre.x
    &&& post.pc == pre.pc
    &&& post.sp == pre.sp
    &&& post.memory == pre.memory
    &&& post.cycles == pre.cycles
    &&& post.instruction_count == pre.instruction_count
}

/// Only the status register may differ.
pub open spec fn only_p(pre: Cpu, post: Cpu) -> bool {
    &&& post.a == pre.a
    &&& post.x == pre.x
    &&& post.y == pre.y
    &&& post.pc == pre.pc
    &&& post.sp == pre.sp
    &&& post.memory == pre.memory
    &&& post.cycles == pre.cycles
    &&& post.instruction_count == pre.instruction_count
}

/// Only one memory cell and the status register may differ.
pub open spec fn only_mem_p(pre: Cpu, post: Cpu) -> bool {
    &&& post.a == pre.a
    &&& post.x == pre.x
    &&& post.y == pre.y
    &&& post.pc == pre.pc
    &&& post.sp == pre.sp
    &&& post.cycles == pre.cycles
    &&& post.instruction_count == pre.instruction_count
}

/// Only the program counter may differ.
pub open spec fn only_pc(pre: Cpu, post: Cpu) -> bool {
    &&& post.a == pre.a
    &&& post.x == pre.x
    &&& post.y == pre.y
    &&& post.sp == pre.sp
    &&& post.p == pre.p
    &&& post.memory == pre.memory
    &&& post.cycles == pre.cycles
    &&& post.instruction_count == pre.instruction_count
}

/// The 8-bit sum of the accumulator, an operand and the carry-in.
pub open spec fn adc_result(a: u8, v: u8, c: bool) -> u8 {
    ((a + v + (if c { 1int } else { 0int })) % 256) as u8
}

/// Whether that sum leaves the 8-bit range.
pub open spec fn adc_carry(a: u8, v: u8, c: bool) -> bool {
    a + v + (if c { 1int } else { 0int }) > 255
}

/// The 6502 overflow rule: set when the operands share a sign and the
/// result's sign differs from it.
pub open spec fn overflow_bit(a: u8, v: u8, r: u8) -> bool {
    (a ^ r) & (v ^ r) & 0x80 != 0
}

/// The status byte after a compare of `reg` against `v`: Carry when no
/// borrow, Zero on equality, Negative from the difference's top bit.
pub open spec fn compare_bits(p: u8, reg: u8, v: u8) -> u8 {
    set_flag_bits(
        set_flag_bits(set_flag_bits(p, 0x01, reg >= v), 0x02, reg == v),
        0x80,
        reg.wrapping_sub(v) & 0x80 != 0,
    )
}

/// The status byte after add-with-carry produced `r` from `a` and `v`.
pub open spec fn adc_bits(p: u8, a: u8, v: u8, c: bool, r: u8) -> u8 {
    set_flag_bits(nz_bits(set_flag_bits(p, 0x01, adc_carry(a, v, c)), r), 0x40,
        overflow_bit(a, v, r))
}

impl Cpu {
    /// Load the accumulator from memory.
    fn lda(&mut self, address: u16)
        requires
            old(self).inv(),
        ensures
            final(self).inv(),
            final(self).a == read8(*old(self), address),
            final(self).p == nz_bits(old(self).p, read8(*old(self), address)),
            only_ap(*old(self), *final(self)),
    {
        let value = self.read_byte(address);
        self.a = value;
        self.update_nz_flags(self.a);
    }

    /// Load the X register from memory.
    fn ldx(&mut self, address: u16)
        requires
            old(self).inv(),
        ensures
            final(self).inv(),
            final(self).x == read8(*old(self), address),
            final(self).p == nz_bits(old(self).p, read8(*old(self), address)),
            only_xp(*old(self), *final(self)),
    {
        let value = self.read_byte(address);
        self.x = value;
        self.update_nz_flags(self.x);
    }

    /// Load the Y register from memory.
    fn ldy(&mut self, address: u16)
        requires
            old(self).inv(),
        ensures
            final(self).inv(),
            final(self).y == read8(*old(self), address),
            final(self).p == nz_bits(old(self).p, read8(*old(self), address)),
            only_yp(*old(self), *final(self)),
    {
        let value = self.read_byte(address);
        self.y = value;
        self.update_nz_flags(self.y);
    }

    /// Store the accumulator into memory.
    fn sta(&mut self, address: u16)
        requires
            old(self).inv(),
        ensures
            final(self).inv(),
            nes_write_rel(old(self).memory, final(self).memory, address, old(self).a),
            final(self).p == old(self).p,
            only_mem_p(*old(self), *final(self)),
    {
        let a = self.a;
        self.write_byte(address, a);
    }

    /// Store the X register into memory.
    fn stx(&mut self, address: u16)
        requires
            old(self).inv(),
        ensures
            final(self).inv(),
            nes_write_rel(old(self).memory, final(self).memory, address, old(self).x),
            final(self).p == old(self).p,
            only_mem_p(*old(self), *final(self)),
    {
        let x = self.x;
        self.write_byte(address, x);
    }

    /// Store the Y register into memory.
    fn sty(&mut self, address: u16)
        requires
            old(self).inv(),
        ensures
            final(self).inv(),
            nes_write_rel(old(self).memory, final(self).memory, address, old(self).y),
            final(self).p == old(self).p,
            only_mem_p(*old(self), *final(self)),
    {
        let y = self.y;
        self.write_byte(address, y);
    }

    /// Copy the accumulator to X.
    fn tax(&mut self)
        ensures
            final(self).x == old(self).a,
            final(self).p == nz_bits(old(self).p, old(self).a),
            only_xp(*old(self), *final(self)),
    {
        self.x = self.a;
        self.update_nz_flags(self.x);
    }

    /// Copy the accumulator to Y.
    fn tay(&mut self)
        ensures
            final(self).y == old(self).a,
            final(self).p == nz_bits(old(self).p, old(self).a),
            only_yp(*old(self), *final(self)),
    {
        self.y = self.a;
        self.update_nz_flags(self.y);
    }

    /// Copy X to the accumulator.
    fn txa(&mut self)
        ensures
            final(self).a == old(self).x,
            final(self).p == nz_bits(old(self).p, old(self).x),
            only_ap(*old(self), *final(self)),
    {
        self.a = self.x;
        self.update_nz_flags(self.a);
    }

    /// Copy Y to the accumulator.
    fn tya(&mut self)
        ensures
            final(self).a == old(self).y,
            final(self).p == nz_bits(old(self).p, old(self).y),
            only_ap(*old(self), *final(self)),
    {
        self.a = self.y;
        self.update_nz_flags(self.a);
    }

    /// Copy the stack pointer to X.
    fn tsx(&mut self)
        ensures
            final(self).x == old(self).sp,
            final(self).p == nz_bits(old(self).p, old(self).sp),
            only_xp(*old(self), *final(self)),
    {
        self.x = self.sp;
        self.update_nz_flags(self.x);
    }

    /// Copy X to the stack pointer; no flags change.
    fn txs(&mut self)
        ensures
            final(self).sp == old(self).x,
            final(self).a == old(self).a && final(self).x == old(self).x
                && final(self).y == old(self).y && final(self).pc == old(self).pc
                && final(self).p == old(self).p && final(self).memory == old(self).memory
                && final(self).cycles == old(self).cycles
                && final(self).instruction_count == old(self).instruction_count,
    {
        self.sp = self.x;
    }

    /// Step X up by one, wrapping.
    fn inx(&mut self)
        ensures
            final(self).x == old(self).x.wrapping_add(1),
            final(self).p == nz_bits(old(self).p, old(self).x.wrapping_add(1)),
            only_xp(*old(self), *final(self)),
    {
        self.x = self.x.wrapping_add(1);
        self.update_nz_flags(self.x);
    }

    /// Step Y up by one, wrapping.
    fn iny(&mut self)
        ensures
            final(self).y == old(self).y.wrapping_add(1),
            final(self).p == nz_bits(old(self).p, old(self).y.wrapping_add(1)),
            only_yp(*old(self), *final(self)),
    {
        self.y = self.y.wrapping_add(1);
        self.update_nz_flags(self.y);
    }

    /// Step X down by one, wrapping.
    fn dex(&mut self)
        ensures
            final(self).x == old(self).x.wrapping_sub(1),
            final(self).p == nz_bits(old(self).p, old(self).x.wrapping_sub(1)),
            only_xp(*old(self), *final(self)),
    {
        self.x = self.x.wrapping_sub(1);
        self.update_nz_flags(self.x);
    }

    /// Step Y down by one, wrapping.
    fn dey(&mut self)
        ensures
            final(self).y == old(self).y.wrapping_sub(1),
            final(self).p == nz_bits(old(self).p, old(self).y.wrapping_sub(1)),
            only_yp(*old(self), *final(self)),
    {
        self.y = self.y.wrapping_sub(1);
        self.update_nz_flags(self.y);
    }

    /// Step a memory cell up by one, wrapping.
    fn inc(&mut self, address: u16)
        requires
            old(self).inv(),
        ensures
            final(self).inv(),
            nes_write_rel(old(self).memory, final(self).memory, address,
                read8(*old(self), address).wrapping_add(1)),
            final(self).p == nz_bits(old(self).p, read8(*old(self), address).wrapping_add(1)),
            only_mem_p(*old(self), *final(self)),
    {
        let mut value = self.read_byte(address);
        value = value.wrapping_add(1);
        self.write_byte(address, value);
        self.update_nz_flags(value);
    }

    /// Step a memory cell down by one, wrapping.
    fn dec(&mut self, address: u16)
        requires
            old(self).inv(),
        ensures
            final(self).inv(),
            nes_write_rel(old(self).memory, final(self).memory, address,
                read8(*old(self), address).wrapping_sub(1)),
            final(self).p == nz_bits(old(self).p, read8(*old(self), address).wrapping_sub(1)),
            only_mem_p(*old(self), *final(self)),
    {
        let mut value = self.read_byte(address);
        value = value.wrapping_sub(1);
        self.write_byte(address, value);
        self.update_nz_flags(value);
    }

    /// Add memory and the carry flag into the accumulator.
    fn adc(&mut self, address: u16)
        requires
            old(self).inv(),
        ensures
            final(self).inv(),
            ({
                let v = read8(*old(self), address);
                let c = getf(old(self).p, StatusFlag::Carry);
                let r = adc_result(old(self).a, v, c);
                final(self).a == r && final(self).p == adc_bits(old(self).p, old(self).a, v, c, r)
            }),
            only_ap(*old(self), *final(self)),
    {
        let value = self.read_byte(address);
        self.add_with_carry(value);
    }

    /// Subtract memory from the accumulator: on the 6502 this is an add
    /// of the operand's one's complement with the carry as borrow-not.
    fn sbc(&mut self, address: u16)
        requires
            old(self).inv(),
        ensures
            final(self).inv(),
            ({
                let v = read8(*old(self), address) ^ 0xFF;
                let c = getf(old(self).p, StatusFlag::Carry);
                let r = adc_result(old(self).a, v, c);
                final(self).a == r && final(self).p == adc_bits(old(self).p, old(self).a, v, c, r)
            }),
            only_ap(*old(self), *final(self)),
    {
        let value = self.read_byte(address) ^ 0xFF;
        self.add_with_carry(value);
    }

    /// The shared tail of `adc` and `sbc`: sum the accumulator, the
    /// operand and the carry, then refresh C, Z, N and V.
    fn add_with_carry(&mut self, value: u8)
        ensures
            ({
                let c = getf(old(self).p, StatusFlag::Carry);
                let r = adc_result(old(self).a, value, c);
                final(self).a == r
                    && final(self).p == adc_bits(old(self).p, old(self).a, value, c, r)
            }),
            only_ap(*old(self), *final(self)),
    {
        let carry: u16 = if self.get_flag(StatusFlag::Carry) {
            1
        } else {
            0
        };
        let sum: u16 = self.a as u16 + value as u16 + carry;
        let result: u8 = (sum % 256) as u8;
        self.set_flag(StatusFlag::Carry, sum > 255);
        self.update_nz_flags(result);
        let ovf = ((self.a ^ result) & (value ^ result) & 0x80) != 0;
        self.set_flag(StatusFlag::Overflow, ovf);
        self.a = result;
    }

    /// OR memory into the accumulator.
    fn ora(&mut self, address: u16)
        requires
            old(self).inv(),
        ensures
            final(self).inv(),
            final(self).a == (old(self).a | read8(*old(self), address)),
            final(self).p == nz_bits(old(self).p, old(self).a | read8(*old(self), address)),
            only_ap(*old(self), *final(self)),
    {
        let value = self.read_byte(address);
        self.a = self.a | value;
        self.update_nz_flags(self.a);
    }

    /// AND memory into the accumulator.
    fn and(&mut self, address: u16)
        requires
            old(self).inv(),
        ensures
            final(self).inv(),
            final(self).a == (old(self).a & read8(*old(self), address)),
            final(self).p == nz_bits(old(self).p, old(self).a & read8(*old(self), address)),
            only_ap(*old(self), *final(self)),
    {
        let value = self.read_byte(address);
        self.a = self.a & value;
        self.update_nz_flags(self.a);
    }

    /// Exclusive-OR memory into the accumulator.
    fn eor(&mut self, address: u16)
        requires
            old(self).inv(),
        ensures
            final(self).inv(),
            final(self).a == (old(self).a ^ read8(*old(self), address)),
            final(self).p == nz_bits(old(self).p, old(self).a ^ read8(*old(self), address)),
            only_ap(*old(self), *final(self)),
    {
        let value = self.read_byte(address);
        self.a = self.a ^ value;
        self.update_nz_flags(self.a);
    }

    /// Compare the accumulator with memory.
    fn cmp(&mut self, address: u16)
        requires
            old(self).inv(),
        ensures
            final(self).inv(),
            final(self).p == compare_bits(old(self).p, old(self).a, read8(*old(self), address)),
            only_p(*old(self), *final(self)),
    {
        let value = self.read_byte(address);
        let result = self.a.wrapping_sub(value);
        self.set_flag(StatusFlag::Carry, self.a >= value);
        self.set_flag(StatusFlag::Zero, self.a == value);
        self.set_flag(StatusFlag::Negative, result & 0x80 != 0);
    }

    /// Compare X with memory.
    fn cpx(&mut self, address: u16)
        requires
            old(self).inv(),
        ensures
            final(self).inv(),
            final(self).p == compare_bits(old(self).p, old(self).x, read8(*old(self), address)),
            only_p(*old(self), *final(self)),
    {
        let value = self.read_byte(address);
        let result = self.x.wrapping_sub(value);
        self.set_flag(StatusFlag::Carry, self.x >= value);
        self.set_flag(StatusFlag::Zero, self.x == value);
        self.set_flag(StatusFlag::Negative, result & 0x80 != 0);
    }

    /// Compare Y with memory.
    fn cpy(&mut self, address: u16)
        requires
            old(self).inv(),
        ensures
            final(self).inv(),
            final(self).p == compare_bits(old(self).p, old(self).y, read8(*old(self), address)),
            only_p(*old(self), *final(self)),
    {
        let value = self.read_byte(address);
        let result = self.y.wrapping_sub(value);
        self.set_flag(StatusFlag::Carry, self.y >= value);
        self.set_flag(StatusFlag::Zero, self.y == value);
        self.set_flag(StatusFlag::Negative, result & 0x80 != 0);
    }

    /// Test memory bits against the accumulator: Zero from the AND,
    /// Negative and Overflow copied from bits 7 and 6 of the operand.
    fn bit(&mut self, address: u16)
        requires
            old(self).inv(),
        ensures
            final(self).inv(),
            ({
                let v = read8(*old(self), address);
                final(self).p == set_flag_bits(
                    set_flag_bits(
                        set_flag_bits(old(self).p, 0x02, old(self).a & v == 0),
                        0x80,
                        v & 0x80 != 0,
                    ),
                    0x40,
                    v & 0x40 != 0,
                )
            }),
            only_p(*old(self), *final(self)),
    {
        let value = self.read_byte(address);
        let result = self.a & value;
        self.set_flag(StatusFlag::Zero, result == 0);
        self.set_flag(StatusFlag::Negative, value & 0x80 != 0);
        self.set_flag(StatusFlag::Overflow, value & 0x40 != 0);
    }
}

/// The status byte after a shift or rotate produced `r` with carry-out
/// `carry`: C from the bit shifted out, Z and N from the result.
pub open spec fn shift_bits(p: u8, carry: bool, r: u8) -> u8 {
    set_flag_bits(set_flag_bits(set_flag_bits(p, 0x01, carry), 0x02, r == 0), 0x80, r & 0x80 != 0)
}

impl Cpu {
    /// Arithmetic shift left of the accumulator (implied mode) or of a
    /// memory cell.
    fn asl(&mut self, address: u16, addressing_mode: &AddressingMode)
        requires
            old(self).inv(),
        ensures
            final(self).inv(),
            *addressing_mode is Implied ==> {
                &&& final(self).a == old(self).a << 1
                &&& final(self).p == shift_bits(old(self).p, old(self).a & 0x80 != 0,
                    old(self).a << 1)
                &&& only_ap(*old(self), *final(self))
            },
            !(*addressing_mode is Implied) ==> {
                let v = read8(*old(self), address);
                &&& nes_write_rel(old(self).memory, final(self).memory, address, v << 1)
                &&& final(self).p == shift_bits(old(self).p, v & 0x80 != 0, v << 1)
                &&& final(self).a == old(self).a
                &&& only_mem_p(*old(self), *final(self))
            },
    {
        match addressing_mode {
            AddressingMode::Implied => {
                let carry = self.a & 0x80 != 0;
                self.a = self.a << 1;
                let a = self.a;
                self.set_flag(StatusFlag::Carry, carry);
                self.set_flag(StatusFlag::Zero, a == 0);
                self.set_flag(StatusFlag::Negative, a & 0x80 != 0);
            },
            _ => {
                let mut value = self.read_byte(address);
                let carry = value & 0x80 != 0;
                value = value << 1;
                self.write_byte(address, value);
                self.set_flag(StatusFlag::Carry, carry);
                self.set_flag(StatusFlag::Zero, value == 0);
                self.set_flag(StatusFlag::Negative, value & 0x80 != 0);
            },
        }
    }

    /// Logical shift right of the accumulator or of a memory cell.
    fn lsr(&mut self, address: u16, addressing_mode: &AddressingMode)
        requires
            old(self).inv(),
        ensures
            final(self).inv(),
            *addressing_mode is Implied ==> {
                &&& final(self).a == old(self).a >> 1
                &&& final(self).p == shift_bits(old(self).p, old(self).a & 0x01 != 0,
                    old(self).a >> 1)
                &&& only_ap(*old(self), *final(self))
            },
            !(*addressing_mode is Implied) ==> {
                let v = read8(*old(self), address);
                &&& nes_write_rel(old(self).memory, final(self).memory, address, v >> 1)
                &&& final(self).p == shift_bits(old(self).p, v & 0x01 != 0, v >> 1)
                &&& final(self).a == old(self).a
                &&& only_mem_p(*old(self), *final(self))
            },
    {
        proof {
            assert(forall|v: u8| #![auto] (v >> 1) & 0x80 == 0) by (bit_vector);
        }
        match addressing_mode {
            AddressingMode::Implied => {
                let carry = self.a & 0x01 != 0;
                self.a = self.a >> 1;
                let a = self.a;
                self.set_flag(StatusFlag::Carry, carry);
                self.set_flag(StatusFlag::Zero, a == 0);
                self.set_flag(StatusFlag::Negative, a & 0x80 != 0);
            },
            _ => {
                let mut value = self.read_byte(address);
                let carry = value & 0x01 != 0;
                value = value >> 1;
                self.write_byte(address, value);
                self.set_flag(StatusFlag::Carry, carry);
                self.set_flag(StatusFlag::Zero, value == 0);
                self.set_flag(StatusFlag::Negative, value & 0x80 != 0);
            },
        }
    }

    /// Rotate the accumulator or a memory cell left through the carry.
    fn rol(&mut self, address: u16, addressing_mode: &AddressingMode)
        requires
            old(self).inv(),
        ensures
            final(self).inv(),
            ({
                let c_in: u8 = if getf(old(self).p, StatusFlag::Carry) { 1u8 } else { 0u8 };
                if *addressing_mode is Implied {
                    let r = (old(self).a << 1) | c_in;
                    &&& final(self).a == r
                    &&& final(self).p == shift_bits(old(self).p, old(self).a & 0x80 != 0, r)
                    &&& only_ap(*old(self), *final(self))
                } else {
                    let v = read8(*old(self), address);
                    let r = (v << 1) | c_in;
                    &&& nes_write_rel(old(self).memory, final(self).memory, address, r)
                    &&& final(self).p == shift_bits(old(self).p, v & 0x80 != 0, r)
                    &&& final(self).a == old(self).a
                    &&& only_mem_p(*old(self), *final(self))
                }
            }),
    {
        let c_in: u8 = if self.get_flag(StatusFlag::Carry) {
            1
        } else {
            0
        };
        match addressing_mode {
            AddressingMode::Implied => {
                let carry = self.a & 0x80 != 0;
                self.a = (self.a << 1) | c_in;
                let a = self.a;
                self.set_flag(StatusFlag::Carry, carry);
                self.set_flag(StatusFlag::Zero, a == 0);
                self.set_flag(StatusFlag::Negative, a & 0x80 != 0);
            },
            _ => {
                let mut value = self.read_byte(address);
                let carry = value & 0x80 != 0;
                value = (value << 1) | c_in;
                self.write_byte(address, value);
                self.set_flag(StatusFlag::Carry, carry);
                self.set_flag(StatusFlag::Zero, value == 0);
                self.set_flag(StatusFlag::Negative, value & 0x80 != 0);
            },
        }
    }

    /// Rotate the accumulator or a memory cell right through the carry.
    fn ror(&mut self, address: u16, addressing_mode: &AddressingMode)
        requires
            old(self).inv(),
        ensures
            final(self).inv(),
            ({
                let c_in: u8 = if getf(old(self).p, StatusFlag::Carry) { 0x80u8 } else { 0u8 };
                if *addressing_mode is Implied {
                    let r = (old(self).a >> 1) | c_in;
                    &&& final(self).a == r
                    &&& final(self).p == shift_bits(old(self).p, old(self).a & 0x01 != 0, r)
                    &&& only_ap(*old(self), *final(self))
                } else {
                    let v = read8(*old(self), address);
                    let r = (v >> 1) | c_in;
                    &&& nes_write_rel(old(self).memory, final(self).memory, address, r)
                    &&& final(self).p == shift_bits(old(self).p, v & 0x01 != 0, r)
                    &&& final(self).a == old(self).a
                    &&& only_mem_p(*old(self), *final(self))
                }
            }),
    {
        let c_in: u8 = if self.get_flag(StatusFlag::Carry) {
            0x80
        } else {
            0
        };
        match addressing_mode {
            AddressingMode::Implied => {
                let carry = self.a & 0x01 != 0;
                self.a = (self.a >> 1) | c_in;
                let a = self.a;
                self.set_flag(StatusFlag::Carry, carry);
                self.set_flag(StatusFlag::Zero, a == 0);
                self.set_flag(StatusFlag::Negative, a & 0x80 != 0);
            },
            _ => {
                let mut value = self.read_byte(address);
                let carry = value & 0x01 != 0;
                value = (value >> 1) | c_in;
                self.write_byte(address, value);
                self.set_flag(StatusFlag::Carry, carry);
                self.set_flag(StatusFlag::Zero, value == 0);
                self.set_flag(StatusFlag::Negative, value & 0x80 != 0);
            },
        }
    }

    /// Push the accumulator.
    fn pha(&mut self)
        requires
            old(self).inv(),
        ensures
            final(self).inv(),
            nes_write_rel(old(self).memory, final(self).memory, stack_addr(old(self).sp),
                old(self).a),
            final(self).sp == old(self).sp.wrapping_sub(1),
            final(self).a == old(self).a && final(self).x == old(self).x
                && final(self).y == old(self).y && final(self).pc == old(self).pc
                && final(self).p == old(self).p && final(self).cycles == old(self).cycles
                && final(self).instruction_count == old(self).instruction_count,
    {
        let a = self.a;
        self.push_stack(a);
    }

    /// Push the status byte with the Break and Unused bits set, as the
    /// push instruction always does.
    fn php(&mut self)
        requires
            old(self).inv(),
        ensures
            final(self).inv(),
            nes_write_rel(old(self).memory, final(self).memory, stack_addr(old(self).sp),
                (old(self).p | StatusFlag::Break.spec_mask()) | StatusFlag::Unused.spec_mask()),
            final(self).sp == old(self).sp.wrapping_sub(1),
            final(self).a == old(self).a && final(self).x == old(self).x
                && final(self).y == old(self).y && final(self).pc == old(self).pc
                && final(self).p == old(self).p && final(self).cycles == old(self).cycles
                && final(self).instruction_count == old(self).instruction_count,
    {
        let status = (self.p | StatusFlag::Break.mask()) | StatusFlag::Unused.mask();
        self.push_stack(status);
    }

    /// Pull the accumulator.
    fn pla(&mut self)
        requires
            old(self).inv(),
        ensures
            final(self).inv(),
            ({
                let v = read8(*old(self), stack_addr(old(self).sp.wrapping_add(1)));
                final(self).a == v && final(self).p == nz_bits(old(self).p, v)
            }),
            final(self).sp == old(self).sp.wrapping_add(1),
            final(self).memory == old(self).memory,
            final(self).x == old(self).x && final(self).y == old(self).y
                && final(self).pc == old(self).pc && final(self).cycles == old(self).cycles
                && final(self).instruction_count == old(self).instruction_count,
    {
        let value = self.pull_stack();
        self.a = value;
        self.update_nz_flags(value);
    }

    /// Pull the status byte; the Break bit is discarded and the Unused
    /// bit forced on.
    fn plp(&mut self)
        requires
            old(self).inv(),
        ensures
            final(self).inv(),
            final(self).p == ((read8(*old(self), stack_addr(old(self).sp.wrapping_add(1)))
                & 0xEF) | 0x20),
            final(self).sp == old(self).sp.wrapping_add(1),
            final(self).memory == old(self).memory,
            final(self).a == old(self).a && final(self).x == old(self).x
                && final(self).y == old(self).y && final(self).pc == old(self).pc
                && final(self).cycles == old(self).cycles
                && final(self).instruction_count == old(self).instruction_count,
    {
        let status = self.pull_stack();
        self.p = (status & 0xEF) | 0x20;
    }

    /// Jump to an address.
    fn jmp(&mut self, address: u16)
        ensures
            final(self).pc == address,
            only_pc(*old(self), *final(self)),
    {
        self.pc = address;
    }

    /// Call a subroutine: push the address of the call's last byte, then
    /// jump.
    fn jsr(&mut self, address: u16)
        requires
            old(self).inv(),
        ensures
            final(self).inv(),
            ({
                let ra = old(self).pc.wrapping_add(1);
                push2_rel(old(self).memory, final(self).memory, old(self).sp, (ra >> 8) as u8,
                    (ra & 0xFF) as u8)
            }),
            final(self).sp == old(self).sp.wrapping_sub(2),
            final(self).pc == address,
            final(self).a == old(self).a && final(self).x == old(self).x
                && final(self).y == old(self).y && final(self).p == old(self).p
                && final(self).cycles == old(self).cycles
                && final(self).instruction_count == old(self).instruction_count,
    {
        let return_addr = self.pc.wrapping_add(1);
        self.push_stack((return_addr >> 8) as u8);
        let ghost m1 = self.memory;
        self.push_stack((return_addr & 0xFF) as u8);
        proof {
            let ra = old(self).pc.wrapping_add(1);
            assert(nes_write_rel(old(self).memory, m1, stack_addr(old(self).sp), (ra >> 8) as u8)
                && nes_write_rel(m1, self.memory, stack_addr(old(self).sp.wrapping_sub(1)),
                    (ra & 0xFF) as u8));
        }
        self.pc = address;
    }

    /// Return from a subroutine: pull the saved address and resume one
    /// byte past it.
    fn rts(&mut self)
        requires
            old(self).inv(),
        ensures
            final(self).inv(),
            ({
                let lo = read8(*old(self), stack_addr(old(self).sp.wrapping_add(1)));
                let hi = read8(*old(self), stack_addr(old(self).sp.wrapping_add(2)));
                final(self).pc == word(lo, hi).wrapping_add(1)
            }),
            final(self).sp == old(self).sp.wrapping_add(2),
            final(self).memory == old(self).memory,
            final(self).a == old(self).a && final(self).x == old(self).x
                && final(self).y == old(self).y && final(self).p == old(self).p
                && final(self).cycles == old(self).cycles
                && final(self).instruction_count == old(self).instruction_count,
    {
        let pcl = self.pull_stack();
        let pch = self.pull_stack();
        self.pc = bit_utils::make_word(pcl, pch).wrapping_add(1);
    }

    /// Return from an interrupt: pull the status byte (Break discarded,
    /// Unused forced on), then the program counter.
    fn rti(&mut self)
        requires
            old(self).inv(),
        ensures
            final(self).inv(),
            final(self).p == ((read8(*old(self), stack_addr(old(self).sp.wrapping_add(1)))
                & 0xEF) | 0x20),
            ({
                let lo = read8(*old(self), stack_addr(old(self).sp.wrapping_add(2)));
                let hi = read8(*old(self), stack_addr(old(self).sp.wrapping_add(3)));
                final(self).pc == word(lo, hi)
            }),
            final(self).sp == old(self).sp.wrapping_add(3),
            final(self).memory == old(self).memory,
            final(self).a == old(self).a && final(self).x == old(self).x
                && final(self).y == old(self).y && final(self).cycles == old(self).cycles
                && final(self).instruction_count == old(self).instruction_count,
    {
        let status = self.pull_stack();
        self.p = (status & 0b1110_1111) | 0b0010_0000;
        let pcl = self.pull_stack();
        let pch = self.pull_stack();
        self.pc = bit_utils::make_word(pcl, pch);
    }

    /// No operation.
    fn nop(&mut self)
        ensures
            *final(self) == *old(self),
    {
    }

    /// Take a branch when `condition` holds: move the program counter by
    /// the signed offset at the operand byte, costing one extra cycle,
    /// and one more when the target lies on another 256-byte page.
    fn branch(&mut self, condition: bool)
        requires
            old(self).inv(),
        ensures
            final(self).inv(),
            !condition ==> *final(self) == *old(self),
            condition ==> {
                let t = old(self).pc.wrapping_add(sign_ext(read8(*old(self), old(self).pc)));
                &&& final(self).pc == t
                &&& final(self).cycles == old(self).cycles.wrapping_add(
                    if bit_utils::spec_page_crossed(old(self).pc, t) { 2u64 } else { 1u64 })
                &&& final(self).a == old(self).a && final(self).x == old(self).x
                    && final(self).y == old(self).y && final(self).sp == old(self).sp
                    && final(self).p == old(self).p
                    && final(self).memory == old(self).memory
                    && final(self).instruction_count == old(self).instruction_count
            },
    {
        if condition {
            let old_pc = self.pc;
            let offset = self.read_byte(self.pc);
            let target = if offset < 0x80 {
                self.pc.wrapping_add(offset as u16)
            } else {
                self.pc.wrapping_add(offset as u16).wrapping_sub(0x100)
            };
            self.pc = target;

            self.cycles = self.cycles.wrapping_add(1);

            if bit_utils::page_crossed(old_pc, self.pc) {
                self.cycles = self.cycles.wrapping_add(1);
            }
        }
    }

    /// Software interrupt: skip the padding byte, push the return
    /// address and the status byte with Break set, set interrupt-disable
    /// and jump through the IRQ vector at `0xFFFE`.
    fn brk(&mut self)
        requires
            old(self).inv(),
        ensures
            final(self).inv(),
            ({
                let ra = old(self).pc.wrapping_add(1);
                push3_rel(old(self).memory, final(self).memory, old(self).sp, (ra >> 8) as u8,
                    (ra & 0xFF) as u8,
                    (old(self).p | StatusFlag::Break.spec_mask())
                        | StatusFlag::Unused.spec_mask())
            }),
            final(self).sp == old(self).sp.wrapping_sub(3),
            final(self).p == set_flag_bits(old(self).p,
                StatusFlag::InterruptDisable.spec_mask(), true),
            final(self).pc == word(nes_read_spec(final(self).memory, 0xFFFE),
                nes_read_spec(final(self).memory, 0xFFFF)),
            final(self).a == old(self).a && final(self).x == old(self).x
                && final(self).y == old(self).y,
            final(self).cycles == old(self).cycles,
            final(self).instruction_count == old(self).instruction_count,
    {
        self.pc = self.pc.wrapping_add(1);

        let pc_high = (self.pc >> 8) as u8;
        let pc_low = (self.pc & 0xFF) as u8;
        self.push_stack(pc_high);
        let ghost m1 = self.memory;
        self.push_stack(pc_low);
        let ghost m2 = self.memory;

        let status = (self.p | StatusFlag::Break.mask()) | StatusFlag::Unused.mask();
        self.push_stack(status);

        self.set_flag(StatusFlag::InterruptDisable, true);

        self.pc = self.read_word_wrap(0xFFFE);
        proof {
            let ra = old(self).pc.wrapping_add(1);
            assert(nes_write_rel(old(self).memory, m1, stack_addr(old(self).sp), (ra >> 8) as u8)
                && nes_write_rel(m1, m2, stack_addr(old(self).sp.wrapping_sub(1)),
                    (ra & 0xFF) as u8)
                && nes_write_rel(m2, self.memory, stack_addr(old(self).sp.wrapping_sub(2)),
                    (old(self).p | StatusFlag::Break.spec_mask())
                        | StatusFlag::Unused.spec_mask()));
        }
    }
}

/// The operand address for an instruction whose operand bytes start at
/// `pc1`, under each addressing mode. The two zero-page indexed modes
/// and the indirect pointer reads wrap inside the zero page; the
/// indirect jump reads its high byte from the start of the pointer's
/// own page when the pointer sits at a page's last byte.
pub open spec fn operand_addr(s: Cpu, pc1: u16, mode: AddressingMode) -> u16 {
    match mode {
        AddressingMode::Immediate => pc1,
        AddressingMode::ZeroPage => read8(s, pc1) as u16,
        AddressingMode::ZeroPageX => read8(s, pc1).wrapping_add(s.x) as u16,
        AddressingMode::ZeroPageY => read8(s, pc1).wrapping_add(s.y) as u16,
        AddressingMode::Absolute => read16(s, pc1),
        AddressingMode::AbsoluteX => read16(s, pc1).wrapping_add(s.x as u16),
        AddressingMode::AbsoluteY => read16(s, pc1).wrapping_add(s.y as u16),
        AddressingMode::IndirectX => {
            let ptr = read8(s, pc1).wrapping_add(s.x);
            word(read8(s, ptr as u16), read8(s, ptr.wrapping_add(1) as u16))
        },
        AddressingMode::IndirectY => {
            let base = read8(s, pc1);
            word(read8(s, base as u16), read8(s, base.wrapping_add(1) as u16)).wrapping_add(
                s.y as u16)
        },
        AddressingMode::Indirect => {
            let ia = read16(s, pc1);
            if ia & 0xFF == 0xFF {
                word(read8(s, ia), read8(s, ia & 0xFF00))
            } else {
                read16(s, ia)
            }
        },
        AddressingMode::Relative => pc1.wrapping_add(1).wrapping_add(sign_ext(read8(s, pc1))),
        AddressingMode::Implied => 0,
    }
}

/// Whether indexing stepped the operand address onto another 256-byte
/// page, for the modes that cost an extra cycle when it does.
pub open spec fn operand_cross(s: Cpu, pc1: u16, mode: AddressingMode) -> bool {
    match mode {
        AddressingMode::AbsoluteX => bit_utils::spec_page_crossed(read16(s, pc1),
            read16(s, pc1).wrapping_add(s.x as u16)),
        AddressingMode::AbsoluteY => bit_utils::spec_page_crossed(read16(s, pc1),
            read16(s, pc1).wrapping_add(s.y as u16)),
        AddressingMode::IndirectY => {
            let base = read8(s, pc1);
            let b = word(read8(s, base as u16), read8(s, base.wrapping_add(1) as u16));
            bit_utils::spec_page_crossed(b, b.wrapping_add(s.y as u16))
        },
        _ => false,
    }
}

pub open spec fn is_lda(op: u8) -> bool {
    op == 0xA9 || op == 0xA5 || op == 0xB5 || op == 0xAD || op == 0xBD || op == 0xB9
        || op == 0xA1 || op == 0xB1
}

pub open spec fn is_ldx(op: u8) -> bool {
    op == 0xA2 || op == 0xA6 || op == 0xB6 || op == 0xAE || op == 0xBE
}

pub open spec fn is_ldy(op: u8) -> bool {
    op == 0xA0 || op == 0xA4 || op == 0xB4 || op == 0xAC || op == 0xBC
}

pub open spec fn is_sta(op: u8) -> bool {
    op == 0x85 || op == 0x95 || op == 0x8D || op == 0x9D || op == 0x99 || op == 0x81
        || op == 0x91
}

pub open spec fn is_stx(op: u8) -> bool {
    op == 0x86 || op == 0x96 || op == 0x8E
}

pub open spec fn is_sty(op: u8) -> bool {
    op == 0x84 || op == 0x94 || op == 0x8C
}

pub open spec fn is_ora(op: u8) -> bool {
    op == 0x09 || op == 0x05 || op == 0x15 || op == 0x0D || op == 0x1D || op == 0x19
        || op == 0x01 || op == 0x11
}

pub open spec fn is_and(op: u8) -> bool {
    op == 0x29 || op == 0x25 || op == 0x35 || op == 0x2D || op == 0x3D || op == 0x39
        || op == 0x21 || op == 0x31
}

pub open spec fn is_eor(op: u8) -> bool {
    op == 0x49 || op == 0x45 || op == 0x55 || op == 0x4D || op == 0x5D || op == 0x59
        || op == 0x41 || op == 0x51
}

pub open spec fn is_adc(op: u8) -> bool {
    op == 0x69 || op == 0x65 || op == 0x75 || op == 0x6D || op == 0x7D || op == 0x79
        || op == 0x61 || op == 0x71
}

pub open spec fn is_sbc(op: u8) -> bool {
    op == 0xE9 || op == 0xE5 || op == 0xF5 || op == 0xED || op == 0xFD || op == 0xF9
        || op == 0xE1 || op == 0xF1
}

pub open spec fn is_cmp(op: u8) -> bool {
    op == 0xC9 || op == 0xC5 || op == 0xD5 || op == 0xCD || op == 0xDD || op == 0xD9
        || op == 0xC1 || op == 0xD1
}

pub open spec fn is_cpx(op: u8) -> bool {
    op == 0xE0 || op == 0xE4 || op == 0xEC
}

pub open spec fn is_cpy(op: u8) -> bool {
    op == 0xC0 || op == 0xC4 || op == 0xCC
}

pub open spec fn is_inc(op: u8) -> bool {
    op == 0xE6 || op == 0xF6 || op == 0xEE || op == 0xFE
}

pub open spec fn is_dec(op: u8) -> bool {
    op == 0xC6 || op == 0xD6 || op == 0xCE || op == 0xDE
}

pub open spec fn is_asl(op: u8) -> bool {
    op == 0x0A || op == 0x06 || op == 0x16 || op == 0x0E || op == 0x1E
}

pub open spec fn is_lsr(op: u8) -> bool {
    op == 0x4A || op == 0x46 || op == 0x56 || op == 0x4E || op == 0x5E
}

pub open spec fn is_rol(op: u8) -> bool {
    op == 0x2A || op == 0x26 || op == 0x36 || op == 0x2E || op == 0x3E
}

pub open spec fn is_ror(op: u8) -> bool {
    op == 0x6A || op == 0x66 || op == 0x76 || op == 0x6E || op == 0x7E
}

pub open spec fn is_bit(op: u8) -> bool {
    op == 0x24 || op == 0x2C
}

pub open spec fn is_branch(op: u8) -> bool {
    op == 0x90 || op == 0xB0 || op == 0xF0 || op == 0xD0 || op == 0x30 || op == 0x10
        || op == 0x50 || op == 0x70
}

/// Whether the branch with opcode `op` is taken under status byte `p`.
pub open spec fn branch_taken(p: u8, op: u8) -> bool {
    if op == 0x90 {
        !getf(p, StatusFlag::Carry)
    } else if op == 0xB0 {
        getf(p, StatusFlag::Carry)
    } else if op == 0xF0 {
        getf(p, StatusFlag::Zero)
    } else if op == 0xD0 {
        !getf(p, StatusFlag::Zero)
    } else if op == 0x30 {
        getf(p, StatusFlag::Negative)
    } else if op == 0x10 {
        !getf(p, StatusFlag::Negative)
    } else if op == 0x50 {
        !getf(p, StatusFlag::Overflow)
    } else {
        getf(p, StatusFlag::Overflow)
    }
}

/// The opcodes that cost one extra cycle when their indexed operand
/// address crosses a page: the loads, compares, logical and arithmetic
/// reads in absolute-indexed and post-indexed modes.
pub open spec fn is_read_cross_op(op: u8) -> bool {
    op == 0xBD || op == 0xB9 || op == 0xB1 || op == 0xBE || op == 0xBC || op == 0x7D
        || op == 0x79 || op == 0x71 || op == 0xFD || op == 0xF9 || op == 0xF1 || op == 0x3D
        || op == 0x39 || op == 0x31 || op == 0x5D || op == 0x59 || op == 0x51 || op == 0x1D
        || op == 0x19 || op == 0x11 || op == 0xDD || op == 0xD9 || op == 0xD1
}

/// The opcodes that install the program counter themselves: the jumps,
/// the subroutine call and the two returns.
pub open spec fn is_pc_setter(op: u8) -> bool {
    op == 0x4C || op == 0x6C || op == 0x20 || op == 0x60 || op == 0x40
}

/// X, Y, the stack pointer and memory are untouched.
pub open spec fn core_ap(pre: Cpu, post: Cpu) -> bool {
    &&& post.x == pre.x
    &&& post.y == pre.y
    &&& post.sp == pre.sp
    &&& post.memory == pre.memory
}

/// A, Y, the stack pointer and memory are untouched.
pub open spec fn core_xp(pre: Cpu, post: Cpu) -> bool {
    &&& post.a == pre.a
    &&& post.y == pre.y
    &&& post.sp == pre.sp
    &&& post.memory == pre.memory
}

/// A, X, the stack pointer and memory are untouched.
pub open spec fn core_yp(pre: Cpu, post: Cpu) -> bool {
    &&& post.a == pre.a
    &&& post.x == pre.x
    &&& post.sp == pre.sp
    &&& post.memory == pre.memory
}

/// Every register but the status byte is untouched, and so is memory.
pub open spec fn core_p(pre: Cpu, post: Cpu) -> bool {
    &&& post.a == pre.a
    &&& post.x == pre.x
    &&& post.y == pre.y
    &&& post.sp == pre.sp
    &&& post.memory == pre.memory
}

/// The registers are untouched; one memory cell and the status byte change.
pub open spec fn core_memp(pre: Cpu, post: Cpu) -> bool {
    &&& post.a == pre.a
    &&& post.x == pre.x
    &&& post.y == pre.y
    &&& post.sp == pre.sp
}

/// What executing the operation of `op` with operand address `addr`
/// does to the register file, the flags and memory. The program counter
/// and both counters are pinned separately: here they matter only for
/// the opcodes that write the program counter themselves.
pub open spec fn op_cases(pre: Cpu, post: Cpu, op: u8, addr: u16, mode: AddressingMode, ra: u16) -> bool {
    &&& is_lda(op) ==> core_ap(pre, post) && post.a == read8(pre, addr) && post.p == nz_bits(
        pre.p, read8(pre, addr))
    &&& is_ldx(op) ==> core_xp(pre, post) && post.x == read8(pre, addr) && post.p == nz_bits(
        pre.p, read8(pre, addr))
    &&& is_ldy(op) ==> core_yp(pre, post) && post.y == read8(pre, addr) && post.p == nz_bits(
        pre.p, read8(pre, addr))
    &&& is_sta(op) ==> core_memp(pre, post) && nes_write_rel(pre.memory, post.memory, addr, pre.a)
        && post.p == pre.p
    &&& is_stx(op) ==> core_memp(pre, post) && nes_write_rel(pre.memory, post.memory, addr, pre.x)
        && post.p == pre.p
    &&& is_sty(op) ==> core_memp(pre, post) && nes_write_rel(pre.memory, post.memory, addr, pre.y)
        && post.p == pre.p
    &&& is_ora(op) ==> core_ap(pre, post) && post.a == (pre.a | read8(pre, addr)) && post.p
        == nz_bits(pre.p, pre.a | read8(pre, addr))
    &&& is_and(op) ==> core_ap(pre, post) && post.a == (pre.a & read8(pre, addr)) && post.p
        == nz_bits(pre.p, pre.a & read8(pre, addr))
    &&& is_eor(op) ==> core_ap(pre, post) && post.a == (pre.a ^ read8(pre, addr)) && post.p
        == nz_bits(pre.p, pre.a ^ read8(pre, addr))
    &&& is_adc(op) ==> core_ap(pre, post) && ({
        let v = read8(pre, addr);
        let c = getf(pre.p, StatusFlag::Carry);
        let r = adc_result(pre.a, v, c);
        post.a == r && post.p == adc_bits(pre.p, pre.a, v, c, r)
    })
    &&& is_sbc(op) ==> core_ap(pre, post) && ({
        let v = read8(pre, addr) ^ 0xFF;
        let c = getf(pre.p, StatusFlag::Carry);
        let r = adc_result(pre.a, v, c);
        post.a == r && post.p == adc_bits(pre.p, pre.a, v, c, r)
    })
    &&& is_cmp(op) ==> core_p(pre, post) && post.p == compare_bits(pre.p, pre.a, read8(pre, addr))
    &&& is_cpx(op) ==> core_p(pre, post) && post.p == compare_bits(pre.p, pre.x, read8(pre, addr))
    &&& is_cpy(op) ==> core_p(pre, post) && post.p == compare_bits(pre.p, pre.y, read8(pre, addr))
    &&& is_inc(op) ==> core_memp(pre, post) && nes_write_rel(pre.memory, post.memory, addr,
        read8(pre, addr).wrapping_add(1)) && post.p == nz_bits(pre.p,
        read8(pre, addr).wrapping_add(1))
    &&& is_dec(op) ==> core_memp(pre, post) && nes_write_rel(pre.memory, post.memory, addr,
        read8(pre, addr).wrapping_sub(1)) && post.p == nz_bits(pre.p,
        read8(pre, addr).wrapping_sub(1))
    &&& is_asl(op) ==> (if mode is Implied {
        core_ap(pre, post) && post.a == pre.a << 1 && post.p == shift_bits(pre.p,
            pre.a & 0x80 != 0, pre.a << 1)
    } else {
        let v = read8(pre, addr);
        core_memp(pre, post) && nes_write_rel(pre.memory, post.memory, addr, v << 1) && post.p
            == shift_bits(pre.p, v & 0x80 != 0, v << 1) && post.a == pre.a
    })
    &&& is_lsr(op) ==> (if mode is Implied {
        core_ap(pre, post) && post.a == pre.a >> 1 && post.p == shift_bits(pre.p,
            pre.a & 0x01 != 0, pre.a >> 1)
    } else {
        let v = read8(pre, addr);
        core_memp(pre, post) && nes_write_rel(pre.memory, post.memory, addr, v >> 1) && post.p
            == shift_bits(pre.p, v & 0x01 != 0, v >> 1) && post.a == pre.a
    })
    &&& is_rol(op) ==> ({
        let c_in: u8 = if getf(pre.p, StatusFlag::Carry) { 1u8 } else { 0u8 };
        if mode is Implied {
            core_ap(pre, post) && post.a == ((pre.a << 1) | c_in) && post.p == shift_bits(pre.p,
                pre.a & 0x80 != 0, (pre.a << 1) | c_in)
        } else {
            let v = read8(pre, addr);
            core_memp(pre, post) && nes_write_rel(pre.memory, post.memory, addr, (v << 1) | c_in)
                && post.p == shift_bits(pre.p, v & 0x80 != 0, (v << 1) | c_in) && post.a == pre.a
        }
    })
    &&& is_ror(op) ==> ({
        let c_in: u8 = if getf(pre.p, StatusFlag::Carry) { 0x80u8 } else { 0u8 };
        if mode is Implied {
            core_ap(pre, post) && post.a == ((pre.a >> 1) | c_in) && post.p == shift_bits(pre.p,
                pre.a & 0x01 != 0, (pre.a >> 1) | c_in)
        } else {
            let v = read8(pre, addr);
            core_memp(pre, post) && nes_write_rel(pre.memory, post.memory, addr, (v >> 1) | c_in)
                && post.p == shift_bits(pre.p, v & 0x01 != 0, (v >> 1) | c_in) && post.a == pre.a
        }
    })
    &&& is_bit(op) ==> core_p(pre, post) && ({
        let v = read8(pre, addr);
        post.p == set_flag_bits(
            set_flag_bits(set_flag_bits(pre.p, 0x02, pre.a & v == 0), 0x80, v & 0x80 != 0),
            0x40,
            v & 0x40 != 0,
        )
    })
    &&& op == 0xAA ==> core_xp(pre, post) && post.x == pre.a && post.p == nz_bits(pre.p, pre.a)
    &&& op == 0xA8 ==> core_yp(pre, post) && post.y == pre.a && post.p == nz_bits(pre.p, pre.a)
    &&& op == 0x8A ==> core_ap(pre, post) && post.a == pre.x && post.p == nz_bits(pre.p, pre.x)
    &&& op == 0x98 ==> core_ap(pre, post) && post.a == pre.y && post.p == nz_bits(pre.p, pre.y)
    &&& op == 0xBA ==> core_xp(pre, post) && post.x == pre.sp && post.p == nz_bits(pre.p, pre.sp)
    &&& op == 0x9A ==> post.sp == pre.x && post.a == pre.a && post.x == pre.x && post.y == pre.y
        && post.p == pre.p && post.memory == pre.memory
    &&& op == 0xE8 ==> core_xp(pre, post) && post.x == pre.x.wrapping_add(1) && post.p == nz_bits(
        pre.p, pre.x.wrapping_add(1))
    &&& op == 0xC8 ==> core_yp(pre, post) && post.y == pre.y.wrapping_add(1) && post.p == nz_bits(
        pre.p, pre.y.wrapping_add(1))
    &&& op == 0xCA ==> core_xp(pre, post) && post.x == pre.x.wrapping_sub(1) && post.p == nz_bits(
        pre.p, pre.x.wrapping_sub(1))
    &&& op == 0x88 ==> core_yp(pre, post) && post.y == pre.y.wrapping_sub(1) && post.p == nz_bits(
        pre.p, pre.y.wrapping_sub(1))
    &&& op == 0x48 ==> nes_write_rel(pre.memory, post.memory, stack_addr(pre.sp), pre.a)
        && post.sp == pre.sp.wrapping_sub(1) && post.p == pre.p && post.a == pre.a && post.x
        == pre.x && post.y == pre.y
    &&& op == 0x08 ==> nes_write_rel(pre.memory, post.memory, stack_addr(pre.sp),
        (pre.p | StatusFlag::Break.spec_mask()) | StatusFlag::Unused.spec_mask()) && post.sp
        == pre.sp.wrapping_sub(1) && post.p == pre.p && post.a == pre.a && post.x == pre.x
        && post.y == pre.y
    &&& op == 0x68 ==> ({
        let v = read8(pre, stack_addr(pre.sp.wrapping_add(1)));
        post.a == v && post.p == nz_bits(pre.p, v) && post.sp == pre.sp.wrapping_add(1) && post.x
            == pre.x && post.y == pre.y && post.memory == pre.memory
    })
    &&& op == 0x28 ==> post.p == ((read8(pre, stack_addr(pre.sp.wrapping_add(1))) & 0xEF) | 0x20)
        && post.sp == pre.sp.wrapping_add(1) && post.a == pre.a && post.x == pre.x && post.y
        == pre.y && post.memory == pre.memory
    &&& (op == 0x4C || op == 0x6C) ==> core_p(pre, post) && post.p == pre.p && post.pc == addr
    &&& op == 0x20 ==> ({
        push2_rel(pre.memory, post.memory, pre.sp, (ra >> 8) as u8, (ra & 0xFF) as u8) && post.sp
            == pre.sp.wrapping_sub(2) && post.pc == addr && post.a == pre.a && post.x == pre.x
            && post.y == pre.y && post.p == pre.p
    })
    &&& op == 0x60 ==> ({
        let lo = read8(pre, stack_addr(pre.sp.wrapping_add(1)));
        let hi = read8(pre, stack_addr(pre.sp.wrapping_add(2)));
        post.pc == word(lo, hi).wrapping_add(1) && post.sp == pre.sp.wrapping_add(2) && post.memory
            == pre.memory && post.a == pre.a && post.x == pre.x && post.y == pre.y && post.p
            == pre.p
    })
    &&& op == 0x40 ==> ({
        let lo = read8(pre, stack_addr(pre.sp.wrapping_add(2)));
        let hi = read8(pre, stack_addr(pre.sp.wrapping_add(3)));
        post.pc == word(lo, hi) && post.p == ((read8(pre, stack_addr(pre.sp.wrapping_add(1)))
            & 0xEF) | 0x20) && post.sp == pre.sp.wrapping_add(3) && post.memory == pre.memory
            && post.a == pre.a && post.x == pre.x && post.y == pre.y
    })
    &&& op == 0x18 ==> core_p(pre, post) && post.p == set_flag_bits(pre.p, 0x01, false)
    &&& op == 0x38 ==> core_p(pre, post) && post.p == set_flag_bits(pre.p, 0x01, true)
    &&& op == 0x58 ==> core_p(pre, post) && post.p == set_flag_bits(pre.p, 0x04, false)
    &&& op == 0x78 ==> core_p(pre, post) && post.p == set_flag_bits(pre.p, 0x04, true)
    &&& op == 0xB8 ==> core_p(pre, post) && post.p == set_flag_bits(pre.p, 0x40, false)
    &&& op == 0xD8 ==> core_p(pre, post) && post.p == set_flag_bits(pre.p, 0x08, false)
    &&& op == 0xF8 ==> core_p(pre, post) && post.p == set_flag_bits(pre.p, 0x08, true)
    &&& op == 0xEA ==> core_p(pre, post) && post.p == pre.p
    &&& is_branch(op) ==> post.a == pre.a && post.x == pre.x && post.y == pre.y && post.sp
        == pre.sp && post.p == pre.p && post.memory == pre.memory
}

/// After any instruction that writes a register — a load, a transfer,
/// or a register increment or decrement — the Zero flag reads as
/// "the written register is zero" and the Negative flag as its top bit.
pub proof fn lemma_register_write_flags(
    pre: Cpu,
    post: Cpu,
    op: u8,
    addr: u16,
    mode: AddressingMode,
    ra: u16,
)
    requires
        op_cases(pre, post, op, addr, mode, ra),
        is_lda(op) || is_ldx(op) || is_ldy(op) || op == 0xAA || op == 0xA8 || op == 0x8A
            || op == 0x98 || op == 0xBA || op == 0xE8 || op == 0xC8 || op == 0xCA || op == 0x88,
    ensures
        is_lda(op) || op == 0x8A || op == 0x98 ==> getf(post.p, StatusFlag::Zero) == (post.a == 0)
            && getf(post.p, StatusFlag::Negative) == (post.a & 0x80 != 0),
        is_ldx(op) || op == 0xAA || op == 0xBA || op == 0xE8 || op == 0xCA ==> getf(post.p,
            StatusFlag::Zero) == (post.x == 0) && getf(post.p, StatusFlag::Negative) == (post.x
            & 0x80 != 0),
        is_ldy(op) || op == 0xA8 || op == 0xC8 || op == 0x88 ==> getf(post.p, StatusFlag::Zero)
            == (post.y == 0) && getf(post.p, StatusFlag::Negative) == (post.y & 0x80 != 0),
{
    if is_lda(op) {
        crate::flags::lemma_nz_flags(pre.p, read8(pre, addr));
    } else if is_ldx(op) {
        crate::flags::lemma_nz_flags(pre.p, read8(pre, addr));
    } else if is_ldy(op) {
        crate::flags::lemma_nz_flags(pre.p, read8(pre, addr));
    } else if op == 0xAA || op == 0xA8 {
        crate::flags::lemma_nz_flags(pre.p, pre.a);
    } else if op == 0x8A {
        crate::flags::lemma_nz_flags(pre.p, pre.x);
    } else if op == 0x98 {
        crate::flags::lemma_nz_flags(pre.p, pre.y);
    } else if op == 0xBA {
        crate::flags::lemma_nz_flags(pre.p, pre.sp);
    } else if op == 0xE8 {
        crate::flags::lemma_nz_flags(pre.p, pre.x.wrapping_add(1));
    } else if op == 0xC8 {
        crate::flags::lemma_nz_flags(pre.p, pre.y.wrapping_add(1));
    } else if op == 0xCA {
        crate::flags::lemma_nz_flags(pre.p, pre.x.wrapping_sub(1));
    } else if op == 0x88 {
        crate::flags::lemma_nz_flags(pre.p, pre.y.wrapping_sub(1));
    }
}

/// After a memory increment or decrement, the Zero flag reads as "the
/// byte written back is zero" and the Negative flag as its top bit.
pub proof fn lemma_rmw_write_flags(
    pre: Cpu,
    post: Cpu,
    op: u8,
    addr: u16,
    mode: AddressingMode,
    ra: u16,
)
    requires
        op_cases(pre, post, op, addr, mode, ra),
        is_inc(op) || is_dec(op),
    ensures
        ({
            let written = if is_inc(op) {
                read8(pre, addr).wrapping_add(1)
            } else {
                read8(pre, addr).wrapping_sub(1)
            };
            &&& nes_write_rel(pre.memory, post.memory, addr, written)
            &&& getf(post.p, StatusFlag::Zero) == (written == 0)
            &&& getf(post.p, StatusFlag::Negative) == (written & 0x80 != 0)
        }),
{
    if is_inc(op) {
        crate::flags::lemma_nz_flags(pre.p, read8(pre, addr).wrapping_add(1));
    } else {
        crate::flags::lemma_nz_flags(pre.p, read8(pre, addr).wrapping_sub(1));
    }
}

/// The addressing mode of a decodable opcode.
pub open spec fn mode_of(op: u8) -> AddressingMode {
    match spec_decode(op) {
        Some(d) => d.0,
        None => AddressingMode::Implied,
    }
}

/// The base cycle cost of a decodable opcode.
pub open spec fn cycles_of(op: u8) -> u8 {
    match spec_decode(op) {
        Some(d) => d.1,
        None => 0,
    }
}

/// The encoded length of a decodable opcode.
pub open spec fn bytes_of(op: u8) -> u8 {
    match spec_decode(op) {
        Some(d) => d.2,
        None => 0,
    }
}

/// The operand address one step of `op` works on, with the operand bytes
/// starting one past the program counter.
pub open spec fn eff_addr(pre: Cpu, op: u8) -> u16 {
    operand_addr(pre, pre.pc.wrapping_add(1), mode_of(op))
}

/// Whether that operand address crossed a page under indexing.
pub open spec fn eff_cross(pre: Cpu, op: u8) -> bool {
    operand_cross(pre, pre.pc.wrapping_add(1), mode_of(op))
}

/// The branch target of a step of branch opcode `op`.
pub open spec fn branch_target(pre: Cpu, op: u8) -> u16 {
    let pc1 = pre.pc.wrapping_add(1);
    pc1.wrapping_add(sign_ext(read8(pre, pc1)))
}

/// The extra cycles a taken branch costs in one step: one for taking it,
/// one more when the target sits on another page than the operand byte.
pub open spec fn branch_extra(pre: Cpu, op: u8) -> u64 {
    if is_branch(op) && branch_taken(pre.p, op) {
        if bit_utils::spec_page_crossed(pre.pc.wrapping_add(1), branch_target(pre, op)) {
            2u64
        } else {
            1u64
        }
    } else {
        0u64
    }
}

/// The extra cycle an indexed read costs in one step when its operand
/// address crossed a page.
pub open spec fn cross_extra(pre: Cpu, op: u8) -> u64 {
    if is_read_cross_op(op) && eff_cross(pre, op) {
        1u64
    } else {
        0u64
    }
}

/// Everything one call of the step function does, as a relation between
/// the states before and after it and its result. An opcode outside the
/// decode table fails and changes nothing; a software interrupt pushes
/// the return address and status, takes the IRQ vector and reports the
/// stop; every other instruction acts per `op_cases`, steps the program
/// counter past itself (unless it installed it), counts itself, and is
/// charged its base cycles plus the taken-branch and page-cross
/// penalties.
#[verifier::opaque]
pub open spec fn cpu_step_rel(pre: Cpu, post: Cpu, r: CpuResult<bool>) -> bool {
    let op = read8(pre, pre.pc);
    &&& (spec_decode(op) is None ==> r == Err::<bool, CpuError>(
        CpuError::UnknownOpcode { opcode: op, pc: pre.pc }) && post == pre)
    &&& (spec_decode(op) is Some ==> r == Ok::<bool, CpuError>(op != 0x00))
    &&& (op == 0x00 ==> ({
        let ra = pre.pc.wrapping_add(2);
        &&& push3_rel(pre.memory, post.memory, pre.sp, (ra >> 8) as u8, (ra & 0xFF) as u8,
            (pre.p | StatusFlag::Break.spec_mask()) | StatusFlag::Unused.spec_mask())
        &&& post.sp == pre.sp.wrapping_sub(3)
        &&& post.p == set_flag_bits(pre.p, StatusFlag::InterruptDisable.spec_mask(), true)
        &&& post.pc == word(nes_read_spec(post.memory, 0xFFFE),
            nes_read_spec(post.memory, 0xFFFF))
        &&& post.a == pre.a && post.x == pre.x && post.y == pre.y
        &&& post.cycles == pre.cycles.wrapping_add(7)
        &&& post.instruction_count == pre.instruction_count.wrapping_add(1)
    }))
    &&& (spec_decode(op) is Some && op != 0x00 ==> {
        &&& post.instruction_count == pre.instruction_count.wrapping_add(1)
        &&& post.cycles == pre.cycles.wrapping_add(branch_extra(pre, op)).wrapping_add(
            cycles_of(op) as u64).wrapping_add(cross_extra(pre, op))
        &&& op_cases(pre, post, op, eff_addr(pre, op), mode_of(op), pre.pc.wrapping_add(2))
        &&& (!is_pc_setter(op) && !is_branch(op) ==> post.pc == pre.pc.wrapping_add(
            bytes_of(op) as u16))
        &&& (is_branch(op) ==> (if branch_taken(pre.p, op) {
            post.pc == branch_target(pre, op).wrapping_add(1)
        } else {
            post.pc == pre.pc.wrapping_add(2)
        }))
    })
}

/// A run trace: every adjacent pair of states is one whole instruction
/// that continued the run.
pub open spec fn cpu_trace(states: Seq<Cpu>) -> bool {
    forall|i: int|
        0 <= i < states.len() - 1 ==> #[trigger] cpu_step_rel(states[i], states[i + 1], Ok(true))
}

impl Cpu {
    /// Whether this opcode pays the page-cross cycle penalty.
    fn read_cross_penalty(opcode: u8) -> (r: bool)
        ensures
            r == is_read_cross_op(opcode),
    {
        match opcode {
            0xBD | 0xB9 | 0xB1 | 0xBE | 0xBC | 0x7D | 0x79 | 0x71 | 0xFD | 0xF9 | 0xF1 | 0x3D
                | 0x39 | 0x31 | 0x5D | 0x59 | 0x51 | 0x1D | 0x19 | 0x11 | 0xDD | 0xD9 | 0xD1 =>
                true,
            _ => false,
        }
    }

    /// Compute the operand address for the instruction whose operand
    /// bytes start at the current program counter, and whether indexing
    /// crossed a page.
    fn get_operand_address(&self, instruction: &Instruction) -> (r: (u16, bool))
        requires
            self.inv(),
        ensures
            r.0 == operand_addr(*self, self.pc, instruction.addressing_mode),
            r.1 == operand_cross(*self, self.pc, instruction.addressing_mode),
    {
        match instruction.addressing_mode {
            AddressingMode::Immediate => (self.pc, false),
            AddressingMode::ZeroPage => (self.read_byte(self.pc) as u16, false),
            AddressingMode::ZeroPageX => {
                let addr = self.read_byte(self.pc);
                (addr.wrapping_add(self.x) as u16, false)
            },
            AddressingMode::ZeroPageY => {
                let addr = self.read_byte(self.pc);
                (addr.wrapping_add(self.y) as u16, false)
            },
            AddressingMode::Absolute => (self.read_word_wrap(self.pc), false),
            AddressingMode::AbsoluteX => {
                let base = self.read_word_wrap(self.pc);
                let addr = base.wrapping_add(self.x as u16);
                (addr, bit_utils::page_crossed(base, addr))
            },
            AddressingMode::AbsoluteY => {
                let base = self.read_word_wrap(self.pc);
                let addr = base.wrapping_add(self.y as u16);
                (addr, bit_utils::page_crossed(base, addr))
            },
            AddressingMode::IndirectX => {
                let base = self.read_byte(self.pc);
                let ptr = base.wrapping_add(self.x);
                let lo = self.read_byte(ptr as u16);
                let hi = self.read_byte(ptr.wrapping_add(1) as u16);
                (bit_utils::make_word(lo, hi), false)
            },
            AddressingMode::IndirectY => {
                let base = self.read_byte(self.pc);
                let lo = self.read_byte(base as u16);
                let hi = self.read_byte(base.wrapping_add(1) as u16);
                let b = bit_utils::make_word(lo, hi);
                let addr = b.wrapping_add(self.y as u16);
                (addr, bit_utils::page_crossed(b, addr))
            },
            AddressingMode::Indirect => {
                let indirect_addr = self.read_word_wrap(self.pc);
                if indirect_addr & 0xFF == 0xFF {
                    let lo = self.read_byte(indirect_addr);
                    let hi = self.read_byte(indirect_addr & 0xFF00);
                    (bit_utils::make_word(lo, hi), false)
                } else {
                    (self.read_word_wrap(indirect_addr), false)
                }
            },
            AddressingMode::Relative => {
                let offset = self.read_byte(self.pc);
                let base = self.pc.wrapping_add(1);
                let target = if offset < 0x80 {
                    base.wrapping_add(offset as u16)
                } else {
                    base.wrapping_add(offset as u16).wrapping_sub(0x100)
                };
                (target, false)
            },
            AddressingMode::Implied => (0, false),
        }
    }

    /// Run the operation of one decoded instruction against its operand
    /// address. The caller owns opcode fetch, program-counter stepping
    /// and cycle accounting; a taken branch adds its own extra cycles
    /// here.
    #[verifier::rlimit(100)]
    #[verifier::spinoff_prover]
    fn execute(&mut self, opcode: u8, operand_address: u16, addressing_mode: &AddressingMode)
        requires
            old(self).inv(),
        ensures
            final(self).inv(),
            op_cases(*old(self), *final(self), opcode, operand_address, *addressing_mode,
                old(self).pc.wrapping_add(1)),
            !is_pc_setter(opcode) && !is_branch(opcode) ==> final(self).pc == old(self).pc,
            is_branch(opcode) ==> (if branch_taken(old(self).p, opcode) {
                final(self).pc == old(self).pc.wrapping_add(sign_ext(read8(*old(self),
                    old(self).pc)))
            } else {
                final(self).pc == old(self).pc
            }),
            is_branch(opcode) && branch_taken(old(self).p, opcode) ==> final(self).cycles
                == old(self).cycles.wrapping_add(
                if bit_utils::spec_page_crossed(old(self).pc, old(self).pc.wrapping_add(
                    sign_ext(read8(*old(self), old(self).pc)))) {
                    2u64
                } else {
                    1u64
                },
            ),
            !(is_branch(opcode) && branch_taken(old(self).p, opcode)) ==> final(self).cycles
                == old(self).cycles,
            final(self).instruction_count == old(self).instruction_count,
    {
        match opcode {
            0xA9 | 0xA5 | 0xB5 | 0xAD | 0xBD | 0xB9 | 0xA1 | 0xB1 => {
                self.lda(operand_address);
            },
            0xA2 | 0xA6 | 0xB6 | 0xAE | 0xBE => {
                self.ldx(operand_address);
            },
            0xA0 | 0xA4 | 0xB4 | 0xAC | 0xBC => {
                self.ldy(operand_address);
            },
            0x85 | 0x95 | 0x8D | 0x9D | 0x99 | 0x81 | 0x91 => {
                self.sta(operand_address);
            },
            0x86 | 0x96 | 0x8E => {
                self.stx(operand_address);
            },
            0x84 | 0x94 | 0x8C => {
                self.sty(operand_address);
            },
            0x09 | 0x05 | 0x15 | 0x0D | 0x1D | 0x19 | 0x01 | 0x11 => {
                self.ora(operand_address);
            },
            0x29 | 0x25 | 0x35 | 0x2D | 0x3D | 0x39 | 0x21 | 0x31 => {
                self.and(operand_address);
            },
            0x49 | 0x45 | 0x55 | 0x4D | 0x5D | 0x59 | 0x41 | 0x51 => {
                self.eor(operand_address);
            },
            0x69 | 0x65 | 0x75 | 0x6D | 0x7D | 0x79 | 0x61 | 0x71 => {
                self.adc(operand_address);
            },
            0xE9 | 0xE5 | 0xF5 | 0xED | 0xFD | 0xF9 | 0xE1 | 0xF1 => {
                self.sbc(operand_address);
            },
            0xC9 | 0xC5 | 0xD5 | 0xCD | 0xDD | 0xD9 | 0xC1 | 0xD1 => {
                self.cmp(operand_address);
            },
            0xE0 | 0xE4 | 0xEC => {
                self.cpx(operand_address);
            },
            0xC0 | 0xC4 | 0xCC => {
                self.cpy(operand_address);
            },
            0xE6 | 0xF6 | 0xEE | 0xFE => {
                self.inc(operand_address);
            },
            0xC6 | 0xD6 | 0xCE | 0xDE => {
                self.dec(operand_address);
            },
            0x0A | 0x06 | 0x16 | 0x0E | 0x1E => {
                self.asl(operand_address, addressing_mode);
            },
            0x4A | 0x46 | 0x56 | 0x4E | 0x5E => {
                self.lsr(operand_address, addressing_mode);
            },
            0x2A | 0x26 | 0x36 | 0x2E | 0x3E => {
                self.rol(operand_address, addressing_mode);
            },
            0x6A | 0x66 | 0x76 | 0x6E | 0x7E => {
                self.ror(operand_address, addressing_mode);
            },
            0x24 | 0x2C => {
                self.bit(operand_address);
            },
            0xAA => {
                self.tax();
            },
            0xA8 => {
                self.tay();
            },
            0x8A => {
                self.txa();
            },
            0x98 => {
                self.tya();
            },
            0xBA => {
                self.tsx();
            },
            0x9A => {
                self.txs();
            },
            0xE8 => {
                self.inx();
            },
            0xC8 => {
                self.iny();
            },
            0xCA => {
                self.dex();
            },
            0x88 => {
                self.dey();
            },
            0x48 => {
                self.pha();
            },
            0x08 => {
                self.php();
            },
            0x68 => {
                self.pla();
            },
            0x28 => {
                self.plp();
            },
            0x20 => {
                self.jsr(operand_address);
            },
            0x60 => {
                self.rts();
            },
            0x4C | 0x6C => {
                self.jmp(operand_address);
            },
            0x40 => {
                self.rti();
            },
            0x90 => {
                let condition = !self.get_flag(StatusFlag::Carry);
                self.branch(condition);
            },
            0xB0 => {
                let condition = self.get_flag(StatusFlag::Carry);
                self.branch(condition);
            },
            0xF0 => {
                let condition = self.get_flag(StatusFlag::Zero);
                self.branch(condition);
            },
            0xD0 => {
                let condition = !self.get_flag(StatusFlag::Zero);
                self.branch(condition);
            },
            0x30 => {
                let condition = self.get_flag(StatusFlag::Negative);
                self.branch(condition);
            },
            0x10 => {
                let condition = !self.get_flag(StatusFlag::Negative);
                self.branch(condition);
            },
            0x50 => {
                let condition = !self.get_flag(StatusFlag::Overflow);
                self.branch(condition);
            },
            0x70 => {
                let condition = self.get_flag(StatusFlag::Overflow);
                self.branch(condition);
            },
            0x18 => {
                self.set_flag(StatusFlag::Carry, false);
            },
            0x38 => {
                self.set_flag(StatusFlag::Carry, true);
            },
            0x58 => {
                self.set_flag(StatusFlag::InterruptDisable, false);
            },
            0x78 => {
                self.set_flag(StatusFlag::InterruptDisable, true);
            },
            0xB8 => {
                self.set_flag(StatusFlag::Overflow, false);
            },
            0xD8 => {
                self.set_flag(StatusFlag::Decimal, false);
            },
            0xF8 => {
                self.set_flag(StatusFlag::Decimal, true);
            },
            0xEA => {
                self.nop();
            },
            _ => {
            },
        }
    }

    /// Execute exactly one instruction: decode the opcode under the
    /// program counter, run its operation, advance the program counter
    /// past the instruction (unless the instruction installed it), and
    /// charge the base cycles plus the taken-branch and page-cross
    /// penalties. An opcode outside the decode table fails with
    /// `UnknownOpcode` and changes nothing. A software interrupt stops
    /// the run: it returns `Ok(false)` where every other instruction
    /// returns `Ok(true)`; the cycles an instruction consumed are
    /// charged to the cycle counter and read back through `get_cycles`,
    /// not returned.
    #[verifier::rlimit(100)]
    #[verifier::spinoff_prover]
    pub fn step(&mut self) -> (r: CpuResult<bool>)
        requires
            old(self).inv(),
        ensures
            final(self).inv(),
            cpu_step_rel(*old(self), *final(self), r),
    {
        proof {
            reveal(cpu_step_rel);
        }
        let opcode = self.read_byte(self.pc);

        let instruction = match get_instruction(opcode) {
            Some(instruction) => instruction,
            None => {
                return Err(CpuError::UnknownOpcode { opcode, pc: self.pc });
            },
        };

        self.pc = self.pc.wrapping_add(1);

        let (operand_address, crossed) = self.get_operand_address(&instruction);

        if instruction.opcode == 0x00 {
            self.brk();
            self.instruction_count = self.instruction_count.wrapping_add(1);
            self.cycles = self.cycles.wrapping_add(instruction.cycles as u64);
            return Ok(false);
        }

        self.execute(instruction.opcode, operand_address, &instruction.addressing_mode);

        if !(instruction.opcode == 0x20 || instruction.opcode == 0x4C
            || instruction.opcode == 0x6C || instruction.opcode == 0x60
            || instruction.opcode == 0x40) {
            self.pc = self.pc.wrapping_add((instruction.bytes - 1) as u16);
        }

        self.instruction_count = self.instruction_count.wrapping_add(1);
        self.cycles = self.cycles.wrapping_add(instruction.cycles as u64);
        if crossed && Cpu::read_cross_penalty(instruction.opcode) {
            self.cycles = self.cycles.wrapping_add(1);
        }

        Ok(true)
    }

    /// Run instructions until a software interrupt stops the program or
    /// an opcode fails to decode: the final state is reached from the
    /// starting one by a chain of whole instructions, ended by such a
    /// stop — or, if nothing ever stops it, the run gives up after an
    /// astronomical number of steps mid-chain. The disassembly flag is
    /// accepted for the host's tracing; the core computes the same
    /// either way.
    pub fn run(&mut self, show_disassembly: bool)
        requires
            old(self).inv(),
        ensures
            final(self).inv(),
            exists|t: Seq<Cpu>|
                #[trigger] cpu_trace(t) && t.len() >= 1 && t[0] == *old(self) && (t.last()
                    == *final(self) || cpu_step_rel(t.last(), *final(self), Ok(false)) || (
                exists|e: CpuError| #[trigger] cpu_step_rel(t.last(), *final(self), Err(e)))),
    {
        let _ = show_disassembly;
        let ghost mut states: Seq<Cpu> = seq![*self];
        let mut stopped = false;
        let mut steps_left: u64 = 0xFFFF_FFFF_FFFF_FFFF;
        while steps_left > 0 && !stopped
            invariant
                self.inv(),
                cpu_trace(states),
                states.len() >= 1,
                states[0] == *old(self),
                !stopped ==> states.last() == *self,
                stopped ==> cpu_step_rel(states.last(), *self, Ok(false)) || (exists|e: CpuError|
                    #[trigger] cpu_step_rel(states.last(), *self, Err(e))),
            decreases steps_left,
        {
            let ghost before = *self;
            let result = self.step();
            match result {
                Ok(should_continue) => {
                    if !should_continue {
                        stopped = true;
                    }
                },
                Err(_) => {
                    stopped = true;
                },
            }
            proof {
                if !stopped {
                    let extended = states.push(*self);
                    assert forall|i: int| 0 <= i < extended.len() - 1 implies #[trigger]
                        cpu_step_rel(extended[i], extended[i + 1], Ok(true)) by {
                        if i < states.len() - 1 {
                            assert(cpu_step_rel(states[i], states[i + 1], Ok(true)));
                        } else {
                            assert(extended[i] == before && extended[i + 1] == *self);
                        }
                    }
                    states = extended;
                } else {
                    if result is Err {
                        let e = result->Err_0;
                        assert(cpu_step_rel(states.last(), *self, Err(e)));
                    }
                }
            }
            steps_left = steps_left - 1;
        }
    }

    /// Load a bare program as a synthetic 32 KiB-window cartridge: the
    /// bytes become PRG ROM, an 8 KiB CHR RAM is attached, and the CPU
    /// is reset. The program counter then holds whatever the new PRG ROM
    /// shows at the reset vector; a caller that wants to run from the
    /// program's start sets it there. Addresses below the cartridge
    /// window are refused.
    pub fn load_program(&mut self, program: Vec<u8>, address: u16) -> (r: Result<(), String>)
        requires
            old(self).inv(),
        ensures
            final(self).inv(),
            address < 0x8000 ==> r is Err && *final(self) == *old(self),
            address >= 0x8000 ==> r is Ok && final(self).a == 0 && final(self).x == 0
                && final(self).y == 0 && final(self).sp == 0xFD
                && final(self).p == (StatusFlag::InterruptDisable.spec_mask()
                    | StatusFlag::Unused.spec_mask()) && final(self).cycles == 0 && final(self).instruction_count == 0
                && final(self).memory.internal_ram@ == old(self).memory.internal_ram@
                && final(self).memory.ppu_registers@ == old(self).memory.ppu_registers@
                && final(self).memory.apu_io_registers@ == old(self).memory.apu_io_registers@
                && final(self).memory.prg_ram@ == old(self).memory.prg_ram@
                && (final(self).memory.rom matches Some(rom) && rom.prg_rom@ == program@
                && rom.chr_rom@.len() == 0x2000 && rom.mapper == 0
                && rom.mirror_mode == MirrorMode::Horizontal && rom.prg_ram_size == 0x2000
                && final(self).pc == word(prg_byte_spec(rom, 0x7FFC), prg_byte_spec(rom, 0x7FFD))),
    {
        if address < 0x8000 {
            return Err("programs load into the cartridge window at 0x8000 or above".to_owned());
        }

        let rom = Rom {
            prg_rom: program,
            chr_rom: zero_vec(8192),
            mirror_mode: MirrorMode::Horizontal,
            mapper: 0,
            prg_ram_size: 8192,
        };

        self.memory.load_prg_rom(rom);

        // The reset vector sits in the ROM window, so this write is
        // dropped by the bus, exactly as a write to a real cartridge is.
        self.write_word(0xFFFC, address);
        self.reset();
        Ok(())
    }
}

/// The text of one disassembled instruction at `pc`: the address, the
/// instruction's bytes, and its mnemonic; an undecodable byte shows as
/// three question marks.
pub open spec fn disasm_line_spec(s: Cpu, pc: u16) -> Seq<char> {
    let op = read8(s, pc);
    let head = "$"@ + crate::trace::hex4_seq(pc) + ": "@ + crate::trace::hex2_seq(op);
    match spec_decode(op) {
        None => head + "    ???"@,
        Some(d) => {
            let operands = if d.2 == 2 {
                " "@ + crate::trace::hex2_seq(read8(s, pc.wrapping_add(1)))
            } else if d.2 == 3 {
                " "@ + crate::trace::hex2_seq(read8(s, pc.wrapping_add(1))) + " "@
                    + crate::trace::hex2_seq(read8(s, pc.wrapping_add(2)))
            } else {
                Seq::<char>::empty()
            };
            head + operands + "  "@ + crate::instructions::mnemonic_of(op)
        },
    }
}

/// The instruction bytes of the opcode under `pc`, in hexadecimal with
/// one space between bytes: the opcode itself and, per its encoded
/// length, its one or two operand bytes.
pub open spec fn instr_bytes_seq(s: Cpu, pc: u16) -> Seq<char> {
    let op = read8(s, pc);
    crate::trace::hex2_seq(op) + (match spec_decode(op) {
        Some(d) => if d.2 == 2 {
            " "@ + crate::trace::hex2_seq(read8(s, pc.wrapping_add(1)))
        } else if d.2 == 3 {
            " "@ + crate::trace::hex2_seq(read8(s, pc.wrapping_add(1))) + " "@
                + crate::trace::hex2_seq(read8(s, pc.wrapping_add(2)))
        } else {
            Seq::<char>::empty()
        },
        None => Seq::<char>::empty(),
    })
}

/// The text of one execution-trace line: the program counter, the
/// instruction's bytes and its mnemonic, then the register file and the
/// cycle count.
pub open spec fn trace_line_spec(s: Cpu) -> Seq<char> {
    let op = read8(s, s.pc);
    crate::trace::hex4_seq(s.pc) + "  "@ + instr_bytes_seq(s, s.pc) + "  "@
        + crate::instructions::mnemonic_of(op) + " A:"@ + crate::trace::hex2_seq(s.a) + " X:"@
        + crate::trace::hex2_seq(s.x) + " Y:"@ + crate::trace::hex2_seq(s.y) + " P:"@
        + crate::trace::hex2_seq(s.p) + " SP:"@ + crate::trace::hex2_seq(s.sp) + " CYC:"@
        + crate::trace::dec_seq(s.cycles)
}

impl Cpu {
    /// One line of execution trace for the instruction the program
    /// counter rests on, in the register-dump format reference logs use.
    #[verifier::rlimit(100)]
    #[verifier::spinoff_prover]
    pub fn trace_line(&self) -> (r: String)
        requires
            self.inv(),
        ensures
            r@ == trace_line_spec(*self),
    {
        let opcode = self.read_byte(self.pc);
        let mut out = String::new();
        crate::trace::push_hex4(&mut out, self.pc);
        out.append("  ");
        crate::trace::push_hex2(&mut out, opcode);
        match get_instruction(opcode) {
            Some(instruction) => {
                if instruction.bytes == 2 {
                    out.append(" ");
                    crate::trace::push_hex2(&mut out, self.read_byte(self.pc.wrapping_add(1)));
                } else if instruction.bytes == 3 {
                    out.append(" ");
                    crate::trace::push_hex2(&mut out, self.read_byte(self.pc.wrapping_add(1)));
                    out.append(" ");
                    crate::trace::push_hex2(&mut out, self.read_byte(self.pc.wrapping_add(2)));
                }
            },
            None => (),
        }
        out.append("  ");
        match get_instruction(opcode) {
            Some(instruction) => out.append(instruction.mnemonic),
            None => (),
        }
        out.append(" A:");
        crate::trace::push_hex2(&mut out, self.a);
        out.append(" X:");
        crate::trace::push_hex2(&mut out, self.x);
        out.append(" Y:");
        crate::trace::push_hex2(&mut out, self.y);
        out.append(" P:");
        crate::trace::push_hex2(&mut out, self.p);
        out.append(" SP:");
        crate::trace::push_hex2(&mut out, self.sp);
        out.append(" CYC:");
        crate::trace::push_dec(&mut out, self.cycles);
        proof {
            assert(out@ =~= trace_line_spec(*self));
        }
        out
    }

    /// Disassemble the instruction at `pc`; returns its text and how
    /// many bytes it occupies.
    fn disassemble_instruction_at(&self, pc: u16) -> (r: (String, u16))
        requires
            self.inv(),
        ensures
            r.0@ == disasm_line_spec(*self, pc),
            r.1 == (match spec_decode(read8(*self, pc)) {
                Some(d) => d.2 as u16,
                None => 1u16,
            }),
            1 <= r.1 <= 3,
    {
        let opcode = self.read_byte(pc);
        let mut out = String::new();
        out.append("$");
        crate::trace::push_hex4(&mut out, pc);
        out.append(": ");
        crate::trace::push_hex2(&mut out, opcode);
        match get_instruction(opcode) {
            Some(instruction) => {
                if instruction.bytes == 2 {
                    out.append(" ");
                    crate::trace::push_hex2(&mut out, self.read_byte(pc.wrapping_add(1)));
                } else if instruction.bytes == 3 {
                    out.append(" ");
                    crate::trace::push_hex2(&mut out, self.read_byte(pc.wrapping_add(1)));
                    out.append(" ");
                    crate::trace::push_hex2(&mut out, self.read_byte(pc.wrapping_add(2)));
                }
                out.append("  ");
                out.append(instruction.mnemonic);
                proof {
                    assert(out@ =~= disasm_line_spec(*self, pc));
                }
                (out, instruction.bytes as u16)
            },
            None => {
                out.append("    ???");
                proof {
                    assert(out@ =~= disasm_line_spec(*self, pc));
                }
                (out, 1)
            },
        }
    }

    /// Disassemble forward from `start` until `end`, one line per
    /// instruction.
    pub fn disassemble_to_string(&self, start: u16, end: u16) -> (r: Vec<String>)
        requires
            self.inv(),
        ensures
            start < end ==> r@.len() >= 1 && r@[0]@ == disasm_line_spec(*self, start),
            start <= end ==> r@.len() <= end - start,
    {
        let mut result: Vec<String> = Vec::new();
        let mut pc = start;
        let mut wrapped = false;
        while pc < end && !wrapped
            invariant
                self.inv(),
                start <= pc,
                !wrapped ==> result@.len() <= pc - start,
                start <= end ==> result@.len() <= end - start,
                result@.len() >= 1 ==> result@[0]@ == disasm_line_spec(*self, start),
                (pc > start || wrapped) ==> result@.len() >= 1,
            decreases 3 + end - pc, (if wrapped { 0int } else { 1int }),
        {
            let (formatted, bytes_consumed) = self.disassemble_instruction_at(pc);
            result.push(formatted);
            let next = pc.wrapping_add(bytes_consumed);
            if next <= pc {
                // The window ran into the top of the address space.
                wrapped = true;
            } else {
                pc = next;
            }
        }
        result
    }

    /// Disassemble the instruction the program counter rests on.
    pub fn disassemble_current_instruction(&self) -> (r: String)
        requires
            self.inv(),
        ensures
            r@ == disasm_line_spec(*self, self.pc),
    {
        let (formatted, _) = self.disassemble_instruction_at(self.pc);
        formatted
    }
}

} // verus!
