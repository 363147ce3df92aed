//! The 256-entry instruction decode table of the 6502: each official
//! opcode maps to its mnemonic, addressing mode, base cycle cost and
//! encoded length. Undecodable opcodes map to nothing.

use vstd::prelude::*;

verus! {

/// How an instruction names its operand.
#[derive(Clone, Copy, Debug, PartialEq, Eq, Structural)]
pub enum AddressingMode {
    Immediate,
    Implied,
    IndirectX,
    IndirectY,
    ZeroPage,
    ZeroPageX,
    ZeroPageY,
    Absolute,
    AbsoluteX,
    AbsoluteY,
    Indirect,
    Relative,
}

/// One row of the decode table.
#[derive(Clone, Copy, Debug)]
pub struct Instruction {
    pub mnemonic: &'static str,
    pub opcode: u8,
    pub addressing_mode: AddressingMode,
    pub cycles: u8,
    pub bytes: u8,
}

impl Instruction {
    pub fn new(
        mnemonic: &'static str,
        opcode: u8,
        addressing_mode: AddressingMode,
        cycles: u8,
        bytes: u8,
    ) -> (r: Instruction)
        ensures
            r.mnemonic == mnemonic,
            r.opcode == opcode,
            r.addressing_mode == addressing_mode,
            r.cycles == cycles,
            r.bytes == bytes,
    {
        Instruction { mnemonic, opcode, addressing_mode, cycles, bytes }
    }
}

/// The decode table: the addressing mode, base cycle cost and byte length
/// of each official opcode, and nothing for the rest.
pub open spec fn spec_decode(opcode: u8) -> Option<(AddressingMode, u8, u8)> {
    match opcode {
        0x00 => Some((AddressingMode::Implied, 7, 1)),
        0x01 => Some((AddressingMode::IndirectX, 6, 2)),
        0x05 => Some((AddressingMode::ZeroPage, 3, 2)),
        0x06 => Some((AddressingMode::ZeroPage, 5, 2)),
        0x08 => Some((AddressingMode::Implied, 3, 1)),
        0x09 => Some((AddressingMode::Immediate, 2, 2)),
        0x0A => Some((AddressingMode::Implied, 2, 1)),
        0x0D => Some((AddressingMode::Absolute, 4, 3)),
        0x0E => Some((AddressingMode::Absolute, 6, 3)),
        0x10 => Some((AddressingMode::Relative, 2, 2)),
        0x11 => Some((AddressingMode::IndirectY, 5, 2)),
        0x15 => Some((AddressingMode::ZeroPageX, 4, 2)),
        0x16 => Some((AddressingMode::ZeroPageX, 6, 2)),
        0x18 => Some((AddressingMode::Implied, 2, 1)),
        0x19 => Some((AddressingMode::AbsoluteY, 4, 3)),
        0x1D => Some((AddressingMode::AbsoluteX, 4, 3)),
        0x1E => Some((AddressingMode::AbsoluteX, 7, 3)),
        0x20 => Some((AddressingMode::Absolute, 6, 3)),
        0x21 => Some((AddressingMode::IndirectX, 6, 2)),
        0x24 => Some((AddressingMode::ZeroPage, 3, 2)),
        0x25 => Some((AddressingMode::ZeroPage, 3, 2)),
        0x26 => Some((AddressingMode::ZeroPage, 5, 2)),
        0x28 => Some((AddressingMode::Implied, 4, 1)),
        0x29 => Some((AddressingMode::Immediate, 2, 2)),
        0x2A => Some((AddressingMode::Implied, 2, 1)),
        0x2C => Some((AddressingMode::Absolute, 4, 3)),
        0x2D => Some((AddressingMode::Absolute, 4, 3)),
        0x2E => Some((AddressingMode::Absolute, 6, 3)),
        0x30 => Some((AddressingMode::Relative, 2, 2)),
        0x31 => Some((AddressingMode::IndirectY, 5, 2)),
        0x35 => Some((AddressingMode::ZeroPageX, 4, 2)),
        0x36 => Some((AddressingMode::ZeroPageX, 6, 2)),
        0x38 => Some((AddressingMode::Implied, 2, 1)),
        0x39 => Some((AddressingMode::AbsoluteY, 4, 3)),
        0x3D => Some((AddressingMode::AbsoluteX, 4, 3)),
        0x3E => Some((AddressingMode::AbsoluteX, 7, 3)),
        0x40 => Some((AddressingMode::Implied, 6, 1)),
        0x41 => Some((AddressingMode::IndirectX, 6, 2)),
        0x45 => Some((AddressingMode::ZeroPage, 3, 2)),
        0x46 => Some((AddressingMode::ZeroPage, 5, 2)),
        0x48 => Some((AddressingMode::Implied, 3, 1)),
        0x49 => Some((AddressingMode::Immediate, 2, 2)),
        0x4A => Some((AddressingMode::Implied, 2, 1)),
        0x4C => Some((AddressingMode::Absolute, 3, 3)),
        0x4D => Some((AddressingMode::Absolute, 4, 3)),
        0x4E => Some((AddressingMode::Absolute, 6, 3)),
        0x50 => Some((AddressingMode::Relative, 2, 2)),
        0x51 => Some((AddressingMode::IndirectY, 5, 2)),
        0x55 => Some((AddressingMode::ZeroPageX, 4, 2)),
        0x56 => Some((AddressingMode::ZeroPageX, 6, 2)),
        0x58 => Some((AddressingMode::Implied, 2, 1)),
        0x59 => Some((AddressingMode::AbsoluteY, 4, 3)),
        0x5D => Some((AddressingMode::AbsoluteX, 4, 3)),
        0x5E => Some((AddressingMode::AbsoluteX, 7, 3)),
        0x60 => Some((AddressingMode::Implied, 6, 1)),
        0x61 => Some((AddressingMode::IndirectX, 6, 2)),
        0x65 => Some((AddressingMode::ZeroPage, 3, 2)),
        0x66 => Some((AddressingMode::ZeroPage, 5, 2)),
        0x68 => Some((AddressingMode::Implied, 4, 1)),
        0x69 => Some((AddressingMode::Immediate, 2, 2)),
        0x6A => Some((AddressingMode::Implied, 2, 1)),
        0x6C => Some((AddressingMode::Indirect, 5, 3)),
        0x6D => Some((AddressingMode::Absolute, 4, 3)),
        0x6E => Some((AddressingMode::Absolute, 6, 3)),
        0x70 => Some((AddressingMode::Relative, 2, 2)),
        0x71 => Some((AddressingMode::IndirectY, 5, 2)),
        0x75 => Some((AddressingMode::ZeroPageX, 4, 2)),
        0x76 => Some((AddressingMode::ZeroPageX, 6, 2)),
        0x78 => Some((AddressingMode::Implied, 2, 1)),
        0x79 => Some((AddressingMode::AbsoluteY, 4, 3)),
        0x7D => Some((AddressingMode::AbsoluteX, 4, 3)),
        0x7E => Some((AddressingMode::AbsoluteX, 7, 3)),
        0x81 => Some((AddressingMode::IndirectX, 6, 2)),
        0x84 => Some((AddressingMode::ZeroPage, 3, 2)),
        0x85 => Some((AddressingMode::ZeroPage, 3, 2)),
        0x86 => Some((AddressingMode::ZeroPage, 3, 2)),
        0x88 => Some((AddressingMode::Implied, 2, 1)),
        0x8A => Some((AddressingMode::Implied, 2, 1)),
        0x8C => Some((AddressingMode::Absolute, 4, 3)),
        0x8D => Some((AddressingMode::Absolute, 4, 3)),
        0x8E => Some((AddressingMode::Absolute, 4, 3)),
        0x90 => Some((AddressingMode::Relative, 2, 2)),
        0x91 => Some((AddressingMode::IndirectY, 6, 2)),
        0x94 => Some((AddressingMode::ZeroPageX, 4, 2)),
        0x95 => Some((AddressingMode::ZeroPageX, 4, 2)),
        0x96 => Some((AddressingMode::ZeroPageY, 4, 2)),
        0x98 => Some((AddressingMode::Implied, 2, 1)),
        0x99 => Some((AddressingMode::AbsoluteY, 5, 3)),
        0x9A => Some((AddressingMode::Implied, 2, 1)),
        0x9D => Some((AddressingMode::AbsoluteX, 5, 3)),
        0xA0 => Some((AddressingMode::Immediate, 2, 2)),
        0xA1 => Some((AddressingMode::IndirectX, 6, 2)),
        0xA2 => Some((AddressingMode::Immediate, 2, 2)),
        0xA4 => Some((AddressingMode::ZeroPage, 3, 2)),
        0xA5 => Some((AddressingMode::ZeroPage, 3, 2)),
        0xA6 => Some((AddressingMode::ZeroPage, 3, 2)),
        0xA8 => Some((AddressingMode::Implied, 2, 1)),
        0xA9 => Some((AddressingMode::Immediate, 2, 2)),
        0xAA => Some((AddressingMode::Implied, 2, 1)),
        0xAC => Some((AddressingMode::Absolute, 4, 3)),
        0xAD => Some((AddressingMode::Absolute, 4, 3)),
        0xAE => Some((AddressingMode::Absolute, 4, 3)),
        0xB0 => Some((AddressingMode::Relative, 2, 2)),
        0xB1 => Some((AddressingMode::IndirectY, 5, 2)),
        0xB4 => Some((AddressingMode::ZeroPageX, 4, 2)),
        0xB5 => Some((AddressingMode::ZeroPageX, 4, 2)),
        0xB6 => Some((AddressingMode::ZeroPageY, 4, 2)),
        0xB8 => Some((AddressingMode::Implied, 2, 1)),
        0xB9 => Some((AddressingMode::AbsoluteY, 4, 3)),
        0xBA => Some((AddressingMode::Implied, 2, 1)),
        0xBC => Some((AddressingMode::AbsoluteX, 4, 3)),
        0xBD => Some((AddressingMode::AbsoluteX, 4, 3)),
        0xBE => Some((AddressingMode::AbsoluteY, 4, 3)),
        0xC0 => Some((AddressingMode::Immediate, 2, 2)),
        0xC1 => Some((AddressingMode::IndirectX, 6, 2)),
        0xC4 => Some((AddressingMode::ZeroPage, 3, 2)),
        0xC5 => Some((AddressingMode::ZeroPage, 3, 2)),
        0xC6 => Some((AddressingMode::ZeroPage, 5, 2)),
        0xC8 => Some((AddressingMode::Implied, 2, 1)),
        0xC9 => Some((AddressingMode::Immediate, 2, 2)),
        0xCA => Some((AddressingMode::Implied, 2, 1)),
        0xCC => Some((AddressingMode::Absolute, 4, 3)),
        0xCD => Some((AddressingMode::Absolute, 4, 3)),
        0xCE => Some((AddressingMode::Absolute, 6, 3)),
        0xD0 => Some((AddressingMode::Relative, 2, 2)),
        0xD1 => Some((AddressingMode::IndirectY, 5, 2)),
        0xD5 => Some((AddressingMode::ZeroPageX, 4, 2)),
        0xD6 => Some((AddressingMode::ZeroPageX, 6, 2)),
        0xD8 => Some((AddressingMode::Implied, 2, 1)),
        0xD9 => Some((AddressingMode::AbsoluteY, 4, 3)),
        0xDD => Some((AddressingMode::AbsoluteX, 4, 3)),
        0xDE => Some((AddressingMode::AbsoluteX, 7, 3)),
        0xE0 => Some((AddressingMode::Immediate, 2, 2)),
        0xE1 => Some((AddressingMode::IndirectX, 6, 2)),
        0xE4 => Some((AddressingMode::ZeroPage, 3, 2)),
        0xE5 => Some((AddressingMode::ZeroPage, 3, 2)),
        0xE6 => Some((AddressingMode::ZeroPage, 5, 2)),
        0xE8 => Some((AddressingMode::Implied, 2, 1)),
        0xE9 => Some((AddressingMode::Immediate, 2, 2)),
        0xEA => Some((AddressingMode::Implied, 2, 1)),
        0xEC => Some((AddressingMode::Absolute, 4, 3)),
        0xED => Some((AddressingMode::Absolute, 4, 3)),
        0xEE => Some((AddressingMode::Absolute, 6, 3)),
        0xF0 => Some((AddressingMode::Relative, 2, 2)),
        0xF1 => Some((AddressingMode::IndirectY, 5, 2)),
        0xF5 => Some((AddressingMode::ZeroPageX, 4, 2)),
        0xF6 => Some((AddressingMode::ZeroPageX, 6, 2)),
        0xF8 => Some((AddressingMode::Implied, 2, 1)),
        0xF9 => Some((AddressingMode::AbsoluteY, 4, 3)),
        0xFD => Some((AddressingMode::AbsoluteX, 4, 3)),
        0xFE => Some((AddressingMode::AbsoluteX, 7, 3)),
        _ => None,
    }
}

/// The mnemonic of each decodable opcode, as the characters a
/// disassembler prints; an undecodable opcode has an empty one.
pub open spec fn mnemonic_of(opcode: u8) -> Seq<char> {
    match opcode {
        0x00 => "BRK"@,
        0x01 | 0x05 | 0x09 | 0x0D | 0x11 | 0x15 | 0x19 | 0x1D => "ORA"@,
        0x06 | 0x0A | 0x0E | 0x16 | 0x1E => "ASL"@,
        0x08 => "PHP"@,
        0x10 => "BPL"@,
        0x18 => "CLC"@,
        0x20 => "JSR"@,
        0x21 | 0x25 | 0x29 | 0x2D | 0x31 | 0x35 | 0x39 | 0x3D => "AND"@,
        0x24 | 0x2C => "BIT"@,
        0x26 | 0x2A | 0x2E | 0x36 | 0x3E => "ROL"@,
        0x28 => "PLP"@,
        0x30 => "BMI"@,
        0x38 => "SEC"@,
        0x40 => "RTI"@,
        0x41 | 0x45 | 0x49 | 0x4D | 0x51 | 0x55 | 0x59 | 0x5D => "EOR"@,
        0x46 | 0x4A | 0x4E | 0x56 | 0x5E => "LSR"@,
        0x48 => "PHA"@,
        0x4C | 0x6C => "JMP"@,
        0x50 => "BVC"@,
        0x58 => "CLI"@,
        0x60 => "RTS"@,
        0x61 | 0x65 | 0x69 | 0x6D | 0x71 | 0x75 | 0x79 | 0x7D => "ADC"@,
        0x66 | 0x6A | 0x6E | 0x76 | 0x7E => "ROR"@,
        0x68 => "PLA"@,
        0x70 => "BVS"@,
        0x78 => "SEI"@,
        0x81 | 0x85 | 0x8D | 0x91 | 0x95 | 0x99 | 0x9D => "STA"@,
        0x84 | 0x8C | 0x94 => "STY"@,
        0x86 | 0x8E | 0x96 => "STX"@,
        0x88 => "DEY"@,
        0x8A => "TXA"@,
        0x90 => "BCC"@,
        0x98 => "TYA"@,
        0x9A => "TXS"@,
        0xA0 | 0xA4 | 0xAC | 0xB4 | 0xBC => "LDY"@,
        0xA1 | 0xA5 | 0xA9 | 0xAD | 0xB1 | 0xB5 | 0xB9 | 0xBD => "LDA"@,
        0xA2 | 0xA6 | 0xAE | 0xB6 | 0xBE => "LDX"@,
        0xA8 => "TAY"@,
        0xAA => "TAX"@,
        0xB0 => "BCS"@,
        0xB8 => "CLV"@,
        0xBA => "TSX"@,
        0xC0 | 0xC4 | 0xCC => "CPY"@,
        0xC1 | 0xC5 | 0xC9 | 0xCD | 0xD1 | 0xD5 | 0xD9 | 0xDD => "CMP"@,
        0xC6 | 0xCE | 0xD6 | 0xDE => "DEC"@,
        0xC8 => "INY"@,
        0xCA => "DEX"@,
        0xD0 => "BNE"@,
        0xD8 => "CLD"@,
        0xE0 | 0xE4 | 0xEC => "CPX"@,
        0xE1 | 0xE5 | 0xE9 | 0xED | 0xF1 | 0xF5 | 0xF9 | 0xFD => "SBC"@,
        0xE6 | 0xEE | 0xF6 | 0xFE => "INC"@,
        0xE8 => "INX"@,
        0xEA => "NOP"@,
        0xF0 => "BEQ"@,
        0xF8 => "SED"@,
        _ => Seq::<char>::empty(),
    }
}

/// Look up the decode-table row for an opcode; an opcode outside the
/// official instruction set has none.
#[verifier::rlimit(100)]
#[verifier::spinoff_prover]
pub fn get_instruction(opcode: u8) -> (r: Option<Instruction>)
    ensures
        match r {
            None => spec_decode(opcode) is None,
            Some(i) => {
                &&& spec_decode(opcode) == Some((i.addressing_mode, i.cycles, i.bytes))
                &&& i.opcode == opcode
                &&& i.mnemonic@ == mnemonic_of(opcode)
                &&& 1 <= i.bytes <= 3
                &&& 2 <= i.cycles <= 7
            },
        },
{
    match opcode {
        0x00 => Some(Instruction::new("BRK", 0x00, AddressingMode::Implied, 7, 1)),
        0x01 => Some(Instruction::new("ORA", 0x01, AddressingMode::IndirectX, 6, 2)),
        0x05 => Some(Instruction::new("ORA", 0x05, AddressingMode::ZeroPage, 3, 2)),
        0x06 => Some(Instruction::new("ASL", 0x06, AddressingMode::ZeroPage, 5, 2)),
        0x08 => Some(Instruction::new("PHP", 0x08, AddressingMode::Implied, 3, 1)),
        0x09 => Some(Instruction::new("ORA", 0x09, AddressingMode::Immediate, 2, 2)),
        0x0A => Some(Instruction::new("ASL", 0x0A, AddressingMode::Implied, 2, 1)),
        0x0D => Some(Instruction::new("ORA", 0x0D, AddressingMode::Absolute, 4, 3)),
        0x0E => Some(Instruction::new("ASL", 0x0E, AddressingMode::Absolute, 6, 3)),
        0x10 => Some(Instruction::new("BPL", 0x10, AddressingMode::Relative, 2, 2)),
        0x11 => Some(Instruction::new("ORA", 0x11, AddressingMode::IndirectY, 5, 2)),
        0x15 => Some(Instruction::new("ORA", 0x15, AddressingMode::ZeroPageX, 4, 2)),
        0x16 => Some(Instruction::new("ASL", 0x16, AddressingMode::ZeroPageX, 6, 2)),
        0x18 => Some(Instruction::new("CLC", 0x18, AddressingMode::Implied, 2, 1)),
        0x19 => Some(Instruction::new("ORA", 0x19, AddressingMode::AbsoluteY, 4, 3)),
        0x1D => Some(Instruction::new("ORA", 0x1D, AddressingMode::AbsoluteX, 4, 3)),
        0x1E => Some(Instruction::new("ASL", 0x1E, AddressingMode::AbsoluteX, 7, 3)),
        0x20 => Some(Instruction::new("JSR", 0x20, AddressingMode::Absolute, 6, 3)),
        0x21 => Some(Instruction::new("AND", 0x21, AddressingMode::IndirectX, 6, 2)),
        0x24 => Some(Instruction::new("BIT", 0x24, AddressingMode::ZeroPage, 3, 2)),
        0x25 => Some(Instruction::new("AND", 0x25, AddressingMode::ZeroPage, 3, 2)),
        0x26 => Some(Instruction::new("ROL", 0x26, AddressingMode::ZeroPage, 5, 2)),
        0x28 => Some(Instruction::new("PLP", 0x28, AddressingMode::Implied, 4, 1)),
        0x29 => Some(Instruction::new("AND", 0x29, AddressingMode::Immediate, 2, 2)),
        0x2A => Some(Instruction::new("ROL", 0x2A, AddressingMode::Implied, 2, 1)),
        0x2C => Some(Instruction::new("BIT", 0x2C, AddressingMode::Absolute, 4, 3)),
        0x2D => Some(Instruction::new("AND", 0x2D, AddressingMode::Absolute, 4, 3)),
        0x2E => Some(Instruction::new("ROL", 0x2E, AddressingMode::Absolute, 6, 3)),
        0x30 => Some(Instruction::new("BMI", 0x30, AddressingMode::Relative, 2, 2)),
        0x31 => Some(Instruction::new("AND", 0x31, AddressingMode::IndirectY, 5, 2)),
        0x35 => Some(Instruction::new("AND", 0x35, AddressingMode::ZeroPageX, 4, 2)),
        0x36 => Some(Instruction::new("ROL", 0x36, AddressingMode::ZeroPageX, 6, 2)),
        0x38 => Some(Instruction::new("SEC", 0x38, AddressingMode::Implied, 2, 1)),
        0x39 => Some(Instruction::new("AND", 0x39, AddressingMode::AbsoluteY, 4, 3)),
        0x3D => Some(Instruction::new("AND", 0x3D, AddressingMode::AbsoluteX, 4, 3)),
        0x3E => Some(Instruction::new("ROL", 0x3E, AddressingMode::AbsoluteX, 7, 3)),
        0x40 => Some(Instruction::new("RTI", 0x40, AddressingMode::Implied, 6, 1)),
        0x41 => Some(Instruction::new("EOR", 0x41, AddressingMode::IndirectX, 6, 2)),
        0x45 => Some(Instruction::new("EOR", 0x45, AddressingMode::ZeroPage, 3, 2)),
        0x46 => Some(Instruction::new("LSR", 0x46, AddressingMode::ZeroPage, 5, 2)),
        0x48 => Some(Instruction::new("PHA", 0x48, AddressingMode::Implied, 3, 1)),
        0x49 => Some(Instruction::new("EOR", 0x49, AddressingMode::Immediate, 2, 2)),
        0x4A => Some(Instruction::new("LSR", 0x4A, AddressingMode::Implied, 2, 1)),
        0x4C => Some(Instruction::new("JMP", 0x4C, AddressingMode::Absolute, 3, 3)),
        0x4D => Some(Instruction::new("EOR", 0x4D, AddressingMode::Absolute, 4, 3)),
        0x4E => Some(Instruction::new("LSR", 0x4E, AddressingMode::Absolute, 6, 3)),
        0x50 => Some(Instruction::new("BVC", 0x50, AddressingMode::Relative, 2, 2)),
        0x51 => Some(Instruction::new("EOR", 0x51, AddressingMode::IndirectY, 5, 2)),
        0x55 => Some(Instruction::new("EOR", 0x55, AddressingMode::ZeroPageX, 4, 2)),
        0x56 => Some(Instruction::new("LSR", 0x56, AddressingMode::ZeroPageX, 6, 2)),
        0x58 => Some(Instruction::new("CLI", 0x58, AddressingMode::Implied, 2, 1)),
        0x59 => Some(Instruction::new("EOR", 0x59, AddressingMode::AbsoluteY, 4, 3)),
        0x5D => Some(Instruction::new("EOR", 0x5D, AddressingMode::AbsoluteX, 4, 3)),
        0x5E => Some(Instruction::new("LSR", 0x5E, AddressingMode::AbsoluteX, 7, 3)),
        0x60 => Some(Instruction::new("RTS", 0x60, AddressingMode::Implied, 6, 1)),
        0x61 => Some(Instruction::new("ADC", 0x61, AddressingMode::IndirectX, 6, 2)),
        0x65 => Some(Instruction::new("ADC", 0x65, AddressingMode::ZeroPage, 3, 2)),
        0x66 => Some(Instruction::new("ROR", 0x66, AddressingMode::ZeroPage, 5, 2)),
        0x68 => Some(Instruction::new("PLA", 0x68, AddressingMode::Implied, 4, 1)),
        0x69 => Some(Instruction::new("ADC", 0x69, AddressingMode::Immediate, 2, 2)),
        0x6A => Some(Instruction::new("ROR", 0x6A, AddressingMode::Implied, 2, 1)),
        0x6C => Some(Instruction::new("JMP", 0x6C, AddressingMode::Indirect, 5, 3)),
        0x6D => Some(Instruction::new("ADC", 0x6D, AddressingMode::Absolute, 4, 3)),
        0x6E => Some(Instruction::new("ROR", 0x6E, AddressingMode::Absolute, 6, 3)),
        0x70 => Some(Instruction::new("BVS", 0x70, AddressingMode::Relative, 2, 2)),
        0x71 => Some(Instruction::new("ADC", 0x71, AddressingMode::IndirectY, 5, 2)),
        0x75 => Some(Instruction::new("ADC", 0x75, AddressingMode::ZeroPageX, 4, 2)),
        0x76 => Some(Instruction::new("ROR", 0x76, AddressingMode::ZeroPageX, 6, 2)),
        0x78 => Some(Instruction::new("SEI", 0x78, AddressingMode::Implied, 2, 1)),
        0x79 => Some(Instruction::new("ADC", 0x79, AddressingMode::AbsoluteY, 4, 3)),
        0x7D => Some(Instruction::new("ADC", 0x7D, AddressingMode::AbsoluteX, 4, 3)),
        0x7E => Some(Instruction::new("ROR", 0x7E, AddressingMode::AbsoluteX, 7, 3)),
        0x81 => Some(Instruction::new("STA", 0x81, AddressingMode::IndirectX, 6, 2)),
        0x84 => Some(Instruction::new("STY", 0x84, AddressingMode::ZeroPage, 3, 2)),
        0x85 => Some(Instruction::new("STA", 0x85, AddressingMode::ZeroPage, 3, 2)),
        0x86 => Some(Instruction::new("STX", 0x86, AddressingMode::ZeroPage, 3, 2)),
        0x88 => Some(Instruction::new("DEY", 0x88, AddressingMode::Implied, 2, 1)),
        0x8A => Some(Instruction::new("TXA", 0x8A, AddressingMode::Implied, 2, 1)),
        0x8C => Some(Instruction::new("STY", 0x8C, AddressingMode::Absolute, 4, 3)),
        0x8D => Some(Instruction::new("STA", 0x8D, AddressingMode::Absolute, 4, 3)),
        0x8E => Some(Instruction::new("STX", 0x8E, AddressingMode::Absolute, 4, 3)),
        0x90 => Some(Instruction::new("BCC", 0x90, AddressingMode::Relative, 2, 2)),
        0x91 => Some(Instruction::new("STA", 0x91, AddressingMode::IndirectY, 6, 2)),
        0x94 => Some(Instruction::new("STY", 0x94, AddressingMode::ZeroPageX, 4, 2)),
        0x95 => Some(Instruction::new("STA", 0x95, AddressingMode::ZeroPageX, 4, 2)),
        0x96 => Some(Instruction::new("STX", 0x96, AddressingMode::ZeroPageY, 4, 2)),
        0x98 => Some(Instruction::new("TYA", 0x98, AddressingMode::Implied, 2, 1)),
        0x99 => Some(Instruction::new("STA", 0x99, AddressingMode::AbsoluteY, 5, 3)),
        0x9A => Some(Instruction::new("TXS", 0x9A, AddressingMode::Implied, 2, 1)),
        0x9D => Some(Instruction::new("STA", 0x9D, AddressingMode::AbsoluteX, 5, 3)),
        0xA0 => Some(Instruction::new("LDY", 0xA0, AddressingMode::Immediate, 2, 2)),
        0xA1 => Some(Instruction::new("LDA", 0xA1, AddressingMode::IndirectX, 6, 2)),
        0xA2 => Some(Instruction::new("LDX", 0xA2, AddressingMode::Immediate, 2, 2)),
        0xA4 => Some(Instruction::new("LDY", 0xA4, AddressingMode::ZeroPage, 3, 2)),
        0xA5 => Some(Instruction::new("LDA", 0xA5, AddressingMode::ZeroPage, 3, 2)),
        0xA6 => Some(Instruction::new("LDX", 0xA6, AddressingMode::ZeroPage, 3, 2)),
        0xA8 => Some(Instruction::new("TAY", 0xA8, AddressingMode::Implied, 2, 1)),
        0xA9 => Some(Instruction::new("LDA", 0xA9, AddressingMode::Immediate, 2, 2)),
        0xAA => Some(Instruction::new("TAX", 0xAA, AddressingMode::Implied, 2, 1)),
        0xAC => Some(Instruction::new("LDY", 0xAC, AddressingMode::Absolute, 4, 3)),
        0xAD => Some(Instruction::new("LDA", 0xAD, AddressingMode::Absolute, 4, 3)),
        0xAE => Some(Instruction::new("LDX", 0xAE, AddressingMode::Absolute, 4, 3)),
        0xB0 => Some(Instruction::new("BCS", 0xB0, AddressingMode::Relative, 2, 2)),
        0xB1 => Some(Instruction::new("LDA", 0xB1, AddressingMode::IndirectY, 5, 2)),
        0xB4 => Some(Instruction::new("LDY", 0xB4, AddressingMode::ZeroPageX, 4, 2)),
        0xB5 => Some(Instruction::new("LDA", 0xB5, AddressingMode::ZeroPageX, 4, 2)),
        0xB6 => Some(Instruction::new("LDX", 0xB6, AddressingMode::ZeroPageY, 4, 2)),
        0xB8 => Some(Instruction::new("CLV", 0xB8, AddressingMode::Implied, 2, 1)),
        0xB9 => Some(Instruction::new("LDA", 0xB9, AddressingMode::AbsoluteY, 4, 3)),
        0xBA => Some(Instruction::new("TSX", 0xBA, AddressingMode::Implied, 2, 1)),
        0xBC => Some(Instruction::new("LDY", 0xBC, AddressingMode::AbsoluteX, 4, 3)),
        0xBD => Some(Instruction::new("LDA", 0xBD, AddressingMode::AbsoluteX, 4, 3)),
        0xBE => Some(Instruction::new("LDX", 0xBE, AddressingMode::AbsoluteY, 4, 3)),
        0xC0 => Some(Instruction::new("CPY", 0xC0, AddressingMode::Immediate, 2, 2)),
        0xC1 => Some(Instruction::new("CMP", 0xC1, AddressingMode::IndirectX, 6, 2)),
        0xC4 => Some(Instruction::new("CPY", 0xC4, AddressingMode::ZeroPage, 3, 2)),
        0xC5 => Some(Instruction::new("CMP", 0xC5, AddressingMode::ZeroPage, 3, 2)),
        0xC6 => Some(Instruction::new("DEC", 0xC6, AddressingMode::ZeroPage, 5, 2)),
        0xC8 => Some(Instruction::new("INY", 0xC8, AddressingMode::Implied, 2, 1)),
        0xC9 => Some(Instruction::new("CMP", 0xC9, AddressingMode::Immediate, 2, 2)),
        0xCA => Some(Instruction::new("DEX", 0xCA, AddressingMode::Implied, 2, 1)),
        0xCC => Some(Instruction::new("CPY", 0xCC, AddressingMode::Absolute, 4, 3)),
        0xCD => Some(Instruction::new("CMP", 0xCD, AddressingMode::Absolute, 4, 3)),
        0xCE => Some(Instruction::new("DEC", 0xCE, AddressingMode::Absolute, 6, 3)),
        0xD0 => Some(Instruction::new("BNE", 0xD0, AddressingMode::Relative, 2, 2)),
        0xD1 => Some(Instruction::new("CMP", 0xD1, AddressingMode::IndirectY, 5, 2)),
        0xD5 => Some(Instruction::new("CMP", 0xD5, AddressingMode::ZeroPageX, 4, 2)),
        0xD6 => Some(Instruction::new("DEC", 0xD6, AddressingMode::ZeroPageX, 6, 2)),
        0xD8 => Some(Instruction::new("CLD", 0xD8, AddressingMode::Implied, 2, 1)),
        0xD9 => Some(Instruction::new("CMP", 0xD9, AddressingMode::AbsoluteY, 4, 3)),
        0xDD => Some(Instruction::new("CMP", 0xDD, AddressingMode::AbsoluteX, 4, 3)),
        0xDE => Some(Instruction::new("DEC", 0xDE, AddressingMode::AbsoluteX, 7, 3)),
        0xE0 => Some(Instruction::new("CPX", 0xE0, AddressingMode::Immediate, 2, 2)),
        0xE1 => Some(Instruction::new("SBC", 0xE1, AddressingMode::IndirectX, 6, 2)),
        0xE4 => Some(Instruction::new("CPX", 0xE4, AddressingMode::ZeroPage, 3, 2)),
        0xE5 => Some(Instruction::new("SBC", 0xE5, AddressingMode::ZeroPage, 3, 2)),
        0xE6 => Some(Instruction::new("INC", 0xE6, AddressingMode::ZeroPage, 5, 2)),
        0xE8 => Some(Instruction::new("INX", 0xE8, AddressingMode::Implied, 2, 1)),
        0xE9 => Some(Instruction::new("SBC", 0xE9, AddressingMode::Immediate, 2, 2)),
        0xEA => Some(Instruction::new("NOP", 0xEA, AddressingMode::Implied, 2, 1)),
        0xEC => Some(Instruction::new("CPX", 0xEC, AddressingMode::Absolute, 4, 3)),
        0xED => Some(Instruction::new("SBC", 0xED, AddressingMode::Absolute, 4, 3)),
        0xEE => Some(Instruction::new("INC", 0xEE, AddressingMode::Absolute, 6, 3)),
        0xF0 => Some(Instruction::new("BEQ", 0xF0, AddressingMode::Relative, 2, 2)),
        0xF1 => Some(Instruction::new("SBC", 0xF1, AddressingMode::IndirectY, 5, 2)),
        0xF5 => Some(Instruction::new("SBC", 0xF5, AddressingMode::ZeroPageX, 4, 2)),
        0xF6 => Some(Instruction::new("INC", 0xF6, AddressingMode::ZeroPageX, 6, 2)),
        0xF8 => Some(Instruction::new("SED", 0xF8, AddressingMode::Implied, 2, 1)),
        0xF9 => Some(Instruction::new("SBC", 0xF9, AddressingMode::AbsoluteY, 4, 3)),
        0xFD => Some(Instruction::new("SBC", 0xFD, AddressingMode::AbsoluteX, 4, 3)),
        0xFE => Some(Instruction::new("INC", 0xFE, AddressingMode::AbsoluteX, 7, 3)),
        _ => None,
    }
}

/// Whether the opcode has an entry in the decode table.
pub fn is_valid_opcode(opcode: u8) -> (r: bool)
    ensures
        r == (spec_decode(opcode) is Some),
{
    get_instruction(opcode).is_some()
}

} // verus!
