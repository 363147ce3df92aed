//! Core of an NES emulator: the 6502 CPU interpreter, the memory bus,
//! the picture and audio processing units, the cartridge mappers, the
//! iNES container parser, and the orchestrator that clocks them together.

pub mod apu;
pub mod bit_utils;
pub mod channels;
pub mod controller;
pub mod cpu;
pub mod error;
pub mod flags;
pub mod ines;
pub mod instructions;
pub mod mappers;
pub mod memory;
pub mod orchestrator;
pub mod palette;
pub mod ppu;
pub mod ppu_regs;
pub mod rom;
pub mod timing;
pub mod trace;
