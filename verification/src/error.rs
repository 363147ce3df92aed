//! Failure kinds for each subsystem of the emulator core.

use vstd::prelude::*;

verus! {

/// Errors raised by the CPU interpreter.
#[derive(Debug, Clone, PartialEq, Eq)]
pub enum CpuError {
    /// An opcode with no entry in the decode table.
    UnknownOpcode { opcode: u8, pc: u16 },
    /// The program counter left the executable range.
    InvalidProgramCounter(u16),
    /// The stack pointer wrapped past the top of the stack page.
    StackOverflow,
    /// The stack pointer wrapped past the bottom of the stack page.
    StackUnderflow,
    /// A decoded instruction that cannot be executed.
    InvalidInstruction { address: u16, reason: String },
    /// Execution stopped by request.
    ExecutionHalted(String),
}

/// Errors raised by the memory bus.
#[derive(Debug, Clone, PartialEq, Eq)]
pub enum MemoryError {
    /// An address beyond the addressable size of a region.
    OutOfBounds { address: u16, size: usize },
    /// An address with no register or memory behind it.
    InvalidRegion(u16),
    /// A cartridge access before any ROM was loaded.
    RomNotLoaded,
    /// The memory map could not be set up.
    InitializationFailed(String),
}

/// Errors raised while parsing or loading a cartridge image.
#[derive(Debug, Clone, PartialEq, Eq)]
pub enum RomError {
    /// The 16-byte header does not begin with the iNES signature.
    InvalidHeader,
    /// The file ends before the header, trainer, PRG and CHR data it announces.
    FileTooSmall { expected: usize, actual: usize },
    /// A mapper number this core does not implement.
    UnsupportedMapper(u8),
    /// The image contradicts itself.
    CorruptedData,
    /// A required section of the image is absent.
    MissingData,
    /// The file could not be read from disk.
    Io(String),
}

/// Errors raised by host file input and output.
#[derive(Debug, Clone, PartialEq, Eq)]
pub enum IoError {
    FileNotFound(String),
    PermissionDenied(String),
    ReadError(String),
    WriteError(String),
    Other(String),
}

/// Errors raised by the host's windowing, rendering or audio layer.
#[derive(Debug, Clone, PartialEq, Eq)]
pub enum SdlError {
    InitializationFailed(String),
    WindowCreationFailed(String),
    RendererCreationFailed(String),
    TextureCreationFailed(String),
    FontLoadingFailed(String),
    AudioInitializationFailed(String),
    Other(String),
}

/// Errors raised while reading the host configuration.
#[derive(Debug, Clone, PartialEq, Eq)]
pub enum ConfigError {
    InvalidRomPath(String),
    InvalidValue { key: String, value: String },
    MissingRequired(String),
}

/// Any failure of the emulator, tagged by the subsystem it came from.
#[derive(Debug, Clone, PartialEq, Eq)]
pub enum EmulatorError {
    Cpu(CpuError),
    Memory(MemoryError),
    Rom(RomError),
    Io(IoError),
    Sdl(SdlError),
    Config(ConfigError),
}

pub type EmulatorResult<T> = Result<T, EmulatorError>;

pub type CpuResult<T> = Result<T, CpuError>;

pub type MemoryResult<T> = Result<T, MemoryError>;

pub type RomResult<T> = Result<T, RomError>;

} // verus!
