use madnes::cpu::Cpu;
use madnes::flags::StatusFlag;
use madnes::memory::Memory;
use madnes::rom::{MirrorMode, Rom};

const PROGRAM_ADDRESS: u16 = 0x8000;

#[test]
fn core_test_read_write_byte() {
    let mut cpu = Cpu::new();
    cpu.write_byte(0x0000, 0x42);
    assert_eq!(cpu.read_byte(0x0000), 0x42);
}

#[test]
fn core_test_read_write_word() {
    let mut cpu = Cpu::new();
    cpu.write_word(0x0000, 0x4242);
    assert_eq!(cpu.read_word(0x0000), 0x4242);
}

#[test]
fn core_test_reset() {
    let mut cpu = Cpu::new();

    // Create a ROM with a reset vector at 0x4242
    let mut rom_data = vec![0; 0x8000]; // 32KB ROM
    rom_data[0x7FFC] = 0x42; // Low byte of reset vector at 0xFFFC
    rom_data[0x7FFD] = 0x42; // High byte of reset vector at 0xFFFD

    let rom = Rom {
        prg_rom: rom_data,
        chr_rom: vec![0; 8192],
        mirror_mode: MirrorMode::Horizontal,
        mapper: 0,
        prg_ram_size: 8192,
    };

    cpu.memory.load_prg_rom(rom);
    cpu.reset();
    assert_eq!(cpu.a, 0);
    assert_eq!(cpu.x, 0);
    assert_eq!(cpu.y, 0);
    assert_eq!(cpu.pc, 0x4242);
    assert_eq!(cpu.sp, 0xFD);
    assert_eq!(
        cpu.p,
        StatusFlag::InterruptDisable.mask() | StatusFlag::Unused.mask()
    );
    assert_eq!(cpu.cycles, 0);
}

#[test]
fn core_test_get_set_flag() {
    let mut cpu = Cpu::new();
    let flag = StatusFlag::Carry;
    cpu.set_flag(flag, true);
    assert_eq!(cpu.get_flag(flag), true);
    cpu.set_flag(flag, false);
    assert_eq!(cpu.get_flag(flag), false);
}

#[test]
fn core_test_load_program() {
    let mut cpu = Cpu::new();
    let program = vec![0x42, 0x42];
    cpu.load_program(program, PROGRAM_ADDRESS).unwrap();
    assert_eq!(cpu.read_byte(PROGRAM_ADDRESS + 0), 0x42);
    assert_eq!(cpu.read_byte(PROGRAM_ADDRESS + 1), 0x42);
}

#[test]
fn core_test_run_program_with_4_instructions() {
    // assembly:
    // LDA #$C0     /* load A with 0xC0 */
    // TAX          /* copy A to X */
    // INX          /* increment X */
    // BRK          /* break */
    let mut cpu = Cpu::new();
    cpu.load_program(vec![0xA9, 0xC0, 0xAA, 0xE8, 0x00], PROGRAM_ADDRESS)
        .unwrap();
    cpu.pc = PROGRAM_ADDRESS;
    cpu.run(false);
    assert_eq!(cpu.x, 0xC1);
}

#[test]
fn core_test_lda_immediate() {
    let mut cpu = Cpu::new();
    cpu.load_program(vec![0xA9, 0x42, 0x00], PROGRAM_ADDRESS).unwrap();
    cpu.pc = PROGRAM_ADDRESS;
    cpu.run(true);
    assert_eq!(cpu.a, 0x42);
    assert!(!cpu.get_flag(StatusFlag::Zero));
    assert!(!cpu.get_flag(StatusFlag::Negative));
}

#[test]
fn core_test_lda_zero_flag() {
    let mut cpu = Cpu::new();
    cpu.load_program(vec![0xA9, 0x00, 0x00], PROGRAM_ADDRESS).unwrap();
    cpu.pc = 0x8000;
    cpu.run(false);
    assert_eq!(cpu.a, 0x00);
    assert!(cpu.get_flag(StatusFlag::Zero));
}

#[test]
fn core_test_lda_negative_flag() {
    let mut cpu = Cpu::new();
    cpu.load_program(vec![0xA9, 0xFF, 0x00], PROGRAM_ADDRESS).unwrap();
    cpu.pc = 0x8000;
    cpu.run(false);
    assert_eq!(cpu.a, 0xFF);
    assert!(cpu.get_flag(StatusFlag::Negative));
}

#[test]
fn core_test_lda_zeropage() {
    let mut cpu = Cpu::new();
    cpu.write_byte(0x10, 0x77); // value at $10
    cpu.load_program(vec![0xA5, 0x10, 0x00], PROGRAM_ADDRESS).unwrap();
    cpu.pc = 0x8000;
    cpu.run(true);
    assert_eq!(cpu.a, 0x77);
}
