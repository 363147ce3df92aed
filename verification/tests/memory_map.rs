use madnes::cpu::Cpu;
use madnes::memory::Memory;
use madnes::rom::{MirrorMode, Rom};

#[test]
fn test_nes_memory_mirroring() {
    let mut cpu = Cpu::new();

    // Test internal RAM mirroring (0x0000-0x07FF mirrored to 0x0800-0x1FFF)
    cpu.write_byte(0x0200, 0xAB); // Write to base RAM
    assert_eq!(cpu.read_byte(0x0200), 0xAB); // Read from base
    assert_eq!(cpu.read_byte(0x0A00), 0xAB); // Read from mirror 1 (0x0200 + 0x0800)
    assert_eq!(cpu.read_byte(0x1200), 0xAB); // Read from mirror 2 (0x0200 + 0x1000)
    assert_eq!(cpu.read_byte(0x1A00), 0xAB); // Read from mirror 3 (0x0200 + 0x1800)

    // Test writing to mirror affects base
    cpu.write_byte(0x1300, 0xCD); // Write to mirror
    assert_eq!(cpu.read_byte(0x0300), 0xCD); // Should appear in base (0x1300 & 0x07FF = 0x0300)
}

#[test]
fn test_nes_memory_ppu_mirroring() {
    let mut cpu = Cpu::new();

    // Test PPU register mirroring (0x2000-0x2007 mirrored throughout 0x2000-0x3FFF)
    cpu.write_byte(0x2002, 0x55); // Write to PPU status register
    assert_eq!(cpu.read_byte(0x2002), 0x55); // Read from base
    assert_eq!(cpu.read_byte(0x200A), 0x55); // Read from mirror (0x200A & 0x0007 = 0x0002)
    assert_eq!(cpu.read_byte(0x3002), 0x55); // Read from high mirror

    // Test writing to mirror affects base
    cpu.write_byte(0x2409, 0x77); // Write to mirror (0x2409 & 0x0007 = 0x0001)
    assert_eq!(cpu.read_byte(0x2001), 0x77); // Should appear in base register
}

#[test]
fn test_nes_memory_regions() {
    let mut cpu = Cpu::new();

    // Test PRG RAM area (0x6000-0x7FFF)
    cpu.write_byte(0x6000, 0x11);
    cpu.write_byte(0x7FFF, 0x22);
    assert_eq!(cpu.read_byte(0x6000), 0x11);
    assert_eq!(cpu.read_byte(0x7FFF), 0x22);

    // Test APU/IO area (0x4000-0x401F)
    cpu.write_byte(0x4000, 0x33);
    cpu.write_byte(0x4015, 0x44);
    assert_eq!(cpu.read_byte(0x4000), 0x33);
    assert_eq!(cpu.read_byte(0x4015), 0x44);
}

#[test]
fn test_nes_memory_prg_rom() {
    let mut cpu = Cpu::new();

    // Load a small ROM
    let rom_data = Rom {
        prg_rom: vec![0x01, 0x02, 0x03, 0x04],
        chr_rom: vec![0; 8192],
        mirror_mode: MirrorMode::Horizontal,
        mapper: 0,
        prg_ram_size: 8192,
    };
    cpu.memory.load_prg_rom(rom_data);

    // Test reading from PRG ROM
    assert_eq!(cpu.read_byte(0x8000), 0x01);
    assert_eq!(cpu.read_byte(0x8001), 0x02);
    assert_eq!(cpu.read_byte(0x8002), 0x03);
    assert_eq!(cpu.read_byte(0x8003), 0x04);

    // Test 16KB ROM mirroring (if ROM is exactly 16KB, it mirrors in upper 16KB)
    let rom_16kb = Rom {
        prg_rom: vec![0xAA; 0x4000], // 16KB ROM
        chr_rom: vec![0; 8192],
        mirror_mode: MirrorMode::Horizontal,
        mapper: 0,
        prg_ram_size: 8192,
    };
    cpu.memory.load_prg_rom(rom_16kb);
    assert_eq!(cpu.read_byte(0x8000), 0xAA); // First 16KB
    assert_eq!(cpu.read_byte(0xC000), 0xAA); // Mirrored in second 16KB
}

#[test]
fn test_write_then_read_gives_value_back() {
    // Plain-storage addresses hand back exactly the byte written: the
    // RAM mirrors, the test register block, and PRG RAM.
    let mut cpu = Cpu::new();
    for &(addr, value) in
        [(0x0000u16, 0x5Au8), (0x07FF, 0x01), (0x1FFF, 0xFE), (0x4018, 0x7C), (0x401F, 0x33),
         (0x6000, 0x88), (0x7ABC, 0x99)].iter()
    {
        cpu.write_byte(addr, value);
        assert_eq!(cpu.read_byte(addr), value);
    }
}

#[test]
fn test_rom_window_drops_writes() {
    // A write into the ROM window is consumed; the read still shows the
    // cartridge (or zero when none is inserted).
    let mut cpu = Cpu::new();
    cpu.write_byte(0x8000, 0x42);
    assert_eq!(cpu.read_byte(0x8000), 0x00);
}
