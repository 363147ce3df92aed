use madnes::apu::Apu;
use madnes::channels::NoiseChannel;
use madnes::controller::Button;
use madnes::ines::InesHeader;
use madnes::cpu::Cpu;
use madnes::flags::StatusFlag;
use madnes::mappers::{create_mapper, Mapper001, MapperKind};
use madnes::memory::Memory;
use madnes::orchestrator::Orchestrator;
use madnes::ppu::Ppu;
use madnes::rom::{MirrorMode, Rom};

/// A 32 KiB cartridge whose reset vector points at `start`, filled with
/// the given program at the start of the window and NOP elsewhere.
fn cartridge_with(program: &[u8], start: u16) -> Rom {
    let mut prg = vec![0xEAu8; 0x8000];
    for (i, &b) in program.iter().enumerate() {
        prg[i] = b;
    }
    prg[0x7FFC] = (start & 0xFF) as u8;
    prg[0x7FFD] = (start >> 8) as u8;
    Rom {
        prg_rom: prg,
        chr_rom: vec![0; 8192],
        mirror_mode: MirrorMode::Horizontal,
        mapper: 0,
        prg_ram_size: 8192,
    }
}

#[test]
fn test_lda_immediate_zero_flag_after_reset() {
    // Program A9 00 00 at 0x8000, reset vector pointing there.
    let mut cpu = Cpu::new();
    cpu.load_rom(cartridge_with(&[0xA9, 0x00, 0x00], 0x8000));
    cpu.reset();
    assert_eq!(cpu.pc, 0x8000);
    assert_eq!(cpu.step(), Ok(true));
    assert_eq!(cpu.a, 0);
    assert!(cpu.get_flag(StatusFlag::Zero));
    assert!(!cpu.get_flag(StatusFlag::Negative));
    assert_eq!(cpu.pc, 0x8002);
}

#[test]
fn test_branch_taken_page_cross_cycles() {
    // BEQ +4 at 0x80FE with Z set lands at 0x8104 and costs the base
    // two cycles plus one for taking the branch and one for the page.
    let mut cpu = Cpu::new();
    let mut prg = vec![0xEAu8; 0x8000];
    prg[0xFE] = 0xF0;
    prg[0xFF] = 0x04;
    cpu.load_rom(Rom {
        prg_rom: prg,
        chr_rom: vec![0; 8192],
        mirror_mode: MirrorMode::Horizontal,
        mapper: 0,
        prg_ram_size: 8192,
    });
    cpu.pc = 0x80FE;
    cpu.set_flag(StatusFlag::Zero, true);
    let before = cpu.get_cycles();
    assert_eq!(cpu.step(), Ok(true));
    assert_eq!(cpu.pc, 0x8104);
    assert_eq!(cpu.get_cycles(), before + 2 + 2);
}

#[test]
fn test_jmp_indirect_page_wrap_quirk() {
    // A pointer at the last byte of a page reads its high byte from the
    // start of the same page, not the next one.
    let mut cpu = Cpu::new();
    cpu.write_byte(0x10FF, 0x80); // pointer low byte
    cpu.write_byte(0x1000, 0x40); // high byte the quirk reads
    cpu.write_byte(0x1100, 0x55); // high byte a straight reading would use
    cpu.load_program(vec![0x6C, 0xFF, 0x10, 0x00], 0x8000).unwrap();
    cpu.pc = 0x8000;
    assert_eq!(cpu.step(), Ok(true));
    assert_eq!(cpu.pc, 0x4080);
}

#[test]
fn test_mmc1_bank_swap() {
    // Five serial writes shifting in 0, 0, 0, 1, 0 (low bit first)
    // commit PRG bank 0b01000 = 8; a read at the window start then maps
    // to the offset of bank 8.
    let mut mapper = Mapper001::new(16, 0);
    let bits = [0u8, 0, 0, 1, 0];
    for &bit in bits.iter() {
        let _ = mapper.map_prg_write(0xE000, bit);
    }
    assert_eq!(mapper.prg_bank, 0b01000);
    assert_eq!(mapper.map_prg_read(0x8000), Ok(Some(8 * 0x4000)));
}

#[test]
fn test_nmi_on_vblank() {
    // With NMI enabled in the control register, stepping the console to
    // scanline 241 dot 1 latches an NMI; the next instruction boundary
    // services it: the stack grows by three, the program counter loads
    // from the NMI vector, and interrupt-disable is set.
    let mut prg = vec![0xEAu8; 0x8000];
    prg[0x7FFC] = 0x00;
    prg[0x7FFD] = 0x80;
    prg[0x7FFA] = 0x00; // NMI vector -> 0x9000
    prg[0x7FFB] = 0x90;
    let rom = Rom {
        prg_rom: prg,
        chr_rom: vec![0; 8192],
        mirror_mode: MirrorMode::Horizontal,
        mapper: 0,
        prg_ram_size: 8192,
    };
    let mut console = Orchestrator::new(rom).unwrap();
    console.ppu.write_register(0x2000, 0x80).unwrap();

    let mut iterations = 0u32;
    while !console.nmi_pending && iterations < 100_000 {
        console.step().unwrap();
        iterations += 1;
    }
    assert!(console.nmi_pending);
    assert!(console.ppu.scanline == 241);

    let sp_before = console.cpu.sp;
    console.step().unwrap();
    assert_eq!(console.cpu.sp, sp_before.wrapping_sub(3));
    assert!(console.cpu.get_flag(StatusFlag::InterruptDisable));
    // The serviced handler at 0x9000 has executed its first instruction.
    assert_eq!(console.cpu.pc, 0x9001);
}

#[test]
fn test_mixer_muted_and_full_pulse() {
    // The float mixing tables, as the host computes them.
    let pulse_table = |i: usize| -> f64 {
        if i == 0 {
            0.0
        } else {
            95.52 / (8128.0 / (i as f64) + 100.0)
        }
    };
    let tnd_table = |i: usize| -> f64 {
        if i == 0 {
            0.0
        } else {
            163.67 / (24329.0 / (i as f64) + 100.0)
        }
    };

    // All channels muted: both indices are zero and the sample is 0.0.
    let mut apu = Apu::new();
    assert_eq!(apu.pulse_table_index(), 0);
    assert_eq!(apu.tnd_table_index(), 0);
    let sample = pulse_table(apu.pulse_table_index() as usize)
        + tnd_table(apu.tnd_table_index() as usize);
    assert_eq!(sample, 0.0);

    // Both pulses at level 15, everything else silent: the sample is
    // the pulse table's entry 30.
    apu.write_register(0x4015, 0x03).unwrap(); // enable both pulses
    for base in [0x4000u16, 0x4004].iter() {
        apu.write_register(*base, 0xDF).unwrap(); // duty 3, constant volume 15
        apu.write_register(*base + 2, 0x08).unwrap(); // timer period 8
        apu.write_register(*base + 3, 0x00).unwrap(); // length 10, sequencer 0
    }
    assert_eq!(apu.pulse_table_index(), 30);
    assert_eq!(apu.tnd_table_index(), 0);
    let sample = pulse_table(apu.pulse_table_index() as usize)
        + tnd_table(apu.tnd_table_index() as usize);
    assert_eq!(sample, pulse_table(30));
}

#[test]
fn test_ines_rejection() {
    // A wrong signature is an invalid header.
    let mut bad = vec![0u8; 16 + 0x4000];
    bad[0] = 0x4E;
    bad[1] = 0x45;
    bad[2] = 0x53;
    bad[3] = 0x30; // '0' instead of 0x1A
    bad[4] = 1;
    assert_eq!(Rom::new(&bad).unwrap_err(), madnes::error::RomError::InvalidHeader);

    // A valid header on a file shorter than header + PRG + CHR is too
    // small, and the error names both sizes.
    let mut short = vec![0u8; 16 + 100];
    short[0] = 0x4E;
    short[1] = 0x45;
    short[2] = 0x53;
    short[3] = 0x1A;
    short[4] = 1; // 16 KiB of PRG announced
    short[5] = 1; // 8 KiB of CHR announced
    assert_eq!(
        Rom::new(&short).unwrap_err(),
        madnes::error::RomError::FileTooSmall { expected: 16 + 0x4000 + 0x2000, actual: 116 }
    );

    // Fewer than sixteen bytes cannot even hold the header.
    let tiny = [0x4Eu8, 0x45, 0x53];
    assert_eq!(
        Rom::new(&tiny).unwrap_err(),
        madnes::error::RomError::FileTooSmall { expected: 16, actual: 3 }
    );
}

#[test]
fn test_unsupported_mapper_refused() {
    let mut rom = cartridge_with(&[0xEA], 0x8000);
    rom.mapper = 4;
    assert!(matches!(
        Orchestrator::new(rom),
        Err(madnes::error::RomError::UnsupportedMapper(4))
    ));
    assert!(matches!(create_mapper(0, 2, 1), Ok(MapperKind::Nrom(_))));
    assert!(matches!(create_mapper(1, 2, 1), Ok(MapperKind::Mmc1(_))));
    assert!(matches!(
        create_mapper(7, 2, 1),
        Err(madnes::error::RomError::UnsupportedMapper(7))
    ));
}

#[test]
fn test_status_read_clears_vblank_once() {
    // Two consecutive reads of the status register: the first returns
    // the set VBlank bit and clears it, the second returns it clear.
    let mut ppu = Ppu::new();
    ppu.status = 0xE0;
    let first = ppu.read_register(0x2002).unwrap();
    assert_eq!(first & 0x80, 0x80);
    let second = ppu.read_register(0x2002).unwrap();
    assert_eq!(second & 0x80, 0x00);
    assert_eq!(second, 0x60);
}

#[test]
fn test_palette_alias_through_register_window() {
    // A write to 0x3F10 lands in the slot 0x3F00 reads.
    let mut ppu = Ppu::new();
    ppu.write_register(0x2006, 0x3F).unwrap();
    ppu.write_register(0x2006, 0x10).unwrap();
    ppu.write_register(0x2007, 0x2A).unwrap();

    ppu.write_register(0x2006, 0x3F).unwrap();
    ppu.write_register(0x2006, 0x00).unwrap();
    assert_eq!(ppu.read_register(0x2007).unwrap(), 0x2A);
}

#[test]
fn test_ppu_timing_advances_modulo_frame() {
    // The (scanline, dot) pair walks every dot of the frame in order
    // and wraps at (261, 340).
    let mut ppu = Ppu::new();
    for expected_dot in 1..=340u16 {
        assert_eq!(ppu.step(), Ok(false));
        assert_eq!((ppu.scanline, ppu.cycle), (0, expected_dot));
    }
    assert_eq!(ppu.step(), Ok(false));
    assert_eq!((ppu.scanline, ppu.cycle), (1, 0));

    ppu.scanline = 261;
    ppu.cycle = 340;
    assert_eq!(ppu.step(), Ok(true));
    assert_eq!((ppu.scanline, ppu.cycle), (0, 0));
}

#[test]
fn test_ppu_odd_frame_skip() {
    // With background rendering on and the odd-frame flag set, the
    // pre-render line ends one dot early; with rendering off it runs
    // its full length.
    let mut ppu = Ppu::new();
    ppu.scanline = 261;
    ppu.cycle = 339;
    ppu.f = true;
    ppu.mask = 0x08;
    assert_eq!(ppu.step(), Ok(true));
    assert_eq!((ppu.scanline, ppu.cycle), (0, 0));

    let mut ppu = Ppu::new();
    ppu.scanline = 261;
    ppu.cycle = 339;
    ppu.f = true;
    ppu.mask = 0x00;
    assert_eq!(ppu.step(), Ok(false));
    assert_eq!((ppu.scanline, ppu.cycle), (261, 340));
}

#[test]
fn test_vblank_set_at_241_dot_1() {
    let mut ppu = Ppu::new();
    ppu.ctrl = 0x80;
    ppu.scanline = 241;
    ppu.cycle = 0;
    assert_eq!(ppu.step(), Ok(false));
    assert_eq!((ppu.scanline, ppu.cycle), (241, 1));
    assert_eq!(ppu.status & 0x80, 0x80);
    assert!(ppu.nmi_occurred);

    // Dot 1 of the pre-render line clears it again.
    ppu.scanline = 261;
    ppu.cycle = 0;
    assert_eq!(ppu.step(), Ok(false));
    assert_eq!(ppu.status & 0xE0, 0x00);
}

#[test]
fn test_lfsr_never_zero() {
    // Clock the noise channel's feedback register through thousands of
    // timer expiries in both modes; it never reaches zero.
    let mut noise = NoiseChannel::new();
    noise.timer_period = 0; // expire on every step
    for step in 0..5000u32 {
        noise.mode = step % 2 == 0;
        noise.step();
        assert_ne!(noise.shift_register, 0);
        assert!(noise.shift_register < 0x8000);
    }
}

#[test]
fn test_header_round_trip() {
    let data: Vec<u8> = vec![
        0x4E, 0x45, 0x53, 0x1A, 2, 1, 0b0001_0011, 0x40, 1, 7, 9, 11, 12, 13, 14, 15,
    ];
    let header = InesHeader::parse(&data).unwrap();
    assert_eq!(header.get_mapper_number(), 0x41);
    let bytes = header.to_bytes();
    assert_eq!(bytes, data);
}

#[test]
fn test_bus_routes_ppu_registers() {
    // A write through the bus into the PPU window reaches the real
    // registers: enabling NMI through 0x2000, reading 0x2002 clears
    // VBlank, and the palette is reachable through 0x2006/0x2007.
    let mut console = Orchestrator::new(cartridge_with(&[0xEA], 0x8000)).unwrap();

    console.bus_write(0x2000, 0x80);
    assert_eq!(console.ppu.ctrl, 0x80);

    console.ppu.status = 0xE0;
    assert_eq!(console.bus_read(0x2002), 0xE0);
    assert_eq!(console.bus_read(0x2002), 0x60); // VBlank cleared by the first read

    // The mirror at 0x3456 selects register 0x2006: two writes set the
    // VRAM pointer, and a data write lands in palette RAM.
    console.bus_write(0x3456, 0x3F);
    console.bus_write(0x3456, 0x10);
    console.bus_write(0x2007, 0x2A);
    console.bus_write(0x2006, 0x3F);
    console.bus_write(0x2006, 0x00);
    assert_eq!(console.bus_read(0x2007), 0x2A); // the alias slot reads it back
}

#[test]
fn test_bus_routes_apu_and_controllers() {
    let mut console = Orchestrator::new(cartridge_with(&[0xEA], 0x8000)).unwrap();

    // Channel enable through the bus, visible in the status read.
    console.bus_write(0x4015, 0x01);
    console.bus_write(0x4003, 0x00); // load pulse 1's length counter
    assert_eq!(console.bus_read(0x4015) & 0x01, 0x01);

    // Controller strobing through 0x4016 reaches both pads.
    console.input.controller1.set_button(Button::A, true);
    console.bus_write(0x4016, 1);
    console.bus_write(0x4016, 0);
    assert_eq!(console.bus_read(0x4016), 1); // A held on pad 1
    assert_eq!(console.bus_read(0x4017), 0); // A not held on pad 2

    // The write-only block and the unmapped gap read as zero.
    assert_eq!(console.bus_read(0x4000), 0);
    assert_eq!(console.bus_read(0x5000), 0);
}

#[test]
fn test_bus_reads_prg_rom_through_mapper() {
    let mut rom = cartridge_with(&[0xEA], 0x8000);
    rom.prg_rom[0x123] = 0xAB;
    let mut console = Orchestrator::new(rom).unwrap();
    assert_eq!(console.bus_read(0x8123), 0xAB);
    // RAM round trip through the bus.
    console.bus_write(0x0300, 0x5C);
    assert_eq!(console.bus_read(0x0300), 0x5C);
}

#[test]
fn test_oam_dma_copies_a_page() {
    // Writing 0x4014 copies 256 bytes from the named page into OAM
    // starting at the OAM address register, and stalls the CPU 513 or
    // 514 cycles by its parity.
    let mut console = Orchestrator::new(cartridge_with(&[0xEA], 0x8000)).unwrap();
    for i in 0..256u16 {
        console.bus_write(0x0200 + i, (i as u8).wrapping_mul(3));
    }
    console.bus_write(0x2003, 0x10); // OAM address register
    let cycles_before = console.cpu.cycles;
    console.bus_write(0x4014, 0x02);
    for i in 0..256u16 {
        let slot = 0x10u8.wrapping_add(i as u8);
        assert_eq!(console.ppu.oam[slot as usize], (i as u8).wrapping_mul(3));
    }
    let stall = if cycles_before % 2 == 1 { 514 } else { 513 };
    assert_eq!(console.cpu.cycles, cycles_before + stall);
}

#[test]
fn test_brk_counts_and_charges_cycles() {
    // A software interrupt is a real instruction: it counts itself and
    // charges its seven base cycles while stopping the run.
    let mut cpu = Cpu::new();
    cpu.load_program(vec![0x00, 0x00], 0x8000).unwrap();
    cpu.pc = 0x8000;
    let cycles_before = cpu.get_cycles();
    let count_before = cpu.get_instruction_count();
    assert_eq!(cpu.step(), Ok(false));
    assert_eq!(cpu.get_cycles(), cycles_before + 7);
    assert_eq!(cpu.get_instruction_count(), count_before + 1);
}

#[test]
fn test_trace_line_format() {
    let mut cpu = Cpu::new();
    cpu.load_program(vec![0xA9, 0x42, 0x00], 0x8000).unwrap();
    cpu.pc = 0x8000;
    assert_eq!(
        cpu.trace_line(),
        "8000  A9 42  LDA A:00 X:00 Y:00 P:24 SP:FD CYC:0"
    );
    assert_eq!(
        cpu.disassemble_current_instruction(),
        "$8000: A9 42  LDA"
    );
}
