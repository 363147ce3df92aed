use madnes::bit_utils;
use madnes::channels::{PulseChannel, TriangleChannel};
use madnes::controller::{Button, Controller, InputManager};
use madnes::ines::InesHeader;
use madnes::mappers::Mapper000;
use madnes::palette::Palette;
use madnes::ppu::Ppu;
use madnes::rom::MirrorMode;
use madnes::timing::CycleCounter;

#[test]
fn test_bit_utils_basics() {
    assert!(bit_utils::get_bit(0b0000_0100, 2));
    assert!(!bit_utils::get_bit(0b0000_0100, 3));
    assert_eq!(bit_utils::set_bit(0, 7), 0x80);
    assert_eq!(bit_utils::clear_bit(0xFF, 0), 0xFE);
    assert_eq!(bit_utils::toggle_bit(0b1010, 1), 0b1000);
    assert_eq!(bit_utils::get_bits(0b1101_0110, 4, 3), 0b101);
    assert_eq!(bit_utils::set_bits(0b1111_1111, 2, 3, 0b000), 0b1110_0011);
    assert_eq!(bit_utils::make_word(0x34, 0x12), 0x1234);
    assert_eq!(bit_utils::low_byte(0x1234), 0x34);
    assert_eq!(bit_utils::high_byte(0x1234), 0x12);
    assert!(bit_utils::would_overflow_add(0xFF, 1));
    assert!(!bit_utils::would_overflow_add(0xFE, 1));
    assert!(bit_utils::would_underflow_sub(1, 2));
    assert!(bit_utils::page_crossed(0x80FF, 0x8100));
    assert!(!bit_utils::page_crossed(0x8001, 0x80FF));
    assert_eq!(bit_utils::wrap_page(0x10FF), 0x1000);
    assert_eq!(bit_utils::mirror_address(0x1A00, 0x07FF), 0x0200);
    assert_eq!(bit_utils::calculate_bank_address(0x9000, 0x8000, 3, 0x4000), 0x1000 + 3 * 0x4000);
    assert_eq!(bit_utils::mirror_rom_16k(0xC005, 0x4000), 5);
    assert_eq!(bit_utils::mirror_rom_16k(0xC005, 0x8000), 0x4005);
}

#[test]
fn test_controller_serial_read_order() {
    // Latched buttons come out in the order A, B, Select, Start, Up,
    // Down, Left, Right, then ones.
    let mut pad = Controller::new();
    pad.set_button(Button::A, true);
    pad.set_button(Button::Start, true);
    pad.set_button(Button::Right, true);

    pad.write(1).unwrap(); // strobe high: latch follows buttons
    pad.write(0).unwrap(); // strobe low: freeze, rewind

    let expected = [1u8, 0, 0, 1, 0, 0, 0, 1];
    for &bit in expected.iter() {
        assert_eq!(pad.read().unwrap(), bit);
    }
    // Past the eighth bit the pad reports lines held high.
    assert_eq!(pad.read().unwrap(), 1);
    assert_eq!(pad.read().unwrap(), 1);
}

#[test]
fn test_controller_strobe_repeats_first_bit() {
    let mut pad = Controller::new();
    pad.set_button(Button::A, true);
    pad.write(1).unwrap();
    assert_eq!(pad.read().unwrap(), 1);
    assert_eq!(pad.read().unwrap(), 1);
    assert_eq!(pad.read().unwrap(), 1);
}

#[test]
fn test_input_manager_routes_ports() {
    let mut input = InputManager::new();
    input.controller2.set_button(Button::B, true);
    input.write_controller(0, 1).unwrap();
    input.write_controller(0, 0).unwrap();
    input.write_controller(1, 1).unwrap();
    input.write_controller(1, 0).unwrap();
    assert_eq!(input.read_controller(0).unwrap(), 0); // A not held on pad 1
    assert_eq!(input.read_controller(1).unwrap(), 0); // A not held on pad 2
    assert_eq!(input.read_controller(1).unwrap(), 1); // B held on pad 2
    assert!(input.read_controller(2).is_err());
}

#[test]
fn test_cycle_counter_lockstep() {
    let mut counter = CycleCounter::new();
    counter.step_cpu(7);
    counter.step_ppu(21);
    counter.step_apu(7);
    assert_eq!(counter.get_cpu_cycles(), 7);
    assert_eq!(counter.get_ppu_cycles(), 21);
    assert_eq!(counter.get_apu_cycles(), 7);
    assert_eq!(counter.get_master_cycles(), 7);
    assert_eq!(counter.cpu_to_ppu_cycles(100), 300);
    assert!(!counter.frame_complete());
    counter.step_cpu(29_829);
    assert!(counter.frame_complete());
    counter.reset();
    assert_eq!(counter.get_cpu_cycles(), 0);
}

#[test]
fn test_palette_alias_slots() {
    let mut palette = Palette::new();
    palette.write(0x10, 0x2A);
    assert_eq!(palette.read(0x00), 0x2A);
    assert_eq!(palette.read(0x10), 0x2A);
    palette.write(0x04, 0x17);
    assert_eq!(palette.read(0x14), 0x17);
    // Unaliased slots stay independent.
    palette.write(0x01, 0x09);
    assert_eq!(palette.read(0x01), 0x09);
    assert_eq!(palette.read(0x11), 0x00);
}

#[test]
fn test_palette_rgb_lookup() {
    let mut palette = Palette::new();
    palette.write(0x00, 0x21);
    let (r, g, b) = palette.get_rgb(0, 0);
    assert_eq!((r, g, b), (76, 154, 236));
}

#[test]
fn test_mapper000_mirroring() {
    let mut nrom = Mapper000::new(1, 1);
    assert_eq!(nrom.map_prg_read(0x8005), Ok(Some(5)));
    assert_eq!(nrom.map_prg_read(0xC005), Ok(Some(5)));
    assert_eq!(nrom.map_prg_read(0x4000), Ok(None));
    assert_eq!(nrom.map_prg_write(0x8000, 0xFF), Ok(None));
    assert_eq!(nrom.map_chr_read(0x1ABC), Ok(Some(0x1ABC)));
    assert_eq!(nrom.map_chr_write(0x0005, 1), Ok(None)); // CHR ROM present
    let mut nrom_ram = Mapper000::new(2, 0);
    assert_eq!(nrom_ram.map_prg_read(0xC005), Ok(Some(0x4005)));
    assert_eq!(nrom_ram.map_chr_write(0x0005, 1), Ok(Some(5)));
    nrom.set_mirror_mode(MirrorMode::Vertical);
    assert_eq!(nrom.get_mirror_mode(), MirrorMode::Vertical);
    assert!(!nrom.irq_state());
}

#[test]
fn test_ines_header_getters() {
    let data: Vec<u8> = vec![
        0x4E, 0x45, 0x53, 0x1A, 2, 1, 0b0000_0111, 0b0000_1010, 0, 0, 0, 0, 0, 0, 0, 0,
    ];
    let header = InesHeader::parse(&data).unwrap();
    assert_eq!(header.get_prg_rom_size_bytes(), 2 * 16 * 1024);
    assert_eq!(header.get_chr_rom_size_bytes(), 8 * 1024);
    assert_eq!(header.get_prg_ram_size_bytes(), 8 * 1024);
    assert_eq!(header.get_trainer_size(), 512);
    assert!(header.has_battery());
    assert!(header.has_trainer());
    assert_eq!(header.get_mirror_mode(), MirrorMode::Vertical);
    assert!(!header.is_vs_unisystem());
    assert!(header.is_playchoice_10());
    assert!(header.is_nes2());
    assert_eq!(header.get_mapper_number(), 0x00);
}

#[test]
fn test_pulse_envelope_and_length() {
    let mut pulse = PulseChannel::new(0);
    pulse.envelope_start = true;
    pulse.envelope_volume = 3;
    pulse.step_envelope();
    assert_eq!(pulse.envelope_counter, 15);
    assert_eq!(pulse.envelope_divider, 3);

    pulse.length_counter = 2;
    pulse.step_length_counter();
    assert_eq!(pulse.length_counter, 1);
    pulse.envelope_loop = true; // halt
    pulse.step_length_counter();
    assert_eq!(pulse.length_counter, 1);
}

#[test]
fn test_triangle_mutes_without_linear_counter() {
    let mut triangle = TriangleChannel::new();
    triangle.enabled = true;
    triangle.length_counter = 5;
    triangle.linear_counter = 0;
    assert_eq!(triangle.sample_level(), 0);
    triangle.linear_counter = 3;
    assert_eq!(triangle.sample_level(), 15); // sequencer step 0 outputs 15
}

#[test]
fn test_oam_data_register() {
    let mut ppu = Ppu::new();
    ppu.write_register(0x2003, 0x10).unwrap();
    ppu.write_register(0x2004, 0xAB).unwrap();
    assert_eq!(ppu.oam_addr, 0x11);
    ppu.write_register(0x2003, 0x10).unwrap();
    assert_eq!(ppu.read_register(0x2004).unwrap(), 0xAB);
}

#[test]
fn test_scroll_register_protocol() {
    // Two writes to 0x2005 set coarse and fine scroll through t and x;
    // two writes to 0x2006 install the VRAM address.
    let mut ppu = Ppu::new();
    ppu.write_register(0x2005, 0x7D).unwrap(); // coarse X = 15, fine X = 5
    assert_eq!(ppu.x, 5);
    assert_eq!(ppu.t & 0x1F, 15);
    assert!(ppu.w);
    ppu.write_register(0x2005, 0x5E).unwrap(); // coarse Y = 11, fine Y = 6
    assert!(!ppu.w);
    assert_eq!((ppu.t >> 5) & 0x1F, 11);
    assert_eq!((ppu.t >> 12) & 0x7, 6);

    ppu.write_register(0x2006, 0x21).unwrap();
    ppu.write_register(0x2006, 0x08).unwrap();
    assert_eq!(ppu.v, 0x2108);
}

#[test]
fn test_ppudata_buffered_and_palette_bypass() {
    let mut ppu = Ppu::new();
    // Store 0x99 at VRAM 0x2000 through the register window.
    ppu.write_register(0x2006, 0x20).unwrap();
    ppu.write_register(0x2006, 0x00).unwrap();
    ppu.write_register(0x2007, 0x99).unwrap();
    // Point back and read: the first read returns the stale buffer, the
    // second the stored byte.
    ppu.write_register(0x2006, 0x20).unwrap();
    ppu.write_register(0x2006, 0x00).unwrap();
    assert_eq!(ppu.read_register(0x2007).unwrap(), 0x00);
    assert_eq!(ppu.read_register(0x2007).unwrap(), 0x99);
}
