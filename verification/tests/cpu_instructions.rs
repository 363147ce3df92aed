use madnes::cpu::Cpu;
use madnes::flags::StatusFlag;
use madnes::memory::Memory;

const PROGRAM_ADDRESS: u16 = 0x8000;

#[test]
fn test_bvc_branch_taken() {
    let mut cpu = Cpu::new();
    // BVC $02 - should branch 2 bytes forward if overflow is clear
    cpu.load_program(vec![0x50, 0x02, 0xEA, 0xEA, 0x00], PROGRAM_ADDRESS)
        .unwrap();
    cpu.set_flag(StatusFlag::Overflow, false); // Clear overflow flag (though it should already be clear)
    cpu.pc = 0x8000;
    let _ = cpu.step(); // Execute BVC
                        // PC should be at 0x8000 + 2 (instruction length) + 2 (branch offset) = 0x8004
    assert_eq!(cpu.pc, 0x8004);
}

#[test]
fn test_bvc_branch_not_taken() {
    let mut cpu = Cpu::new();
    // BVC $02 - should not branch if overflow is set
    cpu.load_program(vec![0x50, 0x02, 0xEA, 0xEA, 0x00], PROGRAM_ADDRESS)
        .unwrap();
    cpu.set_flag(StatusFlag::Overflow, true); // Set overflow flag AFTER load_program
    cpu.pc = 0x8000;
    let _ = cpu.step(); // Execute BVC
                        // PC should be at 0x8000 + 2 (instruction length) = 0x8002
    assert_eq!(cpu.pc, 0x8002);
}

#[test]
fn test_bvs_branch_taken() {
    let mut cpu = Cpu::new();
    // BVS $02 - should branch 2 bytes forward if overflow is set
    cpu.load_program(vec![0x70, 0x02, 0xEA, 0xEA, 0x00], PROGRAM_ADDRESS)
        .unwrap();
    cpu.set_flag(StatusFlag::Overflow, true); // Set overflow flag
    cpu.pc = 0x8000;
    let _ = cpu.step(); // Execute BVS
                        // PC should be at 0x8000 + 2 (instruction length) + 2 (branch offset) = 0x8004
    assert_eq!(cpu.pc, 0x8004);
}

#[test]
fn test_bvs_branch_not_taken() {
    let mut cpu = Cpu::new();
    // BVS $02 - should not branch if overflow is clear
    cpu.load_program(vec![0x70, 0x02, 0xEA, 0xEA, 0x00], PROGRAM_ADDRESS)
        .unwrap();
    cpu.set_flag(StatusFlag::Overflow, false); // Clear overflow flag (though it should already be clear)
    cpu.pc = 0x8000;
    let _ = cpu.step(); // Execute BVS
                        // PC should be at 0x8000 + 2 (instruction length) = 0x8002
    assert_eq!(cpu.pc, 0x8002);
}

#[test]
fn test_inc_zeropage() {
    let mut cpu = Cpu::new();
    cpu.write_byte(0x10, 0x42); // value at $10
                                // INC $10 - increment value at zero page address $10
    cpu.load_program(vec![0xE6, 0x10, 0x00], PROGRAM_ADDRESS).unwrap();
    cpu.pc = 0x8000;
    let _ = cpu.step(); // Execute INC $10
    assert_eq!(cpu.read_byte(0x10), 0x43);
    assert!(!cpu.get_flag(StatusFlag::Zero));
    assert!(!cpu.get_flag(StatusFlag::Negative));
}

#[test]
fn test_inc_zeropage_x() {
    let mut cpu = Cpu::new();
    cpu.write_byte(0x15, 0x7E); // value at $10 + X = $15
                                // INC $10,X - increment value at zero page address $10 + X
    cpu.load_program(vec![0xF6, 0x10, 0x00], PROGRAM_ADDRESS).unwrap();
    cpu.x = 0x05; // Set X AFTER load_program since it calls reset()
    cpu.pc = 0x8000;
    let _ = cpu.step(); // Execute INC $10,X
    assert_eq!(cpu.read_byte(0x15), 0x7F);
    assert!(!cpu.get_flag(StatusFlag::Zero));
    assert!(!cpu.get_flag(StatusFlag::Negative));
}

#[test]
fn test_inc_absolute() {
    let mut cpu = Cpu::new();
    cpu.write_byte(0x3000, 0x80); // value at $3000
                                  // INC $3000 - increment value at absolute address $3000
    cpu.load_program(vec![0xEE, 0x00, 0x30, 0x00], PROGRAM_ADDRESS)
        .unwrap();
    cpu.pc = 0x8000;
    let _ = cpu.step(); // Execute INC $3000
    assert_eq!(cpu.read_byte(0x3000), 0x81);
    assert!(!cpu.get_flag(StatusFlag::Zero));
    assert!(cpu.get_flag(StatusFlag::Negative)); // 0x81 has bit 7 set
}

#[test]
fn test_inc_absolute_x() {
    let mut cpu = Cpu::new();
    cpu.write_byte(0x3010, 0xFE); // value at $3000 + X = $3010
                                  // INC $3000,X - increment value at absolute address $3000 + X
    cpu.load_program(vec![0xFE, 0x00, 0x30, 0x00], PROGRAM_ADDRESS)
        .unwrap();
    cpu.x = 0x10; // Set X AFTER load_program since it calls reset()
    cpu.pc = 0x8000;
    let _ = cpu.step(); // Execute INC $3000,X
    assert_eq!(cpu.read_byte(0x3010), 0xFF);
    assert!(!cpu.get_flag(StatusFlag::Zero));
    assert!(cpu.get_flag(StatusFlag::Negative)); // 0xFF has bit 7 set
}

#[test]
fn test_inc_wraparound_to_zero() {
    let mut cpu = Cpu::new();
    cpu.write_byte(0x10, 0xFF); // value at $10
                                // INC $10 - increment value at zero page address $10
    cpu.load_program(vec![0xE6, 0x10, 0x00], PROGRAM_ADDRESS).unwrap();
    cpu.pc = 0x8000;
    let _ = cpu.step(); // Execute INC $10
    assert_eq!(cpu.read_byte(0x10), 0x00); // Should wrap around to 0
    assert!(cpu.get_flag(StatusFlag::Zero)); // Zero flag should be set
    assert!(!cpu.get_flag(StatusFlag::Negative)); // Negative flag should be clear
}

#[test]
fn test_inc_negative_flag() {
    let mut cpu = Cpu::new();
    cpu.write_byte(0x10, 0x7F); // value at $10
                                // INC $10 - increment value at zero page address $10
    cpu.load_program(vec![0xE6, 0x10, 0x00], PROGRAM_ADDRESS).unwrap();
    cpu.pc = 0x8000;
    let _ = cpu.step(); // Execute INC $10
    assert_eq!(cpu.read_byte(0x10), 0x80); // Should become 0x80
    assert!(!cpu.get_flag(StatusFlag::Zero)); // Zero flag should be clear
    assert!(cpu.get_flag(StatusFlag::Negative)); // Negative flag should be set (bit 7 is 1)
}

#[test]
fn test_inc_debug() {
    let mut cpu = Cpu::new();
    cpu.write_byte(0x10, 0x42); // value at $10
    println!("Before INC: memory[0x10] = {}", cpu.read_byte(0x10));

    // INC $10 - increment value at zero page address $10
    cpu.load_program(vec![0xE6, 0x10, 0x00], PROGRAM_ADDRESS).unwrap();
    cpu.pc = 0x8000;

    let opcode = cpu.read_byte(cpu.pc);
    println!("Opcode: 0x{:02X}", opcode);

    let _ = cpu.step(); // Execute INC $10

    println!("After INC: memory[0x10] = {}", cpu.read_byte(0x10));
    assert_eq!(cpu.read_byte(0x10), 0x43);
}

#[test]
fn test_inc_zeropage_x_debug() {
    let mut cpu = Cpu::new();
    cpu.write_byte(0x15, 0x7E); // value at $10 + X = $15

    // INC $10,X - increment value at zero page address $10 + X
    cpu.load_program(vec![0xF6, 0x10, 0x00], PROGRAM_ADDRESS).unwrap();
    cpu.x = 0x05; // Set X AFTER load_program since it calls reset()

    println!(
        "Before INC: X = {}, memory[0x15] = {}",
        cpu.x,
        cpu.read_byte(0x15)
    );
    cpu.pc = 0x8000;

    let opcode = cpu.read_byte(cpu.pc);
    let operand = cpu.read_byte(cpu.pc + 1);
    println!("Opcode: 0x{:02X}, Operand: 0x{:02X}", opcode, operand);
    println!(
        "Calculated address should be: 0x{:02X} + 0x{:02X} = 0x{:02X}",
        operand,
        cpu.x,
        operand.wrapping_add(cpu.x)
    );

    let _ = cpu.step(); // Execute INC $10,X

    println!("After INC: memory[0x15] = {}", cpu.read_byte(0x15));
    println!("After INC: memory[0x10] = {}", cpu.read_byte(0x10));
    assert_eq!(cpu.read_byte(0x15), 0x7F);
}

#[test]
fn test_inc_integration() {
    let mut cpu = Cpu::new();
    // Test a simple program that uses INC to count up
    // Initialize counter at address 0x20 with value 0x05
    cpu.write_byte(0x20, 0x05);

    // Program:
    // INC $20    ; increment counter at 0x20
    // INC $20    ; increment counter at 0x20 again
    // LDA $20    ; load counter into accumulator
    // BRK        ; break
    cpu.load_program(vec![0xE6, 0x20, 0xE6, 0x20, 0xA5, 0x20, 0x00], PROGRAM_ADDRESS)
        .unwrap();
    cpu.pc = 0x8000;

    // Execute the program
    cpu.run(false);

    // Verify the counter was incremented twice (0x05 -> 0x07)
    assert_eq!(cpu.read_byte(0x20), 0x07);
    assert_eq!(cpu.a, 0x07); // Should also be loaded into accumulator
    assert!(!cpu.get_flag(StatusFlag::Zero));
    assert!(!cpu.get_flag(StatusFlag::Negative));
}

#[test]
fn test_eor_immediate() {
    let mut cpu = Cpu::new();
    // EOR #$FF - should flip all bits
    cpu.load_program(vec![0x49, 0xFF, 0x00], PROGRAM_ADDRESS).unwrap();
    cpu.a = 0b10101010; // Set A to known pattern AFTER load_program
    cpu.pc = 0x8000;
    let _ = cpu.step(); // Execute EOR #$FF
    assert_eq!(cpu.a, 0b01010101); // All bits should be flipped
    assert!(!cpu.get_flag(StatusFlag::Zero));
    assert!(!cpu.get_flag(StatusFlag::Negative));
}

#[test]
fn test_eor_zero_flag() {
    let mut cpu = Cpu::new();
    // EOR #$42 - should result in zero
    cpu.load_program(vec![0x49, 0x42, 0x00], PROGRAM_ADDRESS).unwrap();
    cpu.a = 0x42; // Set A AFTER load_program
    cpu.pc = 0x8000;
    let _ = cpu.step(); // Execute EOR #$42
    assert_eq!(cpu.a, 0x00);
    assert!(cpu.get_flag(StatusFlag::Zero));
    assert!(!cpu.get_flag(StatusFlag::Negative));
}

#[test]
fn test_asl_accumulator() {
    let mut cpu = Cpu::new();
    // ASL A - shift left accumulator
    cpu.load_program(vec![0x0A, 0x00], PROGRAM_ADDRESS).unwrap();
    cpu.a = 0b01000001; // Set A to known pattern AFTER load_program
    cpu.pc = 0x8000;
    let _ = cpu.step(); // Execute ASL A
    assert_eq!(cpu.a, 0b10000010); // Should be shifted left
    assert!(!cpu.get_flag(StatusFlag::Carry)); // Bit 7 was 0, so no carry
    assert!(!cpu.get_flag(StatusFlag::Zero));
    assert!(cpu.get_flag(StatusFlag::Negative)); // Bit 7 is now 1
}

#[test]
fn test_asl_carry_flag() {
    let mut cpu = Cpu::new();
    // ASL A - shift left accumulator
    cpu.load_program(vec![0x0A, 0x00], PROGRAM_ADDRESS).unwrap();
    cpu.a = 0b10000000; // Set A with bit 7 set AFTER load_program
    cpu.pc = 0x8000;
    let _ = cpu.step(); // Execute ASL A
    assert_eq!(cpu.a, 0b00000000); // Should be shifted left, result is 0
    assert!(cpu.get_flag(StatusFlag::Carry)); // Bit 7 was 1, so carry set
    assert!(cpu.get_flag(StatusFlag::Zero)); // Result is zero
    assert!(!cpu.get_flag(StatusFlag::Negative)); // Bit 7 is now 0
}

#[test]
fn test_asl_memory() {
    let mut cpu = Cpu::new();
    cpu.write_byte(0x10, 0b00110011); // Set memory value
                                      // ASL $10 - shift left memory at zero page
    cpu.load_program(vec![0x06, 0x10, 0x00], PROGRAM_ADDRESS).unwrap();
    cpu.pc = 0x8000;
    let _ = cpu.step(); // Execute ASL $10
    assert_eq!(cpu.read_byte(0x10), 0b01100110); // Should be shifted left
    assert!(!cpu.get_flag(StatusFlag::Carry)); // Bit 7 was 0, so no carry
    assert!(!cpu.get_flag(StatusFlag::Zero));
    assert!(!cpu.get_flag(StatusFlag::Negative)); // Bit 7 is still 0
}

#[test]
fn test_eor_asl_integration() {
    let mut cpu = Cpu::new();
    // Test a program that uses EOR and ASL together
    // Initialize A with a pattern
    // EOR #$55   ; flip some bits
    // ASL A      ; shift left
    // EOR #$AA   ; flip different bits
    cpu.load_program(vec![0x49, 0x55, 0x0A, 0x49, 0xAA, 0x00], PROGRAM_ADDRESS)
        .unwrap();
    cpu.a = 0b11110000; // Set initial pattern AFTER load_program
    cpu.pc = 0x8000;

    // Execute EOR #$55
    let _ = cpu.step();
    assert_eq!(cpu.a, 0b10100101); // 0b11110000 ^ 0b01010101 = 0b10100101

    // Execute ASL A
    let _ = cpu.step();
    assert_eq!(cpu.a, 0b01001010); // 0b10100101 << 1 = 0b01001010
    assert!(cpu.get_flag(StatusFlag::Carry)); // Bit 7 was 1

    // Execute EOR #$AA
    let _ = cpu.step();
    assert_eq!(cpu.a, 0b11100000); // 0b01001010 ^ 0b10101010 = 0b11100000
    assert!(!cpu.get_flag(StatusFlag::Zero));
    assert!(cpu.get_flag(StatusFlag::Negative)); // Bit 7 is 1
}
