use madnes::instructions::{get_instruction, is_valid_opcode};

#[test]
fn test_instruction_lookup() {
    // Test valid opcodes
    assert!(is_valid_opcode(0xA9)); // LDA immediate
    assert!(is_valid_opcode(0xEA)); // NOP
    assert!(is_valid_opcode(0x00)); // BRK

    // Test invalid opcodes
    assert!(!is_valid_opcode(0x02)); // Invalid opcode
    assert!(!is_valid_opcode(0xFF)); // Invalid opcode

    // Test instruction retrieval
    let lda_imm = get_instruction(0xA9).unwrap();
    assert_eq!(lda_imm.mnemonic, "LDA");
    assert_eq!(lda_imm.opcode, 0xA9);
    assert_eq!(lda_imm.cycles, 2);
    assert_eq!(lda_imm.bytes, 2);

    let nop = get_instruction(0xEA).unwrap();
    assert_eq!(nop.mnemonic, "NOP");
    assert_eq!(nop.opcode, 0xEA);
    assert_eq!(nop.cycles, 2);
    assert_eq!(nop.bytes, 1);
}

#[test]
fn test_instruction_table_completeness() {
    // Count valid instructions
    let mut valid_count = 0;
    for opcode in 0..=255u16 {
        if is_valid_opcode(opcode as u8) {
            valid_count += 1;
        }
    }
    println!("Valid instructions: {}", valid_count);

    // Should have exactly the instructions we defined
    assert!(valid_count > 100); // We have about 135 instructions

    // Test a few key instructions from each category
    let key_opcodes = [
        0xA9, // LDA immediate
        0x85, // STA zero page
        0x4C, // JMP absolute
        0x20, // JSR
        0x60, // RTS
        0x00, // BRK
        0xEA, // NOP
        0x69, // ADC immediate
        0xE9, // SBC immediate
        0x29, // AND immediate
        0x09, // ORA immediate
        0x49, // EOR immediate
        0x0A, // ASL accumulator
        0x4A, // LSR accumulator
        0x2A, // ROL accumulator
        0x6A, // ROR accumulator
        0x18, // CLC
        0x38, // SEC
        0xC9, // CMP immediate
        0xE0, // CPX immediate
        0xC0, // CPY immediate
        0x90, // BCC
        0xF0, // BEQ
        0xD0, // BNE
        0x10, // BPL
        0xE8, // INX
        0xC8, // INY
        0xCA, // DEX
        0x88, // DEY
        0xAA, // TAX
        0xA8, // TAY
        0x8A, // TXA
        0x98, // TYA
        0x48, // PHA
        0x68, // PLA
    ];

    for &opcode in &key_opcodes {
        assert!(
            is_valid_opcode(opcode),
            "Opcode 0x{:02X} should be valid",
            opcode
        );
    }
}
