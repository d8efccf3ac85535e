use chip8_vm::instructions::{
    first_nibble, nibbles_to_addr, nibbles_to_cell, second_nibble, DecodeError, Instruction,
    Opcode,
};

#[test]
fn test_first_nibble() {
    assert_eq!(first_nibble(0xAB), 0xA);
}

#[test]
fn test_second_nibble() {
    assert_eq!(second_nibble(0xAB), 0xB);
}

#[test]
fn test_nibbles_to_addr() {
    assert_eq!(nibbles_to_addr(0xA, 0xB, 0xC), 0xABC);
}

#[test]
fn test_nibbles_to_cell() {
    assert_eq!(nibbles_to_cell(0xA, 0xB), 0xAB);
}

#[test]
fn test_new_opcode() {
    let (msb, lsb) = (5, 10);
    let new_opcode = Opcode::new(msb, lsb);
    assert_eq!(new_opcode.msb, msb);
    assert_eq!(new_opcode.lsb, lsb);
}

#[test]
fn decodes_nop() {
    assert_eq!(Opcode::new(0x00, 0x00).decode(), Ok(Instruction::NOP));
}

#[test]
fn decodes_cls() {
    assert_eq!(Opcode::new(0x00, 0xE0).decode(), Ok(Instruction::CLS));
}

#[test]
fn decodes_jump_address() {
    assert_eq!(Opcode::new(0x1A, 0xBC).decode(), Ok(Instruction::JP(0xABC)));
    assert_eq!(Opcode::new(0x13, 0x00).decode(), Ok(Instruction::JP(0x300)));
}

#[test]
fn decodes_load_and_add() {
    assert_eq!(Opcode::new(0x63, 0x42).decode(), Ok(Instruction::LD(3, 0x42)));
    assert_eq!(Opcode::new(0x7F, 0xFF).decode(), Ok(Instruction::ADD(0xF, 0xFF)));
}

#[test]
fn decodes_load_index() {
    assert_eq!(Opcode::new(0xA2, 0x2A).decode(), Ok(Instruction::LDI(0x22A)));
}

#[test]
fn decodes_draw() {
    assert_eq!(Opcode::new(0xD0, 0x15).decode(), Ok(Instruction::DRW(0, 1, 5)));
}

#[test]
fn unknown_words_are_errors() {
    assert_eq!(Opcode::new(0x80, 0x14).decode(), Err(DecodeError::Unrecognised(0x8014)));
    assert_eq!(Opcode::new(0x00, 0xEE).decode(), Err(DecodeError::Unrecognised(0x00EE)));
    assert_eq!(Opcode::new(0xFF, 0xFF).decode(), Err(DecodeError::Unrecognised(0xFFFF)));
}

#[test]
fn every_word_decodes_to_a_variant_or_error() {
    for msb in 0..=255u8 {
        for lsb in 0..=255u8 {
            let n1 = msb >> 4;
            let known = (msb == 0 && (lsb == 0 || lsb == 0xE0))
                || matches!(n1, 0x1 | 0x6 | 0x7 | 0xA | 0xD);
            let r = Opcode::new(msb, lsb).decode();
            assert_eq!(r.is_ok(), known, "word {:02x}{:02x}", msb, lsb);
            assert_eq!(r, Opcode::new(msb, lsb).decode());
        }
    }
}
