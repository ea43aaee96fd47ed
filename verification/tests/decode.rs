use mos6502::addressing_mode::AddressingMode;
use mos6502::instruction::to_instruction;
use mos6502::opcode::Opcode;

#[test]
fn decode_lda_immediate() {
    let i = to_instruction(0xA9).unwrap();
    assert_eq!(i.opcode, Opcode::LDA);
    assert_eq!(i.addressing_mode, AddressingMode::Immediate);
    assert_eq!(i.cycles, 2);
}

#[test]
fn decode_brk_and_nop() {
    let brk = to_instruction(0x00).unwrap();
    assert_eq!(brk.opcode, Opcode::BRK);
    assert_eq!(brk.addressing_mode, AddressingMode::Implied);
    assert_eq!(brk.cycles, 7);
    let nop = to_instruction(0xEA).unwrap();
    assert_eq!(nop.opcode, Opcode::NOP);
    assert_eq!(nop.cycles, 2);
}

#[test]
fn decode_jmp_indirect() {
    let i = to_instruction(0x6C).unwrap();
    assert_eq!(i.opcode, Opcode::JMP);
    assert_eq!(i.addressing_mode, AddressingMode::Indirect);
    assert_eq!(i.cycles, 5);
}

#[test]
fn decode_store_class() {
    let sta = to_instruction(0x9D).unwrap();
    assert_eq!(sta.opcode, Opcode::STA);
    assert_eq!(sta.addressing_mode, AddressingMode::AbsoluteX);
    assert_eq!(sta.cycles, 5);
    let stx = to_instruction(0x96).unwrap();
    assert_eq!(stx.opcode, Opcode::STX);
    assert_eq!(stx.addressing_mode, AddressingMode::ZeroPageY);
}

#[test]
fn decode_unassigned_fails() {
    // 0x02 is a jam encoding with no assigned instruction.
    assert!(to_instruction(0x02).is_none());
    assert!(to_instruction(0x12).is_none());
    assert!(to_instruction(0xFB).is_some()); // ISC AbsoluteY, an unofficial no-op
}

#[test]
fn decode_assigned_cycle_bounds() {
    let mut assigned = 0u32;
    for code in 0..=255u8 {
        if let Some(i) = to_instruction(code) {
            assert!(i.cycles >= 2, "opcode {:#04x}", code);
            assert!(i.cycles <= 8, "opcode {:#04x}", code);
            assigned += 1;
        }
    }
    assert_eq!(assigned, 228);
}
