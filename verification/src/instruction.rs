use crate::addressing_mode::AddressingMode;
use crate::opcode::Opcode;
use vstd::prelude::*;

verus! {

/// An immutable instruction descriptor: the operation, the addressing
/// mode and the base cycle count decoded from one opcode byte.
#[derive(Clone, Copy, PartialEq, Eq, Structural, Debug)]
pub struct Instruction {
    pub opcode: Opcode,
    pub addressing_mode: AddressingMode,
    pub cycles: u8,
}

/// The error surfaced when an opcode byte has no assigned instruction;
/// the emulation must not silently execute such a byte as a no-op.
#[derive(Clone, Copy, PartialEq, Eq, Structural, Debug)]
pub struct DecodeError {
    pub opcode: u8,
}

impl Instruction {
    pub fn build_instruction(opcode: Opcode, addressing_mode: AddressingMode, cycles: u8) -> (r:
        Instruction)
        ensures
            r == (Instruction { opcode, addressing_mode, cycles }),
    {
        Instruction { opcode, addressing_mode, cycles }
    }
}

/// The decode table as a pure function: the instruction assigned to an
/// opcode byte, or `None` for a genuinely unassigned encoding.
pub open spec fn spec_decode(code: u8) -> Option<Instruction> {
    match code {
        0x00 => Some(Instruction { opcode: Opcode::BRK, addressing_mode: AddressingMode::Implied, cycles: 7 }),
        0x01 => Some(Instruction { opcode: Opcode::ORA, addressing_mode: AddressingMode::IndirectX, cycles: 6 }),
        0x03 => Some(Instruction { opcode: Opcode::SLO, addressing_mode: AddressingMode::IndirectX, cycles: 8 }),
        0x04 => Some(Instruction { opcode: Opcode::IGN, addressing_mode: AddressingMode::ZeroPage, cycles: 3 }),
        0x05 => Some(Instruction { opcode: Opcode::ORA, addressing_mode: AddressingMode::ZeroPage, cycles: 3 }),
        0x06 => Some(Instruction { opcode: Opcode::ASL, addressing_mode: AddressingMode::ZeroPage, cycles: 5 }),
        0x07 => Some(Instruction { opcode: Opcode::SLO, addressing_mode: AddressingMode::ZeroPage, cycles: 5 }),
        0x08 => Some(Instruction { opcode: Opcode::PHP, addressing_mode: AddressingMode::Implied, cycles: 3 }),
        0x09 => Some(Instruction { opcode: Opcode::ORA, addressing_mode: AddressingMode::Immediate, cycles: 2 }),
        0x0a => Some(Instruction { opcode: Opcode::ASL, addressing_mode: AddressingMode::Accumulator, cycles: 2 }),
        0x0b => Some(Instruction { opcode: Opcode::ANC, addressing_mode: AddressingMode::Immediate, cycles: 2 }),
        0x0c => Some(Instruction { opcode: Opcode::IGN, addressing_mode: AddressingMode::Absolute, cycles: 4 }),
        0x0d => Some(Instruction { opcode: Opcode::ORA, addressing_mode: AddressingMode::Absolute, cycles: 4 }),
        0x0e => Some(Instruction { opcode: Opcode::ASL, addressing_mode: AddressingMode::Absolute, cycles: 6 }),
        0x0f => Some(Instruction { opcode: Opcode::SLO, addressing_mode: AddressingMode::Absolute, cycles: 6 }),
        0x10 => Some(Instruction { opcode: Opcode::BPL, addressing_mode: AddressingMode::Relative, cycles: 2 }),
        0x11 => Some(Instruction { opcode: Opcode::ORA, addressing_mode: AddressingMode::IndirectY, cycles: 5 }),
        0x13 => Some(Instruction { opcode: Opcode::SLO, addressing_mode: AddressingMode::IndirectY, cycles: 8 }),
        0x14 => Some(Instruction { opcode: Opcode::IGN, addressing_mode: AddressingMode::ZeroPageX, cycles: 4 }),
        0x15 => Some(Instruction { opcode: Opcode::ORA, addressing_mode: AddressingMode::ZeroPageX, cycles: 4 }),
        0x16 => Some(Instruction { opcode: Opcode::ASL, addressing_mode: AddressingMode::ZeroPageX, cycles: 6 }),
        0x17 => Some(Instruction { opcode: Opcode::SLO, addressing_mode: AddressingMode::ZeroPageX, cycles: 6 }),
        0x18 => Some(Instruction { opcode: Opcode::CLC, addressing_mode: AddressingMode::Implied, cycles: 2 }),
        0x19 => Some(Instruction { opcode: Opcode::ORA, addressing_mode: AddressingMode::AbsoluteY, cycles: 4 }),
        0x1b => Some(Instruction { opcode: Opcode::SLO, addressing_mode: AddressingMode::AbsoluteY, cycles: 7 }),
        0x1c => Some(Instruction { opcode: Opcode::IGN, addressing_mode: AddressingMode::AbsoluteX, cycles: 4 }),
        0x1d => Some(Instruction { opcode: Opcode::ORA, addressing_mode: AddressingMode::AbsoluteX, cycles: 4 }),
        0x1e => Some(Instruction { opcode: Opcode::ASL, addressing_mode: AddressingMode::AbsoluteX, cycles: 7 }),
        0x1f => Some(Instruction { opcode: Opcode::SLO, addressing_mode: AddressingMode::AbsoluteX, cycles: 7 }),
        0x20 => Some(Instruction { opcode: Opcode::JSR, addressing_mode: AddressingMode::Absolute, cycles: 6 }),
        0x21 => Some(Instruction { opcode: Opcode::AND, addressing_mode: AddressingMode::IndirectX, cycles: 6 }),
        0x23 => Some(Instruction { opcode: Opcode::RLA, addressing_mode: AddressingMode::IndirectX, cycles: 8 }),
        0x24 => Some(Instruction { opcode: Opcode::BIT, addressing_mode: AddressingMode::ZeroPage, cycles: 3 }),
        0x25 => Some(Instruction { opcode: Opcode::AND, addressing_mode: AddressingMode::ZeroPage, cycles: 3 }),
        0x26 => Some(Instruction { opcode: Opcode::ROL, addressing_mode: AddressingMode::ZeroPage, cycles: 5 }),
        0x27 => Some(Instruction { opcode: Opcode::RLA, addressing_mode: AddressingMode::ZeroPage, cycles: 5 }),
        0x28 => Some(Instruction { opcode: Opcode::PLP, addressing_mode: AddressingMode::Implied, cycles: 4 }),
        0x29 => Some(Instruction { opcode: Opcode::AND, addressing_mode: AddressingMode::Immediate, cycles: 2 }),
        0x2a => Some(Instruction { opcode: Opcode::ROL, addressing_mode: AddressingMode::Accumulator, cycles: 2 }),
        0x2c => Some(Instruction { opcode: Opcode::BIT, addressing_mode: AddressingMode::Absolute, cycles: 4 }),
        0x2d => Some(Instruction { opcode: Opcode::AND, addressing_mode: AddressingMode::Absolute, cycles: 4 }),
        0x2e => Some(Instruction { opcode: Opcode::ROL, addressing_mode: AddressingMode::Absolute, cycles: 6 }),
        0x2f => Some(Instruction { opcode: Opcode::RLA, addressing_mode: AddressingMode::Absolute, cycles: 6 }),
        0x30 => Some(Instruction { opcode: Opcode::BMI, addressing_mode: AddressingMode::Relative, cycles: 2 }),
        0x31 => Some(Instruction { opcode: Opcode::AND, addressing_mode: AddressingMode::IndirectY, cycles: 5 }),
        0x33 => Some(Instruction { opcode: Opcode::RLA, addressing_mode: AddressingMode::IndirectY, cycles: 8 }),
        0x34 => Some(Instruction { opcode: Opcode::IGN, addressing_mode: AddressingMode::ZeroPageX, cycles: 4 }),
        0x35 => Some(Instruction { opcode: Opcode::AND, addressing_mode: AddressingMode::ZeroPageX, cycles: 4 }),
        0x36 => Some(Instruction { opcode: Opcode::ROL, addressing_mode: AddressingMode::ZeroPageX, cycles: 6 }),
        0x37 => Some(Instruction { opcode: Opcode::RLA, addressing_mode: AddressingMode::ZeroPageX, cycles: 6 }),
        0x38 => Some(Instruction { opcode: Opcode::SEC, addressing_mode: AddressingMode::Implied, cycles: 2 }),
        0x39 => Some(Instruction { opcode: Opcode::AND, addressing_mode: AddressingMode::AbsoluteY, cycles: 4 }),
        0x3b => Some(Instruction { opcode: Opcode::RLA, addressing_mode: AddressingMode::AbsoluteY, cycles: 7 }),
        0x3c => Some(Instruction { opcode: Opcode::IGN, addressing_mode: AddressingMode::AbsoluteX, cycles: 4 }),
        0x3d => Some(Instruction { opcode: Opcode::AND, addressing_mode: AddressingMode::AbsoluteX, cycles: 4 }),
        0x3e => Some(Instruction { opcode: Opcode::ROL, addressing_mode: AddressingMode::AbsoluteX, cycles: 7 }),
        0x3f => Some(Instruction { opcode: Opcode::RLA, addressing_mode: AddressingMode::AbsoluteX, cycles: 7 }),
        0x40 => Some(Instruction { opcode: Opcode::RTI, addressing_mode: AddressingMode::Implied, cycles: 6 }),
        0x41 => Some(Instruction { opcode: Opcode::EOR, addressing_mode: AddressingMode::IndirectX, cycles: 6 }),
        0x43 => Some(Instruction { opcode: Opcode::SRE, addressing_mode: AddressingMode::IndirectX, cycles: 8 }),
        0x44 => Some(Instruction { opcode: Opcode::IGN, addressing_mode: AddressingMode::ZeroPage, cycles: 3 }),
        0x45 => Some(Instruction { opcode: Opcode::EOR, addressing_mode: AddressingMode::ZeroPage, cycles: 3 }),
        0x46 => Some(Instruction { opcode: Opcode::LSR, addressing_mode: AddressingMode::ZeroPage, cycles: 5 }),
        0x47 => Some(Instruction { opcode: Opcode::SRE, addressing_mode: AddressingMode::ZeroPage, cycles: 5 }),
        0x48 => Some(Instruction { opcode: Opcode::PHA, addressing_mode: AddressingMode::Implied, cycles: 3 }),
        0x49 => Some(Instruction { opcode: Opcode::EOR, addressing_mode: AddressingMode::Immediate, cycles: 2 }),
        0x4a => Some(Instruction { opcode: Opcode::LSR, addressing_mode: AddressingMode::Accumulator, cycles: 2 }),
        0x4b => Some(Instruction { opcode: Opcode::ALR, addressing_mode: AddressingMode::Immediate, cycles: 2 }),
        0x4c => Some(Instruction { opcode: Opcode::JMP, addressing_mode: AddressingMode::Absolute, cycles: 3 }),
        0x4d => Some(Instruction { opcode: Opcode::EOR, addressing_mode: AddressingMode::Absolute, cycles: 4 }),
        0x4e => Some(Instruction { opcode: Opcode::LSR, addressing_mode: AddressingMode::Absolute, cycles: 6 }),
        0x4f => Some(Instruction { opcode: Opcode::SRE, addressing_mode: AddressingMode::Absolute, cycles: 6 }),
        0x50 => Some(Instruction { opcode: Opcode::BVC, addressing_mode: AddressingMode::Relative, cycles: 2 }),
        0x51 => Some(Instruction { opcode: Opcode::EOR, addressing_mode: AddressingMode::IndirectY, cycles: 5 }),
        0x53 => Some(Instruction { opcode: Opcode::SRE, addressing_mode: AddressingMode::IndirectY, cycles: 8 }),
        0x54 => Some(Instruction { opcode: Opcode::IGN, addressing_mode: AddressingMode::ZeroPageX, cycles: 4 }),
        0x55 => Some(Instruction { opcode: Opcode::EOR, addressing_mode: AddressingMode::ZeroPageX, cycles: 4 }),
        0x56 => Some(Instruction { opcode: Opcode::LSR, addressing_mode: AddressingMode::ZeroPageX, cycles: 6 }),
        0x57 => Some(Instruction { opcode: Opcode::SRE, addressing_mode: AddressingMode::ZeroPageX, cycles: 6 }),
        0x58 => Some(Instruction { opcode: Opcode::CLI, addressing_mode: AddressingMode::Implied, cycles: 2 }),
        0x59 => Some(Instruction { opcode: Opcode::EOR, addressing_mode: AddressingMode::AbsoluteY, cycles: 4 }),
        0x5b => Some(Instruction { opcode: Opcode::SRE, addressing_mode: AddressingMode::AbsoluteY, cycles: 7 }),
        0x5c => Some(Instruction { opcode: Opcode::IGN, addressing_mode: AddressingMode::AbsoluteX, cycles: 4 }),
        0x5d => Some(Instruction { opcode: Opcode::EOR, addressing_mode: AddressingMode::AbsoluteX, cycles: 4 }),
        0x5e => Some(Instruction { opcode: Opcode::LSR, addressing_mode: AddressingMode::AbsoluteX, cycles: 7 }),
        0x5f => Some(Instruction { opcode: Opcode::SRE, addressing_mode: AddressingMode::AbsoluteX, cycles: 7 }),
        0x60 => Some(Instruction { opcode: Opcode::RTS, addressing_mode: AddressingMode::Implied, cycles: 6 }),
        0x61 => Some(Instruction { opcode: Opcode::ADC, addressing_mode: AddressingMode::IndirectX, cycles: 6 }),
        0x63 => Some(Instruction { opcode: Opcode::RRA, addressing_mode: AddressingMode::IndirectX, cycles: 8 }),
        0x64 => Some(Instruction { opcode: Opcode::IGN, addressing_mode: AddressingMode::ZeroPage, cycles: 3 }),
        0x65 => Some(Instruction { opcode: Opcode::ADC, addressing_mode: AddressingMode::ZeroPage, cycles: 3 }),
        0x66 => Some(Instruction { opcode: Opcode::ROR, addressing_mode: AddressingMode::ZeroPage, cycles: 5 }),
        0x67 => Some(Instruction { opcode: Opcode::RRA, addressing_mode: AddressingMode::ZeroPage, cycles: 5 }),
        0x68 => Some(Instruction { opcode: Opcode::PLA, addressing_mode: AddressingMode::Implied, cycles: 4 }),
        0x69 => Some(Instruction { opcode: Opcode::ADC, addressing_mode: AddressingMode::Immediate, cycles: 2 }),
        0x6a => Some(Instruction { opcode: Opcode::ROR, addressing_mode: AddressingMode::Accumulator, cycles: 2 }),
        0x6b => Some(Instruction { opcode: Opcode::ARR, addressing_mode: AddressingMode::Immediate, cycles: 2 }),
        0x6c => Some(Instruction { opcode: Opcode::JMP, addressing_mode: AddressingMode::Indirect, cycles: 5 }),
        0x6d => Some(Instruction { opcode: Opcode::ADC, addressing_mode: AddressingMode::Absolute, cycles: 4 }),
        0x6e => Some(Instruction { opcode: Opcode::ROR, addressing_mode: AddressingMode::Absolute, cycles: 6 }),
        0x6f => Some(Instruction { opcode: Opcode::RRA, addressing_mode: AddressingMode::Absolute, cycles: 6 }),
        0x70 => Some(Instruction { opcode: Opcode::BVS, addressing_mode: AddressingMode::Relative, cycles: 2 }),
        0x71 => Some(Instruction { opcode: Opcode::ADC, addressing_mode: AddressingMode::IndirectY, cycles: 5 }),
        0x73 => Some(Instruction { opcode: Opcode::RRA, addressing_mode: AddressingMode::IndirectY, cycles: 8 }),
        0x74 => Some(Instruction { opcode: Opcode::IGN, addressing_mode: AddressingMode::ZeroPageX, cycles: 4 }),
        0x75 => Some(Instruction { opcode: Opcode::ADC, addressing_mode: AddressingMode::ZeroPageX, cycles: 4 }),
        0x76 => Some(Instruction { opcode: Opcode::ROR, addressing_mode: AddressingMode::ZeroPageX, cycles: 6 }),
        0x77 => Some(Instruction { opcode: Opcode::RRA, addressing_mode: AddressingMode::ZeroPageX, cycles: 6 }),
        0x78 => Some(Instruction { opcode: Opcode::SEI, addressing_mode: AddressingMode::Implied, cycles: 2 }),
        0x79 => Some(Instruction { opcode: Opcode::ADC, addressing_mode: AddressingMode::AbsoluteY, cycles: 4 }),
        0x7b => Some(Instruction { opcode: Opcode::RRA, addressing_mode: AddressingMode::AbsoluteY, cycles: 7 }),
        0x7c => Some(Instruction { opcode: Opcode::IGN, addressing_mode: AddressingMode::AbsoluteX, cycles: 4 }),
        0x7d => Some(Instruction { opcode: Opcode::ADC, addressing_mode: AddressingMode::AbsoluteX, cycles: 4 }),
        0x7e => Some(Instruction { opcode: Opcode::ROR, addressing_mode: AddressingMode::AbsoluteX, cycles: 7 }),
        0x7f => Some(Instruction { opcode: Opcode::RRA, addressing_mode: AddressingMode::AbsoluteX, cycles: 7 }),
        0x80 => Some(Instruction { opcode: Opcode::SKB, addressing_mode: AddressingMode::Immediate, cycles: 2 }),
        0x81 => Some(Instruction { opcode: Opcode::STA, addressing_mode: AddressingMode::IndirectX, cycles: 6 }),
        0x82 => Some(Instruction { opcode: Opcode::SKB, addressing_mode: AddressingMode::Immediate, cycles: 2 }),
        0x83 => Some(Instruction { opcode: Opcode::SAX, addressing_mode: AddressingMode::IndirectX, cycles: 6 }),
        0x84 => Some(Instruction { opcode: Opcode::STY, addressing_mode: AddressingMode::ZeroPage, cycles: 3 }),
        0x85 => Some(Instruction { opcode: Opcode::STA, addressing_mode: AddressingMode::ZeroPage, cycles: 3 }),
        0x86 => Some(Instruction { opcode: Opcode::STX, addressing_mode: AddressingMode::ZeroPage, cycles: 3 }),
        0x87 => Some(Instruction { opcode: Opcode::SAX, addressing_mode: AddressingMode::ZeroPage, cycles: 3 }),
        0x88 => Some(Instruction { opcode: Opcode::DEY, addressing_mode: AddressingMode::Implied, cycles: 2 }),
        0x89 => Some(Instruction { opcode: Opcode::SKB, addressing_mode: AddressingMode::Immediate, cycles: 2 }),
        0x8a => Some(Instruction { opcode: Opcode::TXA, addressing_mode: AddressingMode::Implied, cycles: 2 }),
        0x8c => Some(Instruction { opcode: Opcode::STY, addressing_mode: AddressingMode::Absolute, cycles: 4 }),
        0x8d => Some(Instruction { opcode: Opcode::STA, addressing_mode: AddressingMode::Absolute, cycles: 4 }),
        0x8e => Some(Instruction { opcode: Opcode::STX, addressing_mode: AddressingMode::Absolute, cycles: 4 }),
        0x8f => Some(Instruction { opcode: Opcode::SAX, addressing_mode: AddressingMode::Absolute, cycles: 4 }),
        0x90 => Some(Instruction { opcode: Opcode::BCC, addressing_mode: AddressingMode::Relative, cycles: 2 }),
        0x91 => Some(Instruction { opcode: Opcode::STA, addressing_mode: AddressingMode::IndirectY, cycles: 6 }),
        0x94 => Some(Instruction { opcode: Opcode::STY, addressing_mode: AddressingMode::ZeroPageX, cycles: 4 }),
        0x95 => Some(Instruction { opcode: Opcode::STA, addressing_mode: AddressingMode::ZeroPageX, cycles: 4 }),
        0x96 => Some(Instruction { opcode: Opcode::STX, addressing_mode: AddressingMode::ZeroPageY, cycles: 4 }),
        0x97 => Some(Instruction { opcode: Opcode::SAX, addressing_mode: AddressingMode::ZeroPageY, cycles: 4 }),
        0x98 => Some(Instruction { opcode: Opcode::TYA, addressing_mode: AddressingMode::Implied, cycles: 2 }),
        0x99 => Some(Instruction { opcode: Opcode::STA, addressing_mode: AddressingMode::AbsoluteY, cycles: 5 }),
        0x9a => Some(Instruction { opcode: Opcode::TXS, addressing_mode: AddressingMode::Implied, cycles: 2 }),
        0x9d => Some(Instruction { opcode: Opcode::STA, addressing_mode: AddressingMode::AbsoluteX, cycles: 5 }),
        0xa0 => Some(Instruction { opcode: Opcode::LDY, addressing_mode: AddressingMode::Immediate, cycles: 2 }),
        0xa1 => Some(Instruction { opcode: Opcode::LDA, addressing_mode: AddressingMode::IndirectX, cycles: 6 }),
        0xa2 => Some(Instruction { opcode: Opcode::LDX, addressing_mode: AddressingMode::Immediate, cycles: 2 }),
        0xa3 => Some(Instruction { opcode: Opcode::LAX, addressing_mode: AddressingMode::IndirectX, cycles: 6 }),
        0xa4 => Some(Instruction { opcode: Opcode::LDY, addressing_mode: AddressingMode::ZeroPage, cycles: 3 }),
        0xa5 => Some(Instruction { opcode: Opcode::LDA, addressing_mode: AddressingMode::ZeroPage, cycles: 3 }),
        0xa6 => Some(Instruction { opcode: Opcode::LDX, addressing_mode: AddressingMode::ZeroPage, cycles: 3 }),
        0xa7 => Some(Instruction { opcode: Opcode::LAX, addressing_mode: AddressingMode::ZeroPage, cycles: 3 }),
        0xa8 => Some(Instruction { opcode: Opcode::TAY, addressing_mode: AddressingMode::Implied, cycles: 2 }),
        0xa9 => Some(Instruction { opcode: Opcode::LDA, addressing_mode: AddressingMode::Immediate, cycles: 2 }),
        0xaa => Some(Instruction { opcode: Opcode::TAX, addressing_mode: AddressingMode::Implied, cycles: 2 }),
        0xac => Some(Instruction { opcode: Opcode::LDY, addressing_mode: AddressingMode::Absolute, cycles: 4 }),
        0xad => Some(Instruction { opcode: Opcode::LDA, addressing_mode: AddressingMode::Absolute, cycles: 4 }),
        0xae => Some(Instruction { opcode: Opcode::LDX, addressing_mode: AddressingMode::Absolute, cycles: 4 }),
        0xaf => Some(Instruction { opcode: Opcode::LAX, addressing_mode: AddressingMode::Absolute, cycles: 4 }),
        0xb0 => Some(Instruction { opcode: Opcode::BCS, addressing_mode: AddressingMode::Relative, cycles: 2 }),
        0xb1 => Some(Instruction { opcode: Opcode::LDA, addressing_mode: AddressingMode::IndirectY, cycles: 5 }),
        0xb3 => Some(Instruction { opcode: Opcode::LAX, addressing_mode: AddressingMode::IndirectY, cycles: 5 }),
        0xb4 => Some(Instruction { opcode: Opcode::LDY, addressing_mode: AddressingMode::ZeroPageX, cycles: 4 }),
        0xb5 => Some(Instruction { opcode: Opcode::LDA, addressing_mode: AddressingMode::ZeroPageX, cycles: 4 }),
        0xb6 => Some(Instruction { opcode: Opcode::LDX, addressing_mode: AddressingMode::ZeroPageY, cycles: 4 }),
        0xb7 => Some(Instruction { opcode: Opcode::LAX, addressing_mode: AddressingMode::ZeroPageY, cycles: 4 }),
        0xb8 => Some(Instruction { opcode: Opcode::CLV, addressing_mode: AddressingMode::Implied, cycles: 2 }),
        0xb9 => Some(Instruction { opcode: Opcode::LDA, addressing_mode: AddressingMode::AbsoluteY, cycles: 4 }),
        0xba => Some(Instruction { opcode: Opcode::TSX, addressing_mode: AddressingMode::Implied, cycles: 2 }),
        0xbc => Some(Instruction { opcode: Opcode::LDY, addressing_mode: AddressingMode::AbsoluteX, cycles: 4 }),
        0xbd => Some(Instruction { opcode: Opcode::LDA, addressing_mode: AddressingMode::AbsoluteX, cycles: 4 }),
        0xbe => Some(Instruction { opcode: Opcode::LDX, addressing_mode: AddressingMode::AbsoluteY, cycles: 4 }),
        0xbf => Some(Instruction { opcode: Opcode::LAX, addressing_mode: AddressingMode::AbsoluteY, cycles: 4 }),
        0xc0 => Some(Instruction { opcode: Opcode::CPY, addressing_mode: AddressingMode::Immediate, cycles: 2 }),
        0xc1 => Some(Instruction { opcode: Opcode::CMP, addressing_mode: AddressingMode::IndirectX, cycles: 6 }),
        0xc2 => Some(Instruction { opcode: Opcode::SKB, addressing_mode: AddressingMode::Immediate, cycles: 2 }),
        0xc3 => Some(Instruction { opcode: Opcode::DCP, addressing_mode: AddressingMode::IndirectX, cycles: 8 }),
        0xc4 => Some(Instruction { opcode: Opcode::CPY, addressing_mode: AddressingMode::ZeroPage, cycles: 3 }),
        0xc5 => Some(Instruction { opcode: Opcode::CMP, addressing_mode: AddressingMode::ZeroPage, cycles: 3 }),
        0xc6 => Some(Instruction { opcode: Opcode::DEC, addressing_mode: AddressingMode::ZeroPage, cycles: 5 }),
        0xc7 => Some(Instruction { opcode: Opcode::DCP, addressing_mode: AddressingMode::ZeroPage, cycles: 5 }),
        0xc8 => Some(Instruction { opcode: Opcode::INY, addressing_mode: AddressingMode::Implied, cycles: 2 }),
        0xc9 => Some(Instruction { opcode: Opcode::CMP, addressing_mode: AddressingMode::Immediate, cycles: 2 }),
        0xca => Some(Instruction { opcode: Opcode::DEX, addressing_mode: AddressingMode::Implied, cycles: 2 }),
        0xcb => Some(Instruction { opcode: Opcode::AXS, addressing_mode: AddressingMode::Immediate, cycles: 2 }),
        0xcc => Some(Instruction { opcode: Opcode::CPY, addressing_mode: AddressingMode::Absolute, cycles: 4 }),
        0xcd => Some(Instruction { opcode: Opcode::CMP, addressing_mode: AddressingMode::Absolute, cycles: 4 }),
        0xce => Some(Instruction { opcode: Opcode::DEC, addressing_mode: AddressingMode::Absolute, cycles: 6 }),
        0xcf => Some(Instruction { opcode: Opcode::DCP, addressing_mode: AddressingMode::Absolute, cycles: 6 }),
        0xd0 => Some(Instruction { opcode: Opcode::BNE, addressing_mode: AddressingMode::Relative, cycles: 2 }),
        0xd1 => Some(Instruction { opcode: Opcode::CMP, addressing_mode: AddressingMode::IndirectY, cycles: 5 }),
        0xd3 => Some(Instruction { opcode: Opcode::DCP, addressing_mode: AddressingMode::IndirectY, cycles: 8 }),
        0xd4 => Some(Instruction { opcode: Opcode::IGN, addressing_mode: AddressingMode::ZeroPageX, cycles: 4 }),
        0xd5 => Some(Instruction { opcode: Opcode::CMP, addressing_mode: AddressingMode::ZeroPageX, cycles: 4 }),
        0xd6 => Some(Instruction { opcode: Opcode::DEC, addressing_mode: AddressingMode::ZeroPageX, cycles: 6 }),
        0xd7 => Some(Instruction { opcode: Opcode::DCP, addressing_mode: AddressingMode::ZeroPageX, cycles: 6 }),
        0xd8 => Some(Instruction { opcode: Opcode::CLD, addressing_mode: AddressingMode::Implied, cycles: 2 }),
        0xd9 => Some(Instruction { opcode: Opcode::CMP, addressing_mode: AddressingMode::AbsoluteY, cycles: 4 }),
        0xdb => Some(Instruction { opcode: Opcode::DCP, addressing_mode: AddressingMode::AbsoluteY, cycles: 7 }),
        0xdc => Some(Instruction { opcode: Opcode::IGN, addressing_mode: AddressingMode::AbsoluteX, cycles: 4 }),
        0xdd => Some(Instruction { opcode: Opcode::CMP, addressing_mode: AddressingMode::AbsoluteX, cycles: 4 }),
        0xde => Some(Instruction { opcode: Opcode::DEC, addressing_mode: AddressingMode::AbsoluteX, cycles: 7 }),
        0xdf => Some(Instruction { opcode: Opcode::DCP, addressing_mode: AddressingMode::AbsoluteX, cycles: 7 }),
        0xe0 => Some(Instruction { opcode: Opcode::CPX, addressing_mode: AddressingMode::Immediate, cycles: 2 }),
        0xe1 => Some(Instruction { opcode: Opcode::SBC, addressing_mode: AddressingMode::IndirectX, cycles: 6 }),
        0xe2 => Some(Instruction { opcode: Opcode::SKB, addressing_mode: AddressingMode::Immediate, cycles: 2 }),
        0xe3 => Some(Instruction { opcode: Opcode::ISC, addressing_mode: AddressingMode::IndirectX, cycles: 8 }),
        0xe4 => Some(Instruction { opcode: Opcode::CPX, addressing_mode: AddressingMode::ZeroPage, cycles: 3 }),
        0xe5 => Some(Instruction { opcode: Opcode::SBC, addressing_mode: AddressingMode::ZeroPage, cycles: 3 }),
        0xe6 => Some(Instruction { opcode: Opcode::INC, addressing_mode: AddressingMode::ZeroPage, cycles: 5 }),
        0xe7 => Some(Instruction { opcode: Opcode::ISC, addressing_mode: AddressingMode::ZeroPage, cycles: 5 }),
        0xe8 => Some(Instruction { opcode: Opcode::INX, addressing_mode: AddressingMode::Implied, cycles: 2 }),
        0xe9 => Some(Instruction { opcode: Opcode::SBC, addressing_mode: AddressingMode::Immediate, cycles: 2 }),
        0xea => Some(Instruction { opcode: Opcode::NOP, addressing_mode: AddressingMode::Implied, cycles: 2 }),
        0xec => Some(Instruction { opcode: Opcode::CPX, addressing_mode: AddressingMode::Absolute, cycles: 4 }),
        0xed => Some(Instruction { opcode: Opcode::SBC, addressing_mode: AddressingMode::Absolute, cycles: 4 }),
        0xee => Some(Instruction { opcode: Opcode::INC, addressing_mode: AddressingMode::Absolute, cycles: 6 }),
        0xef => Some(Instruction { opcode: Opcode::ISC, addressing_mode: AddressingMode::Absolute, cycles: 6 }),
        0xf0 => Some(Instruction { opcode: Opcode::BEQ, addressing_mode: AddressingMode::Relative, cycles: 2 }),
        0xf1 => Some(Instruction { opcode: Opcode::SBC, addressing_mode: AddressingMode::IndirectY, cycles: 5 }),
        0xf3 => Some(Instruction { opcode: Opcode::ISC, addressing_mode: AddressingMode::IndirectY, cycles: 8 }),
        0xf4 => Some(Instruction { opcode: Opcode::IGN, addressing_mode: AddressingMode::ZeroPageX, cycles: 4 }),
        0xf5 => Some(Instruction { opcode: Opcode::SBC, addressing_mode: AddressingMode::ZeroPageX, cycles: 4 }),
        0xf6 => Some(Instruction { opcode: Opcode::INC, addressing_mode: AddressingMode::ZeroPageX, cycles: 6 }),
        0xf7 => Some(Instruction { opcode: Opcode::ISC, addressing_mode: AddressingMode::ZeroPageX, cycles: 6 }),
        0xf8 => Some(Instruction { opcode: Opcode::SED, addressing_mode: AddressingMode::Implied, cycles: 2 }),
        0xf9 => Some(Instruction { opcode: Opcode::SBC, addressing_mode: AddressingMode::AbsoluteY, cycles: 4 }),
        0xfb => Some(Instruction { opcode: Opcode::ISC, addressing_mode: AddressingMode::AbsoluteY, cycles: 7 }),
        0xfc => Some(Instruction { opcode: Opcode::IGN, addressing_mode: AddressingMode::AbsoluteX, cycles: 4 }),
        0xfd => Some(Instruction { opcode: Opcode::SBC, addressing_mode: AddressingMode::AbsoluteX, cycles: 4 }),
        0xfe => Some(Instruction { opcode: Opcode::INC, addressing_mode: AddressingMode::AbsoluteX, cycles: 7 }),
        0xff => Some(Instruction { opcode: Opcode::ISC, addressing_mode: AddressingMode::AbsoluteX, cycles: 7 }),
        _ => None,
    }
}

/// Whether an opcode byte has an assigned instruction.
pub open spec fn is_assigned(code: u8) -> bool {
    spec_decode(code) is Some
}

/// Decodes one opcode byte.  Total and pure: every assigned byte maps
/// to its descriptor and every unassigned byte reports a failure.
pub fn to_instruction(instruction_code: u8) -> (r: Option<Instruction>)
    ensures
        r == spec_decode(instruction_code),
        r is Some <==> is_assigned(instruction_code),
        r is Some ==> 2 <= r->Some_0.cycles <= 8,
{
    match instruction_code {
        0x00 => Some(Instruction::build_instruction(Opcode::BRK, AddressingMode::Implied, 7)),
        0x01 => Some(Instruction::build_instruction(Opcode::ORA, AddressingMode::IndirectX, 6)),
        0x03 => Some(Instruction::build_instruction(Opcode::SLO, AddressingMode::IndirectX, 8)),
        0x04 => Some(Instruction::build_instruction(Opcode::IGN, AddressingMode::ZeroPage, 3)),
        0x05 => Some(Instruction::build_instruction(Opcode::ORA, AddressingMode::ZeroPage, 3)),
        0x06 => Some(Instruction::build_instruction(Opcode::ASL, AddressingMode::ZeroPage, 5)),
        0x07 => Some(Instruction::build_instruction(Opcode::SLO, AddressingMode::ZeroPage, 5)),
        0x08 => Some(Instruction::build_instruction(Opcode::PHP, AddressingMode::Implied, 3)),
        0x09 => Some(Instruction::build_instruction(Opcode::ORA, AddressingMode::Immediate, 2)),
        0x0a => Some(Instruction::build_instruction(Opcode::ASL, AddressingMode::Accumulator, 2)),
        0x0b => Some(Instruction::build_instruction(Opcode::ANC, AddressingMode::Immediate, 2)),
        0x0c => Some(Instruction::build_instruction(Opcode::IGN, AddressingMode::Absolute, 4)),
        0x0d => Some(Instruction::build_instruction(Opcode::ORA, AddressingMode::Absolute, 4)),
        0x0e => Some(Instruction::build_instruction(Opcode::ASL, AddressingMode::Absolute, 6)),
        0x0f => Some(Instruction::build_instruction(Opcode::SLO, AddressingMode::Absolute, 6)),
        0x10 => Some(Instruction::build_instruction(Opcode::BPL, AddressingMode::Relative, 2)),
        0x11 => Some(Instruction::build_instruction(Opcode::ORA, AddressingMode::IndirectY, 5)),
        0x13 => Some(Instruction::build_instruction(Opcode::SLO, AddressingMode::IndirectY, 8)),
        0x14 => Some(Instruction::build_instruction(Opcode::IGN, AddressingMode::ZeroPageX, 4)),
        0x15 => Some(Instruction::build_instruction(Opcode::ORA, AddressingMode::ZeroPageX, 4)),
        0x16 => Some(Instruction::build_instruction(Opcode::ASL, AddressingMode::ZeroPageX, 6)),
        0x17 => Some(Instruction::build_instruction(Opcode::SLO, AddressingMode::ZeroPageX, 6)),
        0x18 => Some(Instruction::build_instruction(Opcode::CLC, AddressingMode::Implied, 2)),
        0x19 => Some(Instruction::build_instruction(Opcode::ORA, AddressingMode::AbsoluteY, 4)),
        0x1b => Some(Instruction::build_instruction(Opcode::SLO, AddressingMode::AbsoluteY, 7)),
        0x1c => Some(Instruction::build_instruction(Opcode::IGN, AddressingMode::AbsoluteX, 4)),
        0x1d => Some(Instruction::build_instruction(Opcode::ORA, AddressingMode::AbsoluteX, 4)),
        0x1e => Some(Instruction::build_instruction(Opcode::ASL, AddressingMode::AbsoluteX, 7)),
        0x1f => Some(Instruction::build_instruction(Opcode::SLO, AddressingMode::AbsoluteX, 7)),
        0x20 => Some(Instruction::build_instruction(Opcode::JSR, AddressingMode::Absolute, 6)),
        0x21 => Some(Instruction::build_instruction(Opcode::AND, AddressingMode::IndirectX, 6)),
        0x23 => Some(Instruction::build_instruction(Opcode::RLA, AddressingMode::IndirectX, 8)),
        0x24 => Some(Instruction::build_instruction(Opcode::BIT, AddressingMode::ZeroPage, 3)),
        0x25 => Some(Instruction::build_instruction(Opcode::AND, AddressingMode::ZeroPage, 3)),
        0x26 => Some(Instruction::build_instruction(Opcode::ROL, AddressingMode::ZeroPage, 5)),
        0x27 => Some(Instruction::build_instruction(Opcode::RLA, AddressingMode::ZeroPage, 5)),
        0x28 => Some(Instruction::build_instruction(Opcode::PLP, AddressingMode::Implied, 4)),
        0x29 => Some(Instruction::build_instruction(Opcode::AND, AddressingMode::Immediate, 2)),
        0x2a => Some(Instruction::build_instruction(Opcode::ROL, AddressingMode::Accumulator, 2)),
        0x2c => Some(Instruction::build_instruction(Opcode::BIT, AddressingMode::Absolute, 4)),
        0x2d => Some(Instruction::build_instruction(Opcode::AND, AddressingMode::Absolute, 4)),
        0x2e => Some(Instruction::build_instruction(Opcode::ROL, AddressingMode::Absolute, 6)),
        0x2f => Some(Instruction::build_instruction(Opcode::RLA, AddressingMode::Absolute, 6)),
        0x30 => Some(Instruction::build_instruction(Opcode::BMI, AddressingMode::Relative, 2)),
        0x31 => Some(Instruction::build_instruction(Opcode::AND, AddressingMode::IndirectY, 5)),
        0x33 => Some(Instruction::build_instruction(Opcode::RLA, AddressingMode::IndirectY, 8)),
        0x34 => Some(Instruction::build_instruction(Opcode::IGN, AddressingMode::ZeroPageX, 4)),
        0x35 => Some(Instruction::build_instruction(Opcode::AND, AddressingMode::ZeroPageX, 4)),
        0x36 => Some(Instruction::build_instruction(Opcode::ROL, AddressingMode::ZeroPageX, 6)),
        0x37 => Some(Instruction::build_instruction(Opcode::RLA, AddressingMode::ZeroPageX, 6)),
        0x38 => Some(Instruction::build_instruction(Opcode::SEC, AddressingMode::Implied, 2)),
        0x39 => Some(Instruction::build_instruction(Opcode::AND, AddressingMode::AbsoluteY, 4)),
        0x3b => Some(Instruction::build_instruction(Opcode::RLA, AddressingMode::AbsoluteY, 7)),
        0x3c => Some(Instruction::build_instruction(Opcode::IGN, AddressingMode::AbsoluteX, 4)),
        0x3d => Some(Instruction::build_instruction(Opcode::AND, AddressingMode::AbsoluteX, 4)),
        0x3e => Some(Instruction::build_instruction(Opcode::ROL, AddressingMode::AbsoluteX, 7)),
        0x3f => Some(Instruction::build_instruction(Opcode::RLA, AddressingMode::AbsoluteX, 7)),
        0x40 => Some(Instruction::build_instruction(Opcode::RTI, AddressingMode::Implied, 6)),
        0x41 => Some(Instruction::build_instruction(Opcode::EOR, AddressingMode::IndirectX, 6)),
        0x43 => Some(Instruction::build_instruction(Opcode::SRE, AddressingMode::IndirectX, 8)),
        0x44 => Some(Instruction::build_instruction(Opcode::IGN, AddressingMode::ZeroPage, 3)),
        0x45 => Some(Instruction::build_instruction(Opcode::EOR, AddressingMode::ZeroPage, 3)),
        0x46 => Some(Instruction::build_instruction(Opcode::LSR, AddressingMode::ZeroPage, 5)),
        0x47 => Some(Instruction::build_instruction(Opcode::SRE, AddressingMode::ZeroPage, 5)),
        0x48 => Some(Instruction::build_instruction(Opcode::PHA, AddressingMode::Implied, 3)),
        0x49 => Some(Instruction::build_instruction(Opcode::EOR, AddressingMode::Immediate, 2)),
        0x4a => Some(Instruction::build_instruction(Opcode::LSR, AddressingMode::Accumulator, 2)),
        0x4b => Some(Instruction::build_instruction(Opcode::ALR, AddressingMode::Immediate, 2)),
        0x4c => Some(Instruction::build_instruction(Opcode::JMP, AddressingMode::Absolute, 3)),
        0x4d => Some(Instruction::build_instruction(Opcode::EOR, AddressingMode::Absolute, 4)),
        0x4e => Some(Instruction::build_instruction(Opcode::LSR, AddressingMode::Absolute, 6)),
        0x4f => Some(Instruction::build_instruction(Opcode::SRE, AddressingMode::Absolute, 6)),
        0x50 => Some(Instruction::build_instruction(Opcode::BVC, AddressingMode::Relative, 2)),
        0x51 => Some(Instruction::build_instruction(Opcode::EOR, AddressingMode::IndirectY, 5)),
        0x53 => Some(Instruction::build_instruction(Opcode::SRE, AddressingMode::IndirectY, 8)),
        0x54 => Some(Instruction::build_instruction(Opcode::IGN, AddressingMode::ZeroPageX, 4)),
        0x55 => Some(Instruction::build_instruction(Opcode::EOR, AddressingMode::ZeroPageX, 4)),
        0x56 => Some(Instruction::build_instruction(Opcode::LSR, AddressingMode::ZeroPageX, 6)),
        0x57 => Some(Instruction::build_instruction(Opcode::SRE, AddressingMode::ZeroPageX, 6)),
        0x58 => Some(Instruction::build_instruction(Opcode::CLI, AddressingMode::Implied, 2)),
        0x59 => Some(Instruction::build_instruction(Opcode::EOR, AddressingMode::AbsoluteY, 4)),
        0x5b => Some(Instruction::build_instruction(Opcode::SRE, AddressingMode::AbsoluteY, 7)),
        0x5c => Some(Instruction::build_instruction(Opcode::IGN, AddressingMode::AbsoluteX, 4)),
        0x5d => Some(Instruction::build_instruction(Opcode::EOR, AddressingMode::AbsoluteX, 4)),
        0x5e => Some(Instruction::build_instruction(Opcode::LSR, AddressingMode::AbsoluteX, 7)),
        0x5f => Some(Instruction::build_instruction(Opcode::SRE, AddressingMode::AbsoluteX, 7)),
        0x60 => Some(Instruction::build_instruction(Opcode::RTS, AddressingMode::Implied, 6)),
        0x61 => Some(Instruction::build_instruction(Opcode::ADC, AddressingMode::IndirectX, 6)),
        0x63 => Some(Instruction::build_instruction(Opcode::RRA, AddressingMode::IndirectX, 8)),
        0x64 => Some(Instruction::build_instruction(Opcode::IGN, AddressingMode::ZeroPage, 3)),
        0x65 => Some(Instruction::build_instruction(Opcode::ADC, AddressingMode::ZeroPage, 3)),
        0x66 => Some(Instruction::build_instruction(Opcode::ROR, AddressingMode::ZeroPage, 5)),
        0x67 => Some(Instruction::build_instruction(Opcode::RRA, AddressingMode::ZeroPage, 5)),
        0x68 => Some(Instruction::build_instruction(Opcode::PLA, AddressingMode::Implied, 4)),
        0x69 => Some(Instruction::build_instruction(Opcode::ADC, AddressingMode::Immediate, 2)),
        0x6a => Some(Instruction::build_instruction(Opcode::ROR, AddressingMode::Accumulator, 2)),
        0x6b => Some(Instruction::build_instruction(Opcode::ARR, AddressingMode::Immediate, 2)),
        0x6c => Some(Instruction::build_instruction(Opcode::JMP, AddressingMode::Indirect, 5)),
        0x6d => Some(Instruction::build_instruction(Opcode::ADC, AddressingMode::Absolute, 4)),
        0x6e => Some(Instruction::build_instruction(Opcode::ROR, AddressingMode::Absolute, 6)),
        0x6f => Some(Instruction::build_instruction(Opcode::RRA, AddressingMode::Absolute, 6)),
        0x70 => Some(Instruction::build_instruction(Opcode::BVS, AddressingMode::Relative, 2)),
        0x71 => Some(Instruction::build_instruction(Opcode::ADC, AddressingMode::IndirectY, 5)),
        0x73 => Some(Instruction::build_instruction(Opcode::RRA, AddressingMode::IndirectY, 8)),
        0x74 => Some(Instruction::build_instruction(Opcode::IGN, AddressingMode::ZeroPageX, 4)),
        0x75 => Some(Instruction::build_instruction(Opcode::ADC, AddressingMode::ZeroPageX, 4)),
        0x76 => Some(Instruction::build_instruction(Opcode::ROR, AddressingMode::ZeroPageX, 6)),
        0x77 => Some(Instruction::build_instruction(Opcode::RRA, AddressingMode::ZeroPageX, 6)),
        0x78 => Some(Instruction::build_instruction(Opcode::SEI, AddressingMode::Implied, 2)),
        0x79 => Some(Instruction::build_instruction(Opcode::ADC, AddressingMode::AbsoluteY, 4)),
        0x7b => Some(Instruction::build_instruction(Opcode::RRA, AddressingMode::AbsoluteY, 7)),
        0x7c => Some(Instruction::build_instruction(Opcode::IGN, AddressingMode::AbsoluteX, 4)),
        0x7d => Some(Instruction::build_instruction(Opcode::ADC, AddressingMode::AbsoluteX, 4)),
        0x7e => Some(Instruction::build_instruction(Opcode::ROR, AddressingMode::AbsoluteX, 7)),
        0x7f => Some(Instruction::build_instruction(Opcode::RRA, AddressingMode::AbsoluteX, 7)),
        0x80 => Some(Instruction::build_instruction(Opcode::SKB, AddressingMode::Immediate, 2)),
        0x81 => Some(Instruction::build_instruction(Opcode::STA, AddressingMode::IndirectX, 6)),
        0x82 => Some(Instruction::build_instruction(Opcode::SKB, AddressingMode::Immediate, 2)),
        0x83 => Some(Instruction::build_instruction(Opcode::SAX, AddressingMode::IndirectX, 6)),
        0x84 => Some(Instruction::build_instruction(Opcode::STY, AddressingMode::ZeroPage, 3)),
        0x85 => Some(Instruction::build_instruction(Opcode::STA, AddressingMode::ZeroPage, 3)),
        0x86 => Some(Instruction::build_instruction(Opcode::STX, AddressingMode::ZeroPage, 3)),
        0x87 => Some(Instruction::build_instruction(Opcode::SAX, AddressingMode::ZeroPage, 3)),
        0x88 => Some(Instruction::build_instruction(Opcode::DEY, AddressingMode::Implied, 2)),
        0x89 => Some(Instruction::build_instruction(Opcode::SKB, AddressingMode::Immediate, 2)),
        0x8a => Some(Instruction::build_instruction(Opcode::TXA, AddressingMode::Implied, 2)),
        0x8c => Some(Instruction::build_instruction(Opcode::STY, AddressingMode::Absolute, 4)),
        0x8d => Some(Instruction::build_instruction(Opcode::STA, AddressingMode::Absolute, 4)),
        0x8e => Some(Instruction::build_instruction(Opcode::STX, AddressingMode::Absolute, 4)),
        0x8f => Some(Instruction::build_instruction(Opcode::SAX, AddressingMode::Absolute, 4)),
        0x90 => Some(Instruction::build_instruction(Opcode::BCC, AddressingMode::Relative, 2)),
        0x91 => Some(Instruction::build_instruction(Opcode::STA, AddressingMode::IndirectY, 6)),
        0x94 => Some(Instruction::build_instruction(Opcode::STY, AddressingMode::ZeroPageX, 4)),
        0x95 => Some(Instruction::build_instruction(Opcode::STA, AddressingMode::ZeroPageX, 4)),
        0x96 => Some(Instruction::build_instruction(Opcode::STX, AddressingMode::ZeroPageY, 4)),
        0x97 => Some(Instruction::build_instruction(Opcode::SAX, AddressingMode::ZeroPageY, 4)),
        0x98 => Some(Instruction::build_instruction(Opcode::TYA, AddressingMode::Implied, 2)),
        0x99 => Some(Instruction::build_instruction(Opcode::STA, AddressingMode::AbsoluteY, 5)),
        0x9a => Some(Instruction::build_instruction(Opcode::TXS, AddressingMode::Implied, 2)),
        0x9d => Some(Instruction::build_instruction(Opcode::STA, AddressingMode::AbsoluteX, 5)),
        0xa0 => Some(Instruction::build_instruction(Opcode::LDY, AddressingMode::Immediate, 2)),
        0xa1 => Some(Instruction::build_instruction(Opcode::LDA, AddressingMode::IndirectX, 6)),
        0xa2 => Some(Instruction::build_instruction(Opcode::LDX, AddressingMode::Immediate, 2)),
        0xa3 => Some(Instruction::build_instruction(Opcode::LAX, AddressingMode::IndirectX, 6)),
        0xa4 => Some(Instruction::build_instruction(Opcode::LDY, AddressingMode::ZeroPage, 3)),
        0xa5 => Some(Instruction::build_instruction(Opcode::LDA, AddressingMode::ZeroPage, 3)),
        0xa6 => Some(Instruction::build_instruction(Opcode::LDX, AddressingMode::ZeroPage, 3)),
        0xa7 => Some(Instruction::build_instruction(Opcode::LAX, AddressingMode::ZeroPage, 3)),
        0xa8 => Some(Instruction::build_instruction(Opcode::TAY, AddressingMode::Implied, 2)),
        0xa9 => Some(Instruction::build_instruction(Opcode::LDA, AddressingMode::Immediate, 2)),
        0xaa => Some(Instruction::build_instruction(Opcode::TAX, AddressingMode::Implied, 2)),
        0xac => Some(Instruction::build_instruction(Opcode::LDY, AddressingMode::Absolute, 4)),
        0xad => Some(Instruction::build_instruction(Opcode::LDA, AddressingMode::Absolute, 4)),
        0xae => Some(Instruction::build_instruction(Opcode::LDX, AddressingMode::Absolute, 4)),
        0xaf => Some(Instruction::build_instruction(Opcode::LAX, AddressingMode::Absolute, 4)),
        0xb0 => Some(Instruction::build_instruction(Opcode::BCS, AddressingMode::Relative, 2)),
        0xb1 => Some(Instruction::build_instruction(Opcode::LDA, AddressingMode::IndirectY, 5)),
        0xb3 => Some(Instruction::build_instruction(Opcode::LAX, AddressingMode::IndirectY, 5)),
        0xb4 => Some(Instruction::build_instruction(Opcode::LDY, AddressingMode::ZeroPageX, 4)),
        0xb5 => Some(Instruction::build_instruction(Opcode::LDA, AddressingMode::ZeroPageX, 4)),
        0xb6 => Some(Instruction::build_instruction(Opcode::LDX, AddressingMode::ZeroPageY, 4)),
        0xb7 => Some(Instruction::build_instruction(Opcode::LAX, AddressingMode::ZeroPageY, 4)),
        0xb8 => Some(Instruction::build_instruction(Opcode::CLV, AddressingMode::Implied, 2)),
        0xb9 => Some(Instruction::build_instruction(Opcode::LDA, AddressingMode::AbsoluteY, 4)),
        0xba => Some(Instruction::build_instruction(Opcode::TSX, AddressingMode::Implied, 2)),
        0xbc => Some(Instruction::build_instruction(Opcode::LDY, AddressingMode::AbsoluteX, 4)),
        0xbd => Some(Instruction::build_instruction(Opcode::LDA, AddressingMode::AbsoluteX, 4)),
        0xbe => Some(Instruction::build_instruction(Opcode::LDX, AddressingMode::AbsoluteY, 4)),
        0xbf => Some(Instruction::build_instruction(Opcode::LAX, AddressingMode::AbsoluteY, 4)),
        0xc0 => Some(Instruction::build_instruction(Opcode::CPY, AddressingMode::Immediate, 2)),
        0xc1 => Some(Instruction::build_instruction(Opcode::CMP, AddressingMode::IndirectX, 6)),
        0xc2 => Some(Instruction::build_instruction(Opcode::SKB, AddressingMode::Immediate, 2)),
        0xc3 => Some(Instruction::build_instruction(Opcode::DCP, AddressingMode::IndirectX, 8)),
        0xc4 => Some(Instruction::build_instruction(Opcode::CPY, AddressingMode::ZeroPage, 3)),
        0xc5 => Some(Instruction::build_instruction(Opcode::CMP, AddressingMode::ZeroPage, 3)),
        0xc6 => Some(Instruction::build_instruction(Opcode::DEC, AddressingMode::ZeroPage, 5)),
        0xc7 => Some(Instruction::build_instruction(Opcode::DCP, AddressingMode::ZeroPage, 5)),
        0xc8 => Some(Instruction::build_instruction(Opcode::INY, AddressingMode::Implied, 2)),
        0xc9 => Some(Instruction::build_instruction(Opcode::CMP, AddressingMode::Immediate, 2)),
        0xca => Some(Instruction::build_instruction(Opcode::DEX, AddressingMode::Implied, 2)),
        0xcb => Some(Instruction::build_instruction(Opcode::AXS, AddressingMode::Immediate, 2)),
        0xcc => Some(Instruction::build_instruction(Opcode::CPY, AddressingMode::Absolute, 4)),
        0xcd => Some(Instruction::build_instruction(Opcode::CMP, AddressingMode::Absolute, 4)),
        0xce => Some(Instruction::build_instruction(Opcode::DEC, AddressingMode::Absolute, 6)),
        0xcf => Some(Instruction::build_instruction(Opcode::DCP, AddressingMode::Absolute, 6)),
        0xd0 => Some(Instruction::build_instruction(Opcode::BNE, AddressingMode::Relative, 2)),
        0xd1 => Some(Instruction::build_instruction(Opcode::CMP, AddressingMode::IndirectY, 5)),
        0xd3 => Some(Instruction::build_instruction(Opcode::DCP, AddressingMode::IndirectY, 8)),
        0xd4 => Some(Instruction::build_instruction(Opcode::IGN, AddressingMode::ZeroPageX, 4)),
        0xd5 => Some(Instruction::build_instruction(Opcode::CMP, AddressingMode::ZeroPageX, 4)),
        0xd6 => Some(Instruction::build_instruction(Opcode::DEC, AddressingMode::ZeroPageX, 6)),
        0xd7 => Some(Instruction::build_instruction(Opcode::DCP, AddressingMode::ZeroPageX, 6)),
        0xd8 => Some(Instruction::build_instruction(Opcode::CLD, AddressingMode::Implied, 2)),
        0xd9 => Some(Instruction::build_instruction(Opcode::CMP, AddressingMode::AbsoluteY, 4)),
        0xdb => Some(Instruction::build_instruction(Opcode::DCP, AddressingMode::AbsoluteY, 7)),
        0xdc => Some(Instruction::build_instruction(Opcode::IGN, AddressingMode::AbsoluteX, 4)),
        0xdd => Some(Instruction::build_instruction(Opcode::CMP, AddressingMode::AbsoluteX, 4)),
        0xde => Some(Instruction::build_instruction(Opcode::DEC, AddressingMode::AbsoluteX, 7)),
        0xdf => Some(Instruction::build_instruction(Opcode::DCP, AddressingMode::AbsoluteX, 7)),
        0xe0 => Some(Instruction::build_instruction(Opcode::CPX, AddressingMode::Immediate, 2)),
        0xe1 => Some(Instruction::build_instruction(Opcode::SBC, AddressingMode::IndirectX, 6)),
        0xe2 => Some(Instruction::build_instruction(Opcode::SKB, AddressingMode::Immediate, 2)),
        0xe3 => Some(Instruction::build_instruction(Opcode::ISC, AddressingMode::IndirectX, 8)),
        0xe4 => Some(Instruction::build_instruction(Opcode::CPX, AddressingMode::ZeroPage, 3)),
        0xe5 => Some(Instruction::build_instruction(Opcode::SBC, AddressingMode::ZeroPage, 3)),
        0xe6 => Some(Instruction::build_instruction(Opcode::INC, AddressingMode::ZeroPage, 5)),
        0xe7 => Some(Instruction::build_instruction(Opcode::ISC, AddressingMode::ZeroPage, 5)),
        0xe8 => Some(Instruction::build_instruction(Opcode::INX, AddressingMode::Implied, 2)),
        0xe9 => Some(Instruction::build_instruction(Opcode::SBC, AddressingMode::Immediate, 2)),
        0xea => Some(Instruction::build_instruction(Opcode::NOP, AddressingMode::Implied, 2)),
        0xec => Some(Instruction::build_instruction(Opcode::CPX, AddressingMode::Absolute, 4)),
        0xed => Some(Instruction::build_instruction(Opcode::SBC, AddressingMode::Absolute, 4)),
        0xee => Some(Instruction::build_instruction(Opcode::INC, AddressingMode::Absolute, 6)),
        0xef => Some(Instruction::build_instruction(Opcode::ISC, AddressingMode::Absolute, 6)),
        0xf0 => Some(Instruction::build_instruction(Opcode::BEQ, AddressingMode::Relative, 2)),
        0xf1 => Some(Instruction::build_instruction(Opcode::SBC, AddressingMode::IndirectY, 5)),
        0xf3 => Some(Instruction::build_instruction(Opcode::ISC, AddressingMode::IndirectY, 8)),
        0xf4 => Some(Instruction::build_instruction(Opcode::IGN, AddressingMode::ZeroPageX, 4)),
        0xf5 => Some(Instruction::build_instruction(Opcode::SBC, AddressingMode::ZeroPageX, 4)),
        0xf6 => Some(Instruction::build_instruction(Opcode::INC, AddressingMode::ZeroPageX, 6)),
        0xf7 => Some(Instruction::build_instruction(Opcode::ISC, AddressingMode::ZeroPageX, 6)),
        0xf8 => Some(Instruction::build_instruction(Opcode::SED, AddressingMode::Implied, 2)),
        0xf9 => Some(Instruction::build_instruction(Opcode::SBC, AddressingMode::AbsoluteY, 4)),
        0xfb => Some(Instruction::build_instruction(Opcode::ISC, AddressingMode::AbsoluteY, 7)),
        0xfc => Some(Instruction::build_instruction(Opcode::IGN, AddressingMode::AbsoluteX, 4)),
        0xfd => Some(Instruction::build_instruction(Opcode::SBC, AddressingMode::AbsoluteX, 4)),
        0xfe => Some(Instruction::build_instruction(Opcode::INC, AddressingMode::AbsoluteX, 7)),
        0xff => Some(Instruction::build_instruction(Opcode::ISC, AddressingMode::AbsoluteX, 7)),
        _ => None,
    }
}

/// Every assigned opcode byte decodes to a descriptor whose base cycle
/// count lies between 2 and 8; unassigned bytes fail to decode.
pub proof fn lemma_decode_cycle_bounds(code: u8)
    ensures
        is_assigned(code) ==> 2 <= spec_decode(code)->Some_0.cycles <= 8,
{
}

} // verus!
