use crate::addressing_mode::AddressingMode;
use crate::cpu_6502::Cpu6502;
use crate::cpu_6502::current_mode;
use crate::cpu_6502::fetch_step;
use crate::cpu_6502::pull_step;
use crate::cpu_6502::push_step;
use crate::instruction::to_instruction;
use crate::state::CpuState;
use crate::state::FLAG_BREAK;
use crate::state::FLAG_CARRY;
use crate::state::FLAG_DECIMAL;
use crate::state::FLAG_INTERRUPT_DISABLE;
use crate::state::FLAG_NEGATIVE;
use crate::state::FLAG_OVERFLOW;
use crate::state::FLAG_UNUSED;
use crate::state::FLAG_ZERO;
use crate::state::get_flag;
use crate::state::upd_flag;
use crate::state::zn_flags;
use crate::state::signed;
use crate::state::spec_addr_from_bytes;
use crate::state::spec_high_byte;
use crate::state::spec_low_byte;
use crate::state::wrap_add_8;
use crate::state::wrap_add_16;
use crate::state::wrap_sub_8;
use crate::state::wrap_sub_16;
use crate::state::addr_from_bytes;
use crate::state::high_byte;
use crate::state::low_byte;
use crate::state::set_flag_val;
use crate::state::set_zn;
use crate::state::wrapping_add_u8;
use crate::state::wrapping_add_u16;
use crate::state::wrapping_sub_u8;
use crate::state::wrapping_sub_u16;
use crate::state::lemma_flag_masks;
use crate::state::lemma_upd_flag_same;
use crate::state::lemma_zn_flags;
use vstd::prelude::*;

verus! {

/// The closed set of 6502 operations: the official instruction set and
/// the unofficial opcodes kept as documented-no-op extension points.
#[derive(Clone, Copy, PartialEq, Eq, Structural, Debug)]
pub enum Opcode {
    ADC,
    SBC,
    AND,
    EOR,
    ORA,
    ASL,
    LSR,
    ROL,
    ROR,
    INC,
    INX,
    INY,
    DEC,
    DEX,
    DEY,
    LDA,
    LDX,
    LDY,
    STA,
    STX,
    STY,
    SEC,
    SED,
    SEI,
    CLC,
    CLD,
    CLI,
    CLV,
    CMP,
    CPX,
    CPY,
    JMP,
    JSR,
    RTI,
    RTS,
    BCC,
    BCS,
    BEQ,
    BMI,
    BNE,
    BPL,
    BVC,
    BVS,
    PHA,
    PHP,
    PLA,
    PLP,
    TAX,
    TAY,
    TSX,
    TXA,
    TXS,
    TYA,
    BRK,
    BIT,
    NOP,
    ALR,
    ANC,
    ARR,
    AXS,
    LAX,
    SAX,
    DCP,
    ISC,
    RLA,
    RRA,
    SLO,
    SRE,
    SKB,
    IGN,
}

/// The result byte of an addition with carry-in, modulo 256.
pub open spec fn adc_result(a: u8, m: u8, carry_in: bool) -> u8 {
    let sum: int = a + m + (if carry_in {
        1int
    } else {
        0int
    });
    if sum > 255 {
        (sum - 256) as u8
    } else {
        sum as u8
    }
}

/// The carry out of an addition with carry-in.
pub open spec fn adc_carry(a: u8, m: u8, carry_in: bool) -> bool {
    a + m + (if carry_in {
        1int
    } else {
        0int
    }) > 255
}

/// The two's-complement overflow of an addition with carry-in: the
/// signs of the addends agree and differ from the sign of the result.
pub open spec fn adc_overflow(a: u8, m: u8, carry_in: bool) -> bool {
    ((a >= 0x80) == (m >= 0x80)) && ((a >= 0x80) != (adc_result(a, m, carry_in) >= 0x80))
}

/// The status byte after an addition: Carry and Overflow from the
/// arithmetic, then the uniform Zero / Negative update on the result.
pub open spec fn alu_add_status(status: u8, a: u8, m: u8, carry_in: bool) -> u8 {
    zn_flags(
        upd_flag(
            upd_flag(status, FLAG_CARRY, adc_carry(a, m, carry_in)),
            FLAG_OVERFLOW,
            adc_overflow(a, m, carry_in),
        ),
        adc_result(a, m, carry_in),
    )
}

/// ADC: add the fetched operand and the carry flag to the accumulator.
pub open spec fn adc_step(s: CpuState) -> (CpuState, u8) {
    let s1 = fetch_step(s);
    let a: u8 = s1.accumulator;
    let m: u8 = s1.fetched;
    let c: bool = get_flag(s1.status_register, FLAG_CARRY);
    (
        (CpuState {
            accumulator: adc_result(a, m, c),
            status_register: alu_add_status(s1.status_register, a, m, c),
            ..s1
        }),
        0,
    )
}

/// SBC: subtract the fetched operand with borrow, implemented as the
/// addition of the operand's ones' complement with carry-in.
pub open spec fn sbc_step(s: CpuState) -> (CpuState, u8) {
    let s1 = fetch_step(s);
    let a: u8 = s1.accumulator;
    let m: u8 = s1.fetched ^ 0xFF;
    let c: bool = get_flag(s1.status_register, FLAG_CARRY);
    (
        (CpuState {
            accumulator: adc_result(a, m, c),
            status_register: alu_add_status(s1.status_register, a, m, c),
            ..s1
        }),
        0,
    )
}

/// AND: bitwise conjunction of the accumulator with the operand.
pub open spec fn and_step(s: CpuState) -> (CpuState, u8) {
    let s1 = fetch_step(s);
    let r: u8 = s1.accumulator & s1.fetched;
    ((CpuState { accumulator: r, status_register: zn_flags(s1.status_register, r), ..s1 }), 0)
}

/// EOR: bitwise exclusive or of the accumulator with the operand.
pub open spec fn eor_step(s: CpuState) -> (CpuState, u8) {
    let s1 = fetch_step(s);
    let r: u8 = s1.accumulator ^ s1.fetched;
    ((CpuState { accumulator: r, status_register: zn_flags(s1.status_register, r), ..s1 }), 0)
}

/// ORA: bitwise disjunction of the accumulator with the operand.
pub open spec fn ora_step(s: CpuState) -> (CpuState, u8) {
    let s1 = fetch_step(s);
    let r: u8 = s1.accumulator | s1.fetched;
    ((CpuState { accumulator: r, status_register: zn_flags(s1.status_register, r), ..s1 }), 0)
}

/// The operand of a shift or rotate: the accumulator in Accumulator
/// mode, otherwise the byte fetched from the effective address.
pub open spec fn shift_operand(s1: CpuState) -> u8 {
    if current_mode(s1) == AddressingMode::Accumulator {
        s1.accumulator
    } else {
        s1.fetched
    }
}

/// Where a shift or rotate stores its result: back into the
/// accumulator in Accumulator mode, otherwise into memory at the
/// effective address.
pub open spec fn shift_writeback(s1: CpuState, result: u8, status: u8) -> CpuState {
    if current_mode(s1) == AddressingMode::Accumulator {
        CpuState { accumulator: result, status_register: status, ..s1 }
    } else {
        CpuState {
            mem: s1.mem.update(s1.address_absolute as int, result),
            status_register: status,
            ..s1
        }
    }
}

/// ASL: shift left one bit; bit 7 moves into Carry.
pub open spec fn asl_step(s: CpuState) -> (CpuState, u8) {
    let s1 = fetch_step(s);
    let v: u8 = shift_operand(s1);
    let t: int = v * 2;
    let r: u8 = if t > 255 {
        (t - 256) as u8
    } else {
        t as u8
    };
    let st: u8 = zn_flags(upd_flag(s1.status_register, FLAG_CARRY, v >= 0x80), r);
    (shift_writeback(s1, r, st), 0)
}

/// LSR: shift right one bit; bit 0 moves into Carry.
pub open spec fn lsr_step(s: CpuState) -> (CpuState, u8) {
    let s1 = fetch_step(s);
    let v: u8 = shift_operand(s1);
    let r: u8 = v / 2;
    let st: u8 = zn_flags(upd_flag(s1.status_register, FLAG_CARRY, (v & 1) != 0), r);
    (shift_writeback(s1, r, st), 0)
}

/// ROL: rotate left through Carry.
pub open spec fn rol_step(s: CpuState) -> (CpuState, u8) {
    let s1 = fetch_step(s);
    let v: u8 = shift_operand(s1);
    let c: bool = get_flag(s1.status_register, FLAG_CARRY);
    let t: int = v * 2 + (if c {
        1int
    } else {
        0int
    });
    let r: u8 = if t > 255 {
        (t - 256) as u8
    } else {
        t as u8
    };
    let st: u8 = zn_flags(upd_flag(s1.status_register, FLAG_CARRY, v >= 0x80), r);
    (shift_writeback(s1, r, st), 0)
}

/// ROR: rotate right through Carry.
pub open spec fn ror_step(s: CpuState) -> (CpuState, u8) {
    let s1 = fetch_step(s);
    let v: u8 = shift_operand(s1);
    let c: bool = get_flag(s1.status_register, FLAG_CARRY);
    let r: u8 = (v / 2 + (if c {
        128int
    } else {
        0int
    })) as u8;
    let st: u8 = zn_flags(upd_flag(s1.status_register, FLAG_CARRY, (v & 1) != 0), r);
    (shift_writeback(s1, r, st), 0)
}

/// INC: increment the byte at the effective address, with wraparound.
pub open spec fn inc_step(s: CpuState) -> (CpuState, u8) {
    let s1 = fetch_step(s);
    let r: u8 = wrap_add_8(s1.fetched, 1);
    (
        (CpuState {
            mem: s1.mem.update(s1.address_absolute as int, r),
            status_register: zn_flags(s1.status_register, r),
            ..s1
        }),
        0,
    )
}

/// DEC: decrement the byte at the effective address, with wraparound.
pub open spec fn dec_step(s: CpuState) -> (CpuState, u8) {
    let s1 = fetch_step(s);
    let r: u8 = wrap_sub_8(s1.fetched, 1);
    (
        (CpuState {
            mem: s1.mem.update(s1.address_absolute as int, r),
            status_register: zn_flags(s1.status_register, r),
            ..s1
        }),
        0,
    )
}

/// INX / INY / DEX / DEY acting on the X register.
pub open spec fn inx_step(s: CpuState) -> (CpuState, u8) {
    let r: u8 = wrap_add_8(s.x_register, 1);
    ((CpuState { x_register: r, status_register: zn_flags(s.status_register, r), ..s }), 0)
}

pub open spec fn iny_step(s: CpuState) -> (CpuState, u8) {
    let r: u8 = wrap_add_8(s.y_register, 1);
    ((CpuState { y_register: r, status_register: zn_flags(s.status_register, r), ..s }), 0)
}

pub open spec fn dex_step(s: CpuState) -> (CpuState, u8) {
    let r: u8 = wrap_sub_8(s.x_register, 1);
    ((CpuState { x_register: r, status_register: zn_flags(s.status_register, r), ..s }), 0)
}

pub open spec fn dey_step(s: CpuState) -> (CpuState, u8) {
    let r: u8 = wrap_sub_8(s.y_register, 1);
    ((CpuState { y_register: r, status_register: zn_flags(s.status_register, r), ..s }), 0)
}

/// LDA / LDX / LDY: load the fetched operand into a register.
pub open spec fn lda_step(s: CpuState) -> (CpuState, u8) {
    let s1 = fetch_step(s);
    let r: u8 = s1.fetched;
    ((CpuState { accumulator: r, status_register: zn_flags(s1.status_register, r), ..s1 }), 0)
}

pub open spec fn ldx_step(s: CpuState) -> (CpuState, u8) {
    let s1 = fetch_step(s);
    let r: u8 = s1.fetched;
    ((CpuState { x_register: r, status_register: zn_flags(s1.status_register, r), ..s1 }), 0)
}

pub open spec fn ldy_step(s: CpuState) -> (CpuState, u8) {
    let s1 = fetch_step(s);
    let r: u8 = s1.fetched;
    ((CpuState { y_register: r, status_register: zn_flags(s1.status_register, r), ..s1 }), 0)
}

/// STA / STX / STY: store a register at the effective address; no
/// flags change.
pub open spec fn store_step(s: CpuState, value: u8) -> (CpuState, u8) {
    ((CpuState { mem: s.mem.update(s.address_absolute as int, value), ..s }), 0)
}

/// SEC / SED / SEI / CLC / CLD / CLI / CLV: force one flag.
pub open spec fn flag_step(s: CpuState, mask: u8, on: bool) -> (CpuState, u8) {
    ((CpuState { status_register: upd_flag(s.status_register, mask, on), ..s }), 0)
}

/// CMP / CPX / CPY: subtract the operand from a register without
/// storing; Carry is set iff no borrow occurs, Zero and Negative come
/// from the difference byte.
pub open spec fn compare_step(s: CpuState, reg: u8) -> (CpuState, u8) {
    let s1 = fetch_step(s);
    let m: u8 = s1.fetched;
    let diff: u8 = wrap_sub_8(reg, m);
    (
        (CpuState {
            status_register: zn_flags(upd_flag(s1.status_register, FLAG_CARRY, reg >= m), diff),
            ..s1
        }),
        0,
    )
}

/// JMP: transfer control to the effective address.
pub open spec fn jmp_step(s: CpuState) -> (CpuState, u8) {
    ((CpuState { program_counter: s.address_absolute, ..s }), 0)
}

/// JSR: push the address of the last byte of this instruction, then
/// transfer control to the effective address.
pub open spec fn jsr_step(s: CpuState) -> (CpuState, u8) {
    let ret: u16 = wrap_sub_16(s.program_counter, 1);
    let s1 = push_step(s, spec_high_byte(ret));
    let s2 = push_step(s1, spec_low_byte(ret));
    ((CpuState { program_counter: s.address_absolute, ..s2 }), 0)
}

/// RTS: pull the return address and resume one byte past it.
pub open spec fn rts_step(s: CpuState) -> (CpuState, u8) {
    let lo: u8 = pull_step(s).1;
    let s1 = pull_step(s).0;
    let hi: u8 = pull_step(s1).1;
    let s2 = pull_step(s1).0;
    ((CpuState { program_counter: wrap_add_16(spec_addr_from_bytes(hi, lo), 1), ..s2 }), 0)
}

/// RTI: pull the status register (Break cleared, unused bit set), then
/// the interrupted program counter.
pub open spec fn rti_step(s: CpuState) -> (CpuState, u8) {
    let st: u8 = pull_step(s).1;
    let s1 = pull_step(s).0;
    let lo: u8 = pull_step(s1).1;
    let s2 = pull_step(s1).0;
    let hi: u8 = pull_step(s2).1;
    let s3 = pull_step(s2).0;
    (
        (CpuState {
            status_register: upd_flag(upd_flag(st, FLAG_BREAK, false), FLAG_UNUSED, true),
            program_counter: spec_addr_from_bytes(hi, lo),
            ..s3
        }),
        0,
    )
}

/// A conditional branch: when taken, the sign-extended relative offset
/// is added to the program counter for one extra cycle, or two when
/// the target lies in a different 256-byte page.
pub open spec fn branch_step(s: CpuState, taken: bool) -> (CpuState, u8) {
    if taken {
        let target: u16 = wrap_add_16(s.program_counter, s.address_relative);
        let extra: u8 = if target & 0xFF00 != s.program_counter & 0xFF00 {
            2
        } else {
            1
        };
        ((CpuState { program_counter: target, address_absolute: target, ..s }), extra)
    } else {
        (s, 0)
    }
}

/// PHA: push the accumulator.
pub open spec fn pha_step(s: CpuState) -> (CpuState, u8) {
    (push_step(s, s.accumulator), 0)
}

/// PHP: push the status register with Break and the unused bit set, as
/// the hardware does; the register itself is unchanged.
pub open spec fn php_step(s: CpuState) -> (CpuState, u8) {
    (push_step(s, s.status_register | FLAG_BREAK | FLAG_UNUSED), 0)
}

/// PLA: pull the accumulator and update Zero / Negative.
pub open spec fn pla_step(s: CpuState) -> (CpuState, u8) {
    let v: u8 = pull_step(s).1;
    let s1 = pull_step(s).0;
    ((CpuState { accumulator: v, status_register: zn_flags(s1.status_register, v), ..s1 }), 0)
}

/// PLP: pull the status register; Break is cleared and the unused bit
/// forced set, so that bit 5 round-trips as always-set.
pub open spec fn plp_step(s: CpuState) -> (CpuState, u8) {
    let v: u8 = pull_step(s).1;
    let s1 = pull_step(s).0;
    (
        (CpuState {
            status_register: upd_flag(upd_flag(v, FLAG_BREAK, false), FLAG_UNUSED, true),
            ..s1
        }),
        0,
    )
}

/// Register transfers; all but TXS update Zero / Negative.
pub open spec fn tax_step(s: CpuState) -> (CpuState, u8) {
    (
        (CpuState {
            x_register: s.accumulator,
            status_register: zn_flags(s.status_register, s.accumulator),
            ..s
        }),
        0,
    )
}

pub open spec fn tay_step(s: CpuState) -> (CpuState, u8) {
    (
        (CpuState {
            y_register: s.accumulator,
            status_register: zn_flags(s.status_register, s.accumulator),
            ..s
        }),
        0,
    )
}

pub open spec fn tsx_step(s: CpuState) -> (CpuState, u8) {
    (
        (CpuState {
            x_register: s.stack_pointer,
            status_register: zn_flags(s.status_register, s.stack_pointer),
            ..s
        }),
        0,
    )
}

pub open spec fn txa_step(s: CpuState) -> (CpuState, u8) {
    (
        (CpuState {
            accumulator: s.x_register,
            status_register: zn_flags(s.status_register, s.x_register),
            ..s
        }),
        0,
    )
}

pub open spec fn txs_step(s: CpuState) -> (CpuState, u8) {
    ((CpuState { stack_pointer: s.x_register, ..s }), 0)
}

pub open spec fn tya_step(s: CpuState) -> (CpuState, u8) {
    (
        (CpuState {
            accumulator: s.y_register,
            status_register: zn_flags(s.status_register, s.y_register),
            ..s
        }),
        0,
    )
}

/// BRK: push the program counter advanced past the padding byte and
/// the status with Break set, set interrupt-disable, and enter through
/// the vector at 0xFFFE-0xFFFF.
pub open spec fn brk_step(s: CpuState) -> (CpuState, u8) {
    let pc1: u16 = wrap_add_16(s.program_counter, 1);
    let s0 = CpuState { program_counter: pc1, ..s };
    let s1 = push_step(s0, spec_high_byte(pc1));
    let s2 = push_step(s1, spec_low_byte(pc1));
    let s3 = push_step(s2, s.status_register | FLAG_BREAK | FLAG_UNUSED);
    (
        (CpuState {
            status_register: upd_flag(s3.status_register, FLAG_INTERRUPT_DISABLE, true),
            program_counter: spec_addr_from_bytes(s3.mem[0xFFFF], s3.mem[0xFFFE]),
            ..s3
        }),
        0,
    )
}

/// BIT: Zero from the conjunction with the accumulator, Negative and
/// Overflow copied from bits 7 and 6 of the operand.
pub open spec fn bit_step(s: CpuState) -> (CpuState, u8) {
    let s1 = fetch_step(s);
    let m: u8 = s1.fetched;
    let st: u8 = upd_flag(
        upd_flag(
            upd_flag(s1.status_register, FLAG_ZERO, (s1.accumulator & m) == 0),
            FLAG_NEGATIVE,
            (m & 0x80) != 0,
        ),
        FLAG_OVERFLOW,
        (m & 0x40) != 0,
    );
    ((CpuState { status_register: st, ..s1 }), 0)
}

/// The operation step: the register / flag / memory transformation of
/// one operation applied to the state left by addressing-mode
/// resolution, and the extra cycle count it owes.  NOP and the
/// unofficial opcodes leave the state unchanged, a documented no-op.
pub open spec fn op_step(op: Opcode, s: CpuState) -> (CpuState, u8) {
    match op {
        Opcode::ADC => adc_step(s),
        Opcode::SBC => sbc_step(s),
        Opcode::AND => and_step(s),
        Opcode::EOR => eor_step(s),
        Opcode::ORA => ora_step(s),
        Opcode::ASL => asl_step(s),
        Opcode::LSR => lsr_step(s),
        Opcode::ROL => rol_step(s),
        Opcode::ROR => ror_step(s),
        Opcode::INC => inc_step(s),
        Opcode::INX => inx_step(s),
        Opcode::INY => iny_step(s),
        Opcode::DEC => dec_step(s),
        Opcode::DEX => dex_step(s),
        Opcode::DEY => dey_step(s),
        Opcode::LDA => lda_step(s),
        Opcode::LDX => ldx_step(s),
        Opcode::LDY => ldy_step(s),
        Opcode::STA => store_step(s, s.accumulator),
        Opcode::STX => store_step(s, s.x_register),
        Opcode::STY => store_step(s, s.y_register),
        Opcode::SEC => flag_step(s, FLAG_CARRY, true),
        Opcode::SED => flag_step(s, FLAG_DECIMAL, true),
        Opcode::SEI => flag_step(s, FLAG_INTERRUPT_DISABLE, true),
        Opcode::CLC => flag_step(s, FLAG_CARRY, false),
        Opcode::CLD => flag_step(s, FLAG_DECIMAL, false),
        Opcode::CLI => flag_step(s, FLAG_INTERRUPT_DISABLE, false),
        Opcode::CLV => flag_step(s, FLAG_OVERFLOW, false),
        Opcode::CMP => compare_step(s, s.accumulator),
        Opcode::CPX => compare_step(s, s.x_register),
        Opcode::CPY => compare_step(s, s.y_register),
        Opcode::JMP => jmp_step(s),
        Opcode::JSR => jsr_step(s),
        Opcode::RTI => rti_step(s),
        Opcode::RTS => rts_step(s),
        Opcode::BCC => branch_step(s, !get_flag(s.status_register, FLAG_CARRY)),
        Opcode::BCS => branch_step(s, get_flag(s.status_register, FLAG_CARRY)),
        Opcode::BEQ => branch_step(s, get_flag(s.status_register, FLAG_ZERO)),
        Opcode::BMI => branch_step(s, get_flag(s.status_register, FLAG_NEGATIVE)),
        Opcode::BNE => branch_step(s, !get_flag(s.status_register, FLAG_ZERO)),
        Opcode::BPL => branch_step(s, !get_flag(s.status_register, FLAG_NEGATIVE)),
        Opcode::BVC => branch_step(s, !get_flag(s.status_register, FLAG_OVERFLOW)),
        Opcode::BVS => branch_step(s, get_flag(s.status_register, FLAG_OVERFLOW)),
        Opcode::PHA => pha_step(s),
        Opcode::PHP => php_step(s),
        Opcode::PLA => pla_step(s),
        Opcode::PLP => plp_step(s),
        Opcode::TAX => tax_step(s),
        Opcode::TAY => tay_step(s),
        Opcode::TSX => tsx_step(s),
        Opcode::TXA => txa_step(s),
        Opcode::TXS => txs_step(s),
        Opcode::TYA => tya_step(s),
        Opcode::BRK => brk_step(s),
        Opcode::BIT => bit_step(s),
        Opcode::NOP => (s, 0),
        Opcode::ALR => (s, 0),
        Opcode::ANC => (s, 0),
        Opcode::ARR => (s, 0),
        Opcode::AXS => (s, 0),
        Opcode::LAX => (s, 0),
        Opcode::SAX => (s, 0),
        Opcode::DCP => (s, 0),
        Opcode::ISC => (s, 0),
        Opcode::RLA => (s, 0),
        Opcode::RRA => (s, 0),
        Opcode::SLO => (s, 0),
        Opcode::SRE => (s, 0),
        Opcode::SKB => (s, 0),
        Opcode::IGN => (s, 0),
    }
}

/// Operation execution never touches the cycle counter; timing is
/// accounted for entirely by the clock driver.
pub proof fn lemma_op_preserves_cycles(op: Opcode, s: CpuState)
    ensures
        op_step(op, s).0.cycles == s.cycles,
{
}

impl Opcode {
    /// Executes this operation against the processor, whose addressing
    /// scratch state has already been resolved, and returns the extra
    /// cycle count the operation owes (branches only).
    pub fn execute(&self, cpu: &mut Cpu6502) -> (r: u8)
        requires
            old(cpu).wf(),
        ensures
            final(cpu).wf(),
            final(cpu)@ == op_step(*self, old(cpu)@).0,
            r == op_step(*self, old(cpu)@).1,
            r <= 2,
    {
        match self {
            Opcode::ADC => cpu.op_adc(),
            Opcode::SBC => cpu.op_sbc(),
            Opcode::AND => cpu.op_and(),
            Opcode::EOR => cpu.op_eor(),
            Opcode::ORA => cpu.op_ora(),
            Opcode::ASL => cpu.op_asl(),
            Opcode::LSR => cpu.op_lsr(),
            Opcode::ROL => cpu.op_rol(),
            Opcode::ROR => cpu.op_ror(),
            Opcode::INC => cpu.op_inc(),
            Opcode::INX => cpu.op_inx(),
            Opcode::INY => cpu.op_iny(),
            Opcode::DEC => cpu.op_dec(),
            Opcode::DEX => cpu.op_dex(),
            Opcode::DEY => cpu.op_dey(),
            Opcode::LDA => cpu.op_lda(),
            Opcode::LDX => cpu.op_ldx(),
            Opcode::LDY => cpu.op_ldy(),
            Opcode::STA => {
                let value: u8 = cpu.accumulator;
                cpu.op_store(value)
            },
            Opcode::STX => {
                let value: u8 = cpu.x_register;
                cpu.op_store(value)
            },
            Opcode::STY => {
                let value: u8 = cpu.y_register;
                cpu.op_store(value)
            },
            Opcode::SEC => cpu.op_flag(FLAG_CARRY, true),
            Opcode::SED => cpu.op_flag(FLAG_DECIMAL, true),
            Opcode::SEI => cpu.op_flag(FLAG_INTERRUPT_DISABLE, true),
            Opcode::CLC => cpu.op_flag(FLAG_CARRY, false),
            Opcode::CLD => cpu.op_flag(FLAG_DECIMAL, false),
            Opcode::CLI => cpu.op_flag(FLAG_INTERRUPT_DISABLE, false),
            Opcode::CLV => cpu.op_flag(FLAG_OVERFLOW, false),
            Opcode::CMP => {
                let reg: u8 = cpu.accumulator;
                cpu.op_compare(reg)
            },
            Opcode::CPX => {
                let reg: u8 = cpu.x_register;
                cpu.op_compare(reg)
            },
            Opcode::CPY => {
                let reg: u8 = cpu.y_register;
                cpu.op_compare(reg)
            },
            Opcode::JMP => cpu.op_jmp(),
            Opcode::JSR => cpu.op_jsr(),
            Opcode::RTI => cpu.op_rti(),
            Opcode::RTS => cpu.op_rts(),
            Opcode::BCC => {
                let taken: bool = (cpu.status_register & FLAG_CARRY) == 0;
                cpu.op_branch(taken)
            },
            Opcode::BCS => {
                let taken: bool = (cpu.status_register & FLAG_CARRY) != 0;
                cpu.op_branch(taken)
            },
            Opcode::BEQ => {
                let taken: bool = (cpu.status_register & FLAG_ZERO) != 0;
                cpu.op_branch(taken)
            },
            Opcode::BMI => {
                let taken: bool = (cpu.status_register & FLAG_NEGATIVE) != 0;
                cpu.op_branch(taken)
            },
            Opcode::BNE => {
                let taken: bool = (cpu.status_register & FLAG_ZERO) == 0;
                cpu.op_branch(taken)
            },
            Opcode::BPL => {
                let taken: bool = (cpu.status_register & FLAG_NEGATIVE) == 0;
                cpu.op_branch(taken)
            },
            Opcode::BVC => {
                let taken: bool = (cpu.status_register & FLAG_OVERFLOW) == 0;
                cpu.op_branch(taken)
            },
            Opcode::BVS => {
                let taken: bool = (cpu.status_register & FLAG_OVERFLOW) != 0;
                cpu.op_branch(taken)
            },
            Opcode::PHA => cpu.op_pha(),
            Opcode::PHP => cpu.op_php(),
            Opcode::PLA => cpu.op_pla(),
            Opcode::PLP => cpu.op_plp(),
            Opcode::TAX => cpu.op_tax(),
            Opcode::TAY => cpu.op_tay(),
            Opcode::TSX => cpu.op_tsx(),
            Opcode::TXA => cpu.op_txa(),
            Opcode::TXS => cpu.op_txs(),
            Opcode::TYA => cpu.op_tya(),
            Opcode::BRK => cpu.op_brk(),
            Opcode::BIT => cpu.op_bit(),
            Opcode::NOP => 0,
            Opcode::ALR => 0,
            Opcode::ANC => 0,
            Opcode::ARR => 0,
            Opcode::AXS => 0,
            Opcode::LAX => 0,
            Opcode::SAX => 0,
            Opcode::DCP => 0,
            Opcode::ISC => 0,
            Opcode::RLA => 0,
            Opcode::RRA => 0,
            Opcode::SLO => 0,
            Opcode::SRE => 0,
            Opcode::SKB => 0,
            Opcode::IGN => 0,
        }
    }
}

impl Cpu6502 {
    /// Whether the latched instruction's addressing mode is Accumulator.
    fn is_accumulator_mode(&self) -> (r: bool)
        ensures
            r == (current_mode(self@) == AddressingMode::Accumulator),
    {
        match to_instruction(self.opcode) {
            Some(instruction) => instruction.addressing_mode == AddressingMode::Accumulator,
            None => false,
        }
    }

    fn op_adc(&mut self) -> (r: u8)
        requires
            old(self).wf(),
        ensures
            final(self).wf(),
            final(self)@ == adc_step(old(self)@).0,
            r == adc_step(old(self)@).1,
    {
        let m: u8 = self.fetch();
        let a: u8 = self.accumulator;
        let carry_in: bool = (self.status_register & FLAG_CARRY) != 0;
        let sum: u32 = a as u32 + m as u32 + (if carry_in {
            1u32
        } else {
            0u32
        });
        let result: u8 = if sum > 255 {
            (sum - 256) as u8
        } else {
            sum as u8
        };
        let overflow: bool = ((a >= 0x80) == (m >= 0x80)) && ((a >= 0x80) != (result >= 0x80));
        let st1: u8 = set_flag_val(self.status_register, FLAG_CARRY, sum > 255);
        let st2: u8 = set_flag_val(st1, FLAG_OVERFLOW, overflow);
        self.status_register = set_zn(st2, result);
        self.accumulator = result;
        proof {
            assert(self@ =~= adc_step(old(self)@).0);
        }
        0
    }

    fn op_sbc(&mut self) -> (r: u8)
        requires
            old(self).wf(),
        ensures
            final(self).wf(),
            final(self)@ == sbc_step(old(self)@).0,
            r == sbc_step(old(self)@).1,
    {
        let m: u8 = self.fetch() ^ 0xFF;
        let a: u8 = self.accumulator;
        let carry_in: bool = (self.status_register & FLAG_CARRY) != 0;
        let sum: u32 = a as u32 + m as u32 + (if carry_in {
            1u32
        } else {
            0u32
        });
        let result: u8 = if sum > 255 {
            (sum - 256) as u8
        } else {
            sum as u8
        };
        let overflow: bool = ((a >= 0x80) == (m >= 0x80)) && ((a >= 0x80) != (result >= 0x80));
        let st1: u8 = set_flag_val(self.status_register, FLAG_CARRY, sum > 255);
        let st2: u8 = set_flag_val(st1, FLAG_OVERFLOW, overflow);
        self.status_register = set_zn(st2, result);
        self.accumulator = result;
        proof {
            assert(self@ =~= sbc_step(old(self)@).0);
        }
        0
    }

    fn op_and(&mut self) -> (r: u8)
        requires
            old(self).wf(),
        ensures
            final(self).wf(),
            final(self)@ == and_step(old(self)@).0,
            r == and_step(old(self)@).1,
    {
        let m: u8 = self.fetch();
        let result: u8 = self.accumulator & m;
        self.status_register = set_zn(self.status_register, result);
        self.accumulator = result;
        proof {
            assert(self@ =~= and_step(old(self)@).0);
        }
        0
    }

    fn op_eor(&mut self) -> (r: u8)
        requires
            old(self).wf(),
        ensures
            final(self).wf(),
            final(self)@ == eor_step(old(self)@).0,
            r == eor_step(old(self)@).1,
    {
        let m: u8 = self.fetch();
        let result: u8 = self.accumulator ^ m;
        self.status_register = set_zn(self.status_register, result);
        self.accumulator = result;
        proof {
            assert(self@ =~= eor_step(old(self)@).0);
        }
        0
    }

    fn op_ora(&mut self) -> (r: u8)
        requires
            old(self).wf(),
        ensures
            final(self).wf(),
            final(self)@ == ora_step(old(self)@).0,
            r == ora_step(old(self)@).1,
    {
        let m: u8 = self.fetch();
        let result: u8 = self.accumulator | m;
        self.status_register = set_zn(self.status_register, result);
        self.accumulator = result;
        proof {
            assert(self@ =~= ora_step(old(self)@).0);
        }
        0
    }

    /// Stores a shift result where the addressing mode directs.
    fn shift_store(&mut self, acc_mode: bool, result: u8)
        requires
            old(self).wf(),
        ensures
            final(self).wf(),
            acc_mode ==> final(self)@ == (CpuState { accumulator: result, ..old(self)@ }),
            !acc_mode ==> final(self)@ == (CpuState {
                mem: old(self)@.mem.update(old(self)@.address_absolute as int, result),
                ..old(self)@
            }),
    {
        if acc_mode {
            self.accumulator = result;
            proof {
                assert(self@ =~= (CpuState { accumulator: result, ..old(self)@ }));
            }
        } else {
            let address: u16 = self.address_absolute;
            self.write_u8(address, result);
        }
    }

    fn op_asl(&mut self) -> (r: u8)
        requires
            old(self).wf(),
        ensures
            final(self).wf(),
            final(self)@ == asl_step(old(self)@).0,
            r == asl_step(old(self)@).1,
    {
        let f: u8 = self.fetch();
        let acc_mode: bool = self.is_accumulator_mode();
        let v: u8 = if acc_mode {
            self.accumulator
        } else {
            f
        };
        let t: u16 = v as u16 * 2;
        let result: u8 = if t > 255 {
            (t - 256) as u8
        } else {
            t as u8
        };
        self.status_register = set_zn(
            set_flag_val(self.status_register, FLAG_CARRY, v >= 0x80),
            result,
        );
        self.shift_store(acc_mode, result);
        proof {
            assert(self@ =~= asl_step(old(self)@).0);
        }
        0
    }

    fn op_lsr(&mut self) -> (r: u8)
        requires
            old(self).wf(),
        ensures
            final(self).wf(),
            final(self)@ == lsr_step(old(self)@).0,
            r == lsr_step(old(self)@).1,
    {
        let f: u8 = self.fetch();
        let acc_mode: bool = self.is_accumulator_mode();
        let v: u8 = if acc_mode {
            self.accumulator
        } else {
            f
        };
        let result: u8 = v / 2;
        self.status_register = set_zn(
            set_flag_val(self.status_register, FLAG_CARRY, (v & 1) != 0),
            result,
        );
        self.shift_store(acc_mode, result);
        proof {
            assert(self@ =~= lsr_step(old(self)@).0);
        }
        0
    }

    fn op_rol(&mut self) -> (r: u8)
        requires
            old(self).wf(),
        ensures
            final(self).wf(),
            final(self)@ == rol_step(old(self)@).0,
            r == rol_step(old(self)@).1,
    {
        let f: u8 = self.fetch();
        let acc_mode: bool = self.is_accumulator_mode();
        let v: u8 = if acc_mode {
            self.accumulator
        } else {
            f
        };
        let carry_in: bool = (self.status_register & FLAG_CARRY) != 0;
        let t: u16 = v as u16 * 2 + (if carry_in {
            1u16
        } else {
            0u16
        });
        let result: u8 = if t > 255 {
            (t - 256) as u8
        } else {
            t as u8
        };
        self.status_register = set_zn(
            set_flag_val(self.status_register, FLAG_CARRY, v >= 0x80),
            result,
        );
        self.shift_store(acc_mode, result);
        proof {
            assert(self@ =~= rol_step(old(self)@).0);
        }
        0
    }

    fn op_ror(&mut self) -> (r: u8)
        requires
            old(self).wf(),
        ensures
            final(self).wf(),
            final(self)@ == ror_step(old(self)@).0,
            r == ror_step(old(self)@).1,
    {
        let f: u8 = self.fetch();
        let acc_mode: bool = self.is_accumulator_mode();
        let v: u8 = if acc_mode {
            self.accumulator
        } else {
            f
        };
        let carry_in: bool = (self.status_register & FLAG_CARRY) != 0;
        let result: u8 = v / 2 + (if carry_in {
            128u8
        } else {
            0u8
        });
        self.status_register = set_zn(
            set_flag_val(self.status_register, FLAG_CARRY, (v & 1) != 0),
            result,
        );
        self.shift_store(acc_mode, result);
        proof {
            assert(self@ =~= ror_step(old(self)@).0);
        }
        0
    }

    fn op_inc(&mut self) -> (r: u8)
        requires
            old(self).wf(),
        ensures
            final(self).wf(),
            final(self)@ == inc_step(old(self)@).0,
            r == inc_step(old(self)@).1,
    {
        let m: u8 = self.fetch();
        let result: u8 = wrapping_add_u8(m, 1);
        self.status_register = set_zn(self.status_register, result);
        let address: u16 = self.address_absolute;
        self.write_u8(address, result);
        proof {
            assert(self@ =~= inc_step(old(self)@).0);
        }
        0
    }

    fn op_dec(&mut self) -> (r: u8)
        requires
            old(self).wf(),
        ensures
            final(self).wf(),
            final(self)@ == dec_step(old(self)@).0,
            r == dec_step(old(self)@).1,
    {
        let m: u8 = self.fetch();
        let result: u8 = wrapping_sub_u8(m, 1);
        self.status_register = set_zn(self.status_register, result);
        let address: u16 = self.address_absolute;
        self.write_u8(address, result);
        proof {
            assert(self@ =~= dec_step(old(self)@).0);
        }
        0
    }

    fn op_inx(&mut self) -> (r: u8)
        requires
            old(self).wf(),
        ensures
            final(self).wf(),
            final(self)@ == inx_step(old(self)@).0,
            r == inx_step(old(self)@).1,
    {
        let result: u8 = wrapping_add_u8(self.x_register, 1);
        self.x_register = result;
        self.status_register = set_zn(self.status_register, result);
        proof {
            assert(self@ =~= inx_step(old(self)@).0);
        }
        0
    }

    fn op_iny(&mut self) -> (r: u8)
        requires
            old(self).wf(),
        ensures
            final(self).wf(),
            final(self)@ == iny_step(old(self)@).0,
            r == iny_step(old(self)@).1,
    {
        let result: u8 = wrapping_add_u8(self.y_register, 1);
        self.y_register = result;
        self.status_register = set_zn(self.status_register, result);
        proof {
            assert(self@ =~= iny_step(old(self)@).0);
        }
        0
    }

    fn op_dex(&mut self) -> (r: u8)
        requires
            old(self).wf(),
        ensures
            final(self).wf(),
            final(self)@ == dex_step(old(self)@).0,
            r == dex_step(old(self)@).1,
    {
        let result: u8 = wrapping_sub_u8(self.x_register, 1);
        self.x_register = result;
        self.status_register = set_zn(self.status_register, result);
        proof {
            assert(self@ =~= dex_step(old(self)@).0);
        }
        0
    }

    fn op_dey(&mut self) -> (r: u8)
        requires
            old(self).wf(),
        ensures
            final(self).wf(),
            final(self)@ == dey_step(old(self)@).0,
            r == dey_step(old(self)@).1,
    {
        let result: u8 = wrapping_sub_u8(self.y_register, 1);
        self.y_register = result;
        self.status_register = set_zn(self.status_register, result);
        proof {
            assert(self@ =~= dey_step(old(self)@).0);
        }
        0
    }

    fn op_lda(&mut self) -> (r: u8)
        requires
            old(self).wf(),
        ensures
            final(self).wf(),
            final(self)@ == lda_step(old(self)@).0,
            r == lda_step(old(self)@).1,
    {
        let m: u8 = self.fetch();
        self.accumulator = m;
        self.status_register = set_zn(self.status_register, m);
        proof {
            assert(self@ =~= lda_step(old(self)@).0);
        }
        0
    }

    fn op_ldx(&mut self) -> (r: u8)
        requires
            old(self).wf(),
        ensures
            final(self).wf(),
            final(self)@ == ldx_step(old(self)@).0,
            r == ldx_step(old(self)@).1,
    {
        let m: u8 = self.fetch();
        self.x_register = m;
        self.status_register = set_zn(self.status_register, m);
        proof {
            assert(self@ =~= ldx_step(old(self)@).0);
        }
        0
    }

    fn op_ldy(&mut self) -> (r: u8)
        requires
            old(self).wf(),
        ensures
            final(self).wf(),
            final(self)@ == ldy_step(old(self)@).0,
            r == ldy_step(old(self)@).1,
    {
        let m: u8 = self.fetch();
        self.y_register = m;
        self.status_register = set_zn(self.status_register, m);
        proof {
            assert(self@ =~= ldy_step(old(self)@).0);
        }
        0
    }

    fn op_store(&mut self, value: u8) -> (r: u8)
        requires
            old(self).wf(),
        ensures
            final(self).wf(),
            final(self)@ == store_step(old(self)@, value).0,
            r == store_step(old(self)@, value).1,
    {
        let address: u16 = self.address_absolute;
        self.write_u8(address, value);
        proof {
            assert(self@ =~= store_step(old(self)@, value).0);
        }
        0
    }

    fn op_flag(&mut self, mask: u8, on: bool) -> (r: u8)
        requires
            old(self).wf(),
        ensures
            final(self).wf(),
            final(self)@ == flag_step(old(self)@, mask, on).0,
            r == flag_step(old(self)@, mask, on).1,
    {
        self.status_register = set_flag_val(self.status_register, mask, on);
        proof {
            assert(self@ =~= flag_step(old(self)@, mask, on).0);
        }
        0
    }

    fn op_compare(&mut self, reg: u8) -> (r: u8)
        requires
            old(self).wf(),
        ensures
            final(self).wf(),
            final(self)@ == compare_step(old(self)@, reg).0,
            r == compare_step(old(self)@, reg).1,
    {
        let m: u8 = self.fetch();
        let diff: u8 = wrapping_sub_u8(reg, m);
        self.status_register = set_zn(
            set_flag_val(self.status_register, FLAG_CARRY, reg >= m),
            diff,
        );
        proof {
            assert(self@ =~= compare_step(old(self)@, reg).0);
        }
        0
    }

    fn op_jmp(&mut self) -> (r: u8)
        requires
            old(self).wf(),
        ensures
            final(self).wf(),
            final(self)@ == jmp_step(old(self)@).0,
            r == jmp_step(old(self)@).1,
    {
        self.program_counter = self.address_absolute;
        proof {
            assert(self@ =~= jmp_step(old(self)@).0);
        }
        0
    }

    fn op_jsr(&mut self) -> (r: u8)
        requires
            old(self).wf(),
        ensures
            final(self).wf(),
            final(self)@ == jsr_step(old(self)@).0,
            r == jsr_step(old(self)@).1,
    {
        let ret: u16 = wrapping_sub_u16(self.program_counter, 1);
        self.push(high_byte(ret));
        self.push(low_byte(ret));
        self.program_counter = self.address_absolute;
        proof {
            assert(self@ =~= jsr_step(old(self)@).0);
        }
        0
    }

    fn op_rts(&mut self) -> (r: u8)
        requires
            old(self).wf(),
        ensures
            final(self).wf(),
            final(self)@ == rts_step(old(self)@).0,
            r == rts_step(old(self)@).1,
    {
        let lo: u8 = self.pull();
        let hi: u8 = self.pull();
        self.program_counter = wrapping_add_u16(addr_from_bytes(hi, lo), 1);
        proof {
            assert(self@ =~= rts_step(old(self)@).0);
        }
        0
    }

    fn op_rti(&mut self) -> (r: u8)
        requires
            old(self).wf(),
        ensures
            final(self).wf(),
            final(self)@ == rti_step(old(self)@).0,
            r == rti_step(old(self)@).1,
    {
        let st: u8 = self.pull();
        let lo: u8 = self.pull();
        let hi: u8 = self.pull();
        self.status_register = set_flag_val(set_flag_val(st, FLAG_BREAK, false), FLAG_UNUSED, true);
        self.program_counter = addr_from_bytes(hi, lo);
        proof {
            assert(self@ =~= rti_step(old(self)@).0);
        }
        0
    }

    fn op_branch(&mut self, taken: bool) -> (r: u8)
        requires
            old(self).wf(),
        ensures
            final(self).wf(),
            final(self)@ == branch_step(old(self)@, taken).0,
            r == branch_step(old(self)@, taken).1,
            r <= 2,
    {
        if taken {
            let target: u16 = wrapping_add_u16(self.program_counter, self.address_relative);
            let extra: u8 = if target & 0xFF00 != self.program_counter & 0xFF00 {
                2
            } else {
                1
            };
            self.address_absolute = target;
            self.program_counter = target;
            proof {
                assert(self@ =~= branch_step(old(self)@, taken).0);
            }
            extra
        } else {
            0
        }
    }

    fn op_pha(&mut self) -> (r: u8)
        requires
            old(self).wf(),
        ensures
            final(self).wf(),
            final(self)@ == pha_step(old(self)@).0,
            r == pha_step(old(self)@).1,
    {
        let value: u8 = self.accumulator;
        self.push(value);
        0
    }

    fn op_php(&mut self) -> (r: u8)
        requires
            old(self).wf(),
        ensures
            final(self).wf(),
            final(self)@ == php_step(old(self)@).0,
            r == php_step(old(self)@).1,
    {
        let value: u8 = self.status_register | FLAG_BREAK | FLAG_UNUSED;
        self.push(value);
        0
    }

    fn op_pla(&mut self) -> (r: u8)
        requires
            old(self).wf(),
        ensures
            final(self).wf(),
            final(self)@ == pla_step(old(self)@).0,
            r == pla_step(old(self)@).1,
    {
        let value: u8 = self.pull();
        self.accumulator = value;
        self.status_register = set_zn(self.status_register, value);
        proof {
            assert(self@ =~= pla_step(old(self)@).0);
        }
        0
    }

    fn op_plp(&mut self) -> (r: u8)
        requires
            old(self).wf(),
        ensures
            final(self).wf(),
            final(self)@ == plp_step(old(self)@).0,
            r == plp_step(old(self)@).1,
    {
        let value: u8 = self.pull();
        self.status_register = set_flag_val(
            set_flag_val(value, FLAG_BREAK, false),
            FLAG_UNUSED,
            true,
        );
        proof {
            assert(self@ =~= plp_step(old(self)@).0);
        }
        0
    }

    fn op_tax(&mut self) -> (r: u8)
        requires
            old(self).wf(),
        ensures
            final(self).wf(),
            final(self)@ == tax_step(old(self)@).0,
            r == tax_step(old(self)@).1,
    {
        let value: u8 = self.accumulator;
        self.x_register = value;
        self.status_register = set_zn(self.status_register, value);
        proof {
            assert(self@ =~= tax_step(old(self)@).0);
        }
        0
    }

    fn op_tay(&mut self) -> (r: u8)
        requires
            old(self).wf(),
        ensures
            final(self).wf(),
            final(self)@ == tay_step(old(self)@).0,
            r == tay_step(old(self)@).1,
    {
        let value: u8 = self.accumulator;
        self.y_register = value;
        self.status_register = set_zn(self.status_register, value);
        proof {
            assert(self@ =~= tay_step(old(self)@).0);
        }
        0
    }

    fn op_tsx(&mut self) -> (r: u8)
        requires
            old(self).wf(),
        ensures
            final(self).wf(),
            final(self)@ == tsx_step(old(self)@).0,
            r == tsx_step(old(self)@).1,
    {
        let value: u8 = self.stack_pointer;
        self.x_register = value;
        self.status_register = set_zn(self.status_register, value);
        proof {
            assert(self@ =~= tsx_step(old(self)@).0);
        }
        0
    }

    fn op_txa(&mut self) -> (r: u8)
        requires
            old(self).wf(),
        ensures
            final(self).wf(),
            final(self)@ == txa_step(old(self)@).0,
            r == txa_step(old(self)@).1,
    {
        let value: u8 = self.x_register;
        self.accumulator = value;
        self.status_register = set_zn(self.status_register, value);
        proof {
            assert(self@ =~= txa_step(old(self)@).0);
        }
        0
    }

    fn op_txs(&mut self) -> (r: u8)
        requires
            old(self).wf(),
        ensures
            final(self).wf(),
            final(self)@ == txs_step(old(self)@).0,
            r == txs_step(old(self)@).1,
    {
        self.stack_pointer = self.x_register;
        proof {
            assert(self@ =~= txs_step(old(self)@).0);
        }
        0
    }

    fn op_tya(&mut self) -> (r: u8)
        requires
            old(self).wf(),
        ensures
            final(self).wf(),
            final(self)@ == tya_step(old(self)@).0,
            r == tya_step(old(self)@).1,
    {
        let value: u8 = self.y_register;
        self.accumulator = value;
        self.status_register = set_zn(self.status_register, value);
        proof {
            assert(self@ =~= tya_step(old(self)@).0);
        }
        0
    }

    fn op_brk(&mut self) -> (r: u8)
        requires
            old(self).wf(),
        ensures
            final(self).wf(),
            final(self)@ == brk_step(old(self)@).0,
            r == brk_step(old(self)@).1,
    {
        let pc1: u16 = wrapping_add_u16(self.program_counter, 1);
        self.program_counter = pc1;
        self.push(high_byte(pc1));
        self.push(low_byte(pc1));
        let pushed: u8 = self.status_register | FLAG_BREAK | FLAG_UNUSED;
        self.push(pushed);
        self.status_register = set_flag_val(self.status_register, FLAG_INTERRUPT_DISABLE, true);
        let lo: u8 = self.read_u8(0xFFFE);
        let hi: u8 = self.read_u8(0xFFFF);
        self.program_counter = addr_from_bytes(hi, lo);
        proof {
            assert(self@ =~= brk_step(old(self)@).0);
        }
        0
    }

    fn op_bit(&mut self) -> (r: u8)
        requires
            old(self).wf(),
        ensures
            final(self).wf(),
            final(self)@ == bit_step(old(self)@).0,
            r == bit_step(old(self)@).1,
    {
        let m: u8 = self.fetch();
        let st1: u8 = set_flag_val(self.status_register, FLAG_ZERO, (self.accumulator & m) == 0);
        let st2: u8 = set_flag_val(st1, FLAG_NEGATIVE, (m & 0x80) != 0);
        self.status_register = set_flag_val(st2, FLAG_OVERFLOW, (m & 0x40) != 0);
        proof {
            assert(self@ =~= bit_step(old(self)@).0);
        }
        0
    }
}

/// For every binary ALU operation the Zero flag of the resulting state
/// is set iff the result byte in the accumulator equals 0, and the
/// Negative flag equals bit 7 of that byte.
pub proof fn lemma_alu_zero_negative_flags(op: Opcode, s: CpuState)
    requires
        op == Opcode::ADC || op == Opcode::SBC || op == Opcode::AND || op == Opcode::EOR || op
            == Opcode::ORA,
    ensures
        get_flag(op_step(op, s).0.status_register, FLAG_ZERO) <==> op_step(op, s).0.accumulator
            == 0,
        get_flag(op_step(op, s).0.status_register, FLAG_NEGATIVE) <==> (op_step(
            op,
            s,
        ).0.accumulator & 0x80) != 0,
{
    let s1 = fetch_step(s);
    let a: u8 = s1.accumulator;
    let c: bool = get_flag(s1.status_register, FLAG_CARRY);
    if op == Opcode::ADC {
        let m: u8 = s1.fetched;
        lemma_zn_flags(
            upd_flag(
                upd_flag(s1.status_register, FLAG_CARRY, adc_carry(a, m, c)),
                FLAG_OVERFLOW,
                adc_overflow(a, m, c),
            ),
            adc_result(a, m, c),
        );
    } else if op == Opcode::SBC {
        let m: u8 = s1.fetched ^ 0xFF;
        lemma_zn_flags(
            upd_flag(
                upd_flag(s1.status_register, FLAG_CARRY, adc_carry(a, m, c)),
                FLAG_OVERFLOW,
                adc_overflow(a, m, c),
            ),
            adc_result(a, m, c),
        );
    } else if op == Opcode::AND {
        lemma_zn_flags(s1.status_register, a & s1.fetched);
    } else if op == Opcode::EOR {
        lemma_zn_flags(s1.status_register, a ^ s1.fetched);
    } else {
        lemma_zn_flags(s1.status_register, a | s1.fetched);
    }
}

/// The addition overflow predicate coincides with the two's-complement
/// overflow law: the signed sum of the operands and the carry-in lies
/// outside the representable range -128..=127.
pub proof fn lemma_adc_overflow_law(a: u8, m: u8, carry_in: bool)
    ensures
        adc_overflow(a, m, carry_in) <==> !(-128 <= signed(a) + signed(m) + (if carry_in {
            1int
        } else {
            0int
        }) <= 127),
{
}

/// The SBC overflow predicate, which is the addition law applied to
/// the operand's ones' complement, coincides with the two's-complement
/// law for subtraction with borrow.
pub proof fn lemma_sbc_overflow_law(a: u8, m: u8, carry_in: bool)
    ensures
        adc_overflow(a, m ^ 0xFF, carry_in) <==> !(-128 <= signed(a) - signed(m) - (if carry_in {
            0int
        } else {
            1int
        }) <= 127),
{
    assert(m ^ 0xFF == 255 - m) by (bit_vector);
    lemma_adc_overflow_law(a, m ^ 0xFF, carry_in);
}

/// The Overflow flag produced by the ADC step obeys the
/// two's-complement overflow law for the operands it consumed.
pub proof fn lemma_adc_step_overflow_flag(s: CpuState)
    ensures
        ({
            let s1 = fetch_step(s);
            let a = s1.accumulator;
            let m = s1.fetched;
            let c = get_flag(s1.status_register, FLAG_CARRY);
            get_flag(adc_step(s).0.status_register, FLAG_OVERFLOW) <==> !(-128 <= signed(a)
                + signed(m) + (if c {
                1int
            } else {
                0int
            }) <= 127)
        }),
{
    let s1 = fetch_step(s);
    let a: u8 = s1.accumulator;
    let m: u8 = s1.fetched;
    let c: bool = get_flag(s1.status_register, FLAG_CARRY);
    let st1: u8 = upd_flag(s1.status_register, FLAG_CARRY, adc_carry(a, m, c));
    let st2: u8 = upd_flag(st1, FLAG_OVERFLOW, adc_overflow(a, m, c));
    lemma_flag_masks();
    assert(FLAG_OVERFLOW & FLAG_ZERO == 0);
    assert(FLAG_OVERFLOW & FLAG_NEGATIVE == 0);
    lemma_zn_flags(st2, adc_result(a, m, c));
    lemma_upd_flag_same(st1, FLAG_OVERFLOW, adc_overflow(a, m, c));
    lemma_adc_overflow_law(a, m, c);
}

/// The Overflow flag produced by the SBC step obeys the
/// two's-complement overflow law for subtraction with borrow.
pub proof fn lemma_sbc_step_overflow_flag(s: CpuState)
    ensures
        ({
            let s1 = fetch_step(s);
            let a = s1.accumulator;
            let m = s1.fetched;
            let c = get_flag(s1.status_register, FLAG_CARRY);
            get_flag(sbc_step(s).0.status_register, FLAG_OVERFLOW) <==> !(-128 <= signed(a)
                - signed(m) - (if c {
                0int
            } else {
                1int
            }) <= 127)
        }),
{
    let s1 = fetch_step(s);
    let a: u8 = s1.accumulator;
    let m: u8 = s1.fetched ^ 0xFF;
    let c: bool = get_flag(s1.status_register, FLAG_CARRY);
    let st1: u8 = upd_flag(s1.status_register, FLAG_CARRY, adc_carry(a, m, c));
    let st2: u8 = upd_flag(st1, FLAG_OVERFLOW, adc_overflow(a, m, c));
    lemma_flag_masks();
    assert(FLAG_OVERFLOW & FLAG_ZERO == 0);
    assert(FLAG_OVERFLOW & FLAG_NEGATIVE == 0);
    lemma_zn_flags(st2, adc_result(a, m, c));
    lemma_upd_flag_same(st1, FLAG_OVERFLOW, adc_overflow(a, m, c));
    lemma_sbc_overflow_law(a, s1.fetched, c);
}

} // verus!
