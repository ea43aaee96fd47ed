use mos6502::bus::Bus;
use mos6502::cpu_6502::Cpu6502;

const CARRY: u8 = 0x01;
const ZERO: u8 = 0x02;
const OVERFLOW: u8 = 0x40;
const NEGATIVE: u8 = 0x80;

/// Runs one two-byte immediate-mode instruction from address 0 on a
/// recycled processor and returns it for inspection.
fn run_immediate(cpu: &mut Cpu6502, opcode: u8, operand: u8, a: u8, carry: bool) {
    cpu.bus.write(0x0000, opcode);
    cpu.bus.write(0x0001, operand);
    cpu.program_counter = 0x0000;
    cpu.accumulator = a;
    cpu.status_register = if carry { 0x24 | CARRY } else { 0x24 };
    cpu.cycles = 0;
    cpu.clock().unwrap();
    while cpu.cycles > 0 {
        cpu.clock().unwrap();
    }
}

#[test]
fn adc_flags_exhaustive() {
    let mut cpu = Cpu6502::new(Bus::new());
    for a in 0..=255u8 {
        for m in 0..=255u8 {
            for carry in [false, true] {
                run_immediate(&mut cpu, 0x69, m, a, carry);
                let sum = a as u16 + m as u16 + carry as u16;
                let expected = (sum & 0xFF) as u8;
                assert_eq!(cpu.accumulator, expected);
                assert_eq!(cpu.status_register & CARRY != 0, sum > 0xFF);
                assert_eq!(cpu.status_register & ZERO != 0, expected == 0);
                assert_eq!(cpu.status_register & NEGATIVE != 0, expected & 0x80 != 0);
                let signed_sum = (a as i8) as i16 + (m as i8) as i16 + carry as i16;
                let out_of_range = signed_sum < -128 || signed_sum > 127;
                assert_eq!(cpu.status_register & OVERFLOW != 0, out_of_range);
            }
        }
    }
}

#[test]
fn sbc_flags_exhaustive() {
    let mut cpu = Cpu6502::new(Bus::new());
    for a in 0..=255u8 {
        for m in 0..=255u8 {
            for carry in [false, true] {
                run_immediate(&mut cpu, 0xE9, m, a, carry);
                let borrow = !carry as u16;
                let diff = (a as u16).wrapping_sub(m as u16).wrapping_sub(borrow);
                let expected = (diff & 0xFF) as u8;
                assert_eq!(cpu.accumulator, expected);
                // Carry is set iff no borrow out occurred.
                let no_borrow = a as u16 >= m as u16 + borrow;
                assert_eq!(cpu.status_register & CARRY != 0, no_borrow);
                assert_eq!(cpu.status_register & ZERO != 0, expected == 0);
                assert_eq!(cpu.status_register & NEGATIVE != 0, expected & 0x80 != 0);
                let signed_diff = (a as i8) as i16 - (m as i8) as i16 - borrow as i16;
                let out_of_range = signed_diff < -128 || signed_diff > 127;
                assert_eq!(cpu.status_register & OVERFLOW != 0, out_of_range);
            }
        }
    }
}

#[test]
fn logic_flags_exhaustive() {
    let mut cpu = Cpu6502::new(Bus::new());
    for a in 0..=255u8 {
        for m in 0..=255u8 {
            run_immediate(&mut cpu, 0x29, m, a, false);
            let and = a & m;
            assert_eq!(cpu.accumulator, and);
            assert_eq!(cpu.status_register & ZERO != 0, and == 0);
            assert_eq!(cpu.status_register & NEGATIVE != 0, and & 0x80 != 0);

            run_immediate(&mut cpu, 0x49, m, a, false);
            let eor = a ^ m;
            assert_eq!(cpu.accumulator, eor);
            assert_eq!(cpu.status_register & ZERO != 0, eor == 0);
            assert_eq!(cpu.status_register & NEGATIVE != 0, eor & 0x80 != 0);

            run_immediate(&mut cpu, 0x09, m, a, false);
            let ora = a | m;
            assert_eq!(cpu.accumulator, ora);
            assert_eq!(cpu.status_register & ZERO != 0, ora == 0);
            assert_eq!(cpu.status_register & NEGATIVE != 0, ora & 0x80 != 0);
        }
    }
}

#[test]
fn cmp_sets_carry_zero_negative() {
    let mut cpu = Cpu6502::new(Bus::new());
    run_immediate(&mut cpu, 0xC9, 0x20, 0x10, false);
    assert!(cpu.status_register & CARRY == 0);
    assert!(cpu.status_register & ZERO == 0);
    assert!(cpu.status_register & NEGATIVE != 0); // 0x10 - 0x20 = 0xF0
    assert_eq!(cpu.accumulator, 0x10); // compare stores nothing

    run_immediate(&mut cpu, 0xC9, 0x10, 0x10, false);
    assert!(cpu.status_register & CARRY != 0);
    assert!(cpu.status_register & ZERO != 0);

    run_immediate(&mut cpu, 0xC9, 0x0F, 0x10, false);
    assert!(cpu.status_register & CARRY != 0);
    assert!(cpu.status_register & ZERO == 0);
}
