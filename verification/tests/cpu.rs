use mos6502::bus::Bus;
use mos6502::cpu_6502::Cpu6502;
use mos6502::read::Read;
use mos6502::write::Write;

const CARRY: u8 = 0x01;
const ZERO: u8 = 0x02;
const INTERRUPT_DISABLE: u8 = 0x04;
const BREAK: u8 = 0x10;
const UNUSED: u8 = 0x20;
const OVERFLOW: u8 = 0x40;
const NEGATIVE: u8 = 0x80;

fn cpu_with_program(program: &[u8]) -> Cpu6502 {
    let mut bus = Bus::new();
    let mut address: u16 = 0;
    for &byte in program {
        bus.write(address, byte);
        address = address.wrapping_add(1);
    }
    Cpu6502::new(bus)
}

/// Drives the clock until the given number of instructions retire.
fn run_instructions(cpu: &mut Cpu6502, count: usize) {
    for _ in 0..count {
        cpu.clock().unwrap();
        while cpu.cycles > 0 {
            cpu.clock().unwrap();
        }
    }
}

#[test]
fn power_up_state() {
    let cpu = Cpu6502::new(Bus::new());
    assert_eq!(cpu.accumulator, 0);
    assert_eq!(cpu.x_register, 0);
    assert_eq!(cpu.y_register, 0);
    assert_eq!(cpu.stack_pointer, 0xFD);
    assert_eq!(cpu.status_register, UNUSED | INTERRUPT_DISABLE);
    assert_eq!(cpu.program_counter, 0);
    assert_eq!(cpu.cycles, 0);
}

#[test]
fn lda_sta_scenario() {
    // LDA #$05; STA $10
    let mut cpu = cpu_with_program(&[0xA9, 0x05, 0x85, 0x10]);
    run_instructions(&mut cpu, 2);
    assert_eq!(cpu.accumulator, 0x05);
    assert_eq!(cpu.bus.read(0x0010), Some(0x05));
    assert_eq!(cpu.bus.read_only(0x0010), Some(0x05));
}

#[test]
fn adc_carry_zero_scenario() {
    // LDA #$FF; ADC #$01
    let mut cpu = cpu_with_program(&[0xA9, 0xFF, 0x69, 0x01]);
    run_instructions(&mut cpu, 2);
    assert_eq!(cpu.accumulator, 0x00);
    assert!(cpu.status_register & CARRY != 0);
    assert!(cpu.status_register & ZERO != 0);
    assert!(cpu.status_register & OVERFLOW == 0);
}

#[test]
fn fetch_is_idempotent() {
    let mut cpu = cpu_with_program(&[]);
    cpu.opcode = 0xA5; // LDA ZeroPage: a memory-operand mode
    cpu.address_absolute = 0x0042;
    cpu.bus.write(0x0042, 0x99);
    let first = cpu.fetch();
    let second = cpu.fetch();
    assert_eq!(first, 0x99);
    assert_eq!(second, 0x99);
    assert_eq!(cpu.fetched, 0x99);
}

#[test]
fn fetch_implied_reads_nothing() {
    let mut cpu = cpu_with_program(&[]);
    cpu.opcode = 0xEA; // NOP, Implied
    cpu.fetched = 0x77;
    cpu.address_absolute = 0x0042;
    cpu.bus.write(0x0042, 0x99);
    assert_eq!(cpu.fetch(), 0x77);
}

#[test]
fn clock_reports_unassigned_opcode() {
    let mut cpu = cpu_with_program(&[0x02]);
    let err = cpu.clock().unwrap_err();
    assert_eq!(err.opcode, 0x02);
    // The fault leaves the processor untouched.
    assert_eq!(cpu.program_counter, 0);
    assert_eq!(cpu.cycles, 0);
}

#[test]
fn instruction_timing_counts_down() {
    // LDA #$05 costs 2 cycles: busy after one pulse, idle after two.
    let mut cpu = cpu_with_program(&[0xA9, 0x05]);
    cpu.clock().unwrap();
    assert_eq!(cpu.cycles, 1);
    assert_eq!(cpu.accumulator, 0x05); // effects applied atomically
    cpu.clock().unwrap();
    assert_eq!(cpu.cycles, 0);
}

#[test]
fn lda_absolute_x_page_cross_timing() {
    // LDA $00FF,X with X = 1 crosses a page: 4 + 1 cycles.
    let mut cpu = cpu_with_program(&[0xBD, 0xFF, 0x00]);
    cpu.x_register = 1;
    cpu.bus.write(0x0100, 0xAB);
    cpu.clock().unwrap();
    assert_eq!(cpu.cycles, 4);
    assert_eq!(cpu.accumulator, 0xAB);
}

#[test]
fn branch_taken_and_not_taken_timing() {
    // BEQ +16 with Zero set: taken, same page: 2 + 1 cycles.
    let mut cpu = cpu_with_program(&[0xF0, 0x10]);
    cpu.status_register |= ZERO;
    cpu.clock().unwrap();
    assert_eq!(cpu.program_counter, 0x0012);
    assert_eq!(cpu.cycles, 2);

    // BEQ with Zero clear: not taken, 2 cycles, fall through.
    let mut cpu2 = cpu_with_program(&[0xF0, 0x10]);
    cpu2.clock().unwrap();
    assert_eq!(cpu2.program_counter, 0x0002);
    assert_eq!(cpu2.cycles, 1);
}

#[test]
fn branch_page_cross_costs_two_extra() {
    // BNE -3 from address 0: target 0xFFFF lies in another page.
    let mut cpu = cpu_with_program(&[0xD0, 0xFD]);
    cpu.clock().unwrap();
    assert_eq!(cpu.program_counter, 0xFFFF);
    assert_eq!(cpu.cycles, 3); // 2 base + 2 extra - 1 pulse
}

#[test]
fn jsr_rts_round_trip() {
    // JSR $0010 ... at $0010: RTS
    let mut cpu = cpu_with_program(&[0x20, 0x10, 0x00]);
    cpu.bus.write(0x0010, 0x60);
    run_instructions(&mut cpu, 1);
    assert_eq!(cpu.program_counter, 0x0010);
    assert_eq!(cpu.stack_pointer, 0xFB);
    run_instructions(&mut cpu, 1);
    assert_eq!(cpu.program_counter, 0x0003);
    assert_eq!(cpu.stack_pointer, 0xFD);
}

#[test]
fn pha_pla_round_trip() {
    // LDA #$7F; PHA; LDA #$00; PLA
    let mut cpu = cpu_with_program(&[0xA9, 0x7F, 0x48, 0xA9, 0x00, 0x68]);
    run_instructions(&mut cpu, 4);
    assert_eq!(cpu.accumulator, 0x7F);
    assert!(cpu.status_register & ZERO == 0);
    assert!(cpu.status_register & NEGATIVE == 0);
    assert_eq!(cpu.stack_pointer, 0xFD);
}

#[test]
fn php_plp_round_trip_forces_unused_clears_break() {
    // SEC; PHP; CLC; PLP
    let mut cpu = cpu_with_program(&[0x38, 0x08, 0x18, 0x28]);
    run_instructions(&mut cpu, 4);
    assert!(cpu.status_register & CARRY != 0);
    assert!(cpu.status_register & BREAK == 0);
    assert!(cpu.status_register & UNUSED != 0);
}

#[test]
fn flag_set_and_clear() {
    let mut cpu = cpu_with_program(&[0x38, 0xF8, 0x18, 0xD8, 0xB8]);
    run_instructions(&mut cpu, 2);
    assert!(cpu.status_register & CARRY != 0);
    assert!(cpu.status_register & 0x08 != 0); // decimal set
    run_instructions(&mut cpu, 3);
    assert!(cpu.status_register & CARRY == 0);
    assert!(cpu.status_register & 0x08 == 0);
    assert!(cpu.status_register & OVERFLOW == 0);
}

#[test]
fn asl_accumulator_shifts_into_carry() {
    // LDA #$81; ASL A
    let mut cpu = cpu_with_program(&[0xA9, 0x81, 0x0A]);
    run_instructions(&mut cpu, 2);
    assert_eq!(cpu.accumulator, 0x02);
    assert!(cpu.status_register & CARRY != 0);
    assert!(cpu.status_register & NEGATIVE == 0);
}

#[test]
fn ror_memory_through_carry() {
    // SEC; ROR $10 with $10 = 0x02: result 0x81, carry clear.
    let mut cpu = cpu_with_program(&[0x38, 0x66, 0x10]);
    cpu.bus.write(0x0010, 0x02);
    run_instructions(&mut cpu, 2);
    assert_eq!(cpu.bus.read(0x0010), Some(0x81));
    assert!(cpu.status_register & CARRY == 0);
    assert!(cpu.status_register & NEGATIVE != 0);
}

#[test]
fn inc_dec_memory_wraparound() {
    // INC $10 with $10 = 0xFF wraps to 0 and sets Zero.
    let mut cpu = cpu_with_program(&[0xE6, 0x10, 0xC6, 0x11]);
    cpu.bus.write(0x0010, 0xFF);
    cpu.bus.write(0x0011, 0x00);
    run_instructions(&mut cpu, 1);
    assert_eq!(cpu.bus.read(0x0010), Some(0x00));
    assert!(cpu.status_register & ZERO != 0);
    run_instructions(&mut cpu, 1);
    assert_eq!(cpu.bus.read(0x0011), Some(0xFF));
    assert!(cpu.status_register & NEGATIVE != 0);
}

#[test]
fn register_increments_and_transfers() {
    // LDX #$FF; INX; LDA #$42; TAX; TXS
    let mut cpu = cpu_with_program(&[0xA2, 0xFF, 0xE8, 0xA9, 0x42, 0xAA, 0x9A]);
    run_instructions(&mut cpu, 2);
    assert_eq!(cpu.x_register, 0x00);
    assert!(cpu.status_register & ZERO != 0);
    run_instructions(&mut cpu, 3);
    assert_eq!(cpu.x_register, 0x42);
    assert_eq!(cpu.stack_pointer, 0x42);
}

#[test]
fn bit_copies_operand_bits() {
    // LDA #$0F; BIT $10 with $10 = 0xC0: Zero (no common bits),
    // Negative from bit 7, Overflow from bit 6.
    let mut cpu = cpu_with_program(&[0xA9, 0x0F, 0x24, 0x10]);
    cpu.bus.write(0x0010, 0xC0);
    run_instructions(&mut cpu, 2);
    assert!(cpu.status_register & ZERO != 0);
    assert!(cpu.status_register & NEGATIVE != 0);
    assert!(cpu.status_register & OVERFLOW != 0);
}

#[test]
fn jmp_indirect_program() {
    // JMP ($0010) with pointer 0x0200.
    let mut cpu = cpu_with_program(&[0x6C, 0x10, 0x00]);
    cpu.bus.write(0x0010, 0x00);
    cpu.bus.write(0x0011, 0x02);
    run_instructions(&mut cpu, 1);
    assert_eq!(cpu.program_counter, 0x0200);
}

#[test]
fn reset_loads_vector_and_defaults() {
    let mut cpu = cpu_with_program(&[]);
    cpu.bus.write(0xFFFC, 0x00);
    cpu.bus.write(0xFFFD, 0x80);
    cpu.accumulator = 0x55;
    cpu.reset();
    assert_eq!(cpu.program_counter, 0x8000);
    assert_eq!(cpu.accumulator, 0);
    assert_eq!(cpu.stack_pointer, 0xFD);
    assert_eq!(cpu.status_register, UNUSED | INTERRUPT_DISABLE);
    assert_eq!(cpu.cycles, 8);
}

#[test]
fn irq_respects_interrupt_disable() {
    let mut cpu = cpu_with_program(&[]);
    cpu.program_counter = 0x1234;
    // Power-up state has interrupt-disable set: the request is ignored.
    cpu.interrupt_request_signal();
    assert_eq!(cpu.program_counter, 0x1234);

    cpu.status_register &= !INTERRUPT_DISABLE;
    cpu.bus.write(0xFFFE, 0x00);
    cpu.bus.write(0xFFFF, 0x90);
    cpu.interrupt_request_signal();
    assert_eq!(cpu.program_counter, 0x9000);
    assert!(cpu.status_register & INTERRUPT_DISABLE != 0);
    assert_eq!(cpu.stack_pointer, 0xFA);
    assert_eq!(cpu.cycles, 7);
    // Return address and status were pushed: 0x12, 0x34, then status.
    assert_eq!(cpu.bus.read(0x01FD), Some(0x12));
    assert_eq!(cpu.bus.read(0x01FC), Some(0x34));
}

#[test]
fn nmi_ignores_interrupt_disable() {
    let mut cpu = cpu_with_program(&[]);
    cpu.program_counter = 0x1234;
    cpu.bus.write(0xFFFA, 0x00);
    cpu.bus.write(0xFFFB, 0xA0);
    cpu.non_maskable_interrupt_request_signal();
    assert_eq!(cpu.program_counter, 0xA000);
    assert_eq!(cpu.cycles, 8);
}

#[test]
fn brk_enters_through_vector() {
    let mut cpu = cpu_with_program(&[0x00]);
    cpu.bus.write(0xFFFE, 0x00);
    cpu.bus.write(0xFFFF, 0xB0);
    cpu.clock().unwrap();
    assert_eq!(cpu.program_counter, 0xB000);
    assert!(cpu.status_register & INTERRUPT_DISABLE != 0);
    assert_eq!(cpu.stack_pointer, 0xFA);
    assert_eq!(cpu.cycles, 6); // 7-cycle sequence, one pulse consumed
    // The pushed status byte carries Break and the unused bit.
    assert_eq!(cpu.bus.read(0x01FB), Some(UNUSED | INTERRUPT_DISABLE | BREAK));
}

#[test]
fn rti_restores_status_and_counter() {
    let mut cpu = cpu_with_program(&[0x40]);
    // Hand-craft a stack frame: status 0xC3, return address 0x1234.
    cpu.stack_pointer = 0xFA;
    cpu.bus.write(0x01FB, 0xC3);
    cpu.bus.write(0x01FC, 0x34);
    cpu.bus.write(0x01FD, 0x12);
    run_instructions(&mut cpu, 1);
    assert_eq!(cpu.program_counter, 0x1234);
    // Break is cleared and the unused bit forced on restore.
    assert_eq!(cpu.status_register, (0xC3 & !BREAK) | UNUSED);
    assert_eq!(cpu.stack_pointer, 0xFD);
}

#[test]
fn unofficial_opcode_is_documented_noop() {
    // 0x04 decodes as an ignore-operand no-op over zero page, 3 cycles.
    let mut cpu = cpu_with_program(&[0x04, 0x42]);
    cpu.bus.write(0x0042, 0x99);
    cpu.clock().unwrap();
    assert_eq!(cpu.cycles, 2);
    assert_eq!(cpu.program_counter, 0x0002);
    assert_eq!(cpu.accumulator, 0);
    assert_eq!(cpu.bus.read(0x0042), Some(0x99));
}

#[test]
fn bus_trait_access_round_trips() {
    let mut bus = Bus::new();
    assert_eq!(<Bus as Read<u16, u8>>::read(&bus, 0x0042), Some(0));
    <Bus as Write<u16, u8>>::write(&mut bus, 0x0042, 0x99);
    assert_eq!(<Bus as Read<u16, u8>>::read(&bus, 0x0042), Some(0x99));
    assert_eq!(<Bus as Read<u16, u8>>::read_only(&bus, 0x0042), Some(0x99));

    let mut cpu = Cpu6502::new(bus);
    assert_eq!(<Cpu6502 as Read<u16, u8>>::read(&cpu, 0x0042), Some(0x99));
    <Cpu6502 as Write<u16, u8>>::write(&mut cpu, 0x0042, 0x11);
    assert_eq!(<Cpu6502 as Read<u16, u8>>::read_only(&cpu, 0x0042), Some(0x11));
}

#[test]
fn store_class_instructions() {
    // LDX #$07; STX $20; LDY #$09; STY $21
    let mut cpu = cpu_with_program(&[0xA2, 0x07, 0x86, 0x20, 0xA0, 0x09, 0x84, 0x21]);
    run_instructions(&mut cpu, 4);
    assert_eq!(cpu.bus.read(0x0020), Some(0x07));
    assert_eq!(cpu.bus.read(0x0021), Some(0x09));
}
