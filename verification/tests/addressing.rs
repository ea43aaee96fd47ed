use mos6502::addressing_mode::AddressingMode;
use mos6502::bus::Bus;
use mos6502::cpu_6502::Cpu6502;

fn fresh_cpu() -> Cpu6502 {
    Cpu6502::new(Bus::new())
}

#[test]
fn absolute_x_page_cross_costs_one_cycle() {
    let mut cpu = fresh_cpu();
    // Base 0x00FF with index 0x01 crosses into page 0x01.
    cpu.bus.write(0x0000, 0xFF);
    cpu.bus.write(0x0001, 0x00);
    cpu.x_register = 0x01;
    let extra = AddressingMode::AbsoluteX.execute(&mut cpu);
    assert_eq!(extra, 1);
    assert_eq!(cpu.address_absolute, 0x0100);
    assert_eq!(cpu.program_counter, 0x0002);
}

#[test]
fn absolute_x_same_page_costs_nothing() {
    let mut cpu = fresh_cpu();
    // Base 0x0000 with index 0x01 stays in page 0x00.
    cpu.bus.write(0x0000, 0x00);
    cpu.bus.write(0x0001, 0x00);
    cpu.x_register = 0x01;
    let extra = AddressingMode::AbsoluteX.execute(&mut cpu);
    assert_eq!(extra, 0);
    assert_eq!(cpu.address_absolute, 0x0001);
}

#[test]
fn indirect_page_wrap_quirk() {
    let mut cpu = fresh_cpu();
    // Pointer operand 0x02FF: the low byte of the target comes from
    // 0x02FF and the high byte is re-read from 0x0200, not 0x0300.
    cpu.bus.write(0x0000, 0xFF);
    cpu.bus.write(0x0001, 0x02);
    cpu.bus.write(0x02FF, 0x34);
    cpu.bus.write(0x0200, 0x12);
    cpu.bus.write(0x0300, 0x56);
    let extra = AddressingMode::Indirect.execute(&mut cpu);
    assert_eq!(extra, 0);
    assert_eq!(cpu.address_absolute, 0x1234);
}

#[test]
fn indirect_without_wrap_reads_next_byte() {
    let mut cpu = fresh_cpu();
    cpu.bus.write(0x0000, 0xFE);
    cpu.bus.write(0x0001, 0x02);
    cpu.bus.write(0x02FE, 0x34);
    cpu.bus.write(0x02FF, 0x12);
    AddressingMode::Indirect.execute(&mut cpu);
    assert_eq!(cpu.address_absolute, 0x1234);
}

#[test]
fn zero_page_x_wraps_in_page() {
    let mut cpu = fresh_cpu();
    cpu.bus.write(0x0000, 0xFF);
    cpu.x_register = 0x02;
    let extra = AddressingMode::ZeroPageX.execute(&mut cpu);
    assert_eq!(extra, 0);
    assert_eq!(cpu.address_absolute, 0x0001);
}

#[test]
fn immediate_points_at_operand_byte() {
    let mut cpu = fresh_cpu();
    cpu.program_counter = 0x1234;
    let extra = AddressingMode::Immediate.execute(&mut cpu);
    assert_eq!(extra, 0);
    assert_eq!(cpu.address_absolute, 0x1234);
    assert_eq!(cpu.program_counter, 0x1235);
}

#[test]
fn relative_sign_extends_offset() {
    let mut cpu = fresh_cpu();
    cpu.bus.write(0x0000, 0x80);
    AddressingMode::Relative.execute(&mut cpu);
    assert_eq!(cpu.address_relative, 0xFF80);

    let mut cpu2 = fresh_cpu();
    cpu2.bus.write(0x0000, 0x7F);
    AddressingMode::Relative.execute(&mut cpu2);
    assert_eq!(cpu2.address_relative, 0x007F);
}

#[test]
fn indirect_x_pre_indexes_in_zero_page() {
    let mut cpu = fresh_cpu();
    cpu.bus.write(0x0000, 0xFE);
    cpu.x_register = 0x03;
    // Pointer lives at (0xFE + 0x03) mod 256 = 0x01 and 0x02.
    cpu.bus.write(0x0001, 0xCD);
    cpu.bus.write(0x0002, 0xAB);
    let extra = AddressingMode::IndirectX.execute(&mut cpu);
    assert_eq!(extra, 0);
    assert_eq!(cpu.address_absolute, 0xABCD);
}

#[test]
fn indirect_y_post_index_page_cross() {
    let mut cpu = fresh_cpu();
    cpu.bus.write(0x0000, 0x10);
    cpu.bus.write(0x0010, 0xFF);
    cpu.bus.write(0x0011, 0x00);
    cpu.y_register = 0x01;
    let extra = AddressingMode::IndirectY.execute(&mut cpu);
    assert_eq!(extra, 1);
    assert_eq!(cpu.address_absolute, 0x0100);
}

#[test]
fn implied_and_accumulator_do_nothing() {
    let mut cpu = fresh_cpu();
    cpu.program_counter = 0x0042;
    assert_eq!(AddressingMode::Implied.execute(&mut cpu), 0);
    assert_eq!(AddressingMode::Accumulator.execute(&mut cpu), 0);
    assert_eq!(cpu.program_counter, 0x0042);
    assert_eq!(cpu.address_absolute, 0x0000);
}
