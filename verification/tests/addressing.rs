use r6502::addressing::{
    get_operand_address, peek_operand_address, successor_in_page, AddressingMode,
};
use r6502::cpu::CPU;

fn cpu_with_operand(bytes: &[u8]) -> CPU {
    let mut cpu = CPU::new();
    let mut address = 0x0400u16;
    for byte in bytes {
        cpu.bus.write(address, *byte);
        address += 1;
    }
    cpu.program_counter = 0x0400;
    cpu
}

#[test]
fn immediate_is_the_operand_byte_itself() {
    let mut cpu = cpu_with_operand(&[0x42]);
    assert_eq!(get_operand_address(&mut cpu, &AddressingMode::Immediate), (0x0400, false));
    assert_eq!(cpu.program_counter, 0x0401);
}

#[test]
fn zero_page() {
    let mut cpu = cpu_with_operand(&[0x42]);
    assert_eq!(get_operand_address(&mut cpu, &AddressingMode::ZeroPage), (0x0042, false));
    assert_eq!(cpu.program_counter, 0x0401);
}

#[test]
fn zero_page_x_wraps_in_page_zero() {
    let mut cpu = cpu_with_operand(&[0xF0]);
    cpu.register_x = 0x20;
    assert_eq!(get_operand_address(&mut cpu, &AddressingMode::ZeroPageX), (0x0010, false));
    assert_eq!(cpu.program_counter, 0x0401);
}

#[test]
fn zero_page_y_wraps_in_page_zero() {
    let mut cpu = cpu_with_operand(&[0xFF]);
    cpu.register_y = 0x01;
    assert_eq!(get_operand_address(&mut cpu, &AddressingMode::ZeroPageY), (0x0000, false));
}

#[test]
fn absolute() {
    let mut cpu = cpu_with_operand(&[0x34, 0x12]);
    assert_eq!(get_operand_address(&mut cpu, &AddressingMode::Absolute), (0x1234, false));
    assert_eq!(cpu.program_counter, 0x0402);
}

#[test]
fn absolute_x_within_page() {
    let mut cpu = cpu_with_operand(&[0x34, 0x12]);
    cpu.register_x = 0x10;
    assert_eq!(get_operand_address(&mut cpu, &AddressingMode::AbsoluteX), (0x1244, false));
}

#[test]
fn absolute_x_crossing_a_page() {
    let mut cpu = cpu_with_operand(&[0xF0, 0x12]);
    cpu.register_x = 0x10;
    assert_eq!(get_operand_address(&mut cpu, &AddressingMode::AbsoluteX), (0x1300, true));
}

#[test]
fn absolute_y_wraps_the_address_space() {
    let mut cpu = cpu_with_operand(&[0xFF, 0xFF]);
    cpu.register_y = 0x02;
    assert_eq!(get_operand_address(&mut cpu, &AddressingMode::AbsoluteY), (0x0001, true));
    assert_eq!(cpu.program_counter, 0x0402);
}

#[test]
fn indirect_reads_the_pointer() {
    let mut cpu = cpu_with_operand(&[0x20, 0x03]);
    cpu.bus.write(0x0320, 0x78);
    cpu.bus.write(0x0321, 0x56);
    assert_eq!(get_operand_address(&mut cpu, &AddressingMode::Indirect), (0x5678, false));
    assert_eq!(cpu.program_counter, 0x0402);
}

#[test]
fn indirect_at_page_end_reads_high_byte_from_same_page() {
    let mut cpu = cpu_with_operand(&[0xFF, 0x02]);
    cpu.bus.write(0x02FF, 0x34);
    cpu.bus.write(0x0200, 0x12);
    cpu.bus.write(0x0300, 0x99);
    assert_eq!(get_operand_address(&mut cpu, &AddressingMode::Indirect), (0x1234, false));
}

#[test]
fn successor_in_page_stays_in_page() {
    assert_eq!(successor_in_page(0x02FF), 0x0200);
    assert_eq!(successor_in_page(0x0200), 0x0201);
    assert_eq!(successor_in_page(0xFFFF), 0xFF00);
    assert_eq!(successor_in_page(0x00FE), 0x00FF);
}

#[test]
fn indexed_indirect() {
    let mut cpu = cpu_with_operand(&[0x20]);
    cpu.register_x = 0x04;
    cpu.bus.write(0x0024, 0x78);
    cpu.bus.write(0x0025, 0x56);
    assert_eq!(get_operand_address(&mut cpu, &AddressingMode::IndirectX), (0x5678, false));
    assert_eq!(cpu.program_counter, 0x0401);
}

#[test]
fn indexed_indirect_pointer_wraps_in_page_zero() {
    let mut cpu = cpu_with_operand(&[0xFE]);
    cpu.register_x = 0x01;
    cpu.bus.write(0x00FF, 0x78);
    cpu.bus.write(0x0000, 0x56);
    cpu.bus.write(0x0100, 0x99);
    assert_eq!(get_operand_address(&mut cpu, &AddressingMode::IndirectX), (0x5678, false));
}

#[test]
fn indirect_indexed_within_page() {
    let mut cpu = cpu_with_operand(&[0x20]);
    cpu.register_y = 0x04;
    cpu.bus.write(0x0020, 0x00);
    cpu.bus.write(0x0021, 0x30);
    assert_eq!(get_operand_address(&mut cpu, &AddressingMode::IndirectY), (0x3004, false));
}

#[test]
fn indirect_indexed_crossing_a_page() {
    let mut cpu = cpu_with_operand(&[0xFF]);
    cpu.register_y = 0x10;
    cpu.bus.write(0x00FF, 0xF8);
    cpu.bus.write(0x0000, 0x30);
    assert_eq!(get_operand_address(&mut cpu, &AddressingMode::IndirectY), (0x3108, true));
}

#[test]
fn relative_forward() {
    let mut cpu = cpu_with_operand(&[0x10]);
    assert_eq!(get_operand_address(&mut cpu, &AddressingMode::Relative), (0x0411, false));
    assert_eq!(cpu.program_counter, 0x0401);
}

#[test]
fn relative_backward_across_a_page() {
    let mut cpu = cpu_with_operand(&[0x80]);
    assert_eq!(get_operand_address(&mut cpu, &AddressingMode::Relative), (0x0381, true));
}

#[test]
fn peek_agrees_with_get_and_leaves_the_cpu_alone() {
    let modes = [
        AddressingMode::Immediate,
        AddressingMode::ZeroPage,
        AddressingMode::ZeroPageX,
        AddressingMode::ZeroPageY,
        AddressingMode::Absolute,
        AddressingMode::AbsoluteX,
        AddressingMode::AbsoluteY,
        AddressingMode::Indirect,
        AddressingMode::IndirectX,
        AddressingMode::IndirectY,
        AddressingMode::Relative,
    ];
    for mode in modes {
        let mut cpu = cpu_with_operand(&[0xFE, 0x04]);
        cpu.register_x = 0x03;
        cpu.register_y = 0x05;
        cpu.bus.write(0x0001, 0x22);
        cpu.bus.write(0x0002, 0x33);
        cpu.bus.write(0x00FE, 0x44);
        cpu.bus.write(0x00FF, 0x55);
        cpu.bus.write(0x04FE, 0x66);
        cpu.bus.write(0x04FF, 0x77);
        let peeked = peek_operand_address(&cpu, 0x0400, &mode);
        assert_eq!(cpu.program_counter, 0x0400);
        let (address, _) = get_operand_address(&mut cpu, &mode);
        assert_eq!(peeked, address);
    }
}
