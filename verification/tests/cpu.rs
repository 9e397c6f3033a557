use r6502::bus::Bus;
use r6502::cpu::{
    CPU, FLAG_BREAK, FLAG_CARRY, FLAG_DECIMAL, FLAG_INTERRUPT, FLAG_NEGATIVE, FLAG_OVERFLOW,
    FLAG_UNUSED, FLAG_ZERO,
};

#[test]
fn bus_starts_zeroed_and_keeps_what_is_written() {
    let mut bus = Bus::new();
    assert_eq!(bus.read(0x0000), 0);
    assert_eq!(bus.read(0xFFFF), 0);
    bus.write(0x1234, 0xAB);
    bus.write(0xFFFF, 0xCD);
    assert_eq!(bus.read(0x1234), 0xAB);
    assert_eq!(bus.read(0xFFFF), 0xCD);
    assert_eq!(bus.read(0x1235), 0);
}

#[test]
fn new_cpu_is_zeroed_with_stack_at_fd() {
    let cpu = CPU::new();
    assert_eq!(cpu.register_a, 0);
    assert_eq!(cpu.register_x, 0);
    assert_eq!(cpu.register_y, 0);
    assert_eq!(cpu.status, 0);
    assert_eq!(cpu.stack_pointer, 0xFD);
    assert_eq!(cpu.program_counter, 0);
    assert_eq!(cpu.cycles, 0);
}

#[test]
fn flag_masks() {
    assert_eq!(FLAG_CARRY, 0x01);
    assert_eq!(FLAG_ZERO, 0x02);
    assert_eq!(FLAG_INTERRUPT, 0x04);
    assert_eq!(FLAG_DECIMAL, 0x08);
    assert_eq!(FLAG_BREAK, 0x10);
    assert_eq!(FLAG_UNUSED, 0x20);
    assert_eq!(FLAG_OVERFLOW, 0x40);
    assert_eq!(FLAG_NEGATIVE, 0x80);
}

#[test]
fn set_flag_and_has_flag() {
    let mut cpu = CPU::new();
    cpu.set_flag(FLAG_CARRY, true);
    cpu.set_flag(FLAG_NEGATIVE, true);
    assert_eq!(cpu.status, 0x81);
    assert!(cpu.has_flag(FLAG_CARRY));
    assert!(!cpu.has_flag(FLAG_ZERO));
    cpu.set_flag(FLAG_CARRY, false);
    assert_eq!(cpu.status, 0x80);
    assert!(!cpu.has_flag(FLAG_CARRY));
}

#[test]
fn get_operand_reads_and_advances() {
    let mut cpu = CPU::new();
    cpu.bus.write(0x0200, 0x42);
    cpu.program_counter = 0x0200;
    assert_eq!(cpu.get_operand(), 0x42);
    assert_eq!(cpu.program_counter, 0x0201);
}

#[test]
fn get_operand_wraps_the_program_counter() {
    let mut cpu = CPU::new();
    cpu.bus.write(0xFFFF, 0x42);
    cpu.program_counter = 0xFFFF;
    assert_eq!(cpu.get_operand(), 0x42);
    assert_eq!(cpu.program_counter, 0x0000);
}

#[test]
fn fetch_u16_is_little_endian() {
    let mut cpu = CPU::new();
    cpu.bus.write(0x0200, 0x34);
    cpu.bus.write(0x0201, 0x12);
    cpu.program_counter = 0x0200;
    assert_eq!(cpu.fetch_u16(), 0x1234);
    assert_eq!(cpu.program_counter, 0x0202);
}

#[test]
fn push_writes_then_decrements() {
    let mut cpu = CPU::new();
    cpu.push_stack(0xAB);
    assert_eq!(cpu.bus.read(0x01FD), 0xAB);
    assert_eq!(cpu.stack_pointer, 0xFC);
}

#[test]
fn pop_increments_then_reads() {
    let mut cpu = CPU::new();
    cpu.bus.write(0x01FE, 0xCD);
    assert_eq!(cpu.pop_stack(), 0xCD);
    assert_eq!(cpu.stack_pointer, 0xFE);
}

#[test]
fn push_then_pop_is_identity_for_every_stack_pointer() {
    for sp in 0..=255u8 {
        let mut cpu = CPU::new();
        cpu.stack_pointer = sp;
        cpu.push_stack(sp ^ 0xA5);
        assert_eq!(cpu.stack_pointer, sp.wrapping_sub(1));
        assert_eq!(cpu.pop_stack(), sp ^ 0xA5);
        assert_eq!(cpu.stack_pointer, sp);
    }
}

#[test]
fn stack_wraps_within_page_one() {
    let mut cpu = CPU::new();
    cpu.stack_pointer = 0x00;
    cpu.push_stack(0x11);
    assert_eq!(cpu.bus.read(0x0100), 0x11);
    assert_eq!(cpu.stack_pointer, 0xFF);
    cpu.push_stack(0x22);
    assert_eq!(cpu.bus.read(0x01FF), 0x22);
    assert_eq!(cpu.pop_stack(), 0x22);
    assert_eq!(cpu.pop_stack(), 0x11);
    assert_eq!(cpu.stack_pointer, 0x00);
}

#[test]
fn load_copies_program_and_sets_reset_vector() {
    let mut cpu = CPU::new();
    cpu.bus.write(0x7FFF, 0x77);
    cpu.load(vec![0xA9, 0x01, 0x00]);
    assert_eq!(cpu.bus.read(0x8000), 0xA9);
    assert_eq!(cpu.bus.read(0x8001), 0x01);
    assert_eq!(cpu.bus.read(0x8002), 0x00);
    assert_eq!(cpu.bus.read(0x8003), 0x00);
    assert_eq!(cpu.bus.read(0x7FFF), 0x77);
    assert_eq!(cpu.bus.read(0xFFFC), 0x00);
    assert_eq!(cpu.bus.read(0xFFFD), 0x80);
}

#[test]
fn load_of_the_longest_program_keeps_the_reset_vector() {
    let mut cpu = CPU::new();
    cpu.load(vec![0xEE; 0x8000]);
    assert_eq!(cpu.bus.read(0x8000), 0xEE);
    assert_eq!(cpu.bus.read(0xFFFB), 0xEE);
    assert_eq!(cpu.bus.read(0xFFFC), 0x00);
    assert_eq!(cpu.bus.read(0xFFFD), 0x80);
    assert_eq!(cpu.bus.read(0xFFFE), 0xEE);
    assert_eq!(cpu.bus.read(0xFFFF), 0xEE);
}

#[test]
fn load_of_an_empty_program_sets_the_vector_only() {
    let mut cpu = CPU::new();
    cpu.load(vec![]);
    assert_eq!(cpu.bus.read(0x8000), 0x00);
    assert_eq!(cpu.bus.read(0xFFFC), 0x00);
    assert_eq!(cpu.bus.read(0xFFFD), 0x80);
}

#[test]
fn reset_sets_registers_and_reads_vector() {
    let mut cpu = CPU::new();
    cpu.register_a = 1;
    cpu.register_x = 2;
    cpu.register_y = 3;
    cpu.stack_pointer = 0x10;
    cpu.status = 0xFF;
    cpu.cycles = 99;
    cpu.bus.write(0xFFFC, 0x34);
    cpu.bus.write(0xFFFD, 0x12);
    cpu.reset();
    assert_eq!(cpu.register_a, 0);
    assert_eq!(cpu.register_x, 0);
    assert_eq!(cpu.register_y, 0);
    assert_eq!(cpu.stack_pointer, 0xFD);
    assert_eq!(cpu.status, 0x24);
    assert_eq!(cpu.program_counter, 0x1234);
    assert_eq!(cpu.cycles, 99);
}

#[test]
fn step_adds_base_cycles() {
    let mut cpu = CPU::new();
    cpu.load(vec![0xA9, 0x01, 0x8D, 0x00, 0x02, 0x00]);
    cpu.reset();
    cpu.step();
    assert_eq!(cpu.cycles, 2);
    cpu.step();
    assert_eq!(cpu.cycles, 6);
    assert_eq!(cpu.bus.read(0x0200), 0x01);
    cpu.step();
    assert_eq!(cpu.cycles, 13);
}

#[test]
fn unknown_opcode_changes_nothing_but_pc_and_cycles() {
    let mut cpu = CPU::new();
    cpu.load(vec![0x02, 0xFF]);
    cpu.reset();
    cpu.register_a = 0x11;
    cpu.step();
    assert_eq!(cpu.program_counter, 0x8001);
    assert_eq!(cpu.cycles, 2);
    assert_eq!(cpu.register_a, 0x11);
    assert_eq!(cpu.status, 0x24);
    assert_eq!(cpu.stack_pointer, 0xFD);
}

#[test]
fn nmi_pushes_state_and_takes_vector() {
    let mut cpu = CPU::new();
    cpu.bus.write(0xFFFA, 0x00);
    cpu.bus.write(0xFFFB, 0x90);
    cpu.program_counter = 0x1234;
    cpu.status = 0x71;
    cpu.nmi();
    assert_eq!(cpu.bus.read(0x01FD), 0x12);
    assert_eq!(cpu.bus.read(0x01FC), 0x34);
    assert_eq!(cpu.bus.read(0x01FB), 0x61);
    assert_eq!(cpu.stack_pointer, 0xFA);
    assert_eq!(cpu.status, 0x75);
    assert_eq!(cpu.program_counter, 0x9000);
}

#[test]
fn nmi_ignores_the_interrupt_mask() {
    let mut cpu = CPU::new();
    cpu.bus.write(0xFFFA, 0x00);
    cpu.bus.write(0xFFFB, 0x90);
    cpu.status = 0x24;
    cpu.program_counter = 0x1234;
    cpu.nmi();
    assert_eq!(cpu.program_counter, 0x9000);
    assert_eq!(cpu.bus.read(0x01FB), 0x24);
}

#[test]
fn irq_is_masked_while_i_is_set() {
    let mut cpu = CPU::new();
    cpu.bus.write(0xFFFE, 0x00);
    cpu.bus.write(0xFFFF, 0xA0);
    cpu.status = 0x24;
    cpu.program_counter = 0x1234;
    cpu.irq();
    assert_eq!(cpu.program_counter, 0x1234);
    assert_eq!(cpu.stack_pointer, 0xFD);
    assert_eq!(cpu.status, 0x24);
}

#[test]
fn irq_taken_while_i_is_clear() {
    let mut cpu = CPU::new();
    cpu.bus.write(0xFFFE, 0x00);
    cpu.bus.write(0xFFFF, 0xA0);
    cpu.status = 0x20;
    cpu.program_counter = 0x1234;
    cpu.irq();
    assert_eq!(cpu.program_counter, 0xA000);
    assert_eq!(cpu.bus.read(0x01FD), 0x12);
    assert_eq!(cpu.bus.read(0x01FC), 0x34);
    assert_eq!(cpu.bus.read(0x01FB), 0x20);
    assert_eq!(cpu.stack_pointer, 0xFA);
    assert_eq!(cpu.status, 0x24);
}

#[test]
fn irq_then_rti_returns() {
    let mut cpu = CPU::new();
    cpu.bus.write(0xFFFE, 0x00);
    cpu.bus.write(0xFFFF, 0xA0);
    cpu.bus.write(0xA000, 0x40);
    cpu.status = 0x63;
    cpu.program_counter = 0x1234;
    cpu.irq();
    cpu.step();
    assert_eq!(cpu.program_counter, 0x1234);
    assert_eq!(cpu.status, 0x63);
    assert_eq!(cpu.stack_pointer, 0xFD);
}

#[test]
fn run_stops_on_self_jump() {
    let mut cpu = CPU::new();
    cpu.load(vec![0xE8, 0x4C, 0x01, 0x80]);
    cpu.run();
    assert_eq!(cpu.program_counter, 0x8001);
    assert_eq!(cpu.register_x, 1);
    assert_eq!(cpu.cycles, 5);
}

#[test]
fn run_stops_when_pc_becomes_zero() {
    let mut cpu = CPU::new();
    cpu.load(vec![0xE8, 0x4C, 0x00, 0x00]);
    cpu.run();
    assert_eq!(cpu.program_counter, 0x0000);
    assert_eq!(cpu.register_x, 1);
}

#[test]
fn run_resets_first() {
    let mut cpu = CPU::new();
    cpu.load(vec![0x4C, 0x00, 0x80]);
    cpu.register_a = 0x55;
    cpu.stack_pointer = 0x01;
    cpu.run();
    assert_eq!(cpu.register_a, 0);
    assert_eq!(cpu.stack_pointer, 0xFD);
    assert_eq!(cpu.status, 0x24);
}

#[test]
fn load_and_run_runs_to_the_halt() {
    let mut cpu = CPU::new();
    cpu.load_and_run(vec![0xA9, 0x07, 0xAA, 0x4C, 0x03, 0x80]);
    assert_eq!(cpu.register_a, 0x07);
    assert_eq!(cpu.register_x, 0x07);
    assert_eq!(cpu.program_counter, 0x8003);
}

#[test]
fn run_for_halts_within_the_limit() {
    let mut cpu = CPU::new();
    cpu.load(vec![0xA2, 0x03, 0xCA, 0xD0, 0xFD, 0x4C, 0x05, 0x80]);
    assert!(cpu.run_for(100));
    assert_eq!(cpu.register_x, 0);
    assert_eq!(cpu.program_counter, 0x8005);
}

#[test]
fn run_for_gives_up_at_the_limit() {
    let mut cpu = CPU::new();
    cpu.load(vec![0xE8, 0x4C, 0x00, 0x80]);
    assert!(!cpu.run_for(10));
    assert_eq!(cpu.register_x, 5);
    assert_eq!(cpu.program_counter, 0x8000);
}

#[test]
fn run_for_zero_steps_only_resets() {
    let mut cpu = CPU::new();
    cpu.load(vec![0xE8, 0x4C, 0x01, 0x80]);
    assert!(!cpu.run_for(0));
    assert_eq!(cpu.program_counter, 0x8000);
    assert_eq!(cpu.register_x, 0);
}

#[test]
fn run_for_counts_the_halting_step() {
    let mut cpu = CPU::new();
    cpu.load(vec![0xE8, 0x4C, 0x01, 0x80]);
    assert!(!cpu.run_for(1));
    assert_eq!(cpu.register_x, 1);
    let mut cpu = CPU::new();
    cpu.load(vec![0xE8, 0x4C, 0x01, 0x80]);
    assert!(cpu.run_for(2));
    assert_eq!(cpu.program_counter, 0x8001);
}
