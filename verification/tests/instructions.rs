use r6502::addressing::AddressingMode;
use r6502::cpu::{
    CPU, FLAG_BREAK, FLAG_CARRY, FLAG_DECIMAL, FLAG_INTERRUPT, FLAG_NEGATIVE, FLAG_OVERFLOW,
    FLAG_UNUSED, FLAG_ZERO,
};
use r6502::isa::{decode, operand_length, Mnemonic};
use r6502::opcodes::{
    adc, and, asl, bit, branch, brk, clc, cld, cli, clv, compare, dec, dex, dey, eor, execute,
    inc, inx, iny, jsr, load, lsr, ora, pha, php, pla, plp, rol, ror, rotate_left, rotate_right,
    rti, rts, sbc, sec, sed, sei, shift_left, shift_right, store, tax, tay, tsx, txa, txs, tya,
    update_zero_and_negative_flags,
};

fn cpu_with_code(bytes: &[u8]) -> CPU {
    let mut cpu = CPU::new();
    let mut address = 0x0400u16;
    for byte in bytes {
        cpu.bus.write(address, *byte);
        address += 1;
    }
    cpu.program_counter = 0x0400;
    cpu.status = 0x24;
    cpu
}

#[test]
fn update_zero_and_negative_for_every_byte() {
    for v in 0..=255u8 {
        for status in [0x00u8, 0xFF, 0x24, 0x5D] {
            let mut cpu = CPU::new();
            cpu.status = status;
            update_zero_and_negative_flags(&mut cpu, v);
            assert_eq!(cpu.has_flag(FLAG_ZERO), v == 0);
            assert_eq!(cpu.has_flag(FLAG_NEGATIVE), v >= 0x80);
            assert_eq!(cpu.status & 0x7D, status & 0x7D);
        }
    }
}

#[test]
fn load_sets_flags_from_value() {
    let mut cpu = cpu_with_code(&[0x00]);
    assert_eq!(load(&mut cpu, &AddressingMode::Immediate), 0x00);
    assert!(cpu.has_flag(FLAG_ZERO));
    assert!(!cpu.has_flag(FLAG_NEGATIVE));
    let mut cpu = cpu_with_code(&[0x80]);
    assert_eq!(load(&mut cpu, &AddressingMode::Immediate), 0x80);
    assert!(!cpu.has_flag(FLAG_ZERO));
    assert!(cpu.has_flag(FLAG_NEGATIVE));
}

#[test]
fn store_changes_no_flag() {
    let mut cpu = cpu_with_code(&[0x10]);
    store(&mut cpu, &AddressingMode::ZeroPage, 0x00);
    assert_eq!(cpu.bus.read(0x0010), 0x00);
    assert_eq!(cpu.status, 0x24);
    let mut cpu = cpu_with_code(&[0x10]);
    store(&mut cpu, &AddressingMode::ZeroPage, 0x99);
    assert_eq!(cpu.bus.read(0x0010), 0x99);
    assert_eq!(cpu.status, 0x24);
}

#[test]
fn compare_for_every_pair() {
    for a in 0..=255u8 {
        for b in 0..=255u8 {
            let mut cpu = cpu_with_code(&[b]);
            compare(&mut cpu, &AddressingMode::Immediate, a);
            assert_eq!(cpu.has_flag(FLAG_CARRY), a >= b);
            assert_eq!(cpu.has_flag(FLAG_ZERO), a == b);
            assert_eq!(cpu.has_flag(FLAG_NEGATIVE), a.wrapping_sub(b) & 0x80 != 0);
        }
    }
}

#[test]
fn branch_taken_and_not_taken() {
    let mut cpu = cpu_with_code(&[0x05]);
    branch(&mut cpu, true);
    assert_eq!(cpu.program_counter, 0x0406);
    let mut cpu = cpu_with_code(&[0x05]);
    branch(&mut cpu, false);
    assert_eq!(cpu.program_counter, 0x0401);
}

#[test]
fn inc_and_dec_wrap() {
    let mut cpu = cpu_with_code(&[0x10, 0x10]);
    cpu.bus.write(0x0010, 0xFF);
    inc(&mut cpu, &AddressingMode::ZeroPage);
    assert_eq!(cpu.bus.read(0x0010), 0x00);
    assert!(cpu.has_flag(FLAG_ZERO));
    dec(&mut cpu, &AddressingMode::ZeroPage);
    assert_eq!(cpu.bus.read(0x0010), 0xFF);
    assert!(cpu.has_flag(FLAG_NEGATIVE));
    assert!(!cpu.has_flag(FLAG_ZERO));
}

#[test]
fn logic_operations() {
    let mut cpu = cpu_with_code(&[0x0F, 0xF0, 0xFF]);
    cpu.register_a = 0x3C;
    and(&mut cpu, &AddressingMode::Immediate);
    assert_eq!(cpu.register_a, 0x0C);
    ora(&mut cpu, &AddressingMode::Immediate);
    assert_eq!(cpu.register_a, 0xFC);
    assert!(cpu.has_flag(FLAG_NEGATIVE));
    eor(&mut cpu, &AddressingMode::Immediate);
    assert_eq!(cpu.register_a, 0x03);
    assert!(!cpu.has_flag(FLAG_NEGATIVE));
}

#[test]
fn transfers_update_flags_except_txs() {
    let mut cpu = cpu_with_code(&[]);
    cpu.register_a = 0x80;
    tax(&mut cpu);
    assert_eq!(cpu.register_x, 0x80);
    assert!(cpu.has_flag(FLAG_NEGATIVE));
    cpu.register_a = 0x00;
    tay(&mut cpu);
    assert_eq!(cpu.register_y, 0x00);
    assert!(cpu.has_flag(FLAG_ZERO));
    cpu.register_x = 0x01;
    txa(&mut cpu);
    assert_eq!(cpu.register_a, 0x01);
    assert!(!cpu.has_flag(FLAG_ZERO));
    cpu.register_y = 0x90;
    tya(&mut cpu);
    assert_eq!(cpu.register_a, 0x90);
    assert!(cpu.has_flag(FLAG_NEGATIVE));
    cpu.stack_pointer = 0x00;
    tsx(&mut cpu);
    assert_eq!(cpu.register_x, 0x00);
    assert!(cpu.has_flag(FLAG_ZERO));
    let before = cpu.status;
    cpu.register_x = 0x80;
    txs(&mut cpu);
    assert_eq!(cpu.stack_pointer, 0x80);
    assert_eq!(cpu.status, before);
}

#[test]
fn register_increments_wrap() {
    let mut cpu = cpu_with_code(&[]);
    cpu.register_x = 0xFF;
    inx(&mut cpu);
    assert_eq!(cpu.register_x, 0x00);
    assert!(cpu.has_flag(FLAG_ZERO));
    dex(&mut cpu);
    assert_eq!(cpu.register_x, 0xFF);
    assert!(cpu.has_flag(FLAG_NEGATIVE));
    cpu.register_y = 0x7F;
    iny(&mut cpu);
    assert_eq!(cpu.register_y, 0x80);
    assert!(cpu.has_flag(FLAG_NEGATIVE));
    dey(&mut cpu);
    assert_eq!(cpu.register_y, 0x7F);
    assert!(!cpu.has_flag(FLAG_NEGATIVE));
}

#[test]
fn pha_and_pla() {
    let mut cpu = cpu_with_code(&[]);
    cpu.register_a = 0x80;
    pha(&mut cpu);
    assert_eq!(cpu.bus.read(0x01FD), 0x80);
    cpu.register_a = 0x00;
    pla(&mut cpu);
    assert_eq!(cpu.register_a, 0x80);
    assert!(cpu.has_flag(FLAG_NEGATIVE));
    assert_eq!(cpu.stack_pointer, 0xFD);
}

#[test]
fn php_pushes_break_and_unused() {
    let mut cpu = cpu_with_code(&[]);
    cpu.status = 0x81;
    php(&mut cpu);
    assert_eq!(cpu.bus.read(0x01FD), 0xB1);
    assert_eq!(cpu.status, 0x81);
}

#[test]
fn plp_clears_break_and_sets_unused() {
    let mut cpu = cpu_with_code(&[]);
    cpu.bus.write(0x01FE, 0xDF);
    plp(&mut cpu);
    assert_eq!(cpu.status, 0xEF);
    let mut cpu = cpu_with_code(&[]);
    cpu.bus.write(0x01FE, 0x00);
    plp(&mut cpu);
    assert_eq!(cpu.status, 0x20);
}

#[test]
fn php_then_plp_restores_all_but_break_and_unused() {
    for status in 0..=255u8 {
        let mut cpu = cpu_with_code(&[]);
        cpu.status = status;
        php(&mut cpu);
        cpu.status = !status;
        plp(&mut cpu);
        assert_eq!(cpu.status & 0xCF, status & 0xCF);
        assert!(!cpu.has_flag(FLAG_BREAK));
        assert!(cpu.has_flag(FLAG_UNUSED));
        assert_eq!(cpu.stack_pointer, 0xFD);
    }
}

#[test]
fn bit_takes_n_and_v_from_memory() {
    let mut cpu = cpu_with_code(&[0x10]);
    cpu.bus.write(0x0010, 0xC0);
    cpu.register_a = 0x3F;
    bit(&mut cpu, &AddressingMode::ZeroPage);
    assert!(cpu.has_flag(FLAG_ZERO));
    assert!(cpu.has_flag(FLAG_NEGATIVE));
    assert!(cpu.has_flag(FLAG_OVERFLOW));
    assert_eq!(cpu.register_a, 0x3F);
    let mut cpu = cpu_with_code(&[0x10]);
    cpu.bus.write(0x0010, 0x01);
    cpu.register_a = 0x01;
    cpu.status = 0xE6;
    bit(&mut cpu, &AddressingMode::ZeroPage);
    assert!(!cpu.has_flag(FLAG_ZERO));
    assert!(!cpu.has_flag(FLAG_NEGATIVE));
    assert!(!cpu.has_flag(FLAG_OVERFLOW));
}

#[test]
fn shifts_on_values() {
    let mut cpu = cpu_with_code(&[]);
    assert_eq!(shift_left(&mut cpu, 0x81), 0x02);
    assert!(cpu.has_flag(FLAG_CARRY));
    assert_eq!(shift_right(&mut cpu, 0x02), 0x01);
    assert!(!cpu.has_flag(FLAG_CARRY));
    assert_eq!(shift_right(&mut cpu, 0x01), 0x00);
    assert!(cpu.has_flag(FLAG_CARRY));
    assert!(cpu.has_flag(FLAG_ZERO));
}

#[test]
fn rotates_go_through_carry() {
    let mut cpu = cpu_with_code(&[]);
    cpu.set_flag(FLAG_CARRY, true);
    assert_eq!(rotate_left(&mut cpu, 0x40), 0x81);
    assert!(!cpu.has_flag(FLAG_CARRY));
    assert!(cpu.has_flag(FLAG_NEGATIVE));
    assert_eq!(rotate_left(&mut cpu, 0x80), 0x00);
    assert!(cpu.has_flag(FLAG_CARRY));
    assert!(cpu.has_flag(FLAG_ZERO));
    assert_eq!(rotate_right(&mut cpu, 0x02), 0x81);
    assert!(!cpu.has_flag(FLAG_CARRY));
    assert_eq!(rotate_right(&mut cpu, 0x01), 0x00);
    assert!(cpu.has_flag(FLAG_CARRY));
}

#[test]
fn shifts_and_rotates_on_memory() {
    let mut cpu = cpu_with_code(&[0x10, 0x10, 0x10, 0x10]);
    cpu.bus.write(0x0010, 0x81);
    asl(&mut cpu, &AddressingMode::ZeroPage);
    assert_eq!(cpu.bus.read(0x0010), 0x02);
    assert!(cpu.has_flag(FLAG_CARRY));
    ror(&mut cpu, &AddressingMode::ZeroPage);
    assert_eq!(cpu.bus.read(0x0010), 0x81);
    assert!(!cpu.has_flag(FLAG_CARRY));
    lsr(&mut cpu, &AddressingMode::ZeroPage);
    assert_eq!(cpu.bus.read(0x0010), 0x40);
    assert!(cpu.has_flag(FLAG_CARRY));
    rol(&mut cpu, &AddressingMode::ZeroPage);
    assert_eq!(cpu.bus.read(0x0010), 0x81);
    assert!(!cpu.has_flag(FLAG_CARRY));
}

#[test]
fn jsr_pushes_address_of_last_operand_byte() {
    let mut cpu = cpu_with_code(&[0x34, 0x12]);
    jsr(&mut cpu);
    assert_eq!(cpu.program_counter, 0x1234);
    assert_eq!(cpu.bus.read(0x01FD), 0x04);
    assert_eq!(cpu.bus.read(0x01FC), 0x01);
    assert_eq!(cpu.stack_pointer, 0xFB);
}

#[test]
fn rts_continues_one_past_the_popped_address() {
    let mut cpu = cpu_with_code(&[]);
    cpu.stack_pointer = 0xFB;
    cpu.bus.write(0x01FC, 0xFF);
    cpu.bus.write(0x01FD, 0x12);
    rts(&mut cpu);
    assert_eq!(cpu.program_counter, 0x1300);
    assert_eq!(cpu.stack_pointer, 0xFD);
}

#[test]
fn jsr_then_rts_returns_after_the_operand() {
    for sp in [0xFDu8, 0x01, 0x00, 0xFF] {
        let mut cpu = CPU::new();
        cpu.load(vec![0x20, 0x05, 0x80, 0xEA, 0xEA, 0x60]);
        cpu.reset();
        cpu.stack_pointer = sp;
        cpu.step();
        assert_eq!(cpu.program_counter, 0x8005);
        cpu.step();
        assert_eq!(cpu.program_counter, 0x8003);
        assert_eq!(cpu.stack_pointer, sp);
    }
}

#[test]
fn rti_pops_status_then_address_without_increment() {
    let mut cpu = cpu_with_code(&[]);
    cpu.stack_pointer = 0xFA;
    cpu.bus.write(0x01FB, 0xD3);
    cpu.bus.write(0x01FC, 0x34);
    cpu.bus.write(0x01FD, 0x12);
    rti(&mut cpu);
    assert_eq!(cpu.status, 0xE3);
    assert_eq!(cpu.program_counter, 0x1234);
    assert_eq!(cpu.stack_pointer, 0xFD);
}

#[test]
fn brk_pushes_pc_plus_one_and_status_with_break() {
    let mut cpu = cpu_with_code(&[]);
    cpu.bus.write(0xFFFE, 0x00);
    cpu.bus.write(0xFFFF, 0x90);
    cpu.status = 0x21;
    brk(&mut cpu);
    assert_eq!(cpu.bus.read(0x01FD), 0x04);
    assert_eq!(cpu.bus.read(0x01FC), 0x01);
    assert_eq!(cpu.bus.read(0x01FB), 0x31);
    assert_eq!(cpu.status, 0x25);
    assert_eq!(cpu.program_counter, 0x9000);
    assert_eq!(cpu.stack_pointer, 0xFA);
}

#[test]
fn flag_instructions() {
    let mut cpu = cpu_with_code(&[]);
    cpu.status = 0x00;
    sec(&mut cpu);
    assert_eq!(cpu.status, FLAG_CARRY);
    sed(&mut cpu);
    assert_eq!(cpu.status, FLAG_CARRY | FLAG_DECIMAL);
    sei(&mut cpu);
    assert_eq!(cpu.status, FLAG_CARRY | FLAG_DECIMAL | FLAG_INTERRUPT);
    clc(&mut cpu);
    assert_eq!(cpu.status, FLAG_DECIMAL | FLAG_INTERRUPT);
    cld(&mut cpu);
    assert_eq!(cpu.status, FLAG_INTERRUPT);
    cli(&mut cpu);
    assert_eq!(cpu.status, 0x00);
    cpu.status = 0xFF;
    clv(&mut cpu);
    assert_eq!(cpu.status, 0xBF);
}

#[test]
fn adc_binary_sets_all_flags() {
    let mut cpu = cpu_with_code(&[0x50]);
    cpu.register_a = 0x50;
    adc(&mut cpu, &AddressingMode::Immediate);
    assert_eq!(cpu.register_a, 0xA0);
    assert!(!cpu.has_flag(FLAG_CARRY));
    assert!(cpu.has_flag(FLAG_OVERFLOW));
    assert!(cpu.has_flag(FLAG_NEGATIVE));
    assert!(!cpu.has_flag(FLAG_ZERO));
}

#[test]
fn adc_binary_matches_twos_complement_for_every_input() {
    for a in 0..=255u8 {
        for m in 0..=255u8 {
            for carry in [false, true] {
                let mut cpu = cpu_with_code(&[m]);
                cpu.register_a = a;
                cpu.set_flag(FLAG_CARRY, carry);
                adc(&mut cpu, &AddressingMode::Immediate);
                let sum = a as u32 + m as u32 + carry as u32;
                let signed_sum = a as i8 as i32 + m as i8 as i32 + carry as i32;
                assert_eq!(cpu.register_a as u32, sum % 256);
                assert_eq!(cpu.has_flag(FLAG_CARRY), sum > 255);
                assert_eq!(cpu.has_flag(FLAG_OVERFLOW), !(-128..128).contains(&signed_sum));
                assert_eq!(cpu.has_flag(FLAG_ZERO), sum % 256 == 0);
                assert_eq!(cpu.has_flag(FLAG_NEGATIVE), sum % 256 >= 128);
            }
        }
    }
}

#[test]
fn adc_decimal_takes_z_and_n_from_the_binary_sum() {
    let mut cpu = cpu_with_code(&[0x01]);
    cpu.register_a = 0x99;
    cpu.status = 0x2C;
    adc(&mut cpu, &AddressingMode::Immediate);
    assert_eq!(cpu.register_a, 0x00);
    assert!(cpu.has_flag(FLAG_CARRY));
    assert!(!cpu.has_flag(FLAG_ZERO));
    assert!(cpu.has_flag(FLAG_NEGATIVE));
    assert!(!cpu.has_flag(FLAG_OVERFLOW));
}

#[test]
fn sbc_binary() {
    let mut cpu = cpu_with_code(&[0x30]);
    cpu.register_a = 0x50;
    cpu.set_flag(FLAG_CARRY, true);
    sbc(&mut cpu, &AddressingMode::Immediate);
    assert_eq!(cpu.register_a, 0x20);
    assert!(cpu.has_flag(FLAG_CARRY));
    assert!(!cpu.has_flag(FLAG_OVERFLOW));
    let mut cpu = cpu_with_code(&[0x01]);
    cpu.register_a = 0x00;
    cpu.set_flag(FLAG_CARRY, true);
    sbc(&mut cpu, &AddressingMode::Immediate);
    assert_eq!(cpu.register_a, 0xFF);
    assert!(!cpu.has_flag(FLAG_CARRY));
    assert!(cpu.has_flag(FLAG_NEGATIVE));
}

#[test]
fn sbc_decimal() {
    let mut cpu = cpu_with_code(&[0x13]);
    cpu.register_a = 0x40;
    cpu.status = 0x2D;
    sbc(&mut cpu, &AddressingMode::Immediate);
    assert_eq!(cpu.register_a, 0x27);
    assert!(cpu.has_flag(FLAG_CARRY));
    assert!(!cpu.has_flag(FLAG_ZERO));
    assert!(!cpu.has_flag(FLAG_NEGATIVE));
}

#[test]
fn execute_dispatches_each_load_to_its_register() {
    let mut cpu = cpu_with_code(&[0x11, 0x22, 0x33]);
    execute(&mut cpu, 0xA9);
    execute(&mut cpu, 0xA2);
    execute(&mut cpu, 0xA0);
    assert_eq!(cpu.register_a, 0x11);
    assert_eq!(cpu.register_x, 0x22);
    assert_eq!(cpu.register_y, 0x33);
    assert_eq!(cpu.program_counter, 0x0403);
}

#[test]
fn execute_jump_indirect_uses_same_page_high_byte() {
    let mut cpu = cpu_with_code(&[0xFF, 0x02]);
    cpu.bus.write(0x02FF, 0x00);
    cpu.bus.write(0x0200, 0x80);
    cpu.bus.write(0x0300, 0x40);
    execute(&mut cpu, 0x6C);
    assert_eq!(cpu.program_counter, 0x8000);
}

#[test]
fn execute_accumulator_shifts() {
    let mut cpu = cpu_with_code(&[]);
    cpu.register_a = 0x81;
    execute(&mut cpu, 0x0A);
    assert_eq!(cpu.register_a, 0x02);
    execute(&mut cpu, 0x6A);
    assert_eq!(cpu.register_a, 0x81);
    execute(&mut cpu, 0x4A);
    assert_eq!(cpu.register_a, 0x40);
    execute(&mut cpu, 0x2A);
    assert_eq!(cpu.register_a, 0x81);
    assert_eq!(cpu.program_counter, 0x0400);
}

#[test]
fn step_advances_pc_by_instruction_length_unless_control_transfers() {
    for opcode in 0..=255u8 {
        for status in [0x00u8, 0xFF] {
            let instruction = decode(opcode);
            let mut cpu = cpu_with_code(&[opcode, 0x10, 0x20]);
            cpu.status = status;
            let negative = status & FLAG_NEGATIVE != 0;
            let overflow = status & FLAG_OVERFLOW != 0;
            let carry = status & FLAG_CARRY != 0;
            let zero = status & FLAG_ZERO != 0;
            let transfers = match instruction.mnemonic {
                Mnemonic::JMP | Mnemonic::JSR | Mnemonic::RTS | Mnemonic::RTI | Mnemonic::BRK => {
                    true
                }
                Mnemonic::BPL => !negative,
                Mnemonic::BMI => negative,
                Mnemonic::BVC => !overflow,
                Mnemonic::BVS => overflow,
                Mnemonic::BCC => !carry,
                Mnemonic::BCS => carry,
                Mnemonic::BNE => !zero,
                Mnemonic::BEQ => zero,
                _ => false,
            };
            cpu.step();
            if !transfers {
                assert_eq!(
                    cpu.program_counter,
                    0x0401 + operand_length(instruction.operand) as u16
                );
            }
        }
    }
}
