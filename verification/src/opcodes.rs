use crate::addressing::{get_operand_address, AddressingMode};
use crate::alu::{
    add_binary, add_decimal, high_byte, lemma_byte_bits, lemma_shift_left_bits,
    lemma_shift_right_bits, low_byte, make_word, minus16, minus8, offset16, offset8,
    subtract_binary, subtract_decimal,
};
use crate::cpu::{
    CPU, FLAG_BREAK, FLAG_CARRY, FLAG_DECIMAL, FLAG_INTERRUPT, FLAG_NEGATIVE, FLAG_OVERFLOW,
    FLAG_UNUSED, FLAG_ZERO,
};
use crate::laws::{lemma_compare, lemma_zero_and_negative};
use crate::machine::IRQ_VECTOR;
use vstd::prelude::*;

verus! {

/// Carries out the instruction that `opcode` encodes. The program counter is past the
/// opcode; the instruction consumes its operand bytes itself. A byte that encodes no
/// documented instruction changes nothing.
pub fn execute(cpu: &mut CPU, opcode: u8)
    ensures
        final(cpu)@ == old(cpu)@.execute(opcode),
{
    let a = cpu.register_a;
    let x = cpu.register_x;
    let y = cpu.register_y;
    let carry = cpu.has_flag(FLAG_CARRY);
    let zero = cpu.has_flag(FLAG_ZERO);
    let overflow = cpu.has_flag(FLAG_OVERFLOW);
    let negative = cpu.has_flag(FLAG_NEGATIVE);
    match opcode {
        // BRK
        0x00 => brk(cpu),
        // LDA
        0xA9 => cpu.register_a = load(cpu, &AddressingMode::Immediate),
        0xA5 => cpu.register_a = load(cpu, &AddressingMode::ZeroPage),
        0xAD => cpu.register_a = load(cpu, &AddressingMode::Absolute),
        0xB5 => cpu.register_a = load(cpu, &AddressingMode::ZeroPageX),
        0xBD => cpu.register_a = load(cpu, &AddressingMode::AbsoluteX),
        0xB9 => cpu.register_a = load(cpu, &AddressingMode::AbsoluteY),
        0xA1 => cpu.register_a = load(cpu, &AddressingMode::IndirectX),
        0xB1 => cpu.register_a = load(cpu, &AddressingMode::IndirectY),
        // LDX
        0xA2 => cpu.register_x = load(cpu, &AddressingMode::Immediate),
        0xA6 => cpu.register_x = load(cpu, &AddressingMode::ZeroPage),
        0xAE => cpu.register_x = load(cpu, &AddressingMode::Absolute),
        0xB6 => cpu.register_x = load(cpu, &AddressingMode::ZeroPageY),
        0xBE => cpu.register_x = load(cpu, &AddressingMode::AbsoluteY),
        // LDY
        0xA0 => cpu.register_y = load(cpu, &AddressingMode::Immediate),
        0xA4 => cpu.register_y = load(cpu, &AddressingMode::ZeroPage),
        0xAC => cpu.register_y = load(cpu, &AddressingMode::Absolute),
        0xB4 => cpu.register_y = load(cpu, &AddressingMode::ZeroPageX),
        0xBC => cpu.register_y = load(cpu, &AddressingMode::AbsoluteX),
        // STA
        0x85 => store(cpu, &AddressingMode::ZeroPage, a),
        0x8D => store(cpu, &AddressingMode::Absolute, a),
        0x95 => store(cpu, &AddressingMode::ZeroPageX, a),
        0x9D => store(cpu, &AddressingMode::AbsoluteX, a),
        0x99 => store(cpu, &AddressingMode::AbsoluteY, a),
        0x81 => store(cpu, &AddressingMode::IndirectX, a),
        0x91 => store(cpu, &AddressingMode::IndirectY, a),
        // STX
        0x86 => store(cpu, &AddressingMode::ZeroPage, x),
        0x8E => store(cpu, &AddressingMode::Absolute, x),
        0x96 => store(cpu, &AddressingMode::ZeroPageY, x),
        // STY
        0x84 => store(cpu, &AddressingMode::ZeroPage, y),
        0x8C => store(cpu, &AddressingMode::Absolute, y),
        0x94 => store(cpu, &AddressingMode::ZeroPageX, y),
        // Subroutines
        0x20 => jsr(cpu),
        0x60 => rts(cpu),
        0x40 => rti(cpu),
        // AND
        0x29 => and(cpu, &AddressingMode::Immediate),
        0x25 => and(cpu, &AddressingMode::ZeroPage),
        0x35 => and(cpu, &AddressingMode::ZeroPageX),
        0x2D => and(cpu, &AddressingMode::Absolute),
        0x3D => and(cpu, &AddressingMode::AbsoluteX),
        0x39 => and(cpu, &AddressingMode::AbsoluteY),
        0x21 => and(cpu, &AddressingMode::IndirectX),
        0x31 => and(cpu, &AddressingMode::IndirectY),
        // ORA
        0x09 => ora(cpu, &AddressingMode::Immediate),
        0x05 => ora(cpu, &AddressingMode::ZeroPage),
        0x15 => ora(cpu, &AddressingMode::ZeroPageX),
        0x0D => ora(cpu, &AddressingMode::Absolute),
        0x1D => ora(cpu, &AddressingMode::AbsoluteX),
        0x19 => ora(cpu, &AddressingMode::AbsoluteY),
        0x01 => ora(cpu, &AddressingMode::IndirectX),
        0x11 => ora(cpu, &AddressingMode::IndirectY),
        // EOR
        0x49 => eor(cpu, &AddressingMode::Immediate),
        0x45 => eor(cpu, &AddressingMode::ZeroPage),
        0x55 => eor(cpu, &AddressingMode::ZeroPageX),
        0x4D => eor(cpu, &AddressingMode::Absolute),
        0x5D => eor(cpu, &AddressingMode::AbsoluteX),
        0x59 => eor(cpu, &AddressingMode::AbsoluteY),
        0x41 => eor(cpu, &AddressingMode::IndirectX),
        0x51 => eor(cpu, &AddressingMode::IndirectY),
        // ADC
        0x69 => adc(cpu, &AddressingMode::Immediate),
        0x65 => adc(cpu, &AddressingMode::ZeroPage),
        0x75 => adc(cpu, &AddressingMode::ZeroPageX),
        0x6D => adc(cpu, &AddressingMode::Absolute),
        0x7D => adc(cpu, &AddressingMode::AbsoluteX),
        0x79 => adc(cpu, &AddressingMode::AbsoluteY),
        0x61 => adc(cpu, &AddressingMode::IndirectX),
        0x71 => adc(cpu, &AddressingMode::IndirectY),
        // SBC
        0xE9 => sbc(cpu, &AddressingMode::Immediate),
        0xE5 => sbc(cpu, &AddressingMode::ZeroPage),
        0xF5 => sbc(cpu, &AddressingMode::ZeroPageX),
        0xED => sbc(cpu, &AddressingMode::Absolute),
        0xFD => sbc(cpu, &AddressingMode::AbsoluteX),
        0xF9 => sbc(cpu, &AddressingMode::AbsoluteY),
        0xE1 => sbc(cpu, &AddressingMode::IndirectX),
        0xF1 => sbc(cpu, &AddressingMode::IndirectY),
        // ASL
        0x0A => cpu.register_a = shift_left(cpu, a),
        0x06 => asl(cpu, &AddressingMode::ZeroPage),
        0x16 => asl(cpu, &AddressingMode::ZeroPageX),
        0x0E => asl(cpu, &AddressingMode::Absolute),
        0x1E => asl(cpu, &AddressingMode::AbsoluteX),
        // LSR
        0x4A => cpu.register_a = shift_right(cpu, a),
        0x46 => lsr(cpu, &AddressingMode::ZeroPage),
        0x56 => lsr(cpu, &AddressingMode::ZeroPageX),
        0x4E => lsr(cpu, &AddressingMode::Absolute),
        0x5E => lsr(cpu, &AddressingMode::AbsoluteX),
        // ROL
        0x2A => cpu.register_a = rotate_left(cpu, a),
        0x26 => rol(cpu, &AddressingMode::ZeroPage),
        0x36 => rol(cpu, &AddressingMode::ZeroPageX),
        0x2E => rol(cpu, &AddressingMode::Absolute),
        0x3E => rol(cpu, &AddressingMode::AbsoluteX),
        // ROR
        0x6A => cpu.register_a = rotate_right(cpu, a),
        0x66 => ror(cpu, &AddressingMode::ZeroPage),
        0x76 => ror(cpu, &AddressingMode::ZeroPageX),
        0x6E => ror(cpu, &AddressingMode::Absolute),
        0x7E => ror(cpu, &AddressingMode::AbsoluteX),
        // CMP
        0xC9 => compare(cpu, &AddressingMode::Immediate, a),
        0xC5 => compare(cpu, &AddressingMode::ZeroPage, a),
        0xD5 => compare(cpu, &AddressingMode::ZeroPageX, a),
        0xCD => compare(cpu, &AddressingMode::Absolute, a),
        0xDD => compare(cpu, &AddressingMode::AbsoluteX, a),
        0xD9 => compare(cpu, &AddressingMode::AbsoluteY, a),
        0xC1 => compare(cpu, &AddressingMode::IndirectX, a),
        0xD1 => compare(cpu, &AddressingMode::IndirectY, a),
        // CPX
        0xE0 => compare(cpu, &AddressingMode::Immediate, x),
        0xE4 => compare(cpu, &AddressingMode::ZeroPage, x),
        0xEC => compare(cpu, &AddressingMode::Absolute, x),
        // CPY
        0xC0 => compare(cpu, &AddressingMode::Immediate, y),
        0xC4 => compare(cpu, &AddressingMode::ZeroPage, y),
        0xCC => compare(cpu, &AddressingMode::Absolute, y),
        // DEC
        0xC6 => dec(cpu, &AddressingMode::ZeroPage),
        0xD6 => dec(cpu, &AddressingMode::ZeroPageX),
        0xCE => dec(cpu, &AddressingMode::Absolute),
        0xDE => dec(cpu, &AddressingMode::AbsoluteX),
        // INC
        0xE6 => inc(cpu, &AddressingMode::ZeroPage),
        0xF6 => inc(cpu, &AddressingMode::ZeroPageX),
        0xEE => inc(cpu, &AddressingMode::Absolute),
        0xFE => inc(cpu, &AddressingMode::AbsoluteX),
        // BIT
        0x24 => bit(cpu, &AddressingMode::ZeroPage),
        0x2C => bit(cpu, &AddressingMode::Absolute),
        // Branches
        0xD0 => branch(cpu, !zero),
        0xF0 => branch(cpu, zero),
        0x90 => branch(cpu, !carry),
        0xB0 => branch(cpu, carry),
        0x10 => branch(cpu, !negative),
        0x30 => branch(cpu, negative),
        0x50 => branch(cpu, !overflow),
        0x70 => branch(cpu, overflow),
        // JMP
        0x4C => cpu.program_counter = get_operand_address(cpu, &AddressingMode::Absolute).0,
        0x6C => cpu.program_counter = get_operand_address(cpu, &AddressingMode::Indirect).0,
        // Transfers
        0xAA => tax(cpu),
        0xA8 => tay(cpu),
        0x8A => txa(cpu),
        0x98 => tya(cpu),
        0x9A => txs(cpu),
        0xBA => tsx(cpu),
        // Register increments and decrements
        0xE8 => inx(cpu),
        0xC8 => iny(cpu),
        0xCA => dex(cpu),
        0x88 => dey(cpu),
        // Stack
        0x48 => pha(cpu),
        0x08 => php(cpu),
        0x68 => pla(cpu),
        0x28 => plp(cpu),
        // Flags
        0x38 => sec(cpu),
        0xF8 => sed(cpu),
        0x78 => sei(cpu),
        0x18 => clc(cpu),
        0xD8 => cld(cpu),
        0x58 => cli(cpu),
        0xB8 => clv(cpu),
        // NOP
        0xEA => {},
        _ => {},
    }
}

/// Reads the operand and sets Z and N from it.
pub fn load(cpu: &mut CPU, mode: &AddressingMode) -> (value: u8)
    ensures
        value == old(cpu)@.load(*mode).0,
        final(cpu)@ == old(cpu)@.load(*mode).1,
{
    let (addr, _) = get_operand_address(cpu, mode);
    let value = cpu.bus.read(addr);
    update_zero_and_negative_flags(cpu, value);
    value
}

/// Writes `value` to the operand's cell. No flag changes.
pub fn store(cpu: &mut CPU, mode: &AddressingMode, value: u8)
    ensures
        final(cpu)@ == old(cpu)@.store(*mode, value),
{
    let (addr, _) = get_operand_address(cpu, mode);
    cpu.bus.write(addr, value);
}

/// Compares `compare_with` with the operand: C is set iff `compare_with` is not below
/// the operand, Z and N are those of the wrapping difference.
pub fn compare(cpu: &mut CPU, mode: &AddressingMode, compare_with: u8)
    ensures
        final(cpu)@ == old(cpu)@.compare(*mode, compare_with),
        ({
            let (addr, _, past) = old(cpu)@.operand_address(*mode);
            let value = past.read(addr);
            &&& final(cpu)@.flag(FLAG_CARRY) <==> compare_with >= value
            &&& final(cpu)@.flag(FLAG_ZERO) <==> compare_with == value
            &&& final(cpu)@.flag(FLAG_NEGATIVE) <==> (compare_with - value) % 0x100 >= 0x80
        }),
{
    proof {
        lemma_compare(cpu@, *mode, compare_with);
    }
    let (addr, _) = get_operand_address(cpu, mode);
    let value = cpu.bus.read(addr);
    cpu.set_flag(FLAG_CARRY, compare_with >= value);
    let result = minus8(compare_with, value);
    update_zero_and_negative_flags(cpu, result);
}

/// Consumes the offset byte and, if `condition` holds, moves the program counter to
/// the branch target.
pub fn branch(cpu: &mut CPU, condition: bool)
    ensures
        final(cpu)@ == old(cpu)@.branch(condition),
{
    let (jump_address, _) = get_operand_address(cpu, &AddressingMode::Relative);
    if condition {
        cpu.program_counter = jump_address;
    }
}

/// Adds one to the operand's cell, wrapping; Z and N describe the result.
pub fn inc(cpu: &mut CPU, mode: &AddressingMode)
    ensures
        final(cpu)@ == old(cpu)@.inc(*mode),
{
    let (addr, _) = get_operand_address(cpu, mode);
    let mut value = cpu.bus.read(addr);
    value = offset8(value, 1);
    cpu.bus.write(addr, value);
    update_zero_and_negative_flags(cpu, value);
}

/// Takes one from the operand's cell, wrapping; Z and N describe the result.
pub fn dec(cpu: &mut CPU, mode: &AddressingMode)
    ensures
        final(cpu)@ == old(cpu)@.dec(*mode),
{
    let (addr, _) = get_operand_address(cpu, mode);
    let mut value = cpu.bus.read(addr);
    value = minus8(value, 1);
    cpu.bus.write(addr, value);
    update_zero_and_negative_flags(cpu, value);
}

/// A becomes the bits that A and the operand share; Z and N describe it.
pub fn and(cpu: &mut CPU, mode: &AddressingMode)
    ensures
        final(cpu)@ == old(cpu)@.and(*mode),
{
    let (addr, _) = get_operand_address(cpu, mode);
    let value = cpu.bus.read(addr);
    cpu.register_a &= value;
    let result = cpu.register_a;
    update_zero_and_negative_flags(cpu, result);
}

/// A becomes the bits that A or the operand has; Z and N describe it.
pub fn ora(cpu: &mut CPU, mode: &AddressingMode)
    ensures
        final(cpu)@ == old(cpu)@.ora(*mode),
{
    let (addr, _) = get_operand_address(cpu, mode);
    let value = cpu.bus.read(addr);
    cpu.register_a |= value;
    let result = cpu.register_a;
    update_zero_and_negative_flags(cpu, result);
}

/// A becomes the bits that either A or the operand has, but not both; Z and N
/// describe it.
pub fn eor(cpu: &mut CPU, mode: &AddressingMode)
    ensures
        final(cpu)@ == old(cpu)@.eor(*mode),
{
    let (addr, _) = get_operand_address(cpu, mode);
    let value = cpu.bus.read(addr);
    cpu.register_a ^= value;
    let result = cpu.register_a;
    update_zero_and_negative_flags(cpu, result);
}

/// Copies A to X; Z and N describe it.
pub fn tax(cpu: &mut CPU)
    ensures
        final(cpu)@ == old(cpu)@.tax(),
{
    cpu.register_x = cpu.register_a;
    let result = cpu.register_x;
    update_zero_and_negative_flags(cpu, result);
}

/// Copies A to Y; Z and N describe it.
pub fn tay(cpu: &mut CPU)
    ensures
        final(cpu)@ == old(cpu)@.tay(),
{
    cpu.register_y = cpu.register_a;
    let result = cpu.register_y;
    update_zero_and_negative_flags(cpu, result);
}

/// Copies X to A; Z and N describe it.
pub fn txa(cpu: &mut CPU)
    ensures
        final(cpu)@ == old(cpu)@.txa(),
{
    cpu.register_a = cpu.register_x;
    let result = cpu.register_a;
    update_zero_and_negative_flags(cpu, result);
}

/// Copies Y to A; Z and N describe it.
pub fn tya(cpu: &mut CPU)
    ensures
        final(cpu)@ == old(cpu)@.tya(),
{
    cpu.register_a = cpu.register_y;
    let result = cpu.register_a;
    update_zero_and_negative_flags(cpu, result);
}

/// Copies X to the stack pointer. No flag changes.
pub fn txs(cpu: &mut CPU)
    ensures
        final(cpu)@ == old(cpu)@.txs(),
{
    cpu.stack_pointer = cpu.register_x;
}

/// Copies the stack pointer to X; Z and N describe it.
pub fn tsx(cpu: &mut CPU)
    ensures
        final(cpu)@ == old(cpu)@.tsx(),
{
    cpu.register_x = cpu.stack_pointer;
    let result = cpu.register_x;
    update_zero_and_negative_flags(cpu, result);
}

/// Adds one to X, wrapping; Z and N describe the result.
pub fn inx(cpu: &mut CPU)
    ensures
        final(cpu)@ == old(cpu)@.inx(),
{
    cpu.register_x = offset8(cpu.register_x, 1);
    let result = cpu.register_x;
    update_zero_and_negative_flags(cpu, result);
}

/// Adds one to Y, wrapping; Z and N describe the result.
pub fn iny(cpu: &mut CPU)
    ensures
        final(cpu)@ == old(cpu)@.iny(),
{
    cpu.register_y = offset8(cpu.register_y, 1);
    let result = cpu.register_y;
    update_zero_and_negative_flags(cpu, result);
}

/// Takes one from X, wrapping; Z and N describe the result.
pub fn dex(cpu: &mut CPU)
    ensures
        final(cpu)@ == old(cpu)@.dex(),
{
    cpu.register_x = minus8(cpu.register_x, 1);
    let result = cpu.register_x;
    update_zero_and_negative_flags(cpu, result);
}

/// Takes one from Y, wrapping; Z and N describe the result.
pub fn dey(cpu: &mut CPU)
    ensures
        final(cpu)@ == old(cpu)@.dey(),
{
    cpu.register_y = minus8(cpu.register_y, 1);
    let result = cpu.register_y;
    update_zero_and_negative_flags(cpu, result);
}

/// Pushes A.
pub fn pha(cpu: &mut CPU)
    ensures
        final(cpu)@ == old(cpu)@.pha(),
{
    let value = cpu.register_a;
    cpu.push_stack(value);
}

/// Pushes the status with B and U set.
pub fn php(cpu: &mut CPU)
    ensures
        final(cpu)@ == old(cpu)@.php(),
{
    let mut flags = cpu.status;
    flags |= FLAG_UNUSED;
    flags |= FLAG_BREAK;
    cpu.push_stack(flags);
}

/// Pops into A; Z and N describe it.
pub fn pla(cpu: &mut CPU)
    ensures
        final(cpu)@ == old(cpu)@.pla(),
{
    cpu.register_a = cpu.pop_stack();
    let result = cpu.register_a;
    update_zero_and_negative_flags(cpu, result);
}

/// Pops the status, with B cleared and U set.
pub fn plp(cpu: &mut CPU)
    ensures
        final(cpu)@ == old(cpu)@.plp(),
{
    cpu.status = cpu.pop_stack();
    cpu.status &= !FLAG_BREAK;
    cpu.status |= FLAG_UNUSED;
}

/// Tests the operand against A: Z is set iff they share no bit, N and V become bits
/// 7 and 6 of the operand. A stays as it is.
pub fn bit(cpu: &mut CPU, mode: &AddressingMode)
    ensures
        final(cpu)@ == old(cpu)@.bit(*mode),
{
    let (addr, _) = get_operand_address(cpu, mode);
    let value = cpu.bus.read(addr);
    let accumulator = cpu.register_a;
    cpu.set_flag(FLAG_ZERO, (accumulator & value) == 0);
    cpu.set_flag(FLAG_NEGATIVE, value & FLAG_NEGATIVE > 0);
    cpu.set_flag(FLAG_OVERFLOW, value & FLAG_OVERFLOW > 0);
}

/// Shifts the operand's cell one place to the left: bit 7 goes to C, Z and N
/// describe the result.
pub fn asl(cpu: &mut CPU, mode: &AddressingMode)
    ensures
        final(cpu)@ == old(cpu)@.asl(*mode),
{
    let (addr, _) = get_operand_address(cpu, mode);
    let value = cpu.bus.read(addr);
    let result = shift_left(cpu, value);
    cpu.bus.write(addr, result);
}

/// Shifts the operand's cell one place to the right: bit 0 goes to C, Z and N
/// describe the result.
pub fn lsr(cpu: &mut CPU, mode: &AddressingMode)
    ensures
        final(cpu)@ == old(cpu)@.lsr(*mode),
{
    let (addr, _) = get_operand_address(cpu, mode);
    let value = cpu.bus.read(addr);
    let result = shift_right(cpu, value);
    cpu.bus.write(addr, result);
}

/// Rotates the operand's cell one place to the left through C.
pub fn rol(cpu: &mut CPU, mode: &AddressingMode)
    ensures
        final(cpu)@ == old(cpu)@.rol(*mode),
{
    let (addr, _) = get_operand_address(cpu, mode);
    let value = cpu.bus.read(addr);
    let result = rotate_left(cpu, value);
    cpu.bus.write(addr, result);
}

/// Rotates the operand's cell one place to the right through C.
pub fn ror(cpu: &mut CPU, mode: &AddressingMode)
    ensures
        final(cpu)@ == old(cpu)@.ror(*mode),
{
    let (addr, _) = get_operand_address(cpu, mode);
    let value = cpu.bus.read(addr);
    let result = rotate_right(cpu, value);
    cpu.bus.write(addr, result);
}

/// Pushes the address of its own last byte, high byte first, and jumps.
pub fn jsr(cpu: &mut CPU)
    ensures
        final(cpu)@ == old(cpu)@.jsr(),
{
    let target_addr = cpu.fetch_u16();
    let return_addr = minus16(cpu.program_counter, 1);
    cpu.push_stack(high_byte(return_addr));
    cpu.push_stack(low_byte(return_addr));
    cpu.program_counter = target_addr;
}

/// Pops an address, low byte first, and continues one past it.
pub fn rts(cpu: &mut CPU)
    ensures
        final(cpu)@ == old(cpu)@.rts(),
{
    let lo = cpu.pop_stack();
    let hi = cpu.pop_stack();
    cpu.program_counter = offset16(make_word(lo, hi), 1);
}

/// Pops the status, with B cleared and U set, then the program counter, low byte first.
pub fn rti(cpu: &mut CPU)
    ensures
        final(cpu)@ == old(cpu)@.rti(),
{
    cpu.status = cpu.pop_stack();
    cpu.status &= !FLAG_BREAK;
    cpu.status |= FLAG_UNUSED;

    let lo = cpu.pop_stack();
    let hi = cpu.pop_stack();
    cpu.program_counter = make_word(lo, hi);
}

/// `value` shifted one place to the left: bit 7 goes to C, Z and N describe the
/// result.
pub fn shift_left(cpu: &mut CPU, value: u8) -> (result: u8)
    ensures
        result == old(cpu)@.shift_left(value).0,
        final(cpu)@ == old(cpu)@.shift_left(value).1,
{
    proof {
        lemma_byte_bits(value);
        lemma_shift_left_bits(value);
    }
    cpu.set_flag(FLAG_CARRY, value & 0x80 != 0);
    let result = value << 1;
    update_zero_and_negative_flags(cpu, result);
    result
}

/// `value` shifted one place to the right: bit 0 goes to C, Z and N describe the
/// result.
pub fn shift_right(cpu: &mut CPU, value: u8) -> (result: u8)
    ensures
        result == old(cpu)@.shift_right(value).0,
        final(cpu)@ == old(cpu)@.shift_right(value).1,
{
    proof {
        lemma_byte_bits(value);
        lemma_shift_right_bits(value);
    }
    cpu.set_flag(FLAG_CARRY, value & 0x01 != 0);
    let result = value >> 1;
    update_zero_and_negative_flags(cpu, result);
    result
}

/// `value` rotated one place to the left through C: the old C becomes bit 0, bit 7
/// goes to C, Z and N describe the result.
pub fn rotate_left(cpu: &mut CPU, value: u8) -> (result: u8)
    ensures
        result == old(cpu)@.rotate_left(value).0,
        final(cpu)@ == old(cpu)@.rotate_left(value).1,
{
    proof {
        lemma_byte_bits(value);
        lemma_shift_left_bits(value);
    }
    let old_carry = cpu.has_flag(FLAG_CARRY);
    cpu.set_flag(FLAG_CARRY, value & 0x80 != 0);
    let mut result = value << 1;

    if old_carry {
        result |= 0x01;
    }
    update_zero_and_negative_flags(cpu, result);
    result
}

/// `value` rotated one place to the right through C: the old C becomes bit 7, bit
/// 0 goes to C, Z and N describe the result.
pub fn rotate_right(cpu: &mut CPU, value: u8) -> (result: u8)
    ensures
        result == old(cpu)@.rotate_right(value).0,
        final(cpu)@ == old(cpu)@.rotate_right(value).1,
{
    proof {
        lemma_byte_bits(value);
        lemma_shift_right_bits(value);
    }
    let old_carry = cpu.has_flag(FLAG_CARRY);
    cpu.set_flag(FLAG_CARRY, value & 0x01 != 0);
    let mut result = value >> 1;

    if old_carry {
        result |= 0x80;
    }
    update_zero_and_negative_flags(cpu, result);
    result
}

/// Sets Z iff `result` is zero and N iff its bit 7 is set. No other flag changes.
pub fn update_zero_and_negative_flags(cpu: &mut CPU, result: u8)
    ensures
        final(cpu)@ == old(cpu)@.set_zn(result),
        final(cpu)@.flag(FLAG_ZERO) <==> result == 0,
        final(cpu)@.flag(FLAG_NEGATIVE) <==> result >= 0x80,
{
    proof {
        lemma_byte_bits(result);
        lemma_zero_and_negative(cpu@, result);
    }
    cpu.set_flag(FLAG_ZERO, result == 0);
    cpu.set_flag(FLAG_NEGATIVE, result & 0b1000_0000 != 0);
}

/// Sets C.
pub fn sec(cpu: &mut CPU)
    ensures
        final(cpu)@ == old(cpu)@.set_flag(FLAG_CARRY, true),
{
    cpu.status |= FLAG_CARRY;
}

/// Sets D.
pub fn sed(cpu: &mut CPU)
    ensures
        final(cpu)@ == old(cpu)@.set_flag(FLAG_DECIMAL, true),
{
    cpu.status |= FLAG_DECIMAL;
}

/// Sets I.
pub fn sei(cpu: &mut CPU)
    ensures
        final(cpu)@ == old(cpu)@.set_flag(FLAG_INTERRUPT, true),
{
    cpu.status |= FLAG_INTERRUPT;
}

/// Clears C.
pub fn clc(cpu: &mut CPU)
    ensures
        final(cpu)@ == old(cpu)@.set_flag(FLAG_CARRY, false),
{
    cpu.status &= !FLAG_CARRY;
}

/// Clears D.
pub fn cld(cpu: &mut CPU)
    ensures
        final(cpu)@ == old(cpu)@.set_flag(FLAG_DECIMAL, false),
{
    cpu.status &= !FLAG_DECIMAL;
}

/// Clears I.
pub fn cli(cpu: &mut CPU)
    ensures
        final(cpu)@ == old(cpu)@.set_flag(FLAG_INTERRUPT, false),
{
    cpu.status &= !FLAG_INTERRUPT;
}

/// Clears V.
pub fn clv(cpu: &mut CPU)
    ensures
        final(cpu)@ == old(cpu)@.set_flag(FLAG_OVERFLOW, false),
{
    cpu.status &= !FLAG_OVERFLOW;
}

/// Software interrupt: pushes the address of the byte after the signature byte, then
/// the status with B and U set; sets I and continues at the IRQ vector.
pub fn brk(cpu: &mut CPU)
    ensures
        final(cpu)@ == old(cpu)@.brk(),
{
    let return_addr = offset16(cpu.program_counter, 1);
    cpu.push_stack(high_byte(return_addr));
    cpu.push_stack(low_byte(return_addr));

    let mut status = cpu.status;
    status |= FLAG_UNUSED;
    status |= FLAG_BREAK;
    cpu.push_stack(status);

    cpu.status |= FLAG_INTERRUPT;

    let lo = cpu.bus.read(IRQ_VECTOR);
    let hi = cpu.bus.read(offset16(IRQ_VECTOR, 1));
    cpu.program_counter = make_word(lo, hi);
}

/// Adds the operand and the carry to the accumulator, in decimal if D is set.
pub fn adc(cpu: &mut CPU, mode: &AddressingMode)
    ensures
        final(cpu)@ == old(cpu)@.adc(*mode),
{
    let (addr, _) = get_operand_address(cpu, mode);
    let value = cpu.bus.read(addr);

    let a = cpu.register_a;
    let carry = cpu.has_flag(FLAG_CARRY);

    let outcome = if cpu.has_flag(FLAG_DECIMAL) {
        add_decimal(a, value, carry)
    } else {
        add_binary(a, value, carry)
    };
    cpu.register_a = outcome.value;
    cpu.set_flag(FLAG_CARRY, outcome.carry);
    cpu.set_flag(FLAG_OVERFLOW, outcome.overflow);
    update_zero_and_negative_flags(cpu, outcome.binary);
}

/// Subtracts the operand and the borrow from the accumulator, in decimal if D is set.
pub fn sbc(cpu: &mut CPU, mode: &AddressingMode)
    ensures
        final(cpu)@ == old(cpu)@.sbc(*mode),
{
    let (addr, _) = get_operand_address(cpu, mode);
    let value = cpu.bus.read(addr);

    let a = cpu.register_a;
    let carry = cpu.has_flag(FLAG_CARRY);

    let outcome = if cpu.has_flag(FLAG_DECIMAL) {
        subtract_decimal(a, value, carry)
    } else {
        subtract_binary(a, value, carry)
    };
    cpu.register_a = outcome.value;
    cpu.set_flag(FLAG_CARRY, outcome.carry);
    cpu.set_flag(FLAG_OVERFLOW, outcome.overflow);
    update_zero_and_negative_flags(cpu, outcome.binary);
}

} // verus!
