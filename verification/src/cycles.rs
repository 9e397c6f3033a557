use crate::addressing::AddressingMode;
use crate::isa::{decode, Instruction, Mnemonic, Operand};
use vstd::prelude::*;

verus! {

/// Base cost in clock cycles of each opcode, without the extra cycles of page crossings
/// and taken branches.
pub const OP_CYCLES: [u8; 256] = [
    7, 6, 2, 2, 2, 3, 5, 2, 3, 2, 2, 2, 2, 4, 6, 2,
    2, 5, 2, 2, 2, 4, 6, 2, 2, 4, 2, 2, 2, 4, 7, 2,
    6, 6, 2, 2, 3, 3, 5, 2, 4, 2, 2, 2, 4, 4, 6, 2,
    2, 5, 2, 2, 2, 4, 6, 2, 2, 4, 2, 2, 2, 4, 7, 2,
    6, 6, 2, 2, 2, 3, 5, 2, 3, 2, 2, 2, 3, 4, 6, 2,
    2, 5, 2, 2, 2, 4, 6, 2, 2, 4, 2, 2, 2, 4, 7, 2,
    6, 6, 2, 2, 2, 3, 5, 2, 4, 2, 2, 2, 5, 4, 6, 2,
    2, 5, 2, 2, 2, 4, 6, 2, 2, 4, 2, 2, 2, 4, 7, 2,
    2, 6, 2, 2, 3, 3, 3, 2, 2, 2, 2, 2, 4, 4, 4, 2,
    2, 6, 2, 2, 4, 4, 4, 2, 2, 5, 2, 2, 2, 5, 2, 2,
    2, 6, 2, 2, 3, 3, 3, 2, 2, 2, 2, 2, 4, 4, 4, 2,
    2, 5, 2, 2, 4, 4, 4, 2, 2, 4, 2, 2, 4, 4, 4, 2,
    2, 6, 2, 2, 3, 3, 5, 2, 2, 2, 2, 2, 4, 4, 6, 2,
    2, 5, 2, 2, 2, 4, 6, 2, 2, 4, 2, 2, 2, 4, 7, 2,
    2, 6, 2, 2, 3, 3, 5, 2, 2, 2, 2, 2, 4, 4, 6, 2,
    2, 5, 2, 2, 2, 4, 6, 2, 2, 4, 2, 2, 2, 4, 7, 2,
];

/// Cycles that reading an operand through `mode` costs an instruction that only reads it.
pub open spec fn read_cycles(mode: AddressingMode) -> u8 {
    match mode {
        AddressingMode::Immediate | AddressingMode::Relative => 2,
        AddressingMode::ZeroPage => 3,
        AddressingMode::ZeroPageX | AddressingMode::ZeroPageY => 4,
        AddressingMode::Absolute | AddressingMode::AbsoluteX | AddressingMode::AbsoluteY => 4,
        AddressingMode::Indirect => 5,
        AddressingMode::IndirectX => 6,
        AddressingMode::IndirectY => 5,
    }
}

/// Cycles of a store: an indexed store always pays for the page crossing.
pub open spec fn write_cycles(mode: AddressingMode) -> u8 {
    match mode {
        AddressingMode::AbsoluteX | AddressingMode::AbsoluteY => 5,
        AddressingMode::IndirectY => 6,
        _ => read_cycles(mode),
    }
}

/// Cycles of an instruction that reads a cell, changes the value and writes it back.
pub open spec fn modify_cycles(mode: AddressingMode) -> u8 {
    match mode {
        AddressingMode::AbsoluteX => 7,
        _ => (read_cycles(mode) + 2) as u8,
    }
}

/// Base cost in clock cycles of an instruction.
pub open spec fn instruction_cycles(instruction: Instruction) -> u8 {
    match instruction.operand {
        Operand::Accumulator => 2,
        Operand::Implied => match instruction.mnemonic {
            Mnemonic::BRK => 7,
            Mnemonic::RTS | Mnemonic::RTI => 6,
            Mnemonic::PHA | Mnemonic::PHP => 3,
            Mnemonic::PLA | Mnemonic::PLP => 4,
            _ => 2,
        },
        Operand::Memory(mode) => match instruction.mnemonic {
            Mnemonic::STA | Mnemonic::STX | Mnemonic::STY => write_cycles(mode),
            Mnemonic::ASL
            | Mnemonic::LSR
            | Mnemonic::ROL
            | Mnemonic::ROR
            | Mnemonic::INC
            | Mnemonic::DEC => modify_cycles(mode),
            Mnemonic::JMP => match mode {
                AddressingMode::Indirect => 5,
                _ => 3,
            },
            Mnemonic::JSR => 6,
            _ => read_cycles(mode),
        },
    }
}

/// Base cost in clock cycles of the instruction that `opcode` encodes.
pub open spec fn spec_base_cycles(opcode: u8) -> u8 {
    instruction_cycles(decode(opcode))
}

/// Looks the base cost of `opcode` up in the table.
#[verifier::when_used_as_spec(spec_base_cycles)]
pub fn base_cycles(opcode: u8) -> (cycles: u8)
    ensures
        cycles == spec_base_cycles(opcode),
{
    OP_CYCLES[opcode as usize]
}

/// `cycles` more clock cycles on a 64-bit counter, which wraps.
pub open spec fn spec_add_cycles(counter: u64, cycles: u8) -> u64 {
    ((counter + cycles) % 0x1_0000_0000_0000_0000) as u64
}

/// `cycles` more clock cycles on a 64-bit counter, which wraps.
#[verifier::when_used_as_spec(spec_add_cycles)]
pub fn add_cycles(counter: u64, cycles: u8) -> (sum: u64)
    ensures
        sum == spec_add_cycles(counter, cycles),
{
    counter.wrapping_add(cycles as u64)
}

} // verus!
