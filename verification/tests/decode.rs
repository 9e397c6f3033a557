use r6502::addressing::AddressingMode;
use r6502::cycles::{add_cycles, base_cycles, OP_CYCLES};
use r6502::isa::{
    accumulator, decode, implied, memory, operand_length, Instruction, Mnemonic, Operand,
};

#[test]
fn decode_known_opcodes() {
    assert_eq!(
        decode(0xA9),
        Instruction {
            mnemonic: Mnemonic::LDA,
            operand: Operand::Memory(AddressingMode::Immediate)
        }
    );
    assert_eq!(decode(0x6C), memory(Mnemonic::JMP, AddressingMode::Indirect));
    assert_eq!(decode(0x96), memory(Mnemonic::STX, AddressingMode::ZeroPageY));
    assert_eq!(decode(0x0A), Instruction { mnemonic: Mnemonic::ASL, operand: Operand::Accumulator });
    assert_eq!(decode(0x0A), accumulator(Mnemonic::ASL));
    assert_eq!(decode(0x00), Instruction { mnemonic: Mnemonic::BRK, operand: Operand::Implied });
    assert_eq!(decode(0x00), implied(Mnemonic::BRK));
}

#[test]
fn decode_unknown_opcode_is_nop() {
    for opcode in [0x02u8, 0x03, 0x1A, 0x80, 0xFF] {
        assert_eq!(
            decode(opcode),
            Instruction { mnemonic: Mnemonic::NOP, operand: Operand::Implied }
        );
    }
}

#[test]
fn documented_opcodes_number_151() {
    let nop = Instruction { mnemonic: Mnemonic::NOP, operand: Operand::Implied };
    let documented = (0..=255u8).filter(|opcode| *opcode == 0xEA || decode(*opcode) != nop).count();
    assert_eq!(documented, 151);
}

#[test]
fn operand_lengths() {
    assert_eq!(operand_length(Operand::Implied), 0);
    assert_eq!(operand_length(Operand::Accumulator), 0);
    assert_eq!(operand_length(Operand::Memory(AddressingMode::Immediate)), 1);
    assert_eq!(operand_length(Operand::Memory(AddressingMode::Relative)), 1);
    assert_eq!(operand_length(Operand::Memory(AddressingMode::IndirectY)), 1);
    assert_eq!(operand_length(Operand::Memory(AddressingMode::Absolute)), 2);
    assert_eq!(operand_length(Operand::Memory(AddressingMode::AbsoluteY)), 2);
    assert_eq!(operand_length(Operand::Memory(AddressingMode::Indirect)), 2);
}

#[test]
fn base_cycles_of_known_opcodes() {
    assert_eq!(base_cycles(0x00), 7);
    assert_eq!(base_cycles(0xA9), 2);
    assert_eq!(base_cycles(0xA5), 3);
    assert_eq!(base_cycles(0xB1), 5);
    assert_eq!(base_cycles(0x91), 6);
    assert_eq!(base_cycles(0x9D), 5);
    assert_eq!(base_cycles(0x1E), 7);
    assert_eq!(base_cycles(0x4C), 3);
    assert_eq!(base_cycles(0x6C), 5);
    assert_eq!(base_cycles(0x20), 6);
    assert_eq!(base_cycles(0x60), 6);
    assert_eq!(base_cycles(0x48), 3);
    assert_eq!(base_cycles(0x68), 4);
    assert_eq!(base_cycles(0xD0), 2);
    assert_eq!(base_cycles(0xEA), 2);
}

#[test]
fn unknown_opcodes_cost_two_cycles() {
    assert_eq!(base_cycles(0x02), 2);
    assert_eq!(base_cycles(0xFF), 2);
    assert_eq!(OP_CYCLES[0x80], 2);
}

#[test]
fn cycle_counter_wraps() {
    assert_eq!(add_cycles(10, 7), 17);
    assert_eq!(add_cycles(u64::MAX, 2), 1);
}
