use crate::addressing::AddressingMode;
use vstd::prelude::*;

verus! {

/// The operations of the documented instruction set.
#[derive(Debug, Clone, Copy, PartialEq, Eq, Structural)]
pub enum Mnemonic {
    ADC,
    AND,
    ASL,
    BCC,
    BCS,
    BEQ,
    BIT,
    BMI,
    BNE,
    BPL,
    BRK,
    BVC,
    BVS,
    CLC,
    CLD,
    CLI,
    CLV,
    CMP,
    CPX,
    CPY,
    DEC,
    DEX,
    DEY,
    EOR,
    INC,
    INX,
    INY,
    JMP,
    JSR,
    LDA,
    LDX,
    LDY,
    LSR,
    NOP,
    ORA,
    PHA,
    PHP,
    PLA,
    PLP,
    ROL,
    ROR,
    RTI,
    RTS,
    SBC,
    SEC,
    SED,
    SEI,
    STA,
    STX,
    STY,
    TAX,
    TAY,
    TSX,
    TXA,
    TXS,
    TYA,
}

impl Mnemonic {
    /// Whether the operation continues elsewhere if a flag has a certain value.
    pub open spec fn is_branch(self) -> bool {
        match self {
            Mnemonic::BPL
            | Mnemonic::BMI
            | Mnemonic::BVC
            | Mnemonic::BVS
            | Mnemonic::BCC
            | Mnemonic::BCS
            | Mnemonic::BNE
            | Mnemonic::BEQ => true,
            _ => false,
        }
    }
}

/// What an instruction works on.
#[derive(Debug, Clone, Copy, PartialEq, Eq, Structural)]
pub enum Operand {
    /// Nothing beyond the registers that the operation names.
    Implied,
    /// The accumulator.
    Accumulator,
    /// A memory cell, or for jumps and branches an address, designated by operand bytes.
    Memory(AddressingMode),
}

/// An operation together with what it works on.
#[derive(Debug, Clone, Copy, PartialEq, Eq, Structural)]
pub struct Instruction {
    pub mnemonic: Mnemonic,
    pub operand: Operand,
}

/// An instruction that works on the registers it names.
pub open spec fn spec_implied(mnemonic: Mnemonic) -> Instruction {
    Instruction { mnemonic, operand: Operand::Implied }
}

/// An instruction that works on the registers it names.
#[verifier::when_used_as_spec(spec_implied)]
pub fn implied(mnemonic: Mnemonic) -> (instruction: Instruction)
    ensures
        instruction == spec_implied(mnemonic),
{
    Instruction { mnemonic, operand: Operand::Implied }
}

/// An instruction that works on the accumulator.
pub open spec fn spec_accumulator(mnemonic: Mnemonic) -> Instruction {
    Instruction { mnemonic, operand: Operand::Accumulator }
}

/// An instruction that works on the accumulator.
#[verifier::when_used_as_spec(spec_accumulator)]
pub fn accumulator(mnemonic: Mnemonic) -> (instruction: Instruction)
    ensures
        instruction == spec_accumulator(mnemonic),
{
    Instruction { mnemonic, operand: Operand::Accumulator }
}

/// An instruction whose operand bytes are read according to `mode`.
pub open spec fn spec_memory(mnemonic: Mnemonic, mode: AddressingMode) -> Instruction {
    Instruction { mnemonic, operand: Operand::Memory(mode) }
}

/// An instruction whose operand bytes are read according to `mode`.
#[verifier::when_used_as_spec(spec_memory)]
pub fn memory(mnemonic: Mnemonic, mode: AddressingMode) -> (instruction: Instruction)
    ensures
        instruction == spec_memory(mnemonic, mode),
{
    Instruction { mnemonic, operand: Operand::Memory(mode) }
}

/// The number of operand bytes that follow the opcode.
pub open spec fn spec_operand_length(operand: Operand) -> u8 {
    match operand {
        Operand::Implied | Operand::Accumulator => 0,
        Operand::Memory(mode) => match mode {
            AddressingMode::Absolute
            | AddressingMode::AbsoluteX
            | AddressingMode::AbsoluteY
            | AddressingMode::Indirect => 2,
            _ => 1,
        },
    }
}

/// The number of operand bytes that follow the opcode.
#[verifier::when_used_as_spec(spec_operand_length)]
pub fn operand_length(operand: Operand) -> (n: u8)
    ensures
        n == spec_operand_length(operand),
{
    match operand {
        Operand::Implied | Operand::Accumulator => 0,
        Operand::Memory(mode) => match mode {
            AddressingMode::Absolute
            | AddressingMode::AbsoluteX
            | AddressingMode::AbsoluteY
            | AddressingMode::Indirect => 2,
            _ => 1,
        },
    }
}

/// The opcode matrix: the instruction that each byte encodes. A byte that encodes no
/// documented instruction stands for `NOP`.
pub open spec fn spec_decode(opcode: u8) -> Instruction {
    match opcode {
        0x00 => implied(Mnemonic::BRK),
        0x01 => memory(Mnemonic::ORA, AddressingMode::IndirectX),
        0x05 => memory(Mnemonic::ORA, AddressingMode::ZeroPage),
        0x06 => memory(Mnemonic::ASL, AddressingMode::ZeroPage),
        0x08 => implied(Mnemonic::PHP),
        0x09 => memory(Mnemonic::ORA, AddressingMode::Immediate),
        0x0A => accumulator(Mnemonic::ASL),
        0x0D => memory(Mnemonic::ORA, AddressingMode::Absolute),
        0x0E => memory(Mnemonic::ASL, AddressingMode::Absolute),
        0x10 => memory(Mnemonic::BPL, AddressingMode::Relative),
        0x11 => memory(Mnemonic::ORA, AddressingMode::IndirectY),
        0x15 => memory(Mnemonic::ORA, AddressingMode::ZeroPageX),
        0x16 => memory(Mnemonic::ASL, AddressingMode::ZeroPageX),
        0x18 => implied(Mnemonic::CLC),
        0x19 => memory(Mnemonic::ORA, AddressingMode::AbsoluteY),
        0x1D => memory(Mnemonic::ORA, AddressingMode::AbsoluteX),
        0x1E => memory(Mnemonic::ASL, AddressingMode::AbsoluteX),
        0x20 => memory(Mnemonic::JSR, AddressingMode::Absolute),
        0x21 => memory(Mnemonic::AND, AddressingMode::IndirectX),
        0x24 => memory(Mnemonic::BIT, AddressingMode::ZeroPage),
        0x25 => memory(Mnemonic::AND, AddressingMode::ZeroPage),
        0x26 => memory(Mnemonic::ROL, AddressingMode::ZeroPage),
        0x28 => implied(Mnemonic::PLP),
        0x29 => memory(Mnemonic::AND, AddressingMode::Immediate),
        0x2A => accumulator(Mnemonic::ROL),
        0x2C => memory(Mnemonic::BIT, AddressingMode::Absolute),
        0x2D => memory(Mnemonic::AND, AddressingMode::Absolute),
        0x2E => memory(Mnemonic::ROL, AddressingMode::Absolute),
        0x30 => memory(Mnemonic::BMI, AddressingMode::Relative),
        0x31 => memory(Mnemonic::AND, AddressingMode::IndirectY),
        0x35 => memory(Mnemonic::AND, AddressingMode::ZeroPageX),
        0x36 => memory(Mnemonic::ROL, AddressingMode::ZeroPageX),
        0x38 => implied(Mnemonic::SEC),
        0x39 => memory(Mnemonic::AND, AddressingMode::AbsoluteY),
        0x3D => memory(Mnemonic::AND, AddressingMode::AbsoluteX),
        0x3E => memory(Mnemonic::ROL, AddressingMode::AbsoluteX),
        0x40 => implied(Mnemonic::RTI),
        0x41 => memory(Mnemonic::EOR, AddressingMode::IndirectX),
        0x45 => memory(Mnemonic::EOR, AddressingMode::ZeroPage),
        0x46 => memory(Mnemonic::LSR, AddressingMode::ZeroPage),
        0x48 => implied(Mnemonic::PHA),
        0x49 => memory(Mnemonic::EOR, AddressingMode::Immediate),
        0x4A => accumulator(Mnemonic::LSR),
        0x4C => memory(Mnemonic::JMP, AddressingMode::Absolute),
        0x4D => memory(Mnemonic::EOR, AddressingMode::Absolute),
        0x4E => memory(Mnemonic::LSR, AddressingMode::Absolute),
        0x50 => memory(Mnemonic::BVC, AddressingMode::Relative),
        0x51 => memory(Mnemonic::EOR, AddressingMode::IndirectY),
        0x55 => memory(Mnemonic::EOR, AddressingMode::ZeroPageX),
        0x56 => memory(Mnemonic::LSR, AddressingMode::ZeroPageX),
        0x58 => implied(Mnemonic::CLI),
        0x59 => memory(Mnemonic::EOR, AddressingMode::AbsoluteY),
        0x5D => memory(Mnemonic::EOR, AddressingMode::AbsoluteX),
        0x5E => memory(Mnemonic::LSR, AddressingMode::AbsoluteX),
        0x60 => implied(Mnemonic::RTS),
        0x61 => memory(Mnemonic::ADC, AddressingMode::IndirectX),
        0x65 => memory(Mnemonic::ADC, AddressingMode::ZeroPage),
        0x66 => memory(Mnemonic::ROR, AddressingMode::ZeroPage),
        0x68 => implied(Mnemonic::PLA),
        0x69 => memory(Mnemonic::ADC, AddressingMode::Immediate),
        0x6A => accumulator(Mnemonic::ROR),
        0x6C => memory(Mnemonic::JMP, AddressingMode::Indirect),
        0x6D => memory(Mnemonic::ADC, AddressingMode::Absolute),
        0x6E => memory(Mnemonic::ROR, AddressingMode::Absolute),
        0x70 => memory(Mnemonic::BVS, AddressingMode::Relative),
        0x71 => memory(Mnemonic::ADC, AddressingMode::IndirectY),
        0x75 => memory(Mnemonic::ADC, AddressingMode::ZeroPageX),
        0x76 => memory(Mnemonic::ROR, AddressingMode::ZeroPageX),
        0x78 => implied(Mnemonic::SEI),
        0x79 => memory(Mnemonic::ADC, AddressingMode::AbsoluteY),
        0x7D => memory(Mnemonic::ADC, AddressingMode::AbsoluteX),
        0x7E => memory(Mnemonic::ROR, AddressingMode::AbsoluteX),
        0x81 => memory(Mnemonic::STA, AddressingMode::IndirectX),
        0x84 => memory(Mnemonic::STY, AddressingMode::ZeroPage),
        0x85 => memory(Mnemonic::STA, AddressingMode::ZeroPage),
        0x86 => memory(Mnemonic::STX, AddressingMode::ZeroPage),
        0x88 => implied(Mnemonic::DEY),
        0x8A => implied(Mnemonic::TXA),
        0x8C => memory(Mnemonic::STY, AddressingMode::Absolute),
        0x8D => memory(Mnemonic::STA, AddressingMode::Absolute),
        0x8E => memory(Mnemonic::STX, AddressingMode::Absolute),
        0x90 => memory(Mnemonic::BCC, AddressingMode::Relative),
        0x91 => memory(Mnemonic::STA, AddressingMode::IndirectY),
        0x94 => memory(Mnemonic::STY, AddressingMode::ZeroPageX),
        0x95 => memory(Mnemonic::STA, AddressingMode::ZeroPageX),
        0x96 => memory(Mnemonic::STX, AddressingMode::ZeroPageY),
        0x98 => implied(Mnemonic::TYA),
        0x99 => memory(Mnemonic::STA, AddressingMode::AbsoluteY),
        0x9A => implied(Mnemonic::TXS),
        0x9D => memory(Mnemonic::STA, AddressingMode::AbsoluteX),
        0xA0 => memory(Mnemonic::LDY, AddressingMode::Immediate),
        0xA1 => memory(Mnemonic::LDA, AddressingMode::IndirectX),
        0xA2 => memory(Mnemonic::LDX, AddressingMode::Immediate),
        0xA4 => memory(Mnemonic::LDY, AddressingMode::ZeroPage),
        0xA5 => memory(Mnemonic::LDA, AddressingMode::ZeroPage),
        0xA6 => memory(Mnemonic::LDX, AddressingMode::ZeroPage),
        0xA8 => implied(Mnemonic::TAY),
        0xA9 => memory(Mnemonic::LDA, AddressingMode::Immediate),
        0xAA => implied(Mnemonic::TAX),
        0xAC => memory(Mnemonic::LDY, AddressingMode::Absolute),
        0xAD => memory(Mnemonic::LDA, AddressingMode::Absolute),
        0xAE => memory(Mnemonic::LDX, AddressingMode::Absolute),
        0xB0 => memory(Mnemonic::BCS, AddressingMode::Relative),
        0xB1 => memory(Mnemonic::LDA, AddressingMode::IndirectY),
        0xB4 => memory(Mnemonic::LDY, AddressingMode::ZeroPageX),
        0xB5 => memory(Mnemonic::LDA, AddressingMode::ZeroPageX),
        0xB6 => memory(Mnemonic::LDX, AddressingMode::ZeroPageY),
        0xB8 => implied(Mnemonic::CLV),
        0xB9 => memory(Mnemonic::LDA, AddressingMode::AbsoluteY),
        0xBA => implied(Mnemonic::TSX),
        0xBC => memory(Mnemonic::LDY, AddressingMode::AbsoluteX),
        0xBD => memory(Mnemonic::LDA, AddressingMode::AbsoluteX),
        0xBE => memory(Mnemonic::LDX, AddressingMode::AbsoluteY),
        0xC0 => memory(Mnemonic::CPY, AddressingMode::Immediate),
        0xC1 => memory(Mnemonic::CMP, AddressingMode::IndirectX),
        0xC4 => memory(Mnemonic::CPY, AddressingMode::ZeroPage),
        0xC5 => memory(Mnemonic::CMP, AddressingMode::ZeroPage),
        0xC6 => memory(Mnemonic::DEC, AddressingMode::ZeroPage),
        0xC8 => implied(Mnemonic::INY),
        0xC9 => memory(Mnemonic::CMP, AddressingMode::Immediate),
        0xCA => implied(Mnemonic::DEX),
        0xCC => memory(Mnemonic::CPY, AddressingMode::Absolute),
        0xCD => memory(Mnemonic::CMP, AddressingMode::Absolute),
        0xCE => memory(Mnemonic::DEC, AddressingMode::Absolute),
        0xD0 => memory(Mnemonic::BNE, AddressingMode::Relative),
        0xD1 => memory(Mnemonic::CMP, AddressingMode::IndirectY),
        0xD5 => memory(Mnemonic::CMP, AddressingMode::ZeroPageX),
        0xD6 => memory(Mnemonic::DEC, AddressingMode::ZeroPageX),
        0xD8 => implied(Mnemonic::CLD),
        0xD9 => memory(Mnemonic::CMP, AddressingMode::AbsoluteY),
        0xDD => memory(Mnemonic::CMP, AddressingMode::AbsoluteX),
        0xDE => memory(Mnemonic::DEC, AddressingMode::AbsoluteX),
        0xE0 => memory(Mnemonic::CPX, AddressingMode::Immediate),
        0xE1 => memory(Mnemonic::SBC, AddressingMode::IndirectX),
        0xE4 => memory(Mnemonic::CPX, AddressingMode::ZeroPage),
        0xE5 => memory(Mnemonic::SBC, AddressingMode::ZeroPage),
        0xE6 => memory(Mnemonic::INC, AddressingMode::ZeroPage),
        0xE8 => implied(Mnemonic::INX),
        0xE9 => memory(Mnemonic::SBC, AddressingMode::Immediate),
        0xEA => implied(Mnemonic::NOP),
        0xEC => memory(Mnemonic::CPX, AddressingMode::Absolute),
        0xED => memory(Mnemonic::SBC, AddressingMode::Absolute),
        0xEE => memory(Mnemonic::INC, AddressingMode::Absolute),
        0xF0 => memory(Mnemonic::BEQ, AddressingMode::Relative),
        0xF1 => memory(Mnemonic::SBC, AddressingMode::IndirectY),
        0xF5 => memory(Mnemonic::SBC, AddressingMode::ZeroPageX),
        0xF6 => memory(Mnemonic::INC, AddressingMode::ZeroPageX),
        0xF8 => implied(Mnemonic::SED),
        0xF9 => memory(Mnemonic::SBC, AddressingMode::AbsoluteY),
        0xFD => memory(Mnemonic::SBC, AddressingMode::AbsoluteX),
        0xFE => memory(Mnemonic::INC, AddressingMode::AbsoluteX),
        _ => implied(Mnemonic::NOP),
    }
}

/// The instruction that `opcode` encodes.
#[verifier::when_used_as_spec(spec_decode)]
pub fn decode(opcode: u8) -> (instruction: Instruction)
    ensures
        instruction == spec_decode(opcode),
{
    match opcode {
        0x00 => implied(Mnemonic::BRK),
        0x01 => memory(Mnemonic::ORA, AddressingMode::IndirectX),
        0x05 => memory(Mnemonic::ORA, AddressingMode::ZeroPage),
        0x06 => memory(Mnemonic::ASL, AddressingMode::ZeroPage),
        0x08 => implied(Mnemonic::PHP),
        0x09 => memory(Mnemonic::ORA, AddressingMode::Immediate),
        0x0A => accumulator(Mnemonic::ASL),
        0x0D => memory(Mnemonic::ORA, AddressingMode::Absolute),
        0x0E => memory(Mnemonic::ASL, AddressingMode::Absolute),
        0x10 => memory(Mnemonic::BPL, AddressingMode::Relative),
        0x11 => memory(Mnemonic::ORA, AddressingMode::IndirectY),
        0x15 => memory(Mnemonic::ORA, AddressingMode::ZeroPageX),
        0x16 => memory(Mnemonic::ASL, AddressingMode::ZeroPageX),
        0x18 => implied(Mnemonic::CLC),
        0x19 => memory(Mnemonic::ORA, AddressingMode::AbsoluteY),
        0x1D => memory(Mnemonic::ORA, AddressingMode::AbsoluteX),
        0x1E => memory(Mnemonic::ASL, AddressingMode::AbsoluteX),
        0x20 => memory(Mnemonic::JSR, AddressingMode::Absolute),
        0x21 => memory(Mnemonic::AND, AddressingMode::IndirectX),
        0x24 => memory(Mnemonic::BIT, AddressingMode::ZeroPage),
        0x25 => memory(Mnemonic::AND, AddressingMode::ZeroPage),
        0x26 => memory(Mnemonic::ROL, AddressingMode::ZeroPage),
        0x28 => implied(Mnemonic::PLP),
        0x29 => memory(Mnemonic::AND, AddressingMode::Immediate),
        0x2A => accumulator(Mnemonic::ROL),
        0x2C => memory(Mnemonic::BIT, AddressingMode::Absolute),
        0x2D => memory(Mnemonic::AND, AddressingMode::Absolute),
        0x2E => memory(Mnemonic::ROL, AddressingMode::Absolute),
        0x30 => memory(Mnemonic::BMI, AddressingMode::Relative),
        0x31 => memory(Mnemonic::AND, AddressingMode::IndirectY),
        0x35 => memory(Mnemonic::AND, AddressingMode::ZeroPageX),
        0x36 => memory(Mnemonic::ROL, AddressingMode::ZeroPageX),
        0x38 => implied(Mnemonic::SEC),
        0x39 => memory(Mnemonic::AND, AddressingMode::AbsoluteY),
        0x3D => memory(Mnemonic::AND, AddressingMode::AbsoluteX),
        0x3E => memory(Mnemonic::ROL, AddressingMode::AbsoluteX),
        0x40 => implied(Mnemonic::RTI),
        0x41 => memory(Mnemonic::EOR, AddressingMode::IndirectX),
        0x45 => memory(Mnemonic::EOR, AddressingMode::ZeroPage),
        0x46 => memory(Mnemonic::LSR, AddressingMode::ZeroPage),
        0x48 => implied(Mnemonic::PHA),
        0x49 => memory(Mnemonic::EOR, AddressingMode::Immediate),
        0x4A => accumulator(Mnemonic::LSR),
        0x4C => memory(Mnemonic::JMP, AddressingMode::Absolute),
        0x4D => memory(Mnemonic::EOR, AddressingMode::Absolute),
        0x4E => memory(Mnemonic::LSR, AddressingMode::Absolute),
        0x50 => memory(Mnemonic::BVC, AddressingMode::Relative),
        0x51 => memory(Mnemonic::EOR, AddressingMode::IndirectY),
        0x55 => memory(Mnemonic::EOR, AddressingMode::ZeroPageX),
        0x56 => memory(Mnemonic::LSR, AddressingMode::ZeroPageX),
        0x58 => implied(Mnemonic::CLI),
        0x59 => memory(Mnemonic::EOR, AddressingMode::AbsoluteY),
        0x5D => memory(Mnemonic::EOR, AddressingMode::AbsoluteX),
        0x5E => memory(Mnemonic::LSR, AddressingMode::AbsoluteX),
        0x60 => implied(Mnemonic::RTS),
        0x61 => memory(Mnemonic::ADC, AddressingMode::IndirectX),
        0x65 => memory(Mnemonic::ADC, AddressingMode::ZeroPage),
        0x66 => memory(Mnemonic::ROR, AddressingMode::ZeroPage),
        0x68 => implied(Mnemonic::PLA),
        0x69 => memory(Mnemonic::ADC, AddressingMode::Immediate),
        0x6A => accumulator(Mnemonic::ROR),
        0x6C => memory(Mnemonic::JMP, AddressingMode::Indirect),
        0x6D => memory(Mnemonic::ADC, AddressingMode::Absolute),
        0x6E => memory(Mnemonic::ROR, AddressingMode::Absolute),
        0x70 => memory(Mnemonic::BVS, AddressingMode::Relative),
        0x71 => memory(Mnemonic::ADC, AddressingMode::IndirectY),
        0x75 => memory(Mnemonic::ADC, AddressingMode::ZeroPageX),
        0x76 => memory(Mnemonic::ROR, AddressingMode::ZeroPageX),
        0x78 => implied(Mnemonic::SEI),
        0x79 => memory(Mnemonic::ADC, AddressingMode::AbsoluteY),
        0x7D => memory(Mnemonic::ADC, AddressingMode::AbsoluteX),
        0x7E => memory(Mnemonic::ROR, AddressingMode::AbsoluteX),
        0x81 => memory(Mnemonic::STA, AddressingMode::IndirectX),
        0x84 => memory(Mnemonic::STY, AddressingMode::ZeroPage),
        0x85 => memory(Mnemonic::STA, AddressingMode::ZeroPage),
        0x86 => memory(Mnemonic::STX, AddressingMode::ZeroPage),
        0x88 => implied(Mnemonic::DEY),
        0x8A => implied(Mnemonic::TXA),
        0x8C => memory(Mnemonic::STY, AddressingMode::Absolute),
        0x8D => memory(Mnemonic::STA, AddressingMode::Absolute),
        0x8E => memory(Mnemonic::STX, AddressingMode::Absolute),
        0x90 => memory(Mnemonic::BCC, AddressingMode::Relative),
        0x91 => memory(Mnemonic::STA, AddressingMode::IndirectY),
        0x94 => memory(Mnemonic::STY, AddressingMode::ZeroPageX),
        0x95 => memory(Mnemonic::STA, AddressingMode::ZeroPageX),
        0x96 => memory(Mnemonic::STX, AddressingMode::ZeroPageY),
        0x98 => implied(Mnemonic::TYA),
        0x99 => memory(Mnemonic::STA, AddressingMode::AbsoluteY),
        0x9A => implied(Mnemonic::TXS),
        0x9D => memory(Mnemonic::STA, AddressingMode::AbsoluteX),
        0xA0 => memory(Mnemonic::LDY, AddressingMode::Immediate),
        0xA1 => memory(Mnemonic::LDA, AddressingMode::IndirectX),
        0xA2 => memory(Mnemonic::LDX, AddressingMode::Immediate),
        0xA4 => memory(Mnemonic::LDY, AddressingMode::ZeroPage),
        0xA5 => memory(Mnemonic::LDA, AddressingMode::ZeroPage),
        0xA6 => memory(Mnemonic::LDX, AddressingMode::ZeroPage),
        0xA8 => implied(Mnemonic::TAY),
        0xA9 => memory(Mnemonic::LDA, AddressingMode::Immediate),
        0xAA => implied(Mnemonic::TAX),
        0xAC => memory(Mnemonic::LDY, AddressingMode::Absolute),
        0xAD => memory(Mnemonic::LDA, AddressingMode::Absolute),
        0xAE => memory(Mnemonic::LDX, AddressingMode::Absolute),
        0xB0 => memory(Mnemonic::BCS, AddressingMode::Relative),
        0xB1 => memory(Mnemonic::LDA, AddressingMode::IndirectY),
        0xB4 => memory(Mnemonic::LDY, AddressingMode::ZeroPageX),
        0xB5 => memory(Mnemonic::LDA, AddressingMode::ZeroPageX),
        0xB6 => memory(Mnemonic::LDX, AddressingMode::ZeroPageY),
        0xB8 => implied(Mnemonic::CLV),
        0xB9 => memory(Mnemonic::LDA, AddressingMode::AbsoluteY),
        0xBA => implied(Mnemonic::TSX),
        0xBC => memory(Mnemonic::LDY, AddressingMode::AbsoluteX),
        0xBD => memory(Mnemonic::LDA, AddressingMode::AbsoluteX),
        0xBE => memory(Mnemonic::LDX, AddressingMode::AbsoluteY),
        0xC0 => memory(Mnemonic::CPY, AddressingMode::Immediate),
        0xC1 => memory(Mnemonic::CMP, AddressingMode::IndirectX),
        0xC4 => memory(Mnemonic::CPY, AddressingMode::ZeroPage),
        0xC5 => memory(Mnemonic::CMP, AddressingMode::ZeroPage),
        0xC6 => memory(Mnemonic::DEC, AddressingMode::ZeroPage),
        0xC8 => implied(Mnemonic::INY),
        0xC9 => memory(Mnemonic::CMP, AddressingMode::Immediate),
        0xCA => implied(Mnemonic::DEX),
        0xCC => memory(Mnemonic::CPY, AddressingMode::Absolute),
        0xCD => memory(Mnemonic::CMP, AddressingMode::Absolute),
        0xCE => memory(Mnemonic::DEC, AddressingMode::Absolute),
        0xD0 => memory(Mnemonic::BNE, AddressingMode::Relative),
        0xD1 => memory(Mnemonic::CMP, AddressingMode::IndirectY),
        0xD5 => memory(Mnemonic::CMP, AddressingMode::ZeroPageX),
        0xD6 => memory(Mnemonic::DEC, AddressingMode::ZeroPageX),
        0xD8 => implied(Mnemonic::CLD),
        0xD9 => memory(Mnemonic::CMP, AddressingMode::AbsoluteY),
        0xDD => memory(Mnemonic::CMP, AddressingMode::AbsoluteX),
        0xDE => memory(Mnemonic::DEC, AddressingMode::AbsoluteX),
        0xE0 => memory(Mnemonic::CPX, AddressingMode::Immediate),
        0xE1 => memory(Mnemonic::SBC, AddressingMode::IndirectX),
        0xE4 => memory(Mnemonic::CPX, AddressingMode::ZeroPage),
        0xE5 => memory(Mnemonic::SBC, AddressingMode::ZeroPage),
        0xE6 => memory(Mnemonic::INC, AddressingMode::ZeroPage),
        0xE8 => implied(Mnemonic::INX),
        0xE9 => memory(Mnemonic::SBC, AddressingMode::Immediate),
        0xEA => implied(Mnemonic::NOP),
        0xEC => memory(Mnemonic::CPX, AddressingMode::Absolute),
        0xED => memory(Mnemonic::SBC, AddressingMode::Absolute),
        0xEE => memory(Mnemonic::INC, AddressingMode::Absolute),
        0xF0 => memory(Mnemonic::BEQ, AddressingMode::Relative),
        0xF1 => memory(Mnemonic::SBC, AddressingMode::IndirectY),
        0xF5 => memory(Mnemonic::SBC, AddressingMode::ZeroPageX),
        0xF6 => memory(Mnemonic::INC, AddressingMode::ZeroPageX),
        0xF8 => implied(Mnemonic::SED),
        0xF9 => memory(Mnemonic::SBC, AddressingMode::AbsoluteY),
        0xFD => memory(Mnemonic::SBC, AddressingMode::AbsoluteX),
        0xFE => memory(Mnemonic::INC, AddressingMode::AbsoluteX),
        _ => implied(Mnemonic::NOP),
    }
}

} // verus!
