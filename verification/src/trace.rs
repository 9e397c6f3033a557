use crate::addressing::{peek_operand_address, AddressingMode};
use crate::alu::{high_byte, low_byte, make_word, offset16, offset8};
use crate::cpu::CPU;
use crate::isa::{decode, operand_length, Instruction, Mnemonic, Operand};
use crate::machine::{add16, add8, high, lemma_add16, low, Machine};
use vstd::prelude::*;
use vstd::string::{StrSliceExecFns, StringExecFns};

verus! {

/// The sixteen hexadecimal digits, in upper case.
pub open spec fn hex_digits() -> Seq<char> {
    "0123456789ABCDEF"@
}

/// A byte as two hexadecimal digits.
pub open spec fn hex2(b: u8) -> Seq<char> {
    seq![hex_digits()[b as int / 16], hex_digits()[b as int % 16]]
}

/// A word as four hexadecimal digits.
pub open spec fn hex4(w: u16) -> Seq<char> {
    hex2(high(w)) + hex2(low(w))
}

/// `n` spaces; none where `n` is negative.
pub open spec fn spaces(n: int) -> Seq<char> {
    Seq::new(
        if n > 0 {
            n as nat
        } else {
            0
        },
        |i: int| ' ',
    )
}

/// `text`, followed by as many spaces as it lacks to be `width` long; a longer text
/// stays as it is.
pub open spec fn pad(text: Seq<char>, width: int) -> Seq<char> {
    text + spaces(width - text.len())
}

/// Appends the hexadecimal digit of `n` to `line`.
fn push_digit(line: &mut String, n: u8)
    requires
        n < 16,
    ensures
        final(line)@ == old(line)@.push(hex_digits()[n as int]),
{
    let digits = "0123456789ABCDEF";
    proof {
        reveal_strlit("0123456789ABCDEF");
    }
    let digit = digits.substring_ascii(n as usize, n as usize + 1);
    line.append(digit);
    assert(line@ =~= old(line)@.push(hex_digits()[n as int]));
}

/// Appends the two hexadecimal digits of `b` to `line`.
fn push_hex2(line: &mut String, b: u8)
    ensures
        final(line)@ == old(line)@ + hex2(b),
{
    push_digit(line, b / 16);
    push_digit(line, b % 16);
    assert(line@ =~= old(line)@ + hex2(b));
}

/// Appends the four hexadecimal digits of `w` to `line`.
fn push_hex4(line: &mut String, w: u16)
    ensures
        final(line)@ == old(line)@ + hex4(w),
{
    push_hex2(line, high_byte(w));
    push_hex2(line, low_byte(w));
    assert(line@ =~= old(line)@ + hex4(w));
}

/// Appends `n` spaces to `line`.
fn push_spaces(line: &mut String, n: usize)
    ensures
        final(line)@ == old(line)@ + spaces(n as int),
{
    let mut i: usize = 0;
    assert(line@ =~= old(line)@ + spaces(0));
    while i < n
        invariant
            i <= n,
            line@ == old(line)@ + spaces(i as int),
        decreases n - i,
    {
        proof {
            reveal_strlit(" ");
        }
        line.append(" ");
        i += 1;
        assert(line@ =~= old(line)@ + spaces(i as int));
    }
}

/// The three letters by which an operation is written.
pub open spec fn spec_mnemonic_name(mnemonic: Mnemonic) -> Seq<char> {
    match mnemonic {
        Mnemonic::ADC => "ADC"@,
        Mnemonic::AND => "AND"@,
        Mnemonic::ASL => "ASL"@,
        Mnemonic::BCC => "BCC"@,
        Mnemonic::BCS => "BCS"@,
        Mnemonic::BEQ => "BEQ"@,
        Mnemonic::BIT => "BIT"@,
        Mnemonic::BMI => "BMI"@,
        Mnemonic::BNE => "BNE"@,
        Mnemonic::BPL => "BPL"@,
        Mnemonic::BRK => "BRK"@,
        Mnemonic::BVC => "BVC"@,
        Mnemonic::BVS => "BVS"@,
        Mnemonic::CLC => "CLC"@,
        Mnemonic::CLD => "CLD"@,
        Mnemonic::CLI => "CLI"@,
        Mnemonic::CLV => "CLV"@,
        Mnemonic::CMP => "CMP"@,
        Mnemonic::CPX => "CPX"@,
        Mnemonic::CPY => "CPY"@,
        Mnemonic::DEC => "DEC"@,
        Mnemonic::DEX => "DEX"@,
        Mnemonic::DEY => "DEY"@,
        Mnemonic::EOR => "EOR"@,
        Mnemonic::INC => "INC"@,
        Mnemonic::INX => "INX"@,
        Mnemonic::INY => "INY"@,
        Mnemonic::JMP => "JMP"@,
        Mnemonic::JSR => "JSR"@,
        Mnemonic::LDA => "LDA"@,
        Mnemonic::LDX => "LDX"@,
        Mnemonic::LDY => "LDY"@,
        Mnemonic::LSR => "LSR"@,
        Mnemonic::NOP => "NOP"@,
        Mnemonic::ORA => "ORA"@,
        Mnemonic::PHA => "PHA"@,
        Mnemonic::PHP => "PHP"@,
        Mnemonic::PLA => "PLA"@,
        Mnemonic::PLP => "PLP"@,
        Mnemonic::ROL => "ROL"@,
        Mnemonic::ROR => "ROR"@,
        Mnemonic::RTI => "RTI"@,
        Mnemonic::RTS => "RTS"@,
        Mnemonic::SBC => "SBC"@,
        Mnemonic::SEC => "SEC"@,
        Mnemonic::SED => "SED"@,
        Mnemonic::SEI => "SEI"@,
        Mnemonic::STA => "STA"@,
        Mnemonic::STX => "STX"@,
        Mnemonic::STY => "STY"@,
        Mnemonic::TAX => "TAX"@,
        Mnemonic::TAY => "TAY"@,
        Mnemonic::TSX => "TSX"@,
        Mnemonic::TXA => "TXA"@,
        Mnemonic::TXS => "TXS"@,
        Mnemonic::TYA => "TYA"@,
    }
}

/// The three letters by which an operation is written.
pub fn mnemonic_name(mnemonic: Mnemonic) -> (name: &'static str)
    ensures
        name@ == spec_mnemonic_name(mnemonic),
{
    match mnemonic {
        Mnemonic::ADC => "ADC",
        Mnemonic::AND => "AND",
        Mnemonic::ASL => "ASL",
        Mnemonic::BCC => "BCC",
        Mnemonic::BCS => "BCS",
        Mnemonic::BEQ => "BEQ",
        Mnemonic::BIT => "BIT",
        Mnemonic::BMI => "BMI",
        Mnemonic::BNE => "BNE",
        Mnemonic::BPL => "BPL",
        Mnemonic::BRK => "BRK",
        Mnemonic::BVC => "BVC",
        Mnemonic::BVS => "BVS",
        Mnemonic::CLC => "CLC",
        Mnemonic::CLD => "CLD",
        Mnemonic::CLI => "CLI",
        Mnemonic::CLV => "CLV",
        Mnemonic::CMP => "CMP",
        Mnemonic::CPX => "CPX",
        Mnemonic::CPY => "CPY",
        Mnemonic::DEC => "DEC",
        Mnemonic::DEX => "DEX",
        Mnemonic::DEY => "DEY",
        Mnemonic::EOR => "EOR",
        Mnemonic::INC => "INC",
        Mnemonic::INX => "INX",
        Mnemonic::INY => "INY",
        Mnemonic::JMP => "JMP",
        Mnemonic::JSR => "JSR",
        Mnemonic::LDA => "LDA",
        Mnemonic::LDX => "LDX",
        Mnemonic::LDY => "LDY",
        Mnemonic::LSR => "LSR",
        Mnemonic::NOP => "NOP",
        Mnemonic::ORA => "ORA",
        Mnemonic::PHA => "PHA",
        Mnemonic::PHP => "PHP",
        Mnemonic::PLA => "PLA",
        Mnemonic::PLP => "PLP",
        Mnemonic::ROL => "ROL",
        Mnemonic::ROR => "ROR",
        Mnemonic::RTI => "RTI",
        Mnemonic::RTS => "RTS",
        Mnemonic::SBC => "SBC",
        Mnemonic::SEC => "SEC",
        Mnemonic::SED => "SED",
        Mnemonic::SEI => "SEI",
        Mnemonic::STA => "STA",
        Mnemonic::STX => "STX",
        Mnemonic::STY => "STY",
        Mnemonic::TAX => "TAX",
        Mnemonic::TAY => "TAY",
        Mnemonic::TSX => "TSX",
        Mnemonic::TXA => "TXA",
        Mnemonic::TXS => "TXS",
        Mnemonic::TYA => "TYA",
    }
}

/// The bytes of the instruction at the program counter, in hexadecimal and separated
/// by single spaces: the opcode and its operand bytes.
pub open spec fn code_text(s: Machine, length: int) -> Seq<char> {
    let opcode = hex2(s.read(s.pc));
    let first = hex2(s.read(add16(s.pc, 1)));
    let second = hex2(s.read(add16(s.pc, 2)));
    if length == 0 {
        opcode
    } else if length == 1 {
        opcode + " "@ + first
    } else {
        opcode + " "@ + first + " "@ + second
    }
}

/// The operand of the instruction at the program counter as the log writes it, with
/// the addresses that resolving it passes through and the byte that memory holds at
/// the effective address now.
pub open spec fn operand_text(s: Machine, instruction: Instruction) -> Seq<char> {
    match instruction.operand {
        Operand::Implied => Seq::empty(),
        Operand::Accumulator => "A"@,
        Operand::Memory(mode) => {
            let past = s.fetch().1;
            let byte = past.fetch().0;
            let operand = past.fetch_word().0;
            let address = past.operand_address(mode).0;
            let value = hex2(s.read(address));
            match mode {
                AddressingMode::Immediate => "#$"@ + value,
                AddressingMode::ZeroPage => "$"@ + hex2(byte) + " = "@ + value,
                AddressingMode::ZeroPageX => "$"@ + hex2(byte) + ",X @ "@ + hex2(low(address))
                    + " = "@ + value,
                AddressingMode::ZeroPageY => "$"@ + hex2(byte) + ",Y @ "@ + hex2(low(address))
                    + " = "@ + value,
                AddressingMode::Absolute => match instruction.mnemonic {
                    Mnemonic::JMP | Mnemonic::JSR => "$"@ + hex4(operand),
                    _ => "$"@ + hex4(operand) + " = "@ + value,
                },
                AddressingMode::AbsoluteX => "$"@ + hex4(operand) + ",X @ "@ + hex4(address)
                    + " = "@ + value,
                AddressingMode::AbsoluteY => "$"@ + hex4(operand) + ",Y @ "@ + hex4(address)
                    + " = "@ + value,
                AddressingMode::Indirect => "($"@ + hex4(operand) + ") = "@ + hex4(address),
                AddressingMode::IndirectX => "($"@ + hex2(byte) + ",X) @ "@ + hex2(
                    add8(byte, s.x as int),
                ) + " = "@ + hex4(address) + " = "@ + value,
                AddressingMode::IndirectY => "($"@ + hex2(byte) + "),Y = "@ + hex4(
                    s.read_word(byte as u16, add8(byte, 1) as u16),
                ) + " @ "@ + hex4(address) + " = "@ + value,
                AddressingMode::Relative => "$"@ + hex4(address),
            }
        },
    }
}

/// What the operand texts are made of besides digits, letter by letter.
proof fn lemma_operand_glyphs()
    ensures
        "A"@.len() == 1,
        "#$"@.len() == 2,
        "$"@.len() == 1,
        " = "@.len() == 3,
        ",X @ "@.len() == 5,
        ",Y @ "@.len() == 5,
        "($"@.len() == 2,
        ") = "@.len() == 4,
        ",X) @ "@.len() == 6,
        "),Y = "@.len() == 6,
        " @ "@.len() == 3,
{
    reveal_strlit("A");
    reveal_strlit("#$");
    reveal_strlit("$");
    reveal_strlit(" = ");
    reveal_strlit(",X @ ");
    reveal_strlit(",Y @ ");
    reveal_strlit("($");
    reveal_strlit(") = ");
    reveal_strlit(",X) @ ");
    reveal_strlit("),Y = ");
    reveal_strlit(" @ ");
}

/// Appends to `line` the operand of the instruction at the program counter, and
/// returns how many characters that took.
fn push_operand(line: &mut String, cpu: &CPU, instruction: Instruction) -> (width: usize)
    ensures
        final(line)@ == old(line)@ + operand_text(cpu@, instruction),
        width == operand_text(cpu@, instruction).len(),
        width <= 26,
{
    proof {
        lemma_operand_glyphs();
    }
    let ghost text = operand_text(cpu@, instruction);
    match instruction.operand {
        Operand::Implied => {
            assert(line@ =~= old(line)@ + text);
            0
        },
        Operand::Accumulator => {
            line.append("A");
            1
        },
        Operand::Memory(mode) => {
            let at = offset16(cpu.program_counter, 1);
            let byte = cpu.bus.read(at);
            let operand = make_word(byte, cpu.bus.read(offset16(at, 1)));
            let address = peek_operand_address(cpu, at, &mode);
            let value = cpu.bus.read(address);
            match mode {
                AddressingMode::Immediate => {
                    line.append("#$");
                    push_hex2(line, value);
                    assert(line@ =~= old(line)@ + text);
                    4
                },
                AddressingMode::ZeroPage => {
                    line.append("$");
                    push_hex2(line, byte);
                    line.append(" = ");
                    push_hex2(line, value);
                    assert(line@ =~= old(line)@ + text);
                    8
                },
                AddressingMode::ZeroPageX => {
                    line.append("$");
                    push_hex2(line, byte);
                    line.append(",X @ ");
                    push_hex2(line, low_byte(address));
                    line.append(" = ");
                    push_hex2(line, value);
                    assert(line@ =~= old(line)@ + text);
                    15
                },
                AddressingMode::ZeroPageY => {
                    line.append("$");
                    push_hex2(line, byte);
                    line.append(",Y @ ");
                    push_hex2(line, low_byte(address));
                    line.append(" = ");
                    push_hex2(line, value);
                    assert(line@ =~= old(line)@ + text);
                    15
                },
                AddressingMode::Absolute => {
                    line.append("$");
                    push_hex4(line, operand);
                    match instruction.mnemonic {
                        Mnemonic::JMP | Mnemonic::JSR => {
                            assert(line@ =~= old(line)@ + text);
                            5
                        },
                        _ => {
                            line.append(" = ");
                            push_hex2(line, value);
                            assert(line@ =~= old(line)@ + text);
                            10
                        },
                    }
                },
                AddressingMode::AbsoluteX => {
                    line.append("$");
                    push_hex4(line, operand);
                    line.append(",X @ ");
                    push_hex4(line, address);
                    line.append(" = ");
                    push_hex2(line, value);
                    assert(line@ =~= old(line)@ + text);
                    19
                },
                AddressingMode::AbsoluteY => {
                    line.append("$");
                    push_hex4(line, operand);
                    line.append(",Y @ ");
                    push_hex4(line, address);
                    line.append(" = ");
                    push_hex2(line, value);
                    assert(line@ =~= old(line)@ + text);
                    19
                },
                AddressingMode::Indirect => {
                    line.append("($");
                    push_hex4(line, operand);
                    line.append(") = ");
                    push_hex4(line, address);
                    assert(line@ =~= old(line)@ + text);
                    14
                },
                AddressingMode::IndirectX => {
                    line.append("($");
                    push_hex2(line, byte);
                    line.append(",X) @ ");
                    push_hex2(line, offset8(byte, cpu.register_x));
                    line.append(" = ");
                    push_hex4(line, address);
                    line.append(" = ");
                    push_hex2(line, value);
                    assert(line@ =~= old(line)@ + text);
                    24
                },
                AddressingMode::IndirectY => {
                    let base = make_word(
                        cpu.bus.read(byte as u16),
                        cpu.bus.read(offset8(byte, 1) as u16),
                    );
                    line.append("($");
                    push_hex2(line, byte);
                    line.append("),Y = ");
                    push_hex4(line, base);
                    line.append(" @ ");
                    push_hex4(line, address);
                    line.append(" = ");
                    push_hex2(line, value);
                    assert(line@ =~= old(line)@ + text);
                    26
                },
                AddressingMode::Relative => {
                    line.append("$");
                    push_hex4(line, address);
                    assert(line@ =~= old(line)@ + text);
                    5
                },
            }
        },
    }
}

/// The registers as the log writes them.
pub open spec fn registers_text(s: Machine) -> Seq<char> {
    "A:"@ + hex2(s.a) + " X:"@ + hex2(s.x) + " Y:"@ + hex2(s.y) + " P:"@ + hex2(s.p) + " SP:"@
        + hex2(s.sp)
}

/// The log line of the instruction at the program counter: the program counter, the
/// bytes of the instruction in a column of 9, the operation and its operand in a
/// column of 32, which ends the 48 characters of disassembly, and then the registers.
pub open spec fn trace_line(s: Machine) -> Seq<char> {
    let instruction = decode(s.read(s.pc));
    hex4(s.pc) + "  "@ + pad(code_text(s, operand_length(instruction.operand) as int), 9) + " "@
        + pad(
        spec_mnemonic_name(instruction.mnemonic) + " "@ + operand_text(s, instruction),
        32,
    ) + registers_text(s)
}

/// Every operation is written with three letters.
pub proof fn lemma_mnemonic_name_length(mnemonic: Mnemonic)
    ensures
        spec_mnemonic_name(mnemonic).len() == 3,
{
    reveal_strlit("ADC");
    reveal_strlit("AND");
    reveal_strlit("ASL");
    reveal_strlit("BCC");
    reveal_strlit("BCS");
    reveal_strlit("BEQ");
    reveal_strlit("BIT");
    reveal_strlit("BMI");
    reveal_strlit("BNE");
    reveal_strlit("BPL");
    reveal_strlit("BRK");
    reveal_strlit("BVC");
    reveal_strlit("BVS");
    reveal_strlit("CLC");
    reveal_strlit("CLD");
    reveal_strlit("CLI");
    reveal_strlit("CLV");
    reveal_strlit("CMP");
    reveal_strlit("CPX");
    reveal_strlit("CPY");
    reveal_strlit("DEC");
    reveal_strlit("DEX");
    reveal_strlit("DEY");
    reveal_strlit("EOR");
    reveal_strlit("INC");
    reveal_strlit("INX");
    reveal_strlit("INY");
    reveal_strlit("JMP");
    reveal_strlit("JSR");
    reveal_strlit("LDA");
    reveal_strlit("LDX");
    reveal_strlit("LDY");
    reveal_strlit("LSR");
    reveal_strlit("NOP");
    reveal_strlit("ORA");
    reveal_strlit("PHA");
    reveal_strlit("PHP");
    reveal_strlit("PLA");
    reveal_strlit("PLP");
    reveal_strlit("ROL");
    reveal_strlit("ROR");
    reveal_strlit("RTI");
    reveal_strlit("RTS");
    reveal_strlit("SBC");
    reveal_strlit("SEC");
    reveal_strlit("SED");
    reveal_strlit("SEI");
    reveal_strlit("STA");
    reveal_strlit("STX");
    reveal_strlit("STY");
    reveal_strlit("TAX");
    reveal_strlit("TAY");
    reveal_strlit("TSX");
    reveal_strlit("TXA");
    reveal_strlit("TXS");
    reveal_strlit("TYA");
}

/// Every log line is 73 characters long: 48 of disassembly and 25 of registers.
pub proof fn lemma_trace_line_length(s: Machine)
    ensures
        trace_line(s).len() == 73,
{
    let instruction = decode(s.read(s.pc));
    lemma_operand_glyphs();
    lemma_mnemonic_name_length(instruction.mnemonic);
    reveal_strlit(" ");
    reveal_strlit("  ");
    reveal_strlit("A:");
    reveal_strlit(" X:");
    reveal_strlit(" Y:");
    reveal_strlit(" P:");
    reveal_strlit(" SP:");
    assert(operand_text(s, instruction).len() <= 26);
    assert(code_text(s, operand_length(instruction.operand) as int).len() <= 8);
    assert(registers_text(s).len() == 25);
}

/// Appends to `line` the registers as the log writes them.
fn push_registers(line: &mut String, cpu: &CPU)
    ensures
        final(line)@ == old(line)@ + registers_text(cpu@),
{
    line.append("A:");
    push_hex2(line, cpu.register_a);
    line.append(" X:");
    push_hex2(line, cpu.register_x);
    line.append(" Y:");
    push_hex2(line, cpu.register_y);
    line.append(" P:");
    push_hex2(line, cpu.status);
    line.append(" SP:");
    push_hex2(line, cpu.stack_pointer);
    assert(line@ =~= old(line)@ + registers_text(cpu@));
}

/// Appends to `line` the bytes of the instruction at the program counter, padded to
/// a column of 9.
fn push_code(line: &mut String, cpu: &CPU, length: u8)
    requires
        length <= 2,
    ensures
        final(line)@ == old(line)@ + pad(code_text(cpu@, length as int), 9),
{
    proof {
        reveal_strlit(" ");
        lemma_add16(cpu.program_counter, 1, 1);
    }
    let pc = cpu.program_counter;
    push_hex2(line, cpu.bus.read(pc));
    if length >= 1 {
        line.append(" ");
        push_hex2(line, cpu.bus.read(offset16(pc, 1)));
    }
    if length >= 2 {
        line.append(" ");
        push_hex2(line, cpu.bus.read(offset16(offset16(pc, 1), 1)));
    }
    assert(line@ =~= old(line)@ + code_text(cpu@, length as int));
    push_spaces(line, (7 - 3 * length) as usize);
    assert(line@ =~= old(line)@ + pad(code_text(cpu@, length as int), 9));
}

/// The log line of the instruction at the program counter, without a line end. It
/// shows the processor before the instruction executes and changes nothing.
pub fn trace(cpu: &CPU) -> (line: String)
    ensures
        line@ == trace_line(cpu@),
{
    let instruction = decode(cpu.bus.read(cpu.program_counter));
    let mut line = String::new();
    push_hex4(&mut line, cpu.program_counter);
    line.append("  ");
    push_code(&mut line, cpu, operand_length(instruction.operand));
    line.append(" ");
    let ghost head = line@;
    line.append(mnemonic_name(instruction.mnemonic));
    line.append(" ");
    let width = push_operand(&mut line, cpu, instruction);
    proof {
        reveal_strlit(" ");
        lemma_mnemonic_name_length(instruction.mnemonic);
    }
    let ghost disassembly = spec_mnemonic_name(instruction.mnemonic) + " "@ + operand_text(
        cpu@,
        instruction,
    );
    assert(line@ =~= head + disassembly);
    push_spaces(&mut line, 28 - width);
    assert(line@ =~= head + pad(disassembly, 32));
    push_registers(&mut line, cpu);
    assert(line@ =~= trace_line(cpu@));
    line
}

} // verus!
