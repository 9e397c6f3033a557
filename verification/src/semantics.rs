use crate::addressing::AddressingMode;
use crate::alu::{add_binary, add_decimal, bit, subtract_binary, subtract_decimal, Outcome};
use crate::cpu::{
    FLAG_BREAK, FLAG_CARRY, FLAG_DECIMAL, FLAG_INTERRUPT, FLAG_NEGATIVE, FLAG_OVERFLOW,
    FLAG_UNUSED, FLAG_ZERO,
};
use crate::cycles::{add_cycles, base_cycles};
use crate::isa::{decode, Instruction, Mnemonic, Operand};
use crate::machine::{add16, add8, with_bits, Machine, IRQ_VECTOR, NMI_VECTOR, RESET_VECTOR};
use vstd::prelude::*;

verus! {

/// The status byte as an interrupt or `PHP` pushes it: U set, B set only by software.
pub open spec fn pushed_status(p: u8, software: bool) -> u8 {
    with_bits(p | FLAG_UNUSED, FLAG_BREAK, software)
}

/// The status byte as `PLP` or `RTI` takes it from the stack: B clear, U set.
pub open spec fn pulled_status(v: u8) -> u8 {
    (v & !FLAG_BREAK) | FLAG_UNUSED
}

impl Machine {
    /// The operand's value, and the machine past the operand with Z and N describing it.
    pub open spec fn load(self, mode: AddressingMode) -> (u8, Machine) {
        let (addr, _, s) = self.operand_address(mode);
        let value = s.read(addr);
        (value, s.set_zn(value))
    }

    /// The machine past the operand, with `value` in the operand's cell.
    pub open spec fn store(self, mode: AddressingMode, value: u8) -> Machine {
        let (addr, _, s) = self.operand_address(mode);
        s.write(addr, value)
    }

    /// Compares `register` with the operand: C says that the register is not below it,
    /// Z and N describe the difference.
    pub open spec fn compare(self, mode: AddressingMode, register: u8) -> Machine {
        let (addr, _, s) = self.operand_address(mode);
        let value = s.read(addr);
        s.set_flag(FLAG_CARRY, register >= value).set_zn(add8(register, -(value as int)))
    }

    /// Whether the flags make the branch instruction `mnemonic` leave the sequence.
    pub open spec fn branches_on(self, mnemonic: Mnemonic) -> bool {
        match mnemonic {
            Mnemonic::BPL => !self.flag(FLAG_NEGATIVE),
            Mnemonic::BMI => self.flag(FLAG_NEGATIVE),
            Mnemonic::BVC => !self.flag(FLAG_OVERFLOW),
            Mnemonic::BVS => self.flag(FLAG_OVERFLOW),
            Mnemonic::BCC => !self.flag(FLAG_CARRY),
            Mnemonic::BCS => self.flag(FLAG_CARRY),
            Mnemonic::BNE => !self.flag(FLAG_ZERO),
            Mnemonic::BEQ => self.flag(FLAG_ZERO),
            _ => false,
        }
    }

    /// Consumes the offset byte and, if `condition` holds, continues at the target.
    pub open spec fn branch(self, condition: bool) -> Machine {
        let (target, _, s) = self.operand_address(AddressingMode::Relative);
        if condition {
            Machine { pc: target, ..s }
        } else {
            s
        }
    }

    /// Adds one to the operand's cell, wrapping; Z and N describe the result.
    pub open spec fn inc(self, mode: AddressingMode) -> Machine {
        let (addr, _, s) = self.operand_address(mode);
        let value = add8(s.read(addr), 1);
        s.write(addr, value).set_zn(value)
    }

    /// Takes one from the operand's cell, wrapping; Z and N describe the result.
    pub open spec fn dec(self, mode: AddressingMode) -> Machine {
        let (addr, _, s) = self.operand_address(mode);
        let value = add8(s.read(addr), -1);
        s.write(addr, value).set_zn(value)
    }

    /// A becomes the bits that A and the operand share; Z and N describe it.
    pub open spec fn and(self, mode: AddressingMode) -> Machine {
        let (addr, _, s) = self.operand_address(mode);
        let value = s.a & s.read(addr);
        Machine { a: value, ..s }.set_zn(value)
    }

    /// A becomes the bits that A or the operand has; Z and N describe it.
    pub open spec fn ora(self, mode: AddressingMode) -> Machine {
        let (addr, _, s) = self.operand_address(mode);
        let value = s.a | s.read(addr);
        Machine { a: value, ..s }.set_zn(value)
    }

    /// A becomes the bits that either A or the operand has, but not both; Z and N
    /// describe it.
    pub open spec fn eor(self, mode: AddressingMode) -> Machine {
        let (addr, _, s) = self.operand_address(mode);
        let value = s.a ^ s.read(addr);
        Machine { a: value, ..s }.set_zn(value)
    }

    /// Copies A to X; Z and N describe it.
    pub open spec fn tax(self) -> Machine {
        Machine { x: self.a, ..self }.set_zn(self.a)
    }

    /// Copies A to Y; Z and N describe it.
    pub open spec fn tay(self) -> Machine {
        Machine { y: self.a, ..self }.set_zn(self.a)
    }

    /// Copies X to A; Z and N describe it.
    pub open spec fn txa(self) -> Machine {
        Machine { a: self.x, ..self }.set_zn(self.x)
    }

    /// Copies Y to A; Z and N describe it.
    pub open spec fn tya(self) -> Machine {
        Machine { a: self.y, ..self }.set_zn(self.y)
    }

    /// The one transfer that leaves the flags alone.
    pub open spec fn txs(self) -> Machine {
        Machine { sp: self.x, ..self }
    }

    /// Copies the stack pointer to X; Z and N describe it.
    pub open spec fn tsx(self) -> Machine {
        Machine { x: self.sp, ..self }.set_zn(self.sp)
    }

    /// Adds one to X, wrapping; Z and N describe the result.
    pub open spec fn inx(self) -> Machine {
        Machine { x: add8(self.x, 1), ..self }.set_zn(add8(self.x, 1))
    }

    /// Adds one to Y, wrapping; Z and N describe the result.
    pub open spec fn iny(self) -> Machine {
        Machine { y: add8(self.y, 1), ..self }.set_zn(add8(self.y, 1))
    }

    /// Takes one from X, wrapping; Z and N describe the result.
    pub open spec fn dex(self) -> Machine {
        Machine { x: add8(self.x, -1), ..self }.set_zn(add8(self.x, -1))
    }

    /// Takes one from Y, wrapping; Z and N describe the result.
    pub open spec fn dey(self) -> Machine {
        Machine { y: add8(self.y, -1), ..self }.set_zn(add8(self.y, -1))
    }

    /// Pushes A.
    pub open spec fn pha(self) -> Machine {
        self.push(self.a)
    }

    /// Pushes the status with B and U set.
    pub open spec fn php(self) -> Machine {
        self.push(pushed_status(self.p, true))
    }

    /// Pops into A; Z and N describe it.
    pub open spec fn pla(self) -> Machine {
        let (value, s) = self.pop();
        Machine { a: value, ..s }.set_zn(value)
    }

    /// Pops the status, with B cleared and U set.
    pub open spec fn plp(self) -> Machine {
        let (value, s) = self.pop();
        Machine { p: pulled_status(value), ..s }
    }

    /// Tests the operand against the accumulator: Z says that they share no bit, N and V
    /// are bits 7 and 6 of the operand.
    pub open spec fn bit(self, mode: AddressingMode) -> Machine {
        let (addr, _, s) = self.operand_address(mode);
        let value = s.read(addr);
        s.set_flag(FLAG_ZERO, s.a & value == 0).set_flag(
            FLAG_NEGATIVE,
            value & FLAG_NEGATIVE != 0,
        ).set_flag(FLAG_OVERFLOW, value & FLAG_OVERFLOW != 0)
    }

    /// `value` doubled; bit 7 goes to C.
    pub open spec fn shift_left(self, value: u8) -> (u8, Machine) {
        let result = ((value * 2) % 0x100) as u8;
        (result, self.set_flag(FLAG_CARRY, value >= 0x80).set_zn(result))
    }

    /// `value` halved; bit 0 goes to C.
    pub open spec fn shift_right(self, value: u8) -> (u8, Machine) {
        let result = value / 2;
        (result, self.set_flag(FLAG_CARRY, value % 2 == 1).set_zn(result))
    }

    /// `value` doubled with the old C as bit 0; bit 7 goes to C.
    pub open spec fn rotate_left(self, value: u8) -> (u8, Machine) {
        let result = ((value * 2) % 0x100 + self.carry()) as u8;
        (result, self.set_flag(FLAG_CARRY, value >= 0x80).set_zn(result))
    }

    /// `value` halved with the old C as bit 7; bit 0 goes to C.
    pub open spec fn rotate_right(self, value: u8) -> (u8, Machine) {
        let result = (value / 2 + 0x80 * self.carry()) as u8;
        (result, self.set_flag(FLAG_CARRY, value % 2 == 1).set_zn(result))
    }

    /// Shifts the operand's cell one place to the left: bit 7 goes to C, Z and N
    /// describe the result.
    pub open spec fn asl(self, mode: AddressingMode) -> Machine {
        let (addr, _, s) = self.operand_address(mode);
        let (result, shifted) = s.shift_left(s.read(addr));
        shifted.write(addr, result)
    }

    /// Shifts the operand's cell one place to the right: bit 0 goes to C, Z and N
    /// describe the result.
    pub open spec fn lsr(self, mode: AddressingMode) -> Machine {
        let (addr, _, s) = self.operand_address(mode);
        let (result, shifted) = s.shift_right(s.read(addr));
        shifted.write(addr, result)
    }

    /// Rotates the operand's cell one place to the left through C.
    pub open spec fn rol(self, mode: AddressingMode) -> Machine {
        let (addr, _, s) = self.operand_address(mode);
        let (result, shifted) = s.rotate_left(s.read(addr));
        shifted.write(addr, result)
    }

    /// Rotates the operand's cell one place to the right through C.
    pub open spec fn ror(self, mode: AddressingMode) -> Machine {
        let (addr, _, s) = self.operand_address(mode);
        let (result, shifted) = s.rotate_right(s.read(addr));
        shifted.write(addr, result)
    }

    /// Continues at the operand address.
    pub open spec fn jmp(self, mode: AddressingMode) -> Machine {
        let (target, _, s) = self.operand_address(mode);
        Machine { pc: target, ..s }
    }

    /// Pushes the address of the last operand byte, then continues at the target.
    pub open spec fn jsr(self) -> Machine {
        let (target, s) = self.fetch_word();
        Machine { pc: target, ..s.push_word(add16(s.pc, -1)) }
    }

    /// Continues one past the address on the stack.
    pub open spec fn rts(self) -> Machine {
        let (addr, s) = self.pop_word();
        Machine { pc: add16(addr, 1), ..s }
    }

    /// Takes the status, then the address to continue at, from the stack.
    pub open spec fn rti(self) -> Machine {
        let (addr, s) = self.plp().pop_word();
        Machine { pc: addr, ..s }
    }

    /// Pushes `return_address` and the status, sets I and continues at the word that
    /// `vector` points to.
    pub open spec fn interrupt(self, vector: u16, return_address: u16, software: bool) -> Machine {
        let s = self.push_word(return_address).push(pushed_status(self.p, software));
        Machine {
            p: s.p | FLAG_INTERRUPT,
            pc: s.read_word(vector, add16(vector, 1)),
            ..s
        }
    }

    /// A software interrupt: the byte after `BRK` is skipped on return.
    pub open spec fn brk(self) -> Machine {
        self.interrupt(IRQ_VECTOR, add16(self.pc, 1), true)
    }

    /// A non-maskable interrupt, through the vector at `0xFFFA`.
    pub open spec fn nmi(self) -> Machine {
        self.interrupt(NMI_VECTOR, self.pc, false)
    }

    /// An interrupt request, which a set I flag masks.
    pub open spec fn irq(self) -> Machine {
        if self.flag(FLAG_INTERRUPT) {
            self
        } else {
            self.interrupt(IRQ_VECTOR, self.pc, false)
        }
    }

    /// Zeroes A, X and Y, sets S to `0xFD` and P to I|U, and continues at the reset vector.
    pub open spec fn reset(self) -> Machine {
        Machine {
            a: 0,
            x: 0,
            y: 0,
            sp: 0xFD,
            p: FLAG_INTERRUPT | FLAG_UNUSED,
            pc: self.read_word(RESET_VECTOR, add16(RESET_VECTOR, 1)),
            ..self
        }
    }

    /// Takes the accumulator and the flags C and V from `outcome`, Z and N from its
    /// binary result.
    pub open spec fn accept(self, outcome: Outcome) -> Machine {
        Machine { a: outcome.value, ..self }.set_flag(FLAG_CARRY, outcome.carry).set_flag(
            FLAG_OVERFLOW,
            outcome.overflow,
        ).set_zn(outcome.binary)
    }

    /// Adds the operand and C to the accumulator, in decimal if D is set.
    pub open spec fn adc(self, mode: AddressingMode) -> Machine {
        let (addr, _, s) = self.operand_address(mode);
        let value = s.read(addr);
        s.accept(
            if s.flag(FLAG_DECIMAL) {
                add_decimal(s.a, value, s.flag(FLAG_CARRY))
            } else {
                add_binary(s.a, value, s.flag(FLAG_CARRY))
            },
        )
    }

    /// Subtracts the operand and the borrow, which is the inverse of C, from the
    /// accumulator, in decimal if D is set.
    pub open spec fn sbc(self, mode: AddressingMode) -> Machine {
        let (addr, _, s) = self.operand_address(mode);
        let value = s.read(addr);
        s.accept(
            if s.flag(FLAG_DECIMAL) {
                subtract_decimal(s.a, value, s.flag(FLAG_CARRY))
            } else {
                subtract_binary(s.a, value, s.flag(FLAG_CARRY))
            },
        )
    }

    /// The effect of `instruction` on a machine whose program counter is past the
    /// opcode. A combination of operation and operand that no opcode encodes has none.
    pub open spec fn perform(self, instruction: Instruction) -> Machine {
        match instruction.operand {
            Operand::Memory(mode) => match instruction.mnemonic {
                Mnemonic::LDA => Machine { a: self.load(mode).0, ..self.load(mode).1 },
                Mnemonic::LDX => Machine { x: self.load(mode).0, ..self.load(mode).1 },
                Mnemonic::LDY => Machine { y: self.load(mode).0, ..self.load(mode).1 },
                Mnemonic::STA => self.store(mode, self.a),
                Mnemonic::STX => self.store(mode, self.x),
                Mnemonic::STY => self.store(mode, self.y),
                Mnemonic::AND => self.and(mode),
                Mnemonic::ORA => self.ora(mode),
                Mnemonic::EOR => self.eor(mode),
                Mnemonic::ADC => self.adc(mode),
                Mnemonic::SBC => self.sbc(mode),
                Mnemonic::CMP => self.compare(mode, self.a),
                Mnemonic::CPX => self.compare(mode, self.x),
                Mnemonic::CPY => self.compare(mode, self.y),
                Mnemonic::INC => self.inc(mode),
                Mnemonic::DEC => self.dec(mode),
                Mnemonic::BIT => self.bit(mode),
                Mnemonic::ASL => self.asl(mode),
                Mnemonic::LSR => self.lsr(mode),
                Mnemonic::ROL => self.rol(mode),
                Mnemonic::ROR => self.ror(mode),
                Mnemonic::BPL
                | Mnemonic::BMI
                | Mnemonic::BVC
                | Mnemonic::BVS
                | Mnemonic::BCC
                | Mnemonic::BCS
                | Mnemonic::BNE
                | Mnemonic::BEQ => self.branch(self.branches_on(instruction.mnemonic)),
                Mnemonic::JMP => self.jmp(mode),
                Mnemonic::JSR => self.jsr(),
                _ => self,
            },
            Operand::Accumulator => match instruction.mnemonic {
                Mnemonic::ASL => Machine {
                    a: self.shift_left(self.a).0,
                    ..self.shift_left(self.a).1
                },
                Mnemonic::LSR => Machine {
                    a: self.shift_right(self.a).0,
                    ..self.shift_right(self.a).1
                },
                Mnemonic::ROL => Machine {
                    a: self.rotate_left(self.a).0,
                    ..self.rotate_left(self.a).1
                },
                Mnemonic::ROR => Machine {
                    a: self.rotate_right(self.a).0,
                    ..self.rotate_right(self.a).1
                },
                _ => self,
            },
            Operand::Implied => match instruction.mnemonic {
                Mnemonic::BRK => self.brk(),
                Mnemonic::RTS => self.rts(),
                Mnemonic::RTI => self.rti(),
                Mnemonic::TAX => self.tax(),
                Mnemonic::TAY => self.tay(),
                Mnemonic::TXA => self.txa(),
                Mnemonic::TYA => self.tya(),
                Mnemonic::TXS => self.txs(),
                Mnemonic::TSX => self.tsx(),
                Mnemonic::INX => self.inx(),
                Mnemonic::INY => self.iny(),
                Mnemonic::DEX => self.dex(),
                Mnemonic::DEY => self.dey(),
                Mnemonic::PHA => self.pha(),
                Mnemonic::PHP => self.php(),
                Mnemonic::PLA => self.pla(),
                Mnemonic::PLP => self.plp(),
                Mnemonic::SEC => self.set_flag(FLAG_CARRY, true),
                Mnemonic::SED => self.set_flag(FLAG_DECIMAL, true),
                Mnemonic::SEI => self.set_flag(FLAG_INTERRUPT, true),
                Mnemonic::CLC => self.set_flag(FLAG_CARRY, false),
                Mnemonic::CLD => self.set_flag(FLAG_DECIMAL, false),
                Mnemonic::CLI => self.set_flag(FLAG_INTERRUPT, false),
                Mnemonic::CLV => self.set_flag(FLAG_OVERFLOW, false),
                _ => self,
            },
        }
    }

    /// The effect of the instruction that `opcode` encodes, on a machine whose program
    /// counter is past the opcode.
    pub open spec fn execute(self, opcode: u8) -> Machine {
        self.perform(decode(opcode))
    }

    /// One instruction: the opcode at the program counter is consumed, its base cost is
    /// added to the cycle counter, and its effect takes place.
    pub open spec fn step(self) -> Machine {
        let (opcode, s) = self.fetch();
        Machine { cycles: add_cycles(s.cycles, base_cycles(opcode)), ..s }.execute(opcode)
    }

    /// The machine after `n` instructions.
    pub open spec fn steps(self, n: nat) -> Machine
        decreases n,
    {
        if n == 0 {
            self
        } else {
            self.steps((n - 1) as nat).step()
        }
    }

    /// Whether the next instruction ends a run: it leaves the program counter where it
    /// was, which is how a program halts, or at zero.
    pub open spec fn halts(self) -> bool {
        self.step().pc == self.pc || self.step().pc == 0
    }

    /// Whether a run from this machine ends with instruction number `n`, counted from
    /// zero: that instruction halts and none before it does.
    pub open spec fn halts_at(self, n: nat) -> bool {
        &&& self.steps(n).halts()
        &&& forall|k: nat| k < n ==> !(#[trigger] self.steps(k)).halts()
    }

    /// Whether a run from this machine ends at all.
    pub open spec fn terminates(self) -> bool {
        exists|n: nat| (#[trigger] self.steps(n)).halts()
    }

    /// The machine that a run ends in: reset, then stepped up to and including the first
    /// instruction that halts. Meaningful where the reset machine terminates.
    pub open spec fn run(self) -> Machine {
        let start = self.reset();
        start.steps((choose|n: nat| start.halts_at(n)) + 1)
    }

    /// A run ends at one instruction only.
    pub proof fn lemma_halts_at_unique(start: Machine, n: nat, m: nat)
        requires
            start.halts_at(n),
            start.halts_at(m),
        ensures
            n == m,
    {
        if n < m {
            assert(!start.steps(n).halts());
        }
        if m < n {
            assert(!start.steps(m).halts());
        }
    }

    /// The machine with `program` in memory from `0x8000` on and the reset vector
    /// pointing there. The vector is written last.
    pub open spec fn with_program(self, program: Seq<u8>) -> Machine {
        Machine {
            mem: Seq::new(
                0x1_0000,
                |i: int|
                    if i == 0xFFFC {
                        0x00u8
                    } else if i == 0xFFFD {
                        0x80u8
                    } else if 0x8000 <= i < 0x8000 + program.len() {
                        program[i - 0x8000]
                    } else {
                        self.mem[i]
                    },
            ),
            ..self
        }
    }
}

} // verus!
