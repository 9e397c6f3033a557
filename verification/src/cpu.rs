use crate::alu::{high_byte, low_byte, make_word, minus8, offset16, offset8};
use crate::bus::Bus;
use crate::cycles::{add_cycles, base_cycles};
use crate::laws::lemma_reset;
use crate::machine::{word, Machine, IRQ_VECTOR, NMI_VECTOR, RESET_VECTOR};
use crate::opcodes::execute;
use vstd::prelude::*;

verus! {

/// C, carry: an addition overflowed a byte, or a subtraction borrowed nothing.
pub const FLAG_CARRY: u8 = 0b0000_0001;

/// Z, zero: the last result was zero.
pub const FLAG_ZERO: u8 = 0b0000_0010;

/// I, interrupt disable: interrupt requests are ignored.
pub const FLAG_INTERRUPT: u8 = 0b0000_0100;

/// D, decimal: additions and subtractions work on decimal digits.
pub const FLAG_DECIMAL: u8 = 0b0000_1000;

/// B, break: set only in the copy of the status that `BRK` and `PHP` push.
pub const FLAG_BREAK: u8 = 0b0001_0000;

/// U, unused: reads as set.
pub const FLAG_UNUSED: u8 = 0b0010_0000;

/// V, overflow: a signed result did not fit in a byte.
pub const FLAG_OVERFLOW: u8 = 0b0100_0000;

/// N, negative: bit 7 of the last result.
pub const FLAG_NEGATIVE: u8 = 0b1000_0000;

/// The register file of a 6502 and the bus that connects it to memory.
pub struct CPU {
    /// Accumulator.
    pub register_a: u8,
    /// Index register X.
    pub register_x: u8,
    /// Index register Y.
    pub register_y: u8,
    /// Status register P.
    pub status: u8,
    /// Stack pointer S.
    pub stack_pointer: u8,
    /// Program counter.
    pub program_counter: u16,
    /// Memory.
    pub bus: Bus,
    /// Clock cycles spent so far.
    pub cycles: u64,
}

impl View for CPU {
    type V = Machine;

    open spec fn view(&self) -> Machine {
        Machine {
            a: self.register_a,
            x: self.register_x,
            y: self.register_y,
            sp: self.stack_pointer,
            p: self.status,
            pc: self.program_counter,
            cycles: self.cycles,
            mem: self.bus@,
        }
    }
}

impl CPU {
    /// The memory of any processor has all 65,536 cells.
    pub proof fn lemma_wf(&self)
        ensures
            self@.wf(),
    {
    }

    /// A processor with zeroed registers and memory, and the stack pointer at `0xFD`.
    pub fn new() -> (cpu: Self)
        ensures
            cpu@.a == 0,
            cpu@.x == 0,
            cpu@.y == 0,
            cpu@.p == 0,
            cpu@.sp == 0xFD,
            cpu@.pc == 0,
            cpu@.cycles == 0,
            cpu@.wf(),
            forall|a: int| 0 <= a < 0x1_0000 ==> cpu@.mem[a] == 0,
    {
        CPU {
            register_a: 0,
            register_x: 0,
            register_y: 0,
            status: 0,
            stack_pointer: 0xFD,
            program_counter: 0,
            bus: Bus::new(),
            cycles: 0,
        }
    }

    /// Reads the byte at the program counter and moves the counter past it.
    pub fn get_operand(&mut self) -> (data: u8)
        ensures
            data == old(self)@.fetch().0,
            final(self)@ == old(self)@.fetch().1,
    {
        let address = self.program_counter;
        let data = self.bus.read(address);
        self.program_counter = offset16(self.program_counter, 1);
        data
    }

    /// Reads the little-endian word at the program counter and moves the counter past it.
    pub fn fetch_u16(&mut self) -> (w: u16)
        ensures
            w == old(self)@.fetch_word().0,
            final(self)@ == old(self)@.fetch_word().1,
    {
        let lo = self.get_operand();
        let hi = self.get_operand();
        make_word(lo, hi)
    }

    /// Writes `data` at the stack pointer in page one, then moves the pointer down.
    pub fn push_stack(&mut self, data: u8)
        ensures
            final(self)@ == old(self)@.push(data),
    {
        self.bus.write(0x0100 + self.stack_pointer as u16, data);
        self.stack_pointer = minus8(self.stack_pointer, 1);
    }

    /// Moves the stack pointer up, then reads the byte it designates in page one.
    pub fn pop_stack(&mut self) -> (data: u8)
        ensures
            data == old(self)@.pop().0,
            final(self)@ == old(self)@.pop().1,
    {
        self.stack_pointer = offset8(self.stack_pointer, 1);
        self.bus.read(0x0100 + self.stack_pointer as u16)
    }

    /// Whether any flag of `flag` is set in the status register.
    pub fn has_flag(&self, flag: u8) -> (set: bool)
        ensures
            set == self@.flag(flag),
    {
        self.status & flag != 0
    }

    /// Sets the flags of `flag` if `condition` holds, clears them if not.
    pub fn set_flag(&mut self, flag: u8, condition: bool)
        ensures
            final(self)@ == old(self)@.set_flag(flag, condition),
    {
        if condition {
            self.status |= flag;
        } else {
            self.status &= !flag;
        }
    }

    /// Executes one instruction: reads the opcode at the program counter, adds its base
    /// cost to the cycle counter and carries it out.
    pub fn step(&mut self)
        ensures
            final(self)@ == old(self)@.step(),
    {
        let opcode = self.get_operand();
        self.cycles = add_cycles(self.cycles, base_cycles(opcode));
        execute(self, opcode);
    }

    /// Zeroes A, X and Y, sets S to `0xFD` and P to `0x24`, and loads the program counter
    /// from the reset vector. Memory and the cycle counter stay as they are.
    pub fn reset(&mut self)
        ensures
            final(self)@ == old(self)@.reset(),
            final(self)@.sp == 0xFD,
            final(self)@.p == 0x24,
            final(self)@.pc == word(old(self)@.mem[0xFFFC], old(self)@.mem[0xFFFD]),
    {
        self.register_a = 0;
        self.register_x = 0;
        self.register_y = 0;
        self.stack_pointer = 0xFD;

        self.status = FLAG_INTERRUPT | FLAG_UNUSED;

        let lo = self.bus.read(RESET_VECTOR);
        let hi = self.bus.read(offset16(RESET_VECTOR, 1));
        proof {
            lemma_reset(old(self)@);
        }

        self.program_counter = make_word(lo, hi);
    }

    /// Copies `program` into memory from `0x8000` on, then points the reset vector at
    /// `0x8000`. A program that reaches the vector's two cells loses them to the vector.
    pub fn load(&mut self, program: Vec<u8>)
        requires
            program.len() <= 0x8000,
        ensures
            final(self)@ == old(self)@.with_program(program@),
    {
        let n = program.len();
        let mut i: usize = 0;
        while i < n
            invariant
                n == program.len(),
                n <= 0x8000,
                i <= n,
                self.bus@.len() == 0x1_0000,
                forall|k: int|
                    0 <= k < 0x1_0000 ==> self.bus@[k] == if 0x8000 <= k < 0x8000 + i {
                        program@[k - 0x8000]
                    } else {
                        old(self).bus@[k]
                    },
                self.register_a == old(self).register_a,
                self.register_x == old(self).register_x,
                self.register_y == old(self).register_y,
                self.status == old(self).status,
                self.stack_pointer == old(self).stack_pointer,
                self.program_counter == old(self).program_counter,
                self.cycles == old(self).cycles,
            decreases n - i,
        {
            self.bus.write((0x8000 + i) as u16, program[i]);
            i += 1;
        }
        self.bus.write(RESET_VECTOR, 0x00);
        self.bus.write(RESET_VECTOR + 1, 0x80);
        assert(self@.mem =~= old(self)@.with_program(program@).mem);
    }

    /// Loads `program`, resets and runs it until it halts.
    pub fn load_and_run(&mut self, program: Vec<u8>)
        requires
            program.len() <= 0x8000,
            old(self)@.with_program(program@).reset().terminates(),
        ensures
            final(self)@ == old(self)@.with_program(program@).run(),
    {
        self.load(program);
        self.reset();
        proof {
            lemma_reset(old(self)@.with_program(program@));
        }
        self.run();
    }

    /// Enters an interrupt: pushes the program counter, high byte first, then the status
    /// with U set and B clear; sets I and continues at the word that `vector_addr`
    /// points to.
    fn hardware_interrupt(&mut self, vector_addr: u16)
        ensures
            final(self)@ == old(self)@.interrupt(vector_addr, old(self)@.pc, false),
    {
        self.push_stack(high_byte(self.program_counter));
        self.push_stack(low_byte(self.program_counter));

        let mut status = self.status;
        status |= FLAG_UNUSED;
        status &= !FLAG_BREAK;
        self.push_stack(status);

        self.status |= FLAG_INTERRUPT;

        let lo = self.bus.read(vector_addr);
        let hi = self.bus.read(offset16(vector_addr, 1));
        self.program_counter = make_word(lo, hi);
    }

    /// A non-maskable interrupt, through the vector at `0xFFFA`.
    pub fn nmi(&mut self)
        ensures
            final(self)@ == old(self)@.nmi(),
    {
        self.hardware_interrupt(NMI_VECTOR);
    }

    /// An interrupt request, through the vector at `0xFFFE`. Nothing happens while I is
    /// set.
    pub fn irq(&mut self)
        ensures
            final(self)@ == old(self)@.irq(),
    {
        if self.status & FLAG_INTERRUPT == 0 {
            self.hardware_interrupt(IRQ_VECTOR);
        }
    }

    /// Resets, then executes instructions until one leaves the program counter where
    /// it was or at zero.
    ///
    /// A program that never does so runs forever, so the caller has to know that this
    /// one halts; `run_for` takes a limit instead.
    pub fn run(&mut self)
        requires
            old(self)@.reset().terminates(),
        ensures
            final(self)@ == old(self)@.run(),
    {
        self.reset();
        let ghost start = self@;
        let ghost bound = choose|n: nat| (#[trigger] start.steps(n)).halts();
        let ghost mut done: nat = 0;
        loop
            invariant
                start == old(self)@.reset(),
                start.steps(bound).halts(),
                done <= bound,
                self@ == start.steps(done),
                forall|k: nat| k < done ==> !(#[trigger] start.steps(k)).halts(),
            decreases bound - done,
        {
            let previous_pc = self.program_counter;
            self.step();

            if self.program_counter == previous_pc || self.program_counter == 0x0000 {
                proof {
                    assert(start.steps(done).halts());
                    assert(start.halts_at(done));
                    Machine::lemma_halts_at_unique(start, done, choose|n: nat| start.halts_at(n));
                    assert(self@ == start.steps(done + 1));
                }
                return ;
            }
            proof {
                assert(!start.steps(done).halts());
                assert(start.steps(done + 1) == start.steps(done).step());
                done = done + 1;
            }
        }
    }

    /// Resets, then executes instructions until one halts, but at most `limit` of them.
    /// Returns whether an instruction halted.
    pub fn run_for(&mut self, limit: u64) -> (halted: bool)
        ensures
            halted ==> final(self)@ == old(self)@.run(),
            halted <==> exists|n: nat| n < limit && old(self)@.reset().halts_at(n),
            !halted ==> final(self)@ == old(self)@.reset().steps(limit as nat),
    {
        self.reset();
        let ghost start = self@;
        let mut done: u64 = 0;
        while done < limit
            invariant
                start == old(self)@.reset(),
                done <= limit,
                self@ == start.steps(done as nat),
                forall|k: nat| k < done ==> !(#[trigger] start.steps(k)).halts(),
            decreases limit - done,
        {
            let previous_pc = self.program_counter;
            self.step();
            proof {
                assert(start.steps((done + 1) as nat) == start.steps(done as nat).step());
            }
            if self.program_counter == previous_pc || self.program_counter == 0x0000 {
                proof {
                    assert(start.steps(done as nat).halts());
                    assert(start.halts_at(done as nat));
                    Machine::lemma_halts_at_unique(
                        start,
                        done as nat,
                        choose|n: nat| start.halts_at(n),
                    );
                }
                return true;
            }
            done += 1;
        }
        proof {
            assert forall|n: nat| n < limit implies !start.halts_at(n) by {
                assert(!start.steps(n).halts());
            }
        }
        false
    }
}

} // verus!
