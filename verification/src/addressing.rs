use crate::alu::{displace16, lemma_word_bits, make_word, offset16, offset8};
use crate::cpu::CPU;
use crate::machine::{add16, add8, high, low, signed, word, Machine};
use vstd::prelude::*;

verus! {

/// How an instruction designates the memory cell it works on.
///
/// Instructions that work on no cell, or on the accumulator, take no mode.
#[derive(Debug, Clone, Copy, PartialEq, Eq, Structural)]
pub enum AddressingMode {
    /// The operand byte itself.
    Immediate,
    /// The cell of page zero that the operand byte names.
    ZeroPage,
    /// The cell that the operand word names.
    Absolute,
    /// Zero page, moved by X and wrapping within page zero.
    ZeroPageX,
    /// Absolute, moved by X.
    AbsoluteX,
    /// Zero page, moved by Y and wrapping within page zero.
    ZeroPageY,
    /// Absolute, moved by Y.
    AbsoluteY,
    /// The address that lies the signed operand byte away from the next instruction.
    Relative,
    /// The address stored in the two cells that the operand word points to; the second
    /// of them is taken from the page of the first.
    Indirect,
    /// The address stored in page zero where the operand byte, moved by X, points.
    IndirectX,
    /// The address stored in page zero where the operand byte points, moved by Y.
    IndirectY,
}

/// The address that follows `ptr` within the page of `ptr`: the last cell of a page is
/// followed by the first cell of the same page.
pub open spec fn next_in_page(ptr: u16) -> u16 {
    word(add8(low(ptr), 1), high(ptr))
}

impl Machine {
    /// The effective address of the operand at the program counter, whether forming it
    /// crossed a page boundary, and the machine moved past the operand bytes.
    pub open spec fn operand_address(self, mode: AddressingMode) -> (u16, bool, Machine) {
        match mode {
            AddressingMode::Immediate => (self.pc, false, self.fetch().1),
            AddressingMode::ZeroPage => {
                let (base, s) = self.fetch();
                (base as u16, false, s)
            },
            AddressingMode::ZeroPageX => {
                let (base, s) = self.fetch();
                (add8(base, s.x as int) as u16, false, s)
            },
            AddressingMode::ZeroPageY => {
                let (base, s) = self.fetch();
                (add8(base, s.y as int) as u16, false, s)
            },
            AddressingMode::Absolute => {
                let (base, s) = self.fetch_word();
                (base, false, s)
            },
            AddressingMode::AbsoluteX => {
                let (base, s) = self.fetch_word();
                let addr = add16(base, s.x as int);
                (addr, high(base) != high(addr), s)
            },
            AddressingMode::AbsoluteY => {
                let (base, s) = self.fetch_word();
                let addr = add16(base, s.y as int);
                (addr, high(base) != high(addr), s)
            },
            AddressingMode::Indirect => {
                let (ptr, s) = self.fetch_word();
                (s.read_word(ptr, next_in_page(ptr)), false, s)
            },
            AddressingMode::IndirectX => {
                let (base, s) = self.fetch();
                let ptr = add8(base, s.x as int);
                (s.read_word(ptr as u16, add8(ptr, 1) as u16), false, s)
            },
            AddressingMode::IndirectY => {
                let (ptr, s) = self.fetch();
                let base = s.read_word(ptr as u16, add8(ptr, 1) as u16);
                let addr = add16(base, s.y as int);
                (addr, high(base) != high(addr), s)
            },
            AddressingMode::Relative => {
                let (offset, s) = self.fetch();
                let addr = add16(s.pc, signed(offset));
                (addr, high(s.pc) != high(addr), s)
            },
        }
    }
}

/// Whether two addresses lie in different pages.
fn page_differs(a: u16, b: u16) -> (differs: bool)
    ensures
        differs == (high(a) != high(b)),
{
    proof {
        lemma_word_bits(a, 0, 0);
        lemma_word_bits(b, 0, 0);
    }
    (a & 0xFF00) != (b & 0xFF00)
}

/// The address after `ptr`, wrapping within the page of `ptr`.
pub fn successor_in_page(ptr: u16) -> (next: u16)
    ensures
        next == next_in_page(ptr),
{
    proof {
        lemma_word_bits(ptr, 0, 0);
        reveal(add8);
    }
    if ptr & 0x00FF == 0x00FF {
        ptr & 0xFF00
    } else {
        ptr + 1
    }
}

/// Consumes the operand bytes at the program counter and resolves them, according to
/// `mode`, to an effective address and a page-cross flag.
pub fn get_operand_address(cpu: &mut CPU, mode: &AddressingMode) -> (resolved: (u16, bool))
    ensures
        resolved.0 == old(cpu)@.operand_address(*mode).0,
        resolved.1 == old(cpu)@.operand_address(*mode).1,
        final(cpu)@ == old(cpu)@.operand_address(*mode).2,
{
    match mode {
        AddressingMode::Absolute => (cpu.fetch_u16(), false),
        AddressingMode::Relative => {
            let offset = cpu.get_operand();
            let pc = cpu.program_counter;
            let addr = displace16(pc, offset);
            (addr, page_differs(pc, addr))
        },
        AddressingMode::Indirect => {
            let ptr = cpu.fetch_u16();
            let lo = cpu.bus.read(ptr);
            let hi = cpu.bus.read(successor_in_page(ptr));
            (make_word(lo, hi), false)
        },
        AddressingMode::IndirectX => {
            let base = cpu.get_operand();
            let ptr = offset8(base, cpu.register_x);
            let lo = cpu.bus.read(ptr as u16);
            let hi = cpu.bus.read(offset8(ptr, 1) as u16);
            (make_word(lo, hi), false)
        },
        AddressingMode::IndirectY => {
            let ptr = cpu.get_operand();
            let lo = cpu.bus.read(ptr as u16);
            let hi = cpu.bus.read(offset8(ptr, 1) as u16);
            let base = make_word(lo, hi);
            let addr = offset16(base, cpu.register_y);
            (addr, page_differs(base, addr))
        },
        AddressingMode::Immediate => {
            let addr = cpu.program_counter;
            cpu.program_counter = offset16(cpu.program_counter, 1);
            (addr, false)
        },
        AddressingMode::AbsoluteX => {
            let base = cpu.fetch_u16();
            let addr = offset16(base, cpu.register_x);
            (addr, page_differs(base, addr))
        },
        AddressingMode::AbsoluteY => {
            let base = cpu.fetch_u16();
            let addr = offset16(base, cpu.register_y);
            (addr, page_differs(base, addr))
        },
        AddressingMode::ZeroPage => (cpu.get_operand() as u16, false),
        AddressingMode::ZeroPageX => {
            let pos = cpu.get_operand();
            let addr = offset8(pos, cpu.register_x) as u16;
            (addr, false)
        },
        AddressingMode::ZeroPageY => {
            let pos = cpu.get_operand();
            let addr = offset8(pos, cpu.register_y) as u16;
            (addr, false)
        },
    }
}

/// Resolves the operand whose first byte is at `at`, as `get_operand_address` would
/// with the program counter there, but without consuming it: the processor stays as
/// it is.
pub fn peek_operand_address(cpu: &CPU, at: u16, mode: &AddressingMode) -> (address: u16)
    ensures
        address == (Machine { pc: at, ..cpu@ }).operand_address(*mode).0,
{
    let first = cpu.bus.read(at);
    let second = cpu.bus.read(offset16(at, 1));
    match mode {
        AddressingMode::Immediate => at,
        AddressingMode::ZeroPage => first as u16,
        AddressingMode::ZeroPageX => offset8(first, cpu.register_x) as u16,
        AddressingMode::ZeroPageY => offset8(first, cpu.register_y) as u16,
        AddressingMode::Absolute => make_word(first, second),
        AddressingMode::AbsoluteX => offset16(make_word(first, second), cpu.register_x),
        AddressingMode::AbsoluteY => offset16(make_word(first, second), cpu.register_y),
        AddressingMode::Indirect => {
            let ptr = make_word(first, second);
            make_word(cpu.bus.read(ptr), cpu.bus.read(successor_in_page(ptr)))
        },
        AddressingMode::IndirectX => {
            let ptr = offset8(first, cpu.register_x);
            make_word(cpu.bus.read(ptr as u16), cpu.bus.read(offset8(ptr, 1) as u16))
        },
        AddressingMode::IndirectY => {
            let base = make_word(
                cpu.bus.read(first as u16),
                cpu.bus.read(offset8(first, 1) as u16),
            );
            offset16(base, cpu.register_y)
        },
        AddressingMode::Relative => displace16(offset16(at, 1), first),
    }
}

} // verus!
