use crate::cpu::{FLAG_CARRY, FLAG_NEGATIVE, FLAG_ZERO};
use vstd::prelude::*;

verus! {

/// Where the processor continues after a reset.
pub const RESET_VECTOR: u16 = 0xFFFC;

/// Where the processor continues after a non-maskable interrupt.
pub const NMI_VECTOR: u16 = 0xFFFA;

/// Where the processor continues after an interrupt request or a `BRK`.
pub const IRQ_VECTOR: u16 = 0xFFFE;

/// `a + d` reduced to eight bits.
#[verifier::opaque]
pub open spec fn add8(a: u8, d: int) -> u8 {
    ((a + d) % 0x100) as u8
}

/// `a + d` reduced to sixteen bits.
#[verifier::opaque]
pub open spec fn add16(a: u16, d: int) -> u16 {
    ((a + d) % 0x1_0000) as u16
}

/// Moving an address twice is moving it by the sum; moving it by nothing leaves it.
pub proof fn lemma_add16(a: u16, d: int, e: int)
    ensures
        add16(add16(a, d), e) == add16(a, d + e),
        add16(a, 0) == a,
        0 <= a + d < 0x1_0000 ==> add16(a, d) == a + d,
{
    reveal(add16);
}

/// Changing a byte twice is changing it by the sum; changing it by nothing leaves it.
pub proof fn lemma_add8(a: u8, d: int, e: int)
    ensures
        add8(add8(a, d), e) == add8(a, d + e),
        add8(a, 0) == a,
        0 <= a + d < 0x100 ==> add8(a, d) == a + d,
{
    reveal(add8);
}

/// The little-endian word made of a low and a high byte.
pub open spec fn word(lo: u8, hi: u8) -> u16 {
    (hi * 0x100 + lo) as u16
}

/// The low byte of a word.
pub open spec fn low(w: u16) -> u8 {
    (w % 0x100) as u8
}

/// The high byte of a word, which is also the number of its page.
pub open spec fn high(w: u16) -> u8 {
    (w / 0x100) as u8
}

/// A byte read as a two's-complement number.
pub open spec fn signed(b: u8) -> int {
    if b < 0x80 {
        b as int
    } else {
        b - 0x100
    }
}

/// The status byte `p` with the bits of `mask` set if `on`, cleared if not.
pub open spec fn with_bits(p: u8, mask: u8, on: bool) -> u8 {
    if on {
        p | mask
    } else {
        p & !mask
    }
}

/// The status byte `p` with Z and N describing the byte `v`.
pub open spec fn with_zn(p: u8, v: u8) -> u8 {
    with_bits(with_bits(p, FLAG_ZERO, v == 0), FLAG_NEGATIVE, v >= 0x80)
}

/// The architectural state of the processor together with its memory: what a `CPU`
/// stands for in contracts.
pub struct Machine {
    /// Accumulator.
    pub a: u8,
    /// Index register X.
    pub x: u8,
    /// Index register Y.
    pub y: u8,
    /// Stack pointer: the low byte of an address in page one.
    pub sp: u8,
    /// Status register, one flag per bit.
    pub p: u8,
    /// Program counter.
    pub pc: u16,
    /// Clock cycles spent so far.
    pub cycles: u64,
    /// Memory, one byte per address.
    pub mem: Seq<u8>,
}

impl Machine {
    /// Every 16-bit address names a cell.
    pub open spec fn wf(self) -> bool {
        self.mem.len() == 0x1_0000
    }

    /// The byte in the cell at `addr`.
    pub open spec fn read(self, addr: u16) -> u8 {
        self.mem[addr as int]
    }

    /// The machine with `v` in the cell at `addr`.
    pub open spec fn write(self, addr: u16, v: u8) -> Machine {
        Machine { mem: self.mem.update(addr as int, v), ..self }
    }

    /// The word whose low byte is at `lo_addr` and whose high byte is at `hi_addr`.
    pub open spec fn read_word(self, lo_addr: u16, hi_addr: u16) -> u16 {
        word(self.read(lo_addr), self.read(hi_addr))
    }

    /// Whether any flag of `mask` is set in the status register.
    pub open spec fn flag(self, mask: u8) -> bool {
        self.p & mask != 0
    }

    /// The machine with the flags of `mask` set if `on`, cleared if not.
    pub open spec fn set_flag(self, mask: u8, on: bool) -> Machine {
        Machine { p: with_bits(self.p, mask, on), ..self }
    }

    /// The machine with Z set iff `v` is zero and N set iff bit 7 of `v` is set.
    pub open spec fn set_zn(self, v: u8) -> Machine {
        Machine { p: with_zn(self.p, v), ..self }
    }

    /// The carry flag as the number it adds.
    pub open spec fn carry(self) -> int {
        if self.flag(FLAG_CARRY) {
            1
        } else {
            0
        }
    }

    /// The byte at the program counter, and the machine with the counter moved past it.
    pub open spec fn fetch(self) -> (u8, Machine) {
        (self.read(self.pc), Machine { pc: add16(self.pc, 1), ..self })
    }

    /// The little-endian word at the program counter, and the machine moved past it.
    pub open spec fn fetch_word(self) -> (u16, Machine) {
        let (lo, s1) = self.fetch();
        let (hi, s2) = s1.fetch();
        (word(lo, hi), s2)
    }

    /// The cell that the stack pointer designates, in page one.
    pub open spec fn stack_address(self) -> u16 {
        (0x0100 + self.sp) as u16
    }

    /// Writes `v` at the stack pointer, then moves the pointer down.
    pub open spec fn push(self, v: u8) -> Machine {
        Machine { sp: add8(self.sp, -1), ..self.write(self.stack_address(), v) }
    }

    /// Moves the stack pointer up, then reads the byte it designates.
    pub open spec fn pop(self) -> (u8, Machine) {
        let s = Machine { sp: add8(self.sp, 1), ..self };
        (s.read(s.stack_address()), s)
    }

    /// Pushes a word, high byte first.
    pub open spec fn push_word(self, w: u16) -> Machine {
        self.push(high(w)).push(low(w))
    }

    /// Pops a word, low byte first.
    pub open spec fn pop_word(self) -> (u16, Machine) {
        let (lo, s1) = self.pop();
        let (hi, s2) = s1.pop();
        (word(lo, hi), s2)
    }
}

} // verus!
