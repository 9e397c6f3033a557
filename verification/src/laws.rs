use crate::addressing::{next_in_page, AddressingMode};
use crate::alu::{add_binary, bit, lemma_add_binary};
use crate::cpu::{
    FLAG_BREAK, FLAG_CARRY, FLAG_DECIMAL, FLAG_INTERRUPT, FLAG_NEGATIVE, FLAG_OVERFLOW,
    FLAG_UNUSED, FLAG_ZERO,
};
use crate::cycles::{add_cycles, base_cycles};
use crate::isa::{decode, operand_length, Instruction, Mnemonic, Operand};
use crate::machine::{add16, add8, high, lemma_add16, lemma_add8, low, signed, word, Machine};
use crate::semantics::{pulled_status, pushed_status};
use vstd::prelude::*;

verus! {

/// Whether `flag` is the mask of one of the eight flags.
pub open spec fn is_flag(flag: u8) -> bool {
    ||| flag == FLAG_CARRY
    ||| flag == FLAG_ZERO
    ||| flag == FLAG_INTERRUPT
    ||| flag == FLAG_DECIMAL
    ||| flag == FLAG_BREAK
    ||| flag == FLAG_UNUSED
    ||| flag == FLAG_OVERFLOW
    ||| flag == FLAG_NEGATIVE
}

/// Each flag has a bit, and no two flags share one.
pub proof fn lemma_flags_are_distinct_bits(f: u8, g: u8)
    by (bit_vector)
    requires
        is_flag(f),
        is_flag(g),
    ensures
        f != 0,
        f != g ==> f & g == 0,
{
}

/// Setting or clearing the bits of `mask` decides them and leaves every bit outside
/// `mask` alone.
proof fn lemma_with_bits(p: u8, mask: u8, other: u8)
    by (bit_vector)
    ensures
        (p | mask) & mask == mask,
        (p & !mask) & mask == 0,
        other & mask == 0 ==> (p | mask) & other == p & other,
        other & mask == 0 ==> (p & !mask) & other == p & other,
{
}

/// A flag that was set or cleared is as it was made, and every other flag is as it was
/// before.
pub proof fn lemma_set_flag(s: Machine, flag: u8, on: bool)
    requires
        is_flag(flag),
    ensures
        s.set_flag(flag, on).flag(flag) == on,
        forall|other: u8|
            is_flag(other) && other != flag ==> #[trigger] s.set_flag(flag, on).flag(other)
                == s.flag(other),
{
    lemma_flags_are_distinct_bits(flag, flag);
    lemma_with_bits(s.p, flag, flag);
    assert forall|other: u8| is_flag(other) && other != flag implies #[trigger] s.set_flag(
        flag,
        on,
    ).flag(other) == s.flag(other) by {
        lemma_flags_are_distinct_bits(other, flag);
        lemma_with_bits(s.p, flag, other);
    }
}

/// After Z and N are set from a byte, Z says that the byte is zero and N that it is
/// `0x80` or more; every other flag is as it was before.
pub proof fn lemma_zero_and_negative(s: Machine, v: u8)
    ensures
        s.set_zn(v).flag(FLAG_ZERO) <==> v == 0,
        s.set_zn(v).flag(FLAG_NEGATIVE) <==> v >= 0x80,
        forall|other: u8|
            is_flag(other) && other != FLAG_ZERO && other != FLAG_NEGATIVE
                ==> #[trigger] s.set_zn(v).flag(other) == s.flag(other),
{
    let z = s.set_flag(FLAG_ZERO, v == 0);
    assert(s.set_zn(v) == z.set_flag(FLAG_NEGATIVE, v >= 0x80));
    lemma_set_flag(s, FLAG_ZERO, v == 0);
    lemma_set_flag(z, FLAG_NEGATIVE, v >= 0x80);
    assert(z.set_flag(FLAG_NEGATIVE, v >= 0x80).flag(FLAG_ZERO) == z.flag(FLAG_ZERO));
    assert forall|other: u8|
        is_flag(other) && other != FLAG_ZERO && other != FLAG_NEGATIVE implies #[trigger] s.set_zn(
        v,
    ).flag(other) == s.flag(other) by {
        assert(z.set_flag(FLAG_NEGATIVE, v >= 0x80).flag(other) == z.flag(other));
        assert(s.set_flag(FLAG_ZERO, v == 0).flag(other) == s.flag(other));
    }
}

/// A comparison sets C iff the register is not below the operand, Z iff the two are
/// equal, and N iff bit 7 of their difference modulo 256 is set.
pub proof fn lemma_compare(s: Machine, mode: AddressingMode, register: u8)
    ensures
        ({
            let (addr, _, past) = s.operand_address(mode);
            let value = past.read(addr);
            let after = s.compare(mode, register);
            &&& after.flag(FLAG_CARRY) <==> register >= value
            &&& after.flag(FLAG_ZERO) <==> register == value
            &&& after.flag(FLAG_NEGATIVE) <==> (register - value) % 0x100 >= 0x80
        }),
{
    let (addr, _, past) = s.operand_address(mode);
    let value = past.read(addr);
    let carried = past.set_flag(FLAG_CARRY, register >= value);
    reveal(add8);
    lemma_set_flag(past, FLAG_CARRY, register >= value);
    lemma_zero_and_negative(carried, add8(register, -(value as int)));
    assert(carried.set_zn(add8(register, -(value as int))).flag(FLAG_CARRY) == carried.flag(
        FLAG_CARRY,
    ));
}

/// With D clear, `ADC` leaves in A, C, V, Z and N what two's-complement addition of the
/// accumulator, the operand and the carry gives.
pub proof fn lemma_adc_binary(s: Machine, mode: AddressingMode)
    requires
        !s.flag(FLAG_DECIMAL),
    ensures
        ({
            let (addr, _, past) = s.operand_address(mode);
            let sum = s.a + past.read(addr) + bit(s.flag(FLAG_CARRY));
            let signed_sum = signed(s.a) + signed(past.read(addr)) + bit(s.flag(FLAG_CARRY));
            let after = s.adc(mode);
            &&& after.a == sum % 0x100
            &&& after.flag(FLAG_CARRY) <==> sum > 0xFF
            &&& after.flag(FLAG_OVERFLOW) <==> !(-0x80 <= signed_sum < 0x80)
            &&& after.flag(FLAG_ZERO) <==> sum % 0x100 == 0
            &&& after.flag(FLAG_NEGATIVE) <==> sum % 0x100 >= 0x80
        }),
{
    let (addr, _, past) = s.operand_address(mode);
    assert(past.p == s.p && past.a == s.a) by {
        lemma_operand_address_frame(s, mode);
    }
    let out = add_binary(past.a, past.read(addr), past.flag(FLAG_CARRY));
    lemma_add_binary(past.a, past.read(addr), past.flag(FLAG_CARRY));
    let with_a = Machine { a: out.value, ..past };
    let with_c = with_a.set_flag(FLAG_CARRY, out.carry);
    let with_v = with_c.set_flag(FLAG_OVERFLOW, out.overflow);
    lemma_set_flag(with_a, FLAG_CARRY, out.carry);
    lemma_set_flag(with_c, FLAG_OVERFLOW, out.overflow);
    lemma_zero_and_negative(with_v, out.binary);
    assert(with_v.flag(FLAG_CARRY) == with_c.flag(FLAG_CARRY));
    assert(with_v.set_zn(out.binary).flag(FLAG_CARRY) == with_v.flag(FLAG_CARRY));
    assert(with_v.set_zn(out.binary).flag(FLAG_OVERFLOW) == with_v.flag(FLAG_OVERFLOW));
}

/// Resolving an operand moves the program counter past the operand bytes and changes
/// nothing else.
pub proof fn lemma_operand_address_frame(s: Machine, mode: AddressingMode)
    ensures
        s.operand_address(mode).2 == (Machine { pc: s.operand_address(mode).2.pc, ..s }),
{
}

/// Pushing a byte and popping it again gives the byte back and leaves the stack
/// pointer where it was, whatever it was.
pub proof fn lemma_push_pop(s: Machine, v: u8)
    requires
        s.wf(),
    ensures
        s.push(v).pop().0 == v,
        s.push(v).pop().1.sp == s.sp,
        s.push(v).pop().1 == s.write(s.stack_address(), v),
{
    lemma_add8(s.sp, -1, 1);
}

/// The status that `PHP` pushed and `PLP` pulled differs from the status before in B
/// and U at most: B is clear and U is set.
proof fn lemma_pushed_then_pulled(p: u8, other: u8)
    by (bit_vector)
    ensures
        pulled_status(pushed_status(p, true)) & FLAG_BREAK == 0,
        pulled_status(pushed_status(p, true)) & FLAG_UNUSED != 0,
        other & FLAG_BREAK == 0 && other & FLAG_UNUSED == 0 ==> pulled_status(
            pushed_status(p, true),
        ) & other == p & other,
{
}

/// `PHP` followed by `PLP` restores every flag except B and U, leaves B clear and U
/// set, and leaves the registers and the stack pointer as they were.
pub proof fn lemma_php_plp(s: Machine)
    requires
        s.wf(),
    ensures
        ({
            let after = s.php().plp();
            &&& !after.flag(FLAG_BREAK)
            &&& after.flag(FLAG_UNUSED)
            &&& forall|flag: u8|
                is_flag(flag) && flag != FLAG_BREAK && flag != FLAG_UNUSED
                    ==> #[trigger] after.flag(flag) == s.flag(flag)
            &&& after == (Machine {
                p: after.p,
                ..s.write(s.stack_address(), pushed_status(s.p, true))
            })
        }),
{
    let after = s.php().plp();
    lemma_push_pop(s, pushed_status(s.p, true));
    lemma_pushed_then_pulled(s.p, 0);
    assert forall|flag: u8|
        is_flag(flag) && flag != FLAG_BREAK && flag != FLAG_UNUSED implies #[trigger] after.flag(
        flag,
    ) == s.flag(flag) by {
        lemma_flags_are_distinct_bits(flag, FLAG_BREAK);
        lemma_flags_are_distinct_bits(flag, FLAG_UNUSED);
        lemma_pushed_then_pulled(s.p, flag);
    }
}

/// The cell after `ptr` within its page lies in the page of `ptr`; after the last cell
/// of a page it is the first cell of that page, not of the next.
pub proof fn lemma_next_in_page(ptr: u16)
    ensures
        high(next_in_page(ptr)) == high(ptr),
        low(next_in_page(ptr)) == (low(ptr) + 1) % 0x100,
        low(ptr) != 0xFF ==> next_in_page(ptr) == ptr + 1,
        low(ptr) == 0xFF ==> next_in_page(ptr) == ptr - 0xFF,
{
    reveal(add8);
}

/// An indirect jump takes the low byte of its target from the cell that the operand
/// points to, and the high byte from the next cell of the same page.
pub proof fn lemma_jmp_indirect(s: Machine)
    ensures
        ({
            let (ptr, past) = s.fetch_word();
            &&& s.jmp(AddressingMode::Indirect).pc == word(
                past.read(ptr),
                past.read(next_in_page(ptr)),
            )
            &&& high(next_in_page(ptr)) == high(ptr)
        }),
{
    lemma_next_in_page(s.fetch_word().0);
}

/// A word that was pushed and is popped again comes back, and the stack pointer is
/// where it was.
pub proof fn lemma_push_pop_word(s: Machine, w: u16)
    requires
        s.wf(),
    ensures
        s.push_word(w).pop_word().0 == w,
        s.push_word(w).pop_word().1.sp == s.sp,
{
    let high_pushed = s.push(high(w));
    lemma_push_pop(high_pushed, low(w));
    lemma_push_pop(s, high(w));
    let (lo, low_popped) = high_pushed.push(low(w)).pop();
    assert(low_popped.sp == high_pushed.sp);
    assert(low_popped.pop().1.sp == s.sp) by {
        lemma_add8(s.sp, -1, 1);
    }
    assert(low_popped.pop().0 == high(w)) by {
        lemma_add8(s.sp, -1, 1);
        reveal(add8);
    }
}

/// `RTS` after `JSR` continues at the instruction that follows the operand of `JSR`,
/// with the stack pointer where it was before `JSR`.
///
/// Both machines have their program counter past the opcode, as `execute` takes them.
pub proof fn lemma_jsr_rts(s: Machine)
    requires
        s.wf(),
    ensures
        s.jsr().rts().pc == add16(s.pc, 2),
        s.jsr().rts().sp == s.sp,
{
    let (target, past) = s.fetch_word();
    lemma_push_pop_word(past, add16(past.pc, -1));
    lemma_add16(s.pc, 1, 1);
    lemma_add16(past.pc, -1, 1);
    lemma_add16(past.pc, 0, 0);
}

/// A subroutine that consists of `RTS` alone: stepping through `JSR` and that `RTS`
/// arrives three bytes after the `JSR` opcode.
pub proof fn lemma_call_and_return(s: Machine)
    requires
        s.wf(),
        s.read(s.pc) == 0x20,
        s.step().read(s.step().pc) == 0x60,
    ensures
        s.step().step().pc == add16(s.pc, 3),
        s.step().step().sp == s.sp,
{
    let (_, fetched) = s.fetch();
    let called = s.step();
    assert(called.pc == fetched.jsr().pc);
    assert(called.sp == fetched.jsr().sp);
    assert(called.mem == fetched.jsr().mem);
    let (_, entered) = called.fetch();
    assert(called.step().pc == entered.rts().pc);
    assert(called.step().sp == entered.rts().sp);
    lemma_jsr_rts(fetched);
    assert(entered.rts().pc == fetched.jsr().rts().pc);
    assert(entered.rts().sp == fetched.jsr().rts().sp);
    lemma_add16(s.pc, 1, 2);
}

/// A branch whose condition holds continues at the address after its offset byte,
/// moved by the offset read as a two's-complement number.
pub proof fn lemma_branch_taken(s: Machine)
    ensures
        s.branch(true).pc == add16(s.pc, 1 + signed(s.read(s.pc))),
        s.branch(true) == (Machine { pc: s.branch(true).pc, ..s }),
{
    lemma_add16(s.pc, 1, signed(s.read(s.pc)));
}

/// The status byte that an interrupt pushes has U set, and B set iff software caused
/// it; every other flag is as in the status register.
proof fn lemma_pushed_status(p: u8, other: u8)
    by (bit_vector)
    ensures
        pushed_status(p, true) & FLAG_UNUSED != 0,
        pushed_status(p, false) & FLAG_UNUSED != 0,
        pushed_status(p, true) & FLAG_BREAK != 0,
        pushed_status(p, false) & FLAG_BREAK == 0,
        other & FLAG_BREAK == 0 && other & FLAG_UNUSED == 0 ==> pushed_status(p, true) & other
            == p & other,
        other & FLAG_BREAK == 0 && other & FLAG_UNUSED == 0 ==> pushed_status(p, false) & other
            == p & other,
        other & FLAG_BREAK == 0 && other & FLAG_UNUSED == 0 ==> pulled_status(
            pushed_status(p, false),
        ) & other == p & other,
        pulled_status(pushed_status(p, false)) & FLAG_BREAK == 0,
        pulled_status(pushed_status(p, false)) & FLAG_UNUSED != 0,
{
}

/// An interrupt leaves three bytes on the stack: the high and the low byte of the
/// return address, and on top the status with U set and with B set iff software
/// caused the interrupt. It sets I and continues at the word in the vector.
pub proof fn lemma_interrupt(s: Machine, vector: u16, return_address: u16, software: bool)
    requires
        s.wf(),
    ensures
        ({
            let after = s.interrupt(vector, return_address, software);
            let pushed = after.read((0x0100 + add8(s.sp, -2)) as u16);
            &&& after.sp == add8(s.sp, -3)
            &&& after.read((0x0100 + s.sp) as u16) == high(return_address)
            &&& after.read((0x0100 + add8(s.sp, -1)) as u16) == low(return_address)
            &&& pushed == pushed_status(s.p, software)
            &&& pushed & FLAG_UNUSED != 0
            &&& pushed & FLAG_BREAK != 0 <==> software
            &&& after.flag(FLAG_INTERRUPT)
            &&& after.pc == after.read_word(vector, add16(vector, 1))
            &&& after.wf()
        }),
{
    reveal(add8);
    lemma_pushed_status(s.p, 0);
    lemma_with_bits(s.p, FLAG_INTERRUPT, 0);
}

/// `RTI` after a hardware interrupt continues where the interrupt struck, with the
/// stack pointer where it was and every flag except B and U as it was; B is clear and
/// U is set.
pub proof fn lemma_interrupt_rti(s: Machine, vector: u16)
    requires
        s.wf(),
    ensures
        ({
            let after = s.interrupt(vector, s.pc, false).rti();
            &&& after.pc == s.pc
            &&& after.sp == s.sp
            &&& !after.flag(FLAG_BREAK)
            &&& after.flag(FLAG_UNUSED)
            &&& forall|flag: u8|
                is_flag(flag) && flag != FLAG_BREAK && flag != FLAG_UNUSED
                    ==> #[trigger] after.flag(flag) == s.flag(flag)
        }),
{
    let entered = s.interrupt(vector, s.pc, false);
    let after = entered.rti();
    let word_pushed = s.push_word(s.pc);
    lemma_push_pop(word_pushed, pushed_status(s.p, false));
    lemma_push_pop_word(s, s.pc);
    lemma_pushed_status(s.p, 0);
    reveal(add8);
    assert forall|flag: u8|
        is_flag(flag) && flag != FLAG_BREAK && flag != FLAG_UNUSED implies #[trigger] after.flag(
        flag,
    ) == s.flag(flag) by {
        lemma_flags_are_distinct_bits(flag, FLAG_BREAK);
        lemma_flags_are_distinct_bits(flag, FLAG_UNUSED);
        lemma_pushed_status(s.p, flag);
    }
}

/// Whether `instruction` on the machine `s` leaves the sequence of instructions: a
/// jump, a call, a return, `BRK`, or a branch whose condition holds.
pub open spec fn transfers_control(s: Machine, instruction: Instruction) -> bool {
    match instruction.mnemonic {
        Mnemonic::JMP | Mnemonic::JSR | Mnemonic::RTS | Mnemonic::RTI | Mnemonic::BRK => true,
        _ => instruction.mnemonic.is_branch() && s.branches_on(instruction.mnemonic),
    }
}

/// Resolving an operand moves the program counter by the number of operand bytes.
pub proof fn lemma_operand_address_pc(s: Machine, mode: AddressingMode)
    ensures
        s.operand_address(mode).2.pc == add16(
            s.pc,
            operand_length(Operand::Memory(mode)) as int,
        ),
{
    lemma_add16(s.pc, 1, 1);
}

/// Every operation on a memory operand resolves the operand once and moves the
/// program counter no further; a branch does so where its condition fails.
proof fn lemma_memory_operations_pc(s: Machine, mode: AddressingMode, v: u8)
    ensures
        s.load(mode).1.pc == s.operand_address(mode).2.pc,
        s.store(mode, v).pc == s.operand_address(mode).2.pc,
        s.compare(mode, v).pc == s.operand_address(mode).2.pc,
        s.and(mode).pc == s.operand_address(mode).2.pc,
        s.ora(mode).pc == s.operand_address(mode).2.pc,
        s.eor(mode).pc == s.operand_address(mode).2.pc,
        s.adc(mode).pc == s.operand_address(mode).2.pc,
        s.sbc(mode).pc == s.operand_address(mode).2.pc,
        s.inc(mode).pc == s.operand_address(mode).2.pc,
        s.dec(mode).pc == s.operand_address(mode).2.pc,
        s.bit(mode).pc == s.operand_address(mode).2.pc,
        s.asl(mode).pc == s.operand_address(mode).2.pc,
        s.lsr(mode).pc == s.operand_address(mode).2.pc,
        s.rol(mode).pc == s.operand_address(mode).2.pc,
        s.ror(mode).pc == s.operand_address(mode).2.pc,
        s.branch(false).pc == s.operand_address(AddressingMode::Relative).2.pc,
{
}

/// An opcode pairs a memory operand only with an operation that takes one, a relative
/// operand only with a branch, and the accumulator only with a shift or a rotation.
proof fn lemma_encoded_pairs(opcode: u8)
    ensures
        match decode(opcode).operand {
            Operand::Memory(mode) => match decode(opcode).mnemonic {
                Mnemonic::LDA
                | Mnemonic::LDX
                | Mnemonic::LDY
                | Mnemonic::STA
                | Mnemonic::STX
                | Mnemonic::STY
                | Mnemonic::AND
                | Mnemonic::ORA
                | Mnemonic::EOR
                | Mnemonic::ADC
                | Mnemonic::SBC
                | Mnemonic::CMP
                | Mnemonic::CPX
                | Mnemonic::CPY
                | Mnemonic::INC
                | Mnemonic::DEC
                | Mnemonic::BIT
                | Mnemonic::ASL
                | Mnemonic::LSR
                | Mnemonic::ROL
                | Mnemonic::ROR
                | Mnemonic::JMP
                | Mnemonic::JSR => mode != AddressingMode::Relative,
                Mnemonic::BPL
                | Mnemonic::BMI
                | Mnemonic::BVC
                | Mnemonic::BVS
                | Mnemonic::BCC
                | Mnemonic::BCS
                | Mnemonic::BNE
                | Mnemonic::BEQ => mode == AddressingMode::Relative,
                _ => false,
            },
            Operand::Accumulator => match decode(opcode).mnemonic {
                Mnemonic::ASL | Mnemonic::LSR | Mnemonic::ROL | Mnemonic::ROR => true,
                _ => false,
            },
            Operand::Implied => match decode(opcode).mnemonic {
                Mnemonic::JMP | Mnemonic::JSR => false,
                _ => !decode(opcode).mnemonic.is_branch(),
            },
        },
{
}

/// An instruction that does not leave the sequence moves the program counter past
/// its operand bytes, and no further.
pub proof fn lemma_execute_advances_pc(s: Machine, opcode: u8)
    requires
        !transfers_control(s, decode(opcode)),
    ensures
        s.execute(opcode).pc == add16(s.pc, operand_length(decode(opcode).operand) as int),
{
    let instruction = decode(opcode);
    lemma_encoded_pairs(opcode);
    lemma_add16(s.pc, 0, 0);
    match instruction.operand {
        Operand::Memory(mode) => {
            lemma_operand_address_pc(s, mode);
            lemma_memory_operations_pc(s, mode, s.a);
            lemma_memory_operations_pc(s, mode, s.x);
            lemma_memory_operations_pc(s, mode, s.y);
        },
        _ => {},
    }
}

/// Whether an instruction leaves the sequence depends on the status register alone.
proof fn lemma_transfers_control_reads_status(s: Machine, t: Machine, instruction: Instruction)
    requires
        s.p == t.p,
    ensures
        transfers_control(s, instruction) == transfers_control(t, instruction),
{
}

/// A step whose instruction does not leave the sequence moves the program counter past
/// the opcode and the operand bytes, and no further.
pub proof fn lemma_step_advances_pc(s: Machine)
    ensures
        !transfers_control(s, decode(s.read(s.pc))) ==> s.step().pc == add16(
            s.pc,
            1 + operand_length(decode(s.read(s.pc)).operand),
        ),
{
    let opcode = s.read(s.pc);
    let charged = Machine {
        cycles: add_cycles(s.cycles, base_cycles(opcode)),
        pc: add16(s.pc, 1),
        ..s
    };
    lemma_transfers_control_reads_status(s, charged, decode(opcode));
    if !transfers_control(s, decode(opcode)) {
        lemma_execute_advances_pc(charged, opcode);
        lemma_add16(s.pc, 1, operand_length(decode(opcode).operand) as int);
    }
}

/// No instruction touches the cycle counter or the size of memory; the step adds the
/// base cost of its opcode.
pub proof fn lemma_execute_frame(s: Machine, opcode: u8)
    requires
        s.wf(),
    ensures
        s.execute(opcode).cycles == s.cycles,
        s.execute(opcode).wf(),
{
    let instruction = decode(opcode);
    match instruction.operand {
        Operand::Memory(mode) => {
            lemma_operand_address_frame(s, mode);
        },
        _ => {},
    }
}

/// A step keeps memory whole and adds the base cost of the opcode at the program
/// counter to the cycle counter.
pub proof fn lemma_step_frame(s: Machine)
    requires
        s.wf(),
    ensures
        s.step().wf(),
        s.step().cycles == add_cycles(s.cycles, base_cycles(s.read(s.pc))),
{
    let (opcode, fetched) = s.fetch();
    lemma_execute_frame(
        Machine { cycles: add_cycles(s.cycles, base_cycles(opcode)), ..fetched },
        opcode,
    );
}

/// What the instructions do to the status byte leaves a set U set.
proof fn lemma_unused_survives()
    ensures
        forall|s: Machine, flag: u8, on: bool|
            is_flag(flag) && flag != FLAG_UNUSED && s.flag(FLAG_UNUSED) ==> (#[trigger] s.set_flag(
                flag,
                on,
            )).flag(FLAG_UNUSED),
        forall|s: Machine, v: u8|
            s.flag(FLAG_UNUSED) ==> (#[trigger] s.set_zn(v)).flag(FLAG_UNUSED),
        forall|v: u8| #[trigger] pulled_status(v) & FLAG_UNUSED != 0,
        forall|p: u8| p & FLAG_UNUSED != 0 ==> #[trigger] (p | FLAG_INTERRUPT) & FLAG_UNUSED != 0,
{
    assert forall|s: Machine, flag: u8, on: bool|
        is_flag(flag) && flag != FLAG_UNUSED && s.flag(FLAG_UNUSED) implies (#[trigger] s.set_flag(
        flag,
        on,
    )).flag(FLAG_UNUSED) by {
        lemma_set_flag(s, flag, on);
    }
    assert forall|s: Machine, v: u8| s.flag(FLAG_UNUSED) implies (#[trigger] s.set_zn(v)).flag(
        FLAG_UNUSED,
    ) by {
        lemma_zero_and_negative(s, v);
    }
    assert forall|v: u8| #[trigger] pulled_status(v) & FLAG_UNUSED != 0 by {
        lemma_with_bits(v & !FLAG_BREAK, FLAG_UNUSED, 0);
    }
    assert forall|p: u8| p & FLAG_UNUSED != 0 implies #[trigger] (p | FLAG_INTERRUPT)
        & FLAG_UNUSED != 0 by {
        lemma_flags_are_distinct_bits(FLAG_UNUSED, FLAG_INTERRUPT);
        lemma_with_bits(p, FLAG_INTERRUPT, FLAG_UNUSED);
    }
}

/// Once U is set, no instruction clears it: the status register is never seen without
/// U after a reset.
#[verifier::rlimit(40)]
pub proof fn lemma_execute_keeps_unused(s: Machine, opcode: u8)
    requires
        s.flag(FLAG_UNUSED),
    ensures
        s.execute(opcode).flag(FLAG_UNUSED),
{
    lemma_unused_survives();
    let instruction = decode(opcode);
    match instruction.operand {
        Operand::Memory(mode) => {
            lemma_operand_address_frame(s, mode);
        },
        _ => {},
    }
}

/// Once U is set, a step and an interrupt leave it set.
pub proof fn lemma_unused_stays_set(s: Machine)
    requires
        s.flag(FLAG_UNUSED),
    ensures
        s.step().flag(FLAG_UNUSED),
        s.nmi().flag(FLAG_UNUSED),
        s.irq().flag(FLAG_UNUSED),
{
    lemma_unused_survives();
    let (opcode, fetched) = s.fetch();
    lemma_execute_keeps_unused(
        Machine { cycles: add_cycles(s.cycles, base_cycles(opcode)), ..fetched },
        opcode,
    );
}

/// A reset leaves the stack pointer at `0xFD`, the status at `0x24`, which is I and U,
/// and the program counter at the word in the reset vector, whatever the machine was;
/// a second reset changes nothing more.
pub proof fn lemma_reset(s: Machine)
    ensures
        s.reset().sp == 0xFD,
        s.reset().p == 0x24,
        s.reset().pc == word(s.read(0xFFFC), s.read(0xFFFD)),
        s.reset().flag(FLAG_UNUSED),
        s.reset().flag(FLAG_INTERRUPT),
        s.reset().reset() == s.reset(),
{
    assert(FLAG_INTERRUPT | FLAG_UNUSED == 0x24 && 0x24u8 & FLAG_INTERRUPT != 0 && 0x24u8
        & FLAG_UNUSED != 0) by (bit_vector);
    lemma_add16(0xFFFC, 1, 0);
}

} // verus!
