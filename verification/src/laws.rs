//! What holds of the machine in every state.

use vstd::prelude::*;
use crate::diagnostic::UnknownOpcode;
use crate::flags::{lemma_with_sz, other_flags, sign_flag, zero_flag};
use crate::model::{
    high_byte, is_known_opcode, low_byte, signed8, word_of, wrap16, Machine,
};

verus! {

/// A word splits into its two bytes and is put together from them again.
pub proof fn lemma_word_of_bytes(v: u16)
    ensures
        word_of(low_byte(v), high_byte(v)) == v,
{
}

/// A pop right after a push of `v` returns `v` and leaves the register file,
/// the stack pointer with it, as it was before the push, whatever the stack
/// pointer was. The halted flag plays no part.
pub proof fn lemma_push_pop_round_trip(m: Machine, v: u16)
    requires
        m.wf(),
    ensures
        m.pushed(v).popped() == v,
        m.pushed(v).after_pop().regs == m.regs,
        m.pushed(v).after_pop().halted == m.halted,
{
    lemma_word_of_bytes(v);
}

/// A push changes the two bytes below the stack pointer and no other byte.
pub proof fn lemma_push_touches_two_bytes(m: Machine, v: u16, addr: u16)
    requires
        m.wf(),
        addr != wrap16(m.regs.sp - 2),
        addr != wrap16(m.regs.sp - 1),
    ensures
        m.pushed(v).byte_at(addr) == m.byte_at(addr),
{
}

/// A fetch of two bytes is two fetches of one byte, the low byte first.
pub proof fn lemma_fetch_u16_is_two_fetches(m: Machine)
    requires
        m.wf(),
    ensures
        m.fetched_u16() == word_of(m.fetched_u8(), m.after_fetch_u8().fetched_u8()),
        m.after_fetch_u16() == m.after_fetch_u8().after_fetch_u8(),
{
}

/// No step changes the size of memory.
pub proof fn lemma_step_keeps_wf(m: Machine)
    requires
        m.wf(),
    ensures
        m.step().wf(),
{
}

/// A step of a halted machine changes nothing and reports nothing.
pub proof fn lemma_halted_step_is_noop(m: Machine)
    requires
        m.halted,
    ensures
        m.step() == m,
        m.step_report() == None::<UnknownOpcode>,
{
}

/// Halted is terminal: a halted machine is the same after any number of
/// steps.
pub proof fn lemma_halted_is_terminal(m: Machine, n: nat)
    requires
        m.halted,
    ensures
        m.steps(n) == m,
    decreases n,
{
    if n > 0 {
        lemma_halted_is_terminal(m, (n - 1) as nat);
    }
}

/// A running machine halts in a step exactly when the byte it fetches is the
/// halt opcode or begins no instruction.
pub proof fn lemma_halts_exactly_on_halt_or_unknown(m: Machine)
    requires
        m.wf(),
        !m.halted,
    ensures
        m.step().halted <==> (m.fetched_u8() == 0xF4 || !is_known_opcode(m.fetched_u8())),
{
}

/// A byte that begins no instruction halts a running machine on that step:
/// the byte is consumed, nothing else changes, and the step reports the byte
/// and its address. A further step is a no-op.
pub proof fn lemma_unknown_opcode_halts(m: Machine)
    requires
        m.wf(),
        !m.halted,
        !is_known_opcode(m.fetched_u8()),
    ensures
        m.step() == m.after_fetch_u8().stopped(),
        m.step().halted,
        m.step_report() == Some(UnknownOpcode { opcode: m.fetched_u8(), addr: m.regs.ip }),
        m.step().step() == m.step(),
        m.step().step_report() == None::<UnknownOpcode>,
{
}

/// With the zero flag set, the conditional jump consumes its opcode and its
/// one operand byte, whatever the operand is, and changes nothing else: no
/// offset is applied.
pub proof fn lemma_jump_not_taken(m: Machine)
    requires
        m.wf(),
        !m.halted,
        m.fetched_u8() == 0x75,
        zero_flag(m.regs.flags),
    ensures
        m.step() == m.advanced(2),
        m.step().regs.ip == wrap16(m.regs.ip + 2),
{
}

/// With the zero flag clear, the conditional jump moves the instruction
/// pointer by its operand, read as a signed byte, from the address after the
/// operand.
pub proof fn lemma_jump_taken(m: Machine)
    requires
        m.wf(),
        !m.halted,
        m.fetched_u8() == 0x75,
        !zero_flag(m.regs.flags),
    ensures
        m.step() == m.advanced(2 + signed8(m.after_fetch_u8().fetched_u8())),
{
}

/// The multiply leaves the 32-bit product of `ax` and `cx` in `dx:ax`.
pub proof fn lemma_multiplied_holds_product(m: Machine)
    ensures
        m.multiplied().regs.ax + 0x10000 * m.multiplied().regs.dx == m.regs.ax * m.regs.cx,
{
    let a: int = m.regs.ax as int;
    let c: int = m.regs.cx as int;
    assert(0 <= a * c <= 0xFFFF * 0xFFFF) by (nonlinear_arith)
        requires
            0 <= a <= 0xFFFF,
            0 <= c <= 0xFFFF,
    ;
}

/// A step changes no flag but zero and sign: the reserved bits of the flag
/// word are carried through every instruction.
pub proof fn lemma_step_keeps_reserved_flags(m: Machine)
    requires
        m.wf(),
    ensures
        other_flags(m.step().regs.flags) == other_flags(m.regs.flags),
{
    let n = m.after_fetch_u8();
    lemma_with_sz(m.regs.flags, wrap16(m.regs.ax + 1));
    lemma_with_sz(m.regs.flags, wrap16(m.regs.ax - 1));
    lemma_with_sz(m.regs.flags, wrap16(m.regs.cx - 1));
    lemma_with_sz(m.regs.flags, wrap16(m.regs.cx - n.after_fetch_u8().fetched_u16()));
}

/// No instruction writes `si`, `di` or `bp`.
pub proof fn lemma_step_keeps_index_registers(m: Machine)
    requires
        m.wf(),
    ensures
        m.step().regs.si == m.regs.si,
        m.step().regs.di == m.regs.di,
        m.step().regs.bp == m.regs.bp,
{
}

/// Only the push instruction writes memory.
pub proof fn lemma_step_writes_memory_only_on_push(m: Machine)
    requires
        m.wf(),
        m.halted || m.fetched_u8() != 0x50,
    ensures
        m.step().mem == m.mem,
{
}

/// Steps add up: `a + b` steps are `a` steps and then `b` steps.
pub proof fn lemma_steps_add(m: Machine, a: nat, b: nat)
    ensures
        m.steps(a + b) == m.steps(a).steps(b),
    decreases b,
{
    if b > 0 {
        lemma_steps_add(m, a, (b - 1) as nat);
        assert(a + b - 1 == a + (b - 1));
    }
}

/// Increment-ax adds 1 modulo 65536: from 0xFFFF it gives 0. Zero is set
/// exactly when the result is 0, sign exactly when its top bit is set.
pub proof fn lemma_increment_ax(m: Machine)
    requires
        m.wf(),
        !m.halted,
        m.fetched_u8() == 0x40,
    ensures
        m.step().regs.ax == wrap16(m.regs.ax + 1),
        m.step().regs.ip == wrap16(m.regs.ip + 1),
        zero_flag(m.step().regs.flags) <==> m.regs.ax == 0xFFFF,
        sign_flag(m.step().regs.flags) <==> 0x7FFF <= m.regs.ax < 0xFFFF,
{
    lemma_with_sz(m.regs.flags, wrap16(m.regs.ax + 1));
}

/// Decrement-ax subtracts 1 modulo 65536: from 0 it gives 0xFFFF. Zero is set
/// exactly when the result is 0, sign exactly when its top bit is set.
pub proof fn lemma_decrement_ax(m: Machine)
    requires
        m.wf(),
        !m.halted,
        m.fetched_u8() == 0x48,
    ensures
        m.step().regs.ax == wrap16(m.regs.ax - 1),
        m.step().regs.ip == wrap16(m.regs.ip + 1),
        zero_flag(m.step().regs.flags) <==> m.regs.ax == 1,
        sign_flag(m.step().regs.flags) <==> (m.regs.ax == 0 || m.regs.ax > 0x8000),
{
    lemma_with_sz(m.regs.flags, wrap16(m.regs.ax - 1));
}

/// Decrement-cx subtracts 1 modulo 65536: from 0 it gives 0xFFFF. Zero is set
/// exactly when the result is 0, sign exactly when its top bit is set.
pub proof fn lemma_decrement_cx(m: Machine)
    requires
        m.wf(),
        !m.halted,
        m.fetched_u8() == 0x49,
    ensures
        m.step().regs.cx == wrap16(m.regs.cx - 1),
        m.step().regs.ip == wrap16(m.regs.ip + 1),
        zero_flag(m.step().regs.flags) <==> m.regs.cx == 1,
        sign_flag(m.step().regs.flags) <==> (m.regs.cx == 0 || m.regs.cx > 0x8000),
{
    lemma_with_sz(m.regs.flags, wrap16(m.regs.cx - 1));
}

/// The compare instruction consumes four bytes, keeps `cx`, and sets zero
/// exactly when `cx` equals the immediate.
pub proof fn lemma_compare_sets_zero_iff_equal(m: Machine)
    requires
        m.wf(),
        !m.halted,
        m.fetched_u8() == 0x81,
        m.advanced(1).fetched_u8() == 0xF9,
    ensures
        m.step().regs.ip == wrap16(m.regs.ip + 4),
        m.step().regs.cx == m.regs.cx,
        zero_flag(m.step().regs.flags) <==> m.regs.cx == m.advanced(2).fetched_u16(),
{
    lemma_with_sz(m.regs.flags, wrap16(m.regs.cx - m.advanced(2).fetched_u16()));
}

/// With a selector other than the implemented one, the compare opcode
/// consumes the selector and nothing more: the two bytes that would be its
/// immediate stay in the instruction stream.
pub proof fn lemma_compare_with_other_selector(m: Machine)
    requires
        m.wf(),
        !m.halted,
        m.fetched_u8() == 0x81,
        m.advanced(1).fetched_u8() != 0xF9,
    ensures
        m.step() == m.advanced(2),
{
}

} // verus!
