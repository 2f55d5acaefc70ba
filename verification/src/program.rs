//! A sample program: the factorial of 5.

use vstd::prelude::*;
use crate::cpu::X86Cpu;

verus! {

/// A program that computes 5! by repeated multiplication, pushes the result
/// and halts:
///
/// ```text
/// 0000  B8 01 00      load 1 into ax
/// 0003  B9 05 00      load 5 into cx
/// 0006  F7 E1         multiply ax by cx
/// 0008  49            decrement cx
/// 0009  81 F9 01 00   compare cx with 1
/// 000D  75 F7         if not equal, jump back to 0006
/// 000F  50            push ax
/// 0010  F4            halt
/// ```
pub open spec fn factorial_program() -> Seq<u8> {
    seq![
        0xB8u8, 0x01u8, 0x00u8,
        0xB9u8, 0x05u8, 0x00u8,
        0xF7u8, 0xE1u8,
        0x49u8,
        0x81u8, 0xF9u8, 0x01u8, 0x00u8,
        0x75u8, 0xF7u8,
        0x50u8,
        0xF4u8,
    ]
}

/// Writes the factorial program into the processor's memory from address 0.
pub fn load_factorial_program(cpu: &mut X86Cpu)
    ensures
        final(cpu)@ == old(cpu)@.loaded(0, factorial_program()),
{
    let program: Vec<u8> = vec![
        0xB8u8, 0x01u8, 0x00u8,
        0xB9u8, 0x05u8, 0x00u8,
        0xF7u8, 0xE1u8,
        0x49u8,
        0x81u8, 0xF9u8, 0x01u8, 0x00u8,
        0x75u8, 0xF7u8,
        0x50u8,
        0xF4u8,
    ];
    assert(program@ =~= factorial_program());
    let fits: bool = cpu.load(0, program.as_slice());
    assert(fits);
}

} // verus!
