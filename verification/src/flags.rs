//! The flag word and the two flags that arithmetic results drive.
//!
//! Layout of the low nine bits, high to low: `O D I T S Z A P C`
//! (overflow, direction, interrupt, trap, sign, zero, auxiliary carry, parity,
//! carry). Only sign and zero are ever computed; the other positions are
//! reserved and carried through unchanged.

use vstd::prelude::*;

verus! {

/// Mask of the carry flag (bit 0). Reserved.
pub const CARRY_MASK: u16 = 0x0001;

/// Mask of the parity flag (bit 1). Reserved.
pub const PARITY_MASK: u16 = 0x0002;

/// Mask of the auxiliary-carry flag (bit 2). Reserved.
pub const AUX_CARRY_MASK: u16 = 0x0004;

/// Mask of the zero flag (bit 6).
pub const ZERO_MASK: u16 = 0x0040;

/// Mask of the sign flag (bit 7).
pub const SIGN_MASK: u16 = 0x0080;

/// Mask of the trap flag (bit 3). Reserved.
pub const TRAP_MASK: u16 = 0x0008;

/// Mask of the interrupt flag (bit 4). Reserved.
pub const INTERRUPT_MASK: u16 = 0x0010;

/// Mask of the direction flag (bit 5). Reserved.
pub const DIRECTION_MASK: u16 = 0x0020;

/// Mask of the overflow flag (bit 8). Reserved.
pub const OVERFLOW_MASK: u16 = 0x0100;

/// Whether the zero flag is set in `flags`.
pub open spec fn zero_flag(flags: u16) -> bool {
    flags & 0x0040 != 0
}

/// Whether the sign flag is set in `flags`.
pub open spec fn sign_flag(flags: u16) -> bool {
    flags & 0x0080 != 0
}

/// The bits of `flags` other than zero and sign.
pub open spec fn other_flags(flags: u16) -> u16 {
    flags & 0xFF3F
}

/// The flag word after an arithmetic result `v`: zero is set exactly when
/// `v` is 0, sign exactly when bit 15 of `v` is set, and the other bits are
/// those of `flags`.
pub open spec fn with_sz(flags: u16, v: u16) -> u16 {
    (flags & 0xFF3F) | (if v == 0 { 0x0040u16 } else { 0u16 }) | (if v >= 0x8000 { 0x0080u16 } else { 0u16 })
}

/// `with_sz` drives zero and sign from the result and keeps every other bit.
pub proof fn lemma_with_sz(flags: u16, v: u16)
    ensures
        zero_flag(with_sz(flags, v)) <==> v == 0,
        sign_flag(with_sz(flags, v)) <==> v >= 0x8000,
        other_flags(with_sz(flags, v)) == other_flags(flags),
{
    let z: u16 = if v == 0 { 0x0040u16 } else { 0u16 };
    let s: u16 = if v >= 0x8000 { 0x0080u16 } else { 0u16 };
    let r: u16 = (flags & 0xFF3F) | z | s;
    assert(r == with_sz(flags, v));
    assert((r & 0x0040 != 0) <==> z != 0) by (bit_vector)
        requires
            r == (flags & 0xFF3F) | z | s,
            z == 0x0040u16 || z == 0u16,
            s == 0x0080u16 || s == 0u16,
    ;
    assert((r & 0x0080 != 0) <==> s != 0) by (bit_vector)
        requires
            r == (flags & 0xFF3F) | z | s,
            z == 0x0040u16 || z == 0u16,
            s == 0x0080u16 || s == 0u16,
    ;
    assert(r & 0xFF3F == flags & 0xFF3F) by (bit_vector)
        requires
            r == (flags & 0xFF3F) | z | s,
            z == 0x0040u16 || z == 0u16,
            s == 0x0080u16 || s == 0u16,
    ;
}

} // verus!
