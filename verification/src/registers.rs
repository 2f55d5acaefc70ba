//! The register file.

use vstd::prelude::*;

verus! {

/// Initial value of the stack pointer: near the top of memory, with a few
/// bytes of headroom above it.
pub const STACK_START: u16 = 0xFFF0;

/// Eight general and pointer registers, the instruction pointer and the flag
/// word, each 16 bits wide.
#[derive(Clone, Copy, Debug, PartialEq, Eq, Structural)]
pub struct Registers {
    pub ax: u16,
    pub bx: u16,
    pub cx: u16,
    pub dx: u16,
    pub si: u16,
    pub di: u16,
    pub sp: u16,
    pub bp: u16,
    pub ip: u16,
    /// Flag word, see [`crate::flags`].
    pub flags: u16,
}

impl Registers {
    /// The register file with every register 0.
    pub open spec fn zeroed() -> Registers {
        Registers { ax: 0, bx: 0, cx: 0, dx: 0, si: 0, di: 0, sp: 0, bp: 0, ip: 0, flags: 0 }
    }

    /// The register file of a machine at reset: every register 0 but the
    /// stack pointer, which is `STACK_START`.
    pub open spec fn at_reset() -> Registers {
        Registers { sp: 0xFFF0, ..Registers::zeroed() }
    }
}

impl Default for Registers {
    fn default() -> (r: Registers)
        ensures
            r == Registers::zeroed(),
    {
        Registers { ax: 0, bx: 0, cx: 0, dx: 0, si: 0, di: 0, sp: 0, bp: 0, ip: 0, flags: 0 }
    }
}

} // verus!
