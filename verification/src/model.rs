//! The mathematical model of the machine.
//!
//! A [`Machine`] is a register file, a memory of 65536 bytes and the halted
//! flag. The functions here say what each operation of the processor does to
//! such a value; the executable processor is proved to follow them.

use vstd::prelude::*;
use crate::diagnostic::UnknownOpcode;
use crate::flags::{with_sz, zero_flag};
use crate::registers::Registers;

verus! {

/// The number of bytes of memory: one for each 16-bit address.
pub const MEM_SIZE: usize = 0x10000;

/// `i` reduced to the 16-bit range.
pub open spec fn wrap16(i: int) -> u16 {
    (i % 0x10000) as u16
}

/// The 16-bit value whose low byte is `low` and whose high byte is `high`.
pub open spec fn word_of(low: u8, high: u8) -> u16 {
    (low + 256 * high) as u16
}

/// The low byte of `v`.
pub open spec fn low_byte(v: u16) -> u8 {
    (v % 256) as u8
}

/// The high byte of `v`.
pub open spec fn high_byte(v: u16) -> u8 {
    (v / 256) as u8
}

/// The byte `b` read as a signed 8-bit number.
pub open spec fn signed8(b: u8) -> int {
    if b < 128 {
        b as int
    } else {
        b - 256
    }
}

/// Whether `op` is the first byte of an instruction that the processor
/// implements.
pub open spec fn is_known_opcode(op: u8) -> bool {
    op == 0xB8 || op == 0xBB || op == 0xB9 || op == 0x40 || op == 0x48 || op == 0x49 || op == 0x50
        || op == 0x58 || op == 0xF7 || op == 0x81 || op == 0x75 || op == 0xF4
}

/// The state of the machine.
pub struct Machine {
    pub regs: Registers,
    pub mem: Seq<u8>,
    pub halted: bool,
}

impl Machine {
    /// Memory has one byte for each 16-bit address.
    pub open spec fn wf(self) -> bool {
        self.mem.len() == 0x10000
    }

    /// The machine at reset with the given register file: memory all zero,
    /// running.
    pub open spec fn with_registers(regs: Registers) -> Machine {
        Machine { regs, mem: Seq::new(0x10000, |i: int| 0u8), halted: false }
    }

    /// The machine at reset.
    pub open spec fn reset() -> Machine {
        Machine::with_registers(Registers::at_reset())
    }

    /// The byte at `addr`.
    pub open spec fn byte_at(self, addr: u16) -> u8 {
        self.mem[addr as int]
    }

    /// The little-endian 16-bit value at `addr`: low byte at `addr`, high byte
    /// at the address after it, which is 0 after 0xFFFF.
    pub open spec fn word_at(self, addr: u16) -> u16 {
        word_of(self.byte_at(addr), self.byte_at(wrap16(addr + 1)))
    }

    /// This machine with `value` stored at `addr`.
    pub open spec fn with_byte(self, addr: u16, value: u8) -> Machine {
        Machine { mem: self.mem.update(addr as int, value), ..self }
    }

    /// This machine with `bytes` written from `addr` upwards.
    pub open spec fn loaded(self, addr: u16, bytes: Seq<u8>) -> Machine
        recommends
            addr + bytes.len() <= 0x10000,
    {
        Machine {
            mem: Seq::new(
                self.mem.len(),
                |i: int|
                    if addr <= i < addr + bytes.len() {
                        bytes[i - addr]
                    } else {
                        self.mem[i]
                    },
            ),
            ..self
        }
    }

    /// This machine with the instruction pointer moved by `delta`, modulo
    /// 65536.
    pub open spec fn advanced(self, delta: int) -> Machine {
        Machine { regs: Registers { ip: wrap16(self.regs.ip + delta), ..self.regs }, ..self }
    }

    /// The byte that the next fetch returns.
    pub open spec fn fetched_u8(self) -> u8 {
        self.byte_at(self.regs.ip)
    }

    /// The machine after a fetch of one byte.
    pub open spec fn after_fetch_u8(self) -> Machine {
        self.advanced(1)
    }

    /// The value that the next fetch of two bytes returns.
    pub open spec fn fetched_u16(self) -> u16 {
        self.word_at(self.regs.ip)
    }

    /// The machine after a fetch of two bytes.
    pub open spec fn after_fetch_u16(self) -> Machine {
        self.advanced(2)
    }

    /// The machine after a push of `v`: the stack pointer goes down by 2,
    /// modulo 65536, and `v` is stored there, little-endian.
    pub open spec fn pushed(self, v: u16) -> Machine {
        let sp = wrap16(self.regs.sp - 2);
        Machine { regs: Registers { sp, ..self.regs }, ..self }.with_byte(sp, low_byte(v)).with_byte(
            wrap16(sp + 1),
            high_byte(v),
        )
    }

    /// The value that a pop returns: the little-endian value at the stack
    /// pointer.
    pub open spec fn popped(self) -> u16 {
        self.word_at(self.regs.sp)
    }

    /// The machine after a pop: the stack pointer goes up by 2, modulo 65536.
    pub open spec fn after_pop(self) -> Machine {
        Machine { regs: Registers { sp: wrap16(self.regs.sp + 2), ..self.regs }, ..self }
    }

    /// This machine with the zero and sign flags driven by `v`.
    pub open spec fn with_sz(self, v: u16) -> Machine {
        Machine { regs: Registers { flags: with_sz(self.regs.flags, v), ..self.regs }, ..self }
    }

    /// This machine with `ax` set to `v`.
    pub open spec fn with_ax(self, v: u16) -> Machine {
        Machine { regs: Registers { ax: v, ..self.regs }, ..self }
    }

    /// This machine with `bx` set to `v`.
    pub open spec fn with_bx(self, v: u16) -> Machine {
        Machine { regs: Registers { bx: v, ..self.regs }, ..self }
    }

    /// This machine with `cx` set to `v`.
    pub open spec fn with_cx(self, v: u16) -> Machine {
        Machine { regs: Registers { cx: v, ..self.regs }, ..self }
    }

    /// This machine, halted.
    pub open spec fn stopped(self) -> Machine {
        Machine { halted: true, ..self }
    }

    /// The machine after the unsigned multiply: the 32-bit product of `ax`
    /// and `cx` goes to `dx:ax`. Flags stay.
    pub open spec fn multiplied(self) -> Machine {
        let product = self.regs.ax * self.regs.cx;
        Machine {
            regs: Registers {
                ax: (product % 0x10000) as u16,
                dx: (product / 0x10000) as u16,
                ..self.regs
            },
            ..self
        }
    }

    /// The machine after the conditional jump whose operand is `offset`,
    /// already fetched: where the zero flag is clear, the instruction pointer
    /// moves by `offset` read as a signed byte; where it is set, nothing
    /// changes.
    pub open spec fn jumped_if_not_zero(self, offset: u8) -> Machine {
        if zero_flag(self.regs.flags) {
            self
        } else {
            self.advanced(signed8(offset))
        }
    }

    /// The machine after the instruction whose opcode byte `op` has been
    /// fetched already.
    ///
    /// The two opcodes that take a selector byte implement one selector each.
    /// With any other selector they do nothing beyond consuming the selector.
    /// For 0x81 this means that the two bytes of the immediate are not
    /// consumed then, and the machine goes on to read them as instructions:
    /// a known quirk of this processor, kept as it is.
    pub open spec fn executed(self, op: u8) -> Machine {
        if op == 0xB8 {
            self.after_fetch_u16().with_ax(self.fetched_u16())
        } else if op == 0xBB {
            self.after_fetch_u16().with_bx(self.fetched_u16())
        } else if op == 0xB9 {
            self.after_fetch_u16().with_cx(self.fetched_u16())
        } else if op == 0x40 {
            let v = wrap16(self.regs.ax + 1);
            self.with_ax(v).with_sz(v)
        } else if op == 0x48 {
            let v = wrap16(self.regs.ax - 1);
            self.with_ax(v).with_sz(v)
        } else if op == 0x49 {
            let v = wrap16(self.regs.cx - 1);
            self.with_cx(v).with_sz(v)
        } else if op == 0x50 {
            self.pushed(self.regs.ax)
        } else if op == 0x58 {
            self.after_pop().with_ax(self.popped())
        } else if op == 0xF7 {
            if self.fetched_u8() == 0xE1 {
                self.after_fetch_u8().multiplied()
            } else {
                self.after_fetch_u8()
            }
        } else if op == 0x81 {
            if self.fetched_u8() == 0xF9 {
                let m = self.after_fetch_u8();
                m.after_fetch_u16().with_sz(wrap16(m.regs.cx - m.fetched_u16()))
            } else {
                self.after_fetch_u8()
            }
        } else if op == 0x75 {
            self.after_fetch_u8().jumped_if_not_zero(self.fetched_u8())
        } else {
            self.stopped()
        }
    }

    /// The machine after one step: a halted machine stays as it is; a running
    /// one fetches an opcode and executes it.
    pub open spec fn step(self) -> Machine {
        if self.halted {
            self
        } else {
            self.after_fetch_u8().executed(self.fetched_u8())
        }
    }

    /// What one step reports: the opcode and its address where a running
    /// machine fetches a byte that begins no instruction, nothing otherwise.
    pub open spec fn step_report(self) -> Option<UnknownOpcode> {
        if !self.halted && !is_known_opcode(self.fetched_u8()) {
            Some(UnknownOpcode { opcode: self.fetched_u8(), addr: self.regs.ip })
        } else {
            None
        }
    }

    /// The machine after `n` steps.
    pub open spec fn steps(self, n: nat) -> Machine
        decreases n,
    {
        if n == 0 {
            self
        } else {
            self.steps((n - 1) as nat).step()
        }
    }
}

} // verus!
