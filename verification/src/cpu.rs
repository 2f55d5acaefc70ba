//! The executable processor.

use vstd::prelude::*;
use crate::diagnostic::UnknownOpcode;
use crate::flags::{lemma_with_sz, other_flags, sign_flag, zero_flag, SIGN_MASK, ZERO_MASK};
use crate::model::{Machine, MEM_SIZE};
use crate::registers::{Registers, STACK_START};

verus! {

/// What [`X86Cpu::run`] records of one step.
#[derive(Clone, Copy, Debug)]
pub struct StepRecord {
    /// The register file after the step.
    pub regs: Registers,
    /// What the step reported.
    pub report: Option<UnknownOpcode>,
}

/// A processor: its register file, its memory and the halted flag. The
/// processor owns all three; they are read through the getters and changed
/// only by its operations.
pub struct X86Cpu {
    regs: Registers,
    memory: Box<[u8; MEM_SIZE]>,
    halted: bool,
}

impl View for X86Cpu {
    type V = Machine;

    closed spec fn view(&self) -> Machine {
        Machine { regs: self.regs, mem: self.memory@, halted: self.halted }
    }
}

impl X86Cpu {
    /// Every processor has the full 64 KiB of memory.
    pub proof fn lemma_wf(&self)
        ensures
            self@.wf(),
    {
    }

    /// A processor at reset: memory all zero, running, every register 0 but
    /// the stack pointer, which is `STACK_START`.
    pub fn new() -> (cpu: X86Cpu)
        ensures
            cpu@ == Machine::reset(),
    {
        let mut regs = Registers::default();
        regs.sp = STACK_START;
        X86Cpu::with_registers(regs)
    }

    /// A processor at reset, but with the given register file.
    pub fn with_registers(regs: Registers) -> (cpu: X86Cpu)
        ensures
            cpu@ == Machine::with_registers(regs),
    {
        let cpu = X86Cpu { regs, memory: Box::new([0u8; MEM_SIZE]), halted: false };
        assert(cpu@.mem =~= Machine::with_registers(regs).mem);
        cpu
    }

    /// The register file.
    pub fn regs(&self) -> (r: Registers)
        ensures
            r == self@.regs,
    {
        self.regs
    }

    /// Whether the processor has halted.
    pub fn halted(&self) -> (r: bool)
        ensures
            r == self@.halted,
    {
        self.halted
    }

    /// The byte at `addr`.
    pub fn read_u8(&self, addr: u16) -> (r: u8)
        ensures
            r == self@.byte_at(addr),
    {
        self.memory[addr as usize]
    }

    /// Reads the byte at the instruction pointer and moves the pointer on by
    /// 1, modulo 65536.
    pub fn fetch_u8(&mut self) -> (r: u8)
        ensures
            r == old(self)@.fetched_u8(),
            final(self)@ == old(self)@.after_fetch_u8(),
    {
        let val: u8 = self.memory[self.regs.ip as usize];
        self.regs.ip = self.regs.ip.wrapping_add(1);
        val
    }

    /// Reads two bytes at the instruction pointer, the low byte first, and
    /// moves the pointer on by 2, modulo 65536.
    pub fn fetch_u16(&mut self) -> (r: u16)
        ensures
            r == old(self)@.fetched_u16(),
            final(self)@ == old(self)@.after_fetch_u16(),
    {
        let low: u16 = self.fetch_u8() as u16;
        let high: u16 = self.fetch_u8() as u16;
        assert((high << 8) | low == low + 256 * high) by (bit_vector)
            requires
                low < 256,
                high < 256,
        ;
        (high << 8) | low
    }

    /// Stores `value` at `addr`.
    pub fn write_u8(&mut self, addr: u16, value: u8)
        ensures
            final(self)@ == old(self)@.with_byte(addr, value),
    {
        self.memory[addr as usize] = value;
    }

    /// Moves the stack pointer down by 2, modulo 65536, and stores `val`
    /// there, the low byte first. The stack pointer may wrap: nothing checks
    /// for a full stack.
    pub fn push(&mut self, val: u16)
        ensures
            final(self)@ == old(self)@.pushed(val),
    {
        self.regs.sp = self.regs.sp.wrapping_sub(2);
        let addr: u16 = self.regs.sp;
        assert(val & 0xFF == val % 256 && val >> 8 == val / 256) by (bit_vector);
        self.memory[addr as usize] = (val & 0xFF) as u8;
        self.memory[addr.wrapping_add(1) as usize] = (val >> 8) as u8;
    }

    /// Reads the 16-bit value at the stack pointer, the low byte first, and
    /// moves the stack pointer up by 2, modulo 65536. The stack pointer may
    /// wrap: nothing checks for an empty stack. A halted processor pops like
    /// a running one.
    pub fn pop(&mut self) -> (r: u16)
        ensures
            r == old(self)@.popped(),
            final(self)@ == old(self)@.after_pop(),
    {
        let addr: u16 = self.regs.sp;
        let low: u16 = self.memory[addr as usize] as u16;
        let high: u16 = self.memory[addr.wrapping_add(1) as usize] as u16;
        assert((high << 8) | low == low + 256 * high) by (bit_vector)
            requires
                low < 256,
                high < 256,
        ;
        self.regs.sp = self.regs.sp.wrapping_add(2);
        (high << 8) | low
    }

    /// Drives the zero and sign flags from `val`: zero is set exactly when
    /// `val` is 0, sign exactly when `val` is 0x8000 or more. Every other bit
    /// of the flag word stays.
    pub fn set_sz(&mut self, val: u16)
        ensures
            final(self)@ == old(self)@.with_sz(val),
            zero_flag(final(self)@.regs.flags) <==> val == 0,
            sign_flag(final(self)@.regs.flags) <==> val >= 0x8000,
            other_flags(final(self)@.regs.flags) == other_flags(old(self)@.regs.flags),
    {
        let before: u16 = self.regs.flags;
        if val == 0 {
            self.regs.flags = self.regs.flags | ZERO_MASK;
        } else {
            self.regs.flags = self.regs.flags & !ZERO_MASK;
        }
        if val & 0x8000 != 0 {
            self.regs.flags = self.regs.flags | SIGN_MASK;
        } else {
            self.regs.flags = self.regs.flags & !SIGN_MASK;
        }
        proof {
            assert((val & 0x8000 != 0) <==> val >= 0x8000) by (bit_vector);
            assert(((before | 0x0040) | 0x0080) == (before & 0xFF3F) | 0x0040u16 | 0x0080u16)
                by (bit_vector);
            assert(((before | 0x0040) & !0x0080u16) == (before & 0xFF3F) | 0x0040u16 | 0u16)
                by (bit_vector);
            assert(((before & !0x0040u16) | 0x0080) == (before & 0xFF3F) | 0u16 | 0x0080u16)
                by (bit_vector);
            assert(((before & !0x0040u16) & !0x0080u16) == (before & 0xFF3F) | 0u16 | 0u16)
                by (bit_vector);
            lemma_with_sz(before, val);
        }
    }

    /// Executes one instruction, or does nothing where the processor has
    /// halted. A byte that begins no instruction halts the processor and is
    /// reported with the address that it was fetched from.
    pub fn step(&mut self) -> (report: Option<UnknownOpcode>)
        ensures
            final(self)@ == old(self)@.step(),
            report == old(self)@.step_report(),
    {
        if self.halted {
            return None;
        }
        let at: u16 = self.regs.ip;
        let opcode: u8 = self.fetch_u8();
        if opcode == 0xB8 {
            self.regs.ax = self.fetch_u16();
        } else if opcode == 0xBB {
            self.regs.bx = self.fetch_u16();
        } else if opcode == 0xB9 {
            self.regs.cx = self.fetch_u16();
        } else if opcode == 0x40 {
            self.regs.ax = self.regs.ax.wrapping_add(1);
            self.set_sz(self.regs.ax);
        } else if opcode == 0x48 {
            self.regs.ax = self.regs.ax.wrapping_sub(1);
            self.set_sz(self.regs.ax);
        } else if opcode == 0x49 {
            self.regs.cx = self.regs.cx.wrapping_sub(1);
            self.set_sz(self.regs.cx);
        } else if opcode == 0x50 {
            let v: u16 = self.regs.ax;
            self.push(v);
        } else if opcode == 0x58 {
            self.regs.ax = self.pop();
        } else if opcode == 0xF7 {
            let selector: u8 = self.fetch_u8();
            if selector == 0xE1 {
                let a: u32 = self.regs.ax as u32;
                let c: u32 = self.regs.cx as u32;
                assert(a * c <= 0xFFFF * 0xFFFF) by (nonlinear_arith)
                    requires
                        a <= 0xFFFF,
                        c <= 0xFFFF,
                ;
                let product: u32 = a * c;
                self.regs.ax = (product % 0x10000) as u16;
                self.regs.dx = (product / 0x10000) as u16;
            }
        } else if opcode == 0x81 {
            let selector: u8 = self.fetch_u8();
            if selector == 0xF9 {
                let imm: u16 = self.fetch_u16();
                let diff: u16 = self.regs.cx.wrapping_sub(imm);
                self.set_sz(diff);
            }
        } else if opcode == 0x75 {
            let offset: u8 = self.fetch_u8();
            if self.regs.flags & ZERO_MASK == 0 {
                if offset < 128 {
                    self.regs.ip = self.regs.ip.wrapping_add(offset as u16);
                } else {
                    self.regs.ip = self.regs.ip.wrapping_sub(256 - offset as u16);
                }
            }
        } else if opcode == 0xF4 {
            self.halted = true;
        } else {
            self.halted = true;
            return Some(UnknownOpcode { opcode, addr: at });
        }
        None
    }

    /// Writes `bytes` into memory from `addr` upwards, where they fit below
    /// the end of memory; otherwise leaves the processor as it is and returns
    /// `false`.
    pub fn load(&mut self, addr: u16, bytes: &[u8]) -> (fits: bool)
        ensures
            fits == (addr + bytes@.len() <= MEM_SIZE),
            fits ==> final(self)@ == old(self)@.loaded(addr, bytes@),
            !fits ==> final(self)@ == old(self)@,
    {
        let n: usize = bytes.len();
        let base: usize = addr as usize;
        if n > MEM_SIZE - base {
            return false;
        }
        let mut i: usize = 0;
        while i < n
            invariant
                i <= n,
                n == bytes@.len(),
                base == addr,
                base + n <= MEM_SIZE,
                self.regs == old(self).regs,
                self.halted == old(self).halted,
                forall|j: int|
                    0 <= j < MEM_SIZE ==> #[trigger] self.memory@[j] == (if base <= j < base + i {
                        bytes@[j - base]
                    } else {
                        old(self).memory@[j]
                    }),
            decreases n - i,
        {
            self.memory[base + i] = bytes[i];
            i += 1;
        }
        assert(self@.mem =~= old(self)@.loaded(addr, bytes@).mem);
        true
    }

    /// Steps until the processor has halted or `max_steps` steps were made,
    /// whichever comes first, and returns one record for each step made.
    pub fn run(&mut self, max_steps: usize) -> (trace: Vec<StepRecord>)
        ensures
            trace@.len() <= max_steps,
            final(self)@ == old(self)@.steps(trace@.len()),
            final(self)@.halted || trace@.len() == max_steps,
            forall|i: int|
                0 <= i < trace@.len() ==> {
                    &&& !(#[trigger] old(self)@.steps(i as nat)).halted
                    &&& trace@[i].regs == old(self)@.steps(i as nat).step().regs
                    &&& trace@[i].report == old(self)@.steps(i as nat).step_report()
                },
    {
        let mut trace: Vec<StepRecord> = Vec::new();
        while !self.halted && trace.len() < max_steps
            invariant
                trace@.len() <= max_steps,
                self@ == old(self)@.steps(trace@.len()),
                forall|i: int|
                    0 <= i < trace@.len() ==> {
                        &&& !(#[trigger] old(self)@.steps(i as nat)).halted
                        &&& trace@[i].regs == old(self)@.steps(i as nat).step().regs
                        &&& trace@[i].report == old(self)@.steps(i as nat).step_report()
                    },
            decreases max_steps - trace@.len(),
        {
            let report = self.step();
            trace.push(StepRecord { regs: self.regs, report });
        }
        trace
    }
}

} // verus!
