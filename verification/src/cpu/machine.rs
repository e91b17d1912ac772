//! The machine as a mathematical value, and the elementary steps on it.

use crate::cpu::registers::{high_byte, low_byte, word, FlagsRegister, Registers};
use vstd::prelude::*;

verus! {

/// The number of addresses: every 16-bit address names one byte.
pub const MEMORY_SIZE: usize = 0x10000;

/// The address `d` bytes away from `address`, wrapping at 16 bits.
pub open spec fn offset(address: u16, d: int) -> u16 {
    ((address as int + d) % 0x10000) as u16
}

/// The value of a byte read as a two's complement number.
pub open spec fn signed(byte: u8) -> int {
    if byte < 0x80 {
        byte as int
    } else {
        byte as int - 0x100
    }
}

/// A byte read as a two's complement number and widened to 16 bits.
pub open spec fn sign_extended(byte: u8) -> u16 {
    if byte < 0x80 {
        byte as u16
    } else {
        (byte as int + 0xFF00) as u16
    }
}

/// The address `n` bytes above `address`, wrapping above 0xFFFF.
pub fn forward(address: u16, n: u16) -> (next: u16)
    ensures
        next == offset(address, n as int),
{
    address.wrapping_add(n)
}

/// The address `n` bytes below `address`, wrapping below zero.
pub fn backward(address: u16, n: u16) -> (previous: u16)
    ensures
        previous == offset(address, -(n as int)),
{
    address.wrapping_sub(n)
}

/// Widens a byte read as a two's complement number to 16 bits.
pub fn sign_extend(byte: u8) -> (w: u16)
    ensures
        w == sign_extended(byte),
{
    if byte < 0x80 {
        byte as u16
    } else {
        byte as u16 + 0xFF00
    }
}

/// The address that lies a signed displacement away from `address`,
/// wrapping at 16 bits.
pub fn displaced(address: u16, displacement: u8) -> (target: u16)
    ensures
        target == offset(address, signed(displacement)),
{
    address.wrapping_add(sign_extend(displacement))
}

/// The state of the machine: what `CPU` holds, with the memory as a
/// sequence of `MEMORY_SIZE` bytes.
pub struct Machine {
    pub frequency: u64,
    pub frame_delay: u64,
    pub reg: Registers,
    pub memory: Seq<u8>,
    pub pc: u16,
    pub sp: u16,
    pub interrupt_enable: bool,
    pub is_halted: bool,
    pub is_stopped: bool,
}

impl Machine {
    /// Every address has a byte.
    pub open spec fn wf(self) -> bool {
        self.memory.len() == MEMORY_SIZE
    }

    /// Whether the machine executes instructions.
    pub open spec fn running(self) -> bool {
        !self.is_halted && !self.is_stopped
    }

    /// The byte at an address.
    pub open spec fn load(self, address: u16) -> u8 {
        self.memory[address as int]
    }

    /// The byte after the opcode.
    pub open spec fn imm8(self) -> u8 {
        self.load(offset(self.pc, 1))
    }

    /// The two bytes after the opcode as a word, low byte first.
    pub open spec fn imm16(self) -> u16 {
        word(self.load(offset(self.pc, 2)), self.load(offset(self.pc, 1)))
    }

    /// This state with one byte of memory replaced.
    pub open spec fn stored(self, address: u16, value: u8) -> Machine {
        Machine { memory: self.memory.update(address as int, value), ..self }
    }

    /// This state with other registers.
    pub open spec fn with_reg(self, reg: Registers) -> Machine {
        Machine { reg, ..self }
    }

    /// This state with other flags.
    pub open spec fn with_flags(self, f: FlagsRegister) -> Machine {
        Machine { reg: Registers { f, ..self.reg }, ..self }
    }

    /// This state with another accumulator.
    pub open spec fn with_a(self, a: u8) -> Machine {
        Machine { reg: Registers { a, ..self.reg }, ..self }
    }

    /// This state with another stack pointer.
    pub open spec fn with_sp(self, sp: u16) -> Machine {
        Machine { sp, ..self }
    }

    /// This state with another program counter.
    pub open spec fn with_pc(self, pc: u16) -> Machine {
        Machine { pc, ..self }
    }

    /// The state after a push: the stack pointer goes down by one, then the
    /// byte is written where it points.
    pub open spec fn pushed(self, value: u8) -> Machine {
        self.stored(offset(self.sp, -1), value).with_sp(offset(self.sp, -1))
    }

    /// The byte that a pop returns: the one the stack pointer points at.
    pub open spec fn top(self) -> u8 {
        self.load(self.sp)
    }

    /// The state after a pop: the stack pointer goes up by one.
    pub open spec fn popped(self) -> Machine {
        self.with_sp(offset(self.sp, 1))
    }

    /// The state after a word was pushed, high byte first.
    pub open spec fn pushed_word(self, w: u16) -> Machine {
        self.pushed(high_byte(w)).pushed(low_byte(w))
    }

    /// The state after the bytes of `bytes` were pushed, first to last.
    pub open spec fn pushed_all(self, bytes: Seq<u8>) -> Machine
        decreases bytes.len(),
    {
        if bytes.len() == 0 {
            self
        } else {
            self.pushed_all(bytes.drop_last()).pushed(bytes.last())
        }
    }

    /// The state after `n` pops.
    pub open spec fn popped_times(self, n: nat) -> Machine
        decreases n,
    {
        if n == 0 {
            self
        } else {
            self.popped().popped_times((n - 1) as nat)
        }
    }

    /// The bytes that `n` pops return, first to last.
    pub open spec fn popped_bytes(self, n: nat) -> Seq<u8>
        decreases n,
    {
        if n == 0 {
            Seq::empty()
        } else {
            seq![self.top()] + self.popped().popped_bytes((n - 1) as nat)
        }
    }
}

} // verus!
