//! The processor: registers, memory, decoder and execution engine.
//!
//! A [`CPU`] owns its [`Registers`] and its [`MemoryBus`]. [`CPU::step`]
//! fetches the opcode at the program counter, decodes it, executes it and
//! moves the program counter on; [`CPU::frame_step`] steps until the cycles
//! of one frame have gone by. What an instruction does is described in
//! [`semantics`] as a function on [`Machine`], the state of the processor as
//! a mathematical value, and [`laws`] holds what follows from it.
//!
//! An opcode without an instruction cannot be stepped over: `fetch` and
//! `Instruction::from_byte` tell beforehand whether the opcode at the
//! program counter has one.

pub mod alu;
pub mod execute;
pub mod instruction_cycle_table;
pub mod instructions;
pub mod laws;
pub mod machine;
pub mod registers;
pub mod semantics;

pub use self::instruction_cycle_table::get_cycle_count;
pub use self::instructions::ArithmeticTarget;
pub use self::instructions::ArithmeticTarget16;
pub use self::instructions::ControlCondition;
pub use self::instructions::Instruction;
pub use self::instructions::JumpAddr;
pub use self::instructions::LoadByteDestination;
pub use self::instructions::LoadByteSource;
pub use self::instructions::LoadType;
pub use self::instructions::LoadWordDestination;
pub use self::instructions::LoadWordSource;
pub use self::instructions::RstValue;
pub use self::machine::Machine;
pub use self::registers::FlagsRegister;
pub use self::registers::Registers;

use self::machine::{backward, forward};
use self::laws::{lemma_extra_cycles_bound, lemma_fetched_supported};
use self::semantics::{
    after_frame, fetched, fetched_opcode, fetched_prefix, frame_budget, frame_completes,
    frame_run, step_cycles, stepped, PREFIX,
};
use vstd::prelude::*;

verus! {

/// The memory: one byte for each 16-bit address, 0x0000 to 0xFFFF.
pub struct MemoryBus {
    pub memory: [u8; 0x10000],
}

impl View for MemoryBus {
    type V = Seq<u8>;

    open spec fn view(&self) -> Seq<u8> {
        self.memory@
    }
}

impl MemoryBus {
    /// Reads the byte at an address.
    pub fn read_byte(&self, address: u16) -> (value: u8)
        ensures
            value == self@[address as int],
    {
        self.memory[address as usize]
    }

    /// Writes a byte at an address. No address is protected.
    pub fn write_byte(&mut self, address: u16, value: u8)
        ensures
            final(self)@ == old(self)@.update(address as int, value),
    {
        self.memory[address as usize] = value;
    }
}

/// The processor with its registers and its memory.
pub struct CPU {
    /// The clock frequency in Hz.
    pub frequency: u64,
    /// The length of a frame in microseconds.
    pub frame_delay: u64,
    pub reg: Registers,
    pub bus: MemoryBus,
    /// The program counter: the address of the next instruction.
    pub pc: u16,
    /// The stack pointer: the address of the top of the stack, which grows
    /// downward.
    pub sp: u16,
    pub interrupt_enable: bool,
    /// Set by HALT. While it is set the processor executes nothing.
    pub is_halted: bool,
    /// Set by STOP. While it is set the processor executes nothing.
    pub is_stopped: bool,
}

impl View for CPU {
    type V = Machine;

    open spec fn view(&self) -> Machine {
        Machine {
            frequency: self.frequency,
            frame_delay: self.frame_delay,
            reg: self.reg,
            memory: self.bus@,
            pc: self.pc,
            sp: self.sp,
            interrupt_enable: self.interrupt_enable,
            is_halted: self.is_halted,
            is_stopped: self.is_stopped,
        }
    }
}

impl CPU {
    /// The state at power-on.
    pub open spec fn reset_state() -> Machine {
        Machine {
            frequency: 4194304,
            frame_delay: 16750,
            reg: Registers {
                a: 0,
                b: 0,
                c: 0,
                d: 0,
                e: 0,
                f: FlagsRegister { zero: false, subtract: false, half_carry: false, carry: false },
                h: 0,
                l: 0,
            },
            memory: Seq::new(0x10000, |i: int| 0u8),
            pc: 0,
            sp: 0xFFFF,
            interrupt_enable: true,
            is_halted: true,
            is_stopped: true,
        }
    }

    /// A processor at power-on: registers and memory zeroed, the stack
    /// pointer at the top of memory, interrupts enabled. It starts halted
    /// and stopped: clear `is_halted` and `is_stopped` to let it run.
    pub fn new() -> (cpu: CPU)
        ensures
            cpu@ == Self::reset_state(),
    {
        let cpu = CPU {
            frequency: 4194304,
            frame_delay: 16750,
            reg: Registers {
                a: 0,
                b: 0,
                c: 0,
                d: 0,
                e: 0,
                f: FlagsRegister { zero: false, subtract: false, half_carry: false, carry: false },
                h: 0,
                l: 0,
            },
            bus: MemoryBus { memory: [0; 0x10000] },
            pc: 0,
            sp: 0xFFFF,
            interrupt_enable: true,
            is_halted: true,
            is_stopped: true,
        };
        assert(cpu@.memory =~= Self::reset_state().memory);
        cpu
    }

    /// The state is well formed whatever the processor holds.
    pub proof fn lemma_view_wf(&self)
        ensures
            self@.wf(),
    {
    }

    /// Pushes a byte: the stack pointer goes down by one, wrapping below
    /// zero, and the byte is written where it then points.
    pub fn push(&mut self, value: u8)
        ensures
            final(self)@ == old(self)@.pushed(value),
    {
        self.sp = backward(self.sp, 1);
        self.bus.write_byte(self.sp, value);
    }

    /// Pops the byte that the stack pointer points at; the stack pointer
    /// goes up by one, wrapping above 0xFFFF.
    pub fn pop(&mut self) -> (value: u8)
        ensures
            value == old(self)@.top(),
            final(self)@ == old(self)@.popped(),
    {
        let value = self.bus.read_byte(self.sp);
        self.sp = forward(self.sp, 1);
        value
    }

    /// Reads the opcode at the program counter and says whether the prefix
    /// came before it. After the prefix the opcode is the next byte.
    pub fn fetch(&self) -> (opcode: (u8, bool))
        ensures
            opcode.0 == fetched_opcode(self@),
            opcode.1 == fetched_prefix(self@),
    {
        let instruction_byte = self.bus.read_byte(self.pc);
        if instruction_byte == PREFIX {
            (self.bus.read_byte(forward(self.pc, 1)), true)
        } else {
            (instruction_byte, false)
        }
    }

    /// Reads and executes the instruction at the program counter, moves the
    /// program counter on, and returns the cycles taken: the table's count
    /// for the opcode plus the penalty of a branch taken. The opcode at the
    /// program counter must have an instruction.
    pub fn step(&mut self) -> (cycles: u8)
        requires
            fetched(old(self)@).is_some(),
        ensures
            final(self)@ == stepped(old(self)@),
            cycles == step_cycles(old(self)@),
    {
        let (instruction_byte, prefixed) = self.fetch();
        let (next_pc, extra_cycles) = match Instruction::from_byte(instruction_byte, prefixed) {
            Some(instruction) => {
                proof {
                    lemma_fetched_supported(self@);
                    lemma_extra_cycles_bound(self@, instruction);
                }
                self.execute(instruction)
            },
            None => vstd::pervasive::unreached(),
        };
        self.pc = next_pc;
        extra_cycles + get_cycle_count(instruction_byte, prefixed)
    }

    /// Executes instructions until the cycles of one frame have gone by:
    /// `frequency * frame_delay / 1_000_000` of them. The run must come to
    /// that count without meeting an opcode that has no instruction.
    pub fn frame_step(&mut self)
        requires
            old(self).frequency * old(self).frame_delay <= u64::MAX,
            frame_completes(old(self)@),
        ensures
            final(self)@ == after_frame(old(self)@),
    {
        let cycles_per_frame = (self.frequency * self.frame_delay) / 1000 / 1000;
        let mut current_frame_cycles: u64 = 0;
        let ghost budget = frame_budget(self@);
        let ghost fuel = choose|fuel: nat| frame_run(self@, 0, budget, fuel).is_some();
        let ghost mut remaining = fuel;

        while current_frame_cycles < cycles_per_frame
            invariant
                cycles_per_frame == budget,
                budget <= u64::MAX / 1_000_000,
                current_frame_cycles < budget + 0x100,
                frame_run(self@, current_frame_cycles as int, budget, remaining).is_some(),
                frame_run(self@, current_frame_cycles as int, budget, remaining) == frame_run(
                    old(self)@,
                    0,
                    budget,
                    fuel,
                ),
            decreases remaining,
        {
            let cycles = self.step();
            current_frame_cycles += cycles as u64;
            proof {
                remaining = (remaining - 1) as nat;
            }
        }
    }
}

} // verus!
