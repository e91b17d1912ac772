//! The execution engine.

use crate::cpu::alu::lemma_complement;
use crate::cpu::instructions::{
    ArithmeticTarget, ArithmeticTarget16, ControlCondition, Instruction, JumpAddr,
    LoadByteDestination, LoadByteSource, LoadType, LoadWordDestination, LoadWordSource, RstValue,
};
use crate::cpu::machine::{backward, displaced, forward, offset, sign_extend};
use crate::cpu::registers::{join_bytes, split_word};
use crate::cpu::semantics::{
    added16, after_byte_source, after_word_source, byte_load_length, byte_source, byte_stored,
    called, condition_holds, executed, jumped, loaded, operand, operand_length, pair_value,
    performed, restarted, returned, supported, with_operand, with_pair, word_load_length,
    word_source, word_stored, CALL_PENALTY, HIGH_PAGE, JUMP_PENALTY,
};
use crate::cpu::CPU;
use vstd::pervasive::unreached;
use vstd::prelude::*;

verus! {

impl CPU {
    /// Reads the byte after the opcode.
    fn read_imm8(&self) -> (value: u8)
        ensures
            value == self@.imm8(),
    {
        self.bus.read_byte(forward(self.pc, 1))
    }

    /// Reads the two bytes after the opcode as a word, low byte first.
    fn read_imm16(&self) -> (value: u16)
        ensures
            value == self@.imm16(),
    {
        let low = self.bus.read_byte(forward(self.pc, 1));
        let high = self.bus.read_byte(forward(self.pc, 2));
        join_bytes(high, low)
    }

    /// Reads the operand of an 8-bit arithmetic instruction.
    fn read_operand(&self, target: ArithmeticTarget) -> (value: u8)
        ensures
            value == operand(self@, target),
    {
        match target {
            ArithmeticTarget::B => self.reg.b,
            ArithmeticTarget::C => self.reg.c,
            ArithmeticTarget::D => self.reg.d,
            ArithmeticTarget::E => self.reg.e,
            ArithmeticTarget::H => self.reg.h,
            ArithmeticTarget::L => self.reg.l,
            ArithmeticTarget::HL => self.bus.read_byte(self.reg.get_hl()),
            ArithmeticTarget::A => self.reg.a,
            ArithmeticTarget::IMM8 => self.read_imm8(),
        }
    }

    /// Writes the result of an increment or decrement where its operand
    /// came from.
    fn write_operand(&mut self, target: ArithmeticTarget, value: u8)
        requires
            target != ArithmeticTarget::IMM8,
        ensures
            final(self)@ == with_operand(old(self)@, target, value),
    {
        match target {
            ArithmeticTarget::B => self.reg.b = value,
            ArithmeticTarget::C => self.reg.c = value,
            ArithmeticTarget::D => self.reg.d = value,
            ArithmeticTarget::E => self.reg.e = value,
            ArithmeticTarget::H => self.reg.h = value,
            ArithmeticTarget::L => self.reg.l = value,
            ArithmeticTarget::HL => {
                let addr = self.reg.get_hl();
                self.bus.write_byte(addr, value);
            },
            ArithmeticTarget::A => self.reg.a = value,
            ArithmeticTarget::IMM8 => unreached(),
        }
    }

    /// The address after an 8-bit arithmetic instruction.
    fn after_operand(&self, target: ArithmeticTarget) -> (next_pc: u16)
        ensures
            next_pc == offset(self.pc, operand_length(target)),
    {
        match target {
            ArithmeticTarget::IMM8 => forward(self.pc, 2),
            _ => forward(self.pc, 1),
        }
    }

    /// Tests the condition of a jump, call or return.
    fn test_condition(&self, condition: ControlCondition) -> (holds: bool)
        ensures
            holds == condition_holds(self.reg.f, condition),
    {
        match condition {
            ControlCondition::NZ => !self.reg.f.zero,
            ControlCondition::NC => !self.reg.f.carry,
            ControlCondition::Z => self.reg.f.zero,
            ControlCondition::C => self.reg.f.carry,
            ControlCondition::NONE => true,
            ControlCondition::NONEEI => true,
        }
    }

    /// Pushes a word, high byte first.
    fn push_word(&mut self, value: u16)
        ensures
            final(self)@ == old(self)@.pushed_word(value),
    {
        let (high, low) = split_word(value);
        self.push(high);
        self.push(low);
    }

    /// Reads the source of a byte load; `HLI` and `HLD` then move `HL`.
    fn read_byte_source(&mut self, source: LoadByteSource) -> (value: u8)
        ensures
            value == byte_source(old(self)@, source),
            final(self)@ == after_byte_source(old(self)@, source),
    {
        match source {
            LoadByteSource::A => self.reg.a,
            LoadByteSource::B => self.reg.b,
            LoadByteSource::C => self.reg.c,
            LoadByteSource::D => self.reg.d,
            LoadByteSource::E => self.reg.e,
            LoadByteSource::H => self.reg.h,
            LoadByteSource::L => self.reg.l,
            LoadByteSource::HLI => {
                let hl = self.reg.get_hl();
                let s = self.bus.read_byte(hl);
                self.reg.set_hl(forward(hl, 1));
                s
            },
            LoadByteSource::HLD => {
                let hl = self.reg.get_hl();
                let s = self.bus.read_byte(hl);
                self.reg.set_hl(backward(hl, 1));
                s
            },
            LoadByteSource::BC => self.bus.read_byte(self.reg.get_bc()),
            LoadByteSource::DE => self.bus.read_byte(self.reg.get_de()),
            LoadByteSource::HL => self.bus.read_byte(self.reg.get_hl()),
            LoadByteSource::A8 => self.bus.read_byte(HIGH_PAGE + self.read_imm8() as u16),
            LoadByteSource::CA8 => self.bus.read_byte(HIGH_PAGE + self.reg.c as u16),
            LoadByteSource::A16 => {
                let addr = self.read_imm16();
                self.bus.read_byte(addr)
            },
            LoadByteSource::IMM8 => self.read_imm8(),
        }
    }

    /// Stores the byte of a byte load; `HLI` and `HLD` then move `HL`.
    fn write_byte_destination(&mut self, dest: LoadByteDestination, value: u8)
        ensures
            final(self)@ == byte_stored(old(self)@, dest, value),
    {
        match dest {
            LoadByteDestination::A => self.reg.a = value,
            LoadByteDestination::B => self.reg.b = value,
            LoadByteDestination::C => self.reg.c = value,
            LoadByteDestination::D => self.reg.d = value,
            LoadByteDestination::E => self.reg.e = value,
            LoadByteDestination::H => self.reg.h = value,
            LoadByteDestination::L => self.reg.l = value,
            LoadByteDestination::HLI => {
                let hl = self.reg.get_hl();
                self.bus.write_byte(hl, value);
                self.reg.set_hl(forward(hl, 1));
            },
            LoadByteDestination::HLD => {
                let hl = self.reg.get_hl();
                self.bus.write_byte(hl, value);
                self.reg.set_hl(backward(hl, 1));
            },
            LoadByteDestination::BC => self.bus.write_byte(self.reg.get_bc(), value),
            LoadByteDestination::DE => self.bus.write_byte(self.reg.get_de(), value),
            LoadByteDestination::HL => self.bus.write_byte(self.reg.get_hl(), value),
            LoadByteDestination::A8 => {
                let addr = HIGH_PAGE + self.read_imm8() as u16;
                self.bus.write_byte(addr, value)
            },
            LoadByteDestination::CA8 => {
                let addr = HIGH_PAGE + self.reg.c as u16;
                self.bus.write_byte(addr, value)
            },
            LoadByteDestination::A16 => {
                let addr = self.read_imm16();
                self.bus.write_byte(addr, value)
            },
        }
    }

    /// The address after a byte load.
    fn after_byte_load(&self, dest: LoadByteDestination, source: LoadByteSource) -> (next_pc: u16)
        ensures
            next_pc == offset(self.pc, byte_load_length(dest, source)),
    {
        match (dest, source) {
            (_, LoadByteSource::A8) | (_, LoadByteSource::IMM8) | (LoadByteDestination::A8, _) => {
                forward(self.pc, 2)
            },
            (_, LoadByteSource::A16) | (LoadByteDestination::A16, _) => forward(self.pc, 3),
            (_, _) => forward(self.pc, 1),
        }
    }

    /// Executes a byte load and returns the address after it.
    fn load_byte(&mut self, dest: LoadByteDestination, source: LoadByteSource) -> (next_pc: u16)
        ensures
            final(self)@ == loaded(old(self)@, LoadType::Byte(dest, source)).state,
            next_pc == loaded(old(self)@, LoadType::Byte(dest, source)).next_pc,
    {
        let source_value = self.read_byte_source(source);
        assert(self.pc == old(self).pc);
        self.write_byte_destination(dest, source_value);
        assert(self.pc == old(self).pc);
        self.after_byte_load(dest, source)
    }

    /// Reads the source of a word load. `POP` takes the high byte first.
    fn read_word_source(&mut self, source: LoadWordSource) -> (value: u16)
        ensures
            value == word_source(old(self)@, source),
            final(self)@ == after_word_source(old(self)@, source),
    {
        match source {
            LoadWordSource::BC => self.reg.get_bc(),
            LoadWordSource::DE => self.reg.get_de(),
            LoadWordSource::HL => self.reg.get_hl(),
            LoadWordSource::SP => self.sp,
            LoadWordSource::POP => {
                let high = self.pop();
                let low = self.pop();
                join_bytes(high, low)
            },
            LoadWordSource::AF => self.reg.get_af(),
            LoadWordSource::IMM16 => self.read_imm16(),
            LoadWordSource::SPIMM => {
                let displacement = sign_extend(self.read_imm8());
                let value = self.add16(self.sp, displacement);
                self.reg.f.zero = false;
                value
            },
        }
    }

    /// Stores the word of a word load.
    fn write_word_destination(&mut self, dest: LoadWordDestination, value: u16)
        ensures
            final(self)@ == word_stored(old(self)@, dest, value),
    {
        match dest {
            LoadWordDestination::BC => self.reg.set_bc(value),
            LoadWordDestination::DE => self.reg.set_de(value),
            LoadWordDestination::HL => self.reg.set_hl(value),
            LoadWordDestination::SP => self.sp = value,
            LoadWordDestination::PUSH => self.push_word(value),
            LoadWordDestination::AF => self.reg.set_af(value),
            LoadWordDestination::A16 => {
                let addr = self.read_imm16();
                let (high, low) = split_word(value);
                self.bus.write_byte(addr, low);
                self.bus.write_byte(forward(addr, 1), high);
            },
        }
    }

    /// The address after a word load.
    fn after_word_load(&self, dest: LoadWordDestination, source: LoadWordSource) -> (next_pc: u16)
        ensures
            next_pc == offset(self.pc, word_load_length(dest, source)),
    {
        match (dest, source) {
            (_, LoadWordSource::IMM16) | (LoadWordDestination::A16, _) => forward(self.pc, 3),
            (_, LoadWordSource::SPIMM) => forward(self.pc, 2),
            (_, _) => forward(self.pc, 1),
        }
    }

    /// Executes a word load and returns the address after it.
    fn load_word(&mut self, dest: LoadWordDestination, source: LoadWordSource) -> (next_pc: u16)
        ensures
            final(self)@ == loaded(old(self)@, LoadType::Word(dest, source)).state,
            next_pc == loaded(old(self)@, LoadType::Word(dest, source)).next_pc,
    {
        let source_value = self.read_word_source(source);
        assert(self.pc == old(self).pc);
        self.write_word_destination(dest, source_value);
        assert(self.pc == old(self).pc);
        self.after_word_load(dest, source)
    }

    /// Executes a 16-bit addition and returns the address after it.
    fn add_pair(&mut self, target: ArithmeticTarget16) -> (next_pc: u16)
        ensures
            final(self)@ == added16(old(self)@, target).state,
            next_pc == added16(old(self)@, target).next_pc,
    {
        match target {
            ArithmeticTarget16::SPIMM => {
                self.sp = displaced(self.sp, self.read_imm8());
                forward(self.pc, 2)
            },
            _ => {
                let value = self.add16(self.reg.get_hl(), self.read_pair(target));
                self.reg.set_hl(value);
                forward(self.pc, 1)
            },
        }
    }

    /// Executes a call and returns where execution goes on and the penalty.
    fn call(&mut self, condition: ControlCondition) -> (next: (u16, u8))
        requires
            condition != ControlCondition::NONEEI,
        ensures
            final(self)@ == called(old(self)@, condition).state,
            next.0 == called(old(self)@, condition).next_pc,
            next.1 == called(old(self)@, condition).extra_cycles,
    {
        if self.test_condition(condition) {
            let return_pc = forward(self.pc, 3);
            self.push_word(return_pc);
            (self.read_imm16(), CALL_PENALTY)
        } else {
            (forward(self.pc, 3), 0)
        }
    }

    /// Executes a return and returns where execution goes on and the penalty.
    fn ret(&mut self, condition: ControlCondition) -> (next: (u16, u8))
        ensures
            final(self)@ == returned(old(self)@, condition).state,
            next.0 == returned(old(self)@, condition).next_pc,
            next.1 == returned(old(self)@, condition).extra_cycles,
    {
        match condition {
            ControlCondition::NONEEI => self.interrupt_enable = true,
            _ => {},
        }
        if self.test_condition(condition) {
            let low = self.pop();
            let high = self.pop();
            (join_bytes(high, low), CALL_PENALTY)
        } else {
            (forward(self.pc, 1), 0)
        }
    }

    /// Executes a restart and returns the vector.
    fn restart(&mut self, value: RstValue) -> (next_pc: u16)
        ensures
            final(self)@ == restarted(old(self)@, value).state,
            next_pc == restarted(old(self)@, value).next_pc,
    {
        let vector: u16 = match value {
            RstValue::H00 => 0x00,
            RstValue::H10 => 0x10,
            RstValue::H20 => 0x20,
            RstValue::H30 => 0x30,
            RstValue::H08 => 0x08,
            RstValue::H18 => 0x18,
            RstValue::H28 => 0x28,
            RstValue::H38 => 0x38,
        };
        self.push_word(self.pc);
        vector
    }

    /// Executes a jump and returns where execution goes on and the penalty.
    fn jump(&self, condition: ControlCondition, address: JumpAddr) -> (next: (u16, u8))
        requires
            condition != ControlCondition::NONEEI,
        ensures
            next.0 == jumped(self@, condition, address).next_pc,
            next.1 == jumped(self@, condition, address).extra_cycles,
    {
        if self.test_condition(condition) {
            let target = match address {
                JumpAddr::IMM16 => self.read_imm16(),
                JumpAddr::HL => self.reg.get_hl(),
                JumpAddr::REL => displaced(self.pc, self.read_imm8()),
            };
            (target, JUMP_PENALTY)
        } else {
            let next_pc = match address {
                JumpAddr::IMM16 => forward(self.pc, 3),
                JumpAddr::HL => forward(self.pc, 1),
                JumpAddr::REL => forward(self.pc, 2),
            };
            (next_pc, 0)
        }
    }

    /// Executes an 8-bit arithmetic instruction on the accumulator and
    /// returns the address after it.
    fn accumulate(&mut self, instruction: Instruction) -> (next_pc: u16)
        requires
            instruction is ADD || instruction is SUB || instruction is AND || instruction is OR
                || instruction is ADC || instruction is SBC || instruction is XOR
                || instruction is CP,
        ensures
            final(self)@ == performed(old(self)@, instruction).state,
            next_pc == performed(old(self)@, instruction).next_pc,
            performed(old(self)@, instruction).extra_cycles == 0,
    {
        match instruction {
            Instruction::ADD(target) => {
                let value = self.read_operand(target);
                self.reg.a = self.add(value);
                self.after_operand(target)
            },
            Instruction::SUB(target) => {
                let value = self.read_operand(target);
                self.reg.a = self.sub(value);
                self.after_operand(target)
            },
            Instruction::AND(target) => {
                let value = self.read_operand(target);
                self.reg.a = self.and(value);
                self.after_operand(target)
            },
            Instruction::OR(target) => {
                let value = self.read_operand(target);
                self.reg.a = self.or(value);
                self.after_operand(target)
            },
            Instruction::ADC(target) => {
                let value = self.read_operand(target);
                self.reg.a = self.adc(value);
                self.after_operand(target)
            },
            Instruction::SBC(target) => {
                let value = self.read_operand(target);
                self.reg.a = self.sbc(value);
                self.after_operand(target)
            },
            Instruction::XOR(target) => {
                let value = self.read_operand(target);
                self.reg.a = self.xor(value);
                self.after_operand(target)
            },
            Instruction::CP(target) => {
                // Subtract, but keep only the flags.
                let value = self.read_operand(target);
                self.sub(value);
                self.after_operand(target)
            },
            _ => unreached(),
        }
    }

    /// Executes an 8-bit increment or decrement and returns the address
    /// after it.
    fn count(&mut self, instruction: Instruction) -> (next_pc: u16)
        requires
            instruction is INC || instruction is DEC,
            supported(instruction),
        ensures
            final(self)@ == performed(old(self)@, instruction).state,
            next_pc == performed(old(self)@, instruction).next_pc,
            performed(old(self)@, instruction).extra_cycles == 0,
    {
        match instruction {
            Instruction::INC(target) => {
                let value = self.read_operand(target);
                let result = self.inc(value);
                self.write_operand(target, result);
            },
            Instruction::DEC(target) => {
                let value = self.read_operand(target);
                let result = self.dec(value);
                self.write_operand(target, result);
            },
            _ => unreached(),
        }
        forward(self.pc, 1)
    }

    /// Reads a register pair or the stack pointer.
    fn read_pair(&self, target: ArithmeticTarget16) -> (value: u16)
        ensures
            value == pair_value(self@, target),
    {
        match target {
            ArithmeticTarget16::BC => self.reg.get_bc(),
            ArithmeticTarget16::DE => self.reg.get_de(),
            ArithmeticTarget16::HL => self.reg.get_hl(),
            ArithmeticTarget16::SP => self.sp,
            ArithmeticTarget16::SPIMM => self.sp,
        }
    }

    /// Writes a register pair or the stack pointer.
    fn write_pair(&mut self, target: ArithmeticTarget16, value: u16)
        ensures
            final(self)@ == with_pair(old(self)@, target, value),
    {
        match target {
            ArithmeticTarget16::BC => self.reg.set_bc(value),
            ArithmeticTarget16::DE => self.reg.set_de(value),
            ArithmeticTarget16::HL => self.reg.set_hl(value),
            ArithmeticTarget16::SP => self.sp = value,
            ArithmeticTarget16::SPIMM => self.sp = value,
        }
    }

    /// Executes a 16-bit increment or decrement and returns the address
    /// after it.
    fn count_pair(&mut self, instruction: Instruction) -> (next_pc: u16)
        requires
            instruction is INC16 || instruction is DEC16,
            supported(instruction),
        ensures
            final(self)@ == performed(old(self)@, instruction).state,
            next_pc == performed(old(self)@, instruction).next_pc,
            performed(old(self)@, instruction).extra_cycles == 0,
    {
        match instruction {
            Instruction::INC16(target) => {
                let value = self.read_pair(target);
                self.write_pair(target, forward(value, 1));
            },
            Instruction::DEC16(target) => {
                let value = self.read_pair(target);
                self.write_pair(target, backward(value, 1));
            },
            _ => unreached(),
        }
        forward(self.pc, 1)
    }

    /// Executes an instruction without operands and returns the address
    /// after it.
    fn control(&mut self, instruction: Instruction) -> (next_pc: u16)
        requires
            instruction is NOP || instruction is STOP || instruction is HALT || instruction is DI
                || instruction is EI || instruction is DAA || instruction is CPL
                || instruction is CCF || instruction is SCF,
        ensures
            final(self)@ == performed(old(self)@, instruction).state,
            next_pc == performed(old(self)@, instruction).next_pc,
            performed(old(self)@, instruction).extra_cycles == 0,
    {
        match instruction {
            Instruction::NOP => {},
            Instruction::STOP => self.is_stopped = true,
            Instruction::HALT => self.is_halted = true,
            Instruction::DI => self.interrupt_enable = false,
            Instruction::EI => self.interrupt_enable = true,
            Instruction::DAA => self.daa(),
            Instruction::CPL => {
                // Invert A and update the flags: - 1 1 -
                proof {
                    lemma_complement(self.reg.a);
                }
                self.reg.a ^= 0xFF;
                self.reg.f.subtract = true;
                self.reg.f.half_carry = true;
            },
            Instruction::CCF => {
                // Invert the carry flag and update the flags: - 0 0 C
                self.reg.f.subtract = false;
                self.reg.f.half_carry = false;
                self.reg.f.carry = !self.reg.f.carry;
            },
            Instruction::SCF => {
                // Update the flags: - 0 0 1
                self.reg.f.subtract = false;
                self.reg.f.half_carry = false;
                self.reg.f.carry = true;
            },
            _ => unreached(),
        }
        forward(self.pc, 1)
    }

    /// Executes an instruction. Returns the address at which execution goes
    /// on and the cycles that a taken branch adds to the table's count. The
    /// program counter itself is left to the caller. A processor that is
    /// halted or stopped executes nothing.
    pub fn execute(&mut self, instruction: Instruction) -> (next: (u16, u8))
        requires
            old(self)@.running() ==> supported(instruction),
        ensures
            final(self)@ == executed(old(self)@, instruction).state,
            next.0 == executed(old(self)@, instruction).next_pc,
            next.1 == executed(old(self)@, instruction).extra_cycles,
    {
        if self.is_stopped || self.is_halted {
            return (self.pc, 0);
        }
        match instruction {
            Instruction::ADD(_)
            | Instruction::SUB(_)
            | Instruction::AND(_)
            | Instruction::OR(_)
            | Instruction::ADC(_)
            | Instruction::SBC(_)
            | Instruction::XOR(_)
            | Instruction::CP(_) => (self.accumulate(instruction), 0),
            Instruction::INC(_) | Instruction::DEC(_) => (self.count(instruction), 0),
            Instruction::INC16(_) | Instruction::DEC16(_) => (self.count_pair(instruction), 0),
            Instruction::ADD16(target) => (self.add_pair(target), 0),
            Instruction::LD(load_type) => {
                match load_type {
                    LoadType::Word(dest, source) => (self.load_word(dest, source), 0),
                    LoadType::Byte(dest, source) => (self.load_byte(dest, source), 0),
                }
            },
            Instruction::CALL(condition) => self.call(condition),
            Instruction::RET(condition) => self.ret(condition),
            Instruction::RST(hvalue) => (self.restart(hvalue), 0),
            Instruction::JP(condition, addr_type) => self.jump(condition, addr_type),
            Instruction::NOP
            | Instruction::STOP
            | Instruction::HALT
            | Instruction::DI
            | Instruction::EI
            | Instruction::DAA
            | Instruction::CPL
            | Instruction::CCF
            | Instruction::SCF => (self.control(instruction), 0),
        }
    }
}

} // verus!
