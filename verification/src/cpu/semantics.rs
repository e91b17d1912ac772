//! What each instruction does to the machine.

use crate::cpu::alu::{
    adc_flags, adc_value, add16_flags, add16_value, add_flags, add_value, ccf_flags, cpl_flags,
    cpl_value, daa_flags, daa_value, dec_flags, dec_value, inc_flags, inc_value, logic_flags,
    sbc_flags, sbc_value, scf_flags, sub_flags, sub_value,
};
use crate::cpu::instruction_cycle_table::cycle_count;
use crate::cpu::instructions::{
    ArithmeticTarget, ArithmeticTarget16, ControlCondition, Instruction, JumpAddr,
    LoadByteDestination, LoadByteSource, LoadType, LoadWordDestination, LoadWordSource, RstValue,
};
use crate::cpu::machine::{offset, sign_extended, signed, Machine};
use crate::cpu::registers::{high_byte, low_byte, word, FlagsRegister, Registers};
use vstd::prelude::*;

verus! {

/// The opcode that escapes to the prefixed opcode space.
pub const PREFIX: u8 = 0xCB;

/// The extra cycles of a jump that is taken.
pub const JUMP_PENALTY: u8 = 4;

/// The extra cycles of a call or a return that is taken.
pub const CALL_PENALTY: u8 = 12;

/// The start of the high page that `A8` and `CA8` address.
pub const HIGH_PAGE: u16 = 0xFF00;

/// What an instruction leaves behind: the new state, in which the program
/// counter still points at the instruction; where execution goes on; and
/// the cycles that a taken branch costs beyond the table's count.
pub struct Effect {
    pub state: Machine,
    pub next_pc: u16,
    pub extra_cycles: u8,
}

/// An effect with no branch penalty that goes on `length` bytes after the
/// instruction.
pub open spec fn falls_through(state: Machine, length: int) -> Effect {
    Effect { state, next_pc: offset(state.pc, length), extra_cycles: 0 }
}

/// The address in the high page at a given offset.
pub open spec fn high_page(low: u8) -> u16 {
    (HIGH_PAGE + low) as u16
}

/// The operand of an 8-bit arithmetic instruction.
pub open spec fn operand(s: Machine, target: ArithmeticTarget) -> u8 {
    match target {
        ArithmeticTarget::B => s.reg.b,
        ArithmeticTarget::C => s.reg.c,
        ArithmeticTarget::D => s.reg.d,
        ArithmeticTarget::E => s.reg.e,
        ArithmeticTarget::H => s.reg.h,
        ArithmeticTarget::L => s.reg.l,
        ArithmeticTarget::HL => s.load(s.reg.hl()),
        ArithmeticTarget::A => s.reg.a,
        ArithmeticTarget::IMM8 => s.imm8(),
    }
}

/// The length in bytes of an 8-bit arithmetic instruction.
pub open spec fn operand_length(target: ArithmeticTarget) -> int {
    if target == ArithmeticTarget::IMM8 {
        2
    } else {
        1
    }
}

/// The state in which the place that an increment or decrement names
/// holds `value`. An immediate byte is no such place.
pub open spec fn with_operand(s: Machine, target: ArithmeticTarget, value: u8) -> Machine {
    match target {
        ArithmeticTarget::B => s.with_reg(Registers { b: value, ..s.reg }),
        ArithmeticTarget::C => s.with_reg(Registers { c: value, ..s.reg }),
        ArithmeticTarget::D => s.with_reg(Registers { d: value, ..s.reg }),
        ArithmeticTarget::E => s.with_reg(Registers { e: value, ..s.reg }),
        ArithmeticTarget::H => s.with_reg(Registers { h: value, ..s.reg }),
        ArithmeticTarget::L => s.with_reg(Registers { l: value, ..s.reg }),
        ArithmeticTarget::HL => s.stored(s.reg.hl(), value),
        ArithmeticTarget::A => s.with_reg(Registers { a: value, ..s.reg }),
        ArithmeticTarget::IMM8 => s,
    }
}

/// The value of a register pair or of the stack pointer.
pub open spec fn pair_value(s: Machine, target: ArithmeticTarget16) -> u16 {
    match target {
        ArithmeticTarget16::BC => s.reg.bc(),
        ArithmeticTarget16::DE => s.reg.de(),
        ArithmeticTarget16::HL => s.reg.hl(),
        ArithmeticTarget16::SP => s.sp,
        ArithmeticTarget16::SPIMM => s.sp,
    }
}

/// The state in which a register pair or the stack pointer holds `value`.
pub open spec fn with_pair(s: Machine, target: ArithmeticTarget16, value: u16) -> Machine {
    match target {
        ArithmeticTarget16::BC => s.with_reg(s.reg.with_bc(value)),
        ArithmeticTarget16::DE => s.with_reg(s.reg.with_de(value)),
        ArithmeticTarget16::HL => s.with_reg(s.reg.with_hl(value)),
        ArithmeticTarget16::SP => s.with_sp(value),
        ArithmeticTarget16::SPIMM => s.with_sp(value),
    }
}

/// The byte that a byte load reads.
pub open spec fn byte_source(s: Machine, source: LoadByteSource) -> u8 {
    match source {
        LoadByteSource::A => s.reg.a,
        LoadByteSource::B => s.reg.b,
        LoadByteSource::C => s.reg.c,
        LoadByteSource::D => s.reg.d,
        LoadByteSource::E => s.reg.e,
        LoadByteSource::H => s.reg.h,
        LoadByteSource::L => s.reg.l,
        LoadByteSource::HLI => s.load(s.reg.hl()),
        LoadByteSource::HLD => s.load(s.reg.hl()),
        LoadByteSource::BC => s.load(s.reg.bc()),
        LoadByteSource::DE => s.load(s.reg.de()),
        LoadByteSource::HL => s.load(s.reg.hl()),
        LoadByteSource::A8 => s.load(high_page(s.imm8())),
        LoadByteSource::CA8 => s.load(high_page(s.reg.c)),
        LoadByteSource::A16 => s.load(s.imm16()),
        LoadByteSource::IMM8 => s.imm8(),
    }
}

/// The state after a byte load has read its source: `HLI` and `HLD` move
/// `HL` up or down by one.
pub open spec fn after_byte_source(s: Machine, source: LoadByteSource) -> Machine {
    match source {
        LoadByteSource::HLI => s.with_reg(s.reg.with_hl(offset(s.reg.hl(), 1))),
        LoadByteSource::HLD => s.with_reg(s.reg.with_hl(offset(s.reg.hl(), -1))),
        _ => s,
    }
}

/// The state after a byte load has stored `value`: `HLI` and `HLD` store
/// at `HL` and then move the pair.
pub open spec fn byte_stored(s: Machine, destination: LoadByteDestination, value: u8) -> Machine {
    match destination {
        LoadByteDestination::A => s.with_reg(Registers { a: value, ..s.reg }),
        LoadByteDestination::B => s.with_reg(Registers { b: value, ..s.reg }),
        LoadByteDestination::C => s.with_reg(Registers { c: value, ..s.reg }),
        LoadByteDestination::D => s.with_reg(Registers { d: value, ..s.reg }),
        LoadByteDestination::E => s.with_reg(Registers { e: value, ..s.reg }),
        LoadByteDestination::H => s.with_reg(Registers { h: value, ..s.reg }),
        LoadByteDestination::L => s.with_reg(Registers { l: value, ..s.reg }),
        LoadByteDestination::HLI => s.stored(s.reg.hl(), value).with_reg(
            s.reg.with_hl(offset(s.reg.hl(), 1)),
        ),
        LoadByteDestination::HLD => s.stored(s.reg.hl(), value).with_reg(
            s.reg.with_hl(offset(s.reg.hl(), -1)),
        ),
        LoadByteDestination::BC => s.stored(s.reg.bc(), value),
        LoadByteDestination::DE => s.stored(s.reg.de(), value),
        LoadByteDestination::HL => s.stored(s.reg.hl(), value),
        LoadByteDestination::A8 => s.stored(high_page(s.imm8()), value),
        LoadByteDestination::CA8 => s.stored(high_page(s.reg.c), value),
        LoadByteDestination::A16 => s.stored(s.imm16(), value),
    }
}

/// The length in bytes of a byte load: one more for an immediate byte or
/// an offset into the high page, two more for an immediate address.
pub open spec fn byte_load_length(
    destination: LoadByteDestination,
    source: LoadByteSource,
) -> int {
    if source == LoadByteSource::A8 || source == LoadByteSource::IMM8 || destination
        == LoadByteDestination::A8 {
        2
    } else if source == LoadByteSource::A16 || destination == LoadByteDestination::A16 {
        3
    } else {
        1
    }
}

/// The word that a word load reads. `POP` takes the byte on top of the
/// stack as the high byte and the one above it as the low byte. `SPIMM` is
/// the stack pointer plus the sign-extended immediate byte.
pub open spec fn word_source(s: Machine, source: LoadWordSource) -> u16 {
    match source {
        LoadWordSource::BC => s.reg.bc(),
        LoadWordSource::DE => s.reg.de(),
        LoadWordSource::HL => s.reg.hl(),
        LoadWordSource::SP => s.sp,
        LoadWordSource::POP => word(s.top(), s.popped().top()),
        LoadWordSource::AF => s.reg.af(),
        LoadWordSource::IMM16 => s.imm16(),
        LoadWordSource::SPIMM => add16_value(s.sp, sign_extended(s.imm8())),
    }
}

/// The state after a word load has read its source: `POP` moves the stack
/// pointer up by two; `SPIMM` sets the flags of its 16-bit addition and
/// then clears the zero flag.
pub open spec fn after_word_source(s: Machine, source: LoadWordSource) -> Machine {
    match source {
        LoadWordSource::POP => s.popped().popped(),
        LoadWordSource::SPIMM => s.with_flags(
            FlagsRegister {
                zero: false,
                ..add16_flags(s.reg.f, s.sp, sign_extended(s.imm8()))
            },
        ),
        _ => s,
    }
}

/// The state after a word load has stored `value`. `PUSH` pushes the high
/// byte first. `A16` stores the low byte at the immediate address and the
/// high byte at the address after it.
pub open spec fn word_stored(s: Machine, destination: LoadWordDestination, value: u16) -> Machine {
    match destination {
        LoadWordDestination::BC => s.with_reg(s.reg.with_bc(value)),
        LoadWordDestination::DE => s.with_reg(s.reg.with_de(value)),
        LoadWordDestination::HL => s.with_reg(s.reg.with_hl(value)),
        LoadWordDestination::SP => s.with_sp(value),
        LoadWordDestination::PUSH => s.pushed_word(value),
        LoadWordDestination::AF => s.with_reg(s.reg.with_af(value)),
        LoadWordDestination::A16 => s.stored(s.imm16(), low_byte(value)).stored(
            offset(s.imm16(), 1),
            high_byte(value),
        ),
    }
}

/// The length in bytes of a word load.
pub open spec fn word_load_length(
    destination: LoadWordDestination,
    source: LoadWordSource,
) -> int {
    if source == LoadWordSource::IMM16 || destination == LoadWordDestination::A16 {
        3
    } else if source == LoadWordSource::SPIMM {
        2
    } else {
        1
    }
}

/// Whether a condition holds of the flags.
pub open spec fn condition_holds(f: FlagsRegister, condition: ControlCondition) -> bool {
    match condition {
        ControlCondition::NZ => !f.zero,
        ControlCondition::NC => !f.carry,
        ControlCondition::Z => f.zero,
        ControlCondition::C => f.carry,
        ControlCondition::NONE => true,
        ControlCondition::NONEEI => true,
    }
}

/// The address of a restart vector.
pub open spec fn restart_vector(value: RstValue) -> u16 {
    match value {
        RstValue::H00 => 0x00,
        RstValue::H10 => 0x10,
        RstValue::H20 => 0x20,
        RstValue::H30 => 0x30,
        RstValue::H08 => 0x08,
        RstValue::H18 => 0x18,
        RstValue::H28 => 0x28,
        RstValue::H38 => 0x38,
    }
}

/// The length in bytes of a jump.
pub open spec fn jump_length(address: JumpAddr) -> int {
    match address {
        JumpAddr::IMM16 => 3,
        JumpAddr::HL => 1,
        JumpAddr::REL => 2,
    }
}

/// Where a jump goes when it is taken. A relative jump counts its signed
/// displacement from the address of the jump itself.
pub open spec fn jump_target(s: Machine, address: JumpAddr) -> u16 {
    match address {
        JumpAddr::IMM16 => s.imm16(),
        JumpAddr::HL => s.reg.hl(),
        JumpAddr::REL => offset(s.pc, signed(s.imm8())),
    }
}

/// The instructions that the engine executes. An increment or decrement
/// has no immediate operand, a 16-bit increment or decrement no `SPIMM`,
/// and a call or jump no `NONEEI`.
pub open spec fn supported(instruction: Instruction) -> bool {
    match instruction {
        Instruction::INC(target) => target != ArithmeticTarget::IMM8,
        Instruction::DEC(target) => target != ArithmeticTarget::IMM8,
        Instruction::INC16(target) => target != ArithmeticTarget16::SPIMM,
        Instruction::DEC16(target) => target != ArithmeticTarget16::SPIMM,
        Instruction::CALL(condition) => condition != ControlCondition::NONEEI,
        Instruction::JP(condition, _) => condition != ControlCondition::NONEEI,
        _ => true,
    }
}

/// The effect of an 8-bit arithmetic instruction that leaves `value` in
/// the accumulator and sets `flags`.
pub open spec fn accumulated(
    s: Machine,
    target: ArithmeticTarget,
    value: u8,
    flags: FlagsRegister,
) -> Effect {
    falls_through(s.with_flags(flags).with_a(value), operand_length(target))
}

/// The effect of a load.
pub open spec fn loaded(s: Machine, load_type: LoadType) -> Effect {
    match load_type {
        LoadType::Byte(destination, source) => Effect {
            state: byte_stored(after_byte_source(s, source), destination, byte_source(s, source)),
            next_pc: offset(s.pc, byte_load_length(destination, source)),
            extra_cycles: 0,
        },
        LoadType::Word(destination, source) => Effect {
            state: word_stored(after_word_source(s, source), destination, word_source(s, source)),
            next_pc: offset(s.pc, word_load_length(destination, source)),
            extra_cycles: 0,
        },
    }
}

/// The effect of a call. A call that is taken pushes the address of the
/// instruction after it, high byte first, and then reads its target.
pub open spec fn called(s: Machine, condition: ControlCondition) -> Effect {
    if condition_holds(s.reg.f, condition) {
        let state = s.pushed_word(offset(s.pc, 3));
        Effect { state, next_pc: state.imm16(), extra_cycles: CALL_PENALTY }
    } else {
        falls_through(s, 3)
    }
}

/// The effect of a return. A return that is taken pops the low byte of its
/// target, then the high byte. The condition `NONEEI` enables interrupts.
pub open spec fn returned(s: Machine, condition: ControlCondition) -> Effect {
    let s = if condition == ControlCondition::NONEEI {
        Machine { interrupt_enable: true, ..s }
    } else {
        s
    };
    if condition_holds(s.reg.f, condition) {
        Effect {
            state: s.popped().popped(),
            next_pc: word(s.popped().top(), s.top()),
            extra_cycles: CALL_PENALTY,
        }
    } else {
        falls_through(s, 1)
    }
}

/// The effect of a restart: the address of the instruction itself is
/// pushed, high byte first.
pub open spec fn restarted(s: Machine, value: RstValue) -> Effect {
    Effect { state: s.pushed_word(s.pc), next_pc: restart_vector(value), extra_cycles: 0 }
}

/// The effect of a jump.
pub open spec fn jumped(s: Machine, condition: ControlCondition, address: JumpAddr) -> Effect {
    if condition_holds(s.reg.f, condition) {
        Effect { state: s, next_pc: jump_target(s, address), extra_cycles: JUMP_PENALTY }
    } else {
        falls_through(s, jump_length(address))
    }
}

/// The effect of a 16-bit addition. A pair is added to `HL` and sets the
/// flags. `SPIMM` adds the sign-extended immediate byte to the stack
/// pointer and leaves the flags alone.
pub open spec fn added16(s: Machine, target: ArithmeticTarget16) -> Effect {
    if target == ArithmeticTarget16::SPIMM {
        falls_through(s.with_sp(offset(s.sp, signed(s.imm8()))), 2)
    } else {
        let v = pair_value(s, target);
        let t = s.with_flags(add16_flags(s.reg.f, s.reg.hl(), v));
        falls_through(t.with_reg(t.reg.with_hl(add16_value(s.reg.hl(), v))), 1)
    }
}

/// The length in bytes of an instruction: the opcode and its immediate
/// operands.
pub open spec fn length(instruction: Instruction) -> int {
    match instruction {
        Instruction::ADD(t)
        | Instruction::SUB(t)
        | Instruction::AND(t)
        | Instruction::OR(t)
        | Instruction::ADC(t)
        | Instruction::SBC(t)
        | Instruction::XOR(t)
        | Instruction::CP(t) => operand_length(t),
        Instruction::ADD16(t) => if t == ArithmeticTarget16::SPIMM {
            2
        } else {
            1
        },
        Instruction::LD(LoadType::Byte(destination, source)) => byte_load_length(
            destination,
            source,
        ),
        Instruction::LD(LoadType::Word(destination, source)) => word_load_length(
            destination,
            source,
        ),
        Instruction::CALL(_) => 3,
        Instruction::JP(_, address) => jump_length(address),
        _ => 1,
    }
}

/// Whether an instruction sends a running machine somewhere else than to
/// the instruction after it: a restart, or a call, return or jump whose
/// condition holds.
pub open spec fn redirects(s: Machine, instruction: Instruction) -> bool {
    match instruction {
        Instruction::CALL(condition) => condition_holds(s.reg.f, condition),
        Instruction::RET(condition) => condition_holds(s.reg.f, condition),
        Instruction::JP(condition, _) => condition_holds(s.reg.f, condition),
        Instruction::RST(_) => true,
        _ => false,
    }
}

/// The effect of an instruction on a machine that runs. Of an instruction
/// that is not `supported` this says nothing that the engine is held to.
pub open spec fn performed(s: Machine, instruction: Instruction) -> Effect {
    let a = s.reg.a;
    let f = s.reg.f;
    match instruction {
        Instruction::ADD(t) => accumulated(
            s,
            t,
            add_value(a, operand(s, t)),
            add_flags(a, operand(s, t)),
        ),
        Instruction::SUB(t) => accumulated(
            s,
            t,
            sub_value(a, operand(s, t)),
            sub_flags(a, operand(s, t)),
        ),
        Instruction::AND(t) => accumulated(
            s,
            t,
            a & operand(s, t),
            logic_flags(a & operand(s, t), true),
        ),
        Instruction::OR(t) => accumulated(
            s,
            t,
            a | operand(s, t),
            logic_flags(a | operand(s, t), false),
        ),
        Instruction::ADC(t) => accumulated(
            s,
            t,
            adc_value(a, operand(s, t), f.carry),
            adc_flags(a, operand(s, t), f.carry),
        ),
        Instruction::SBC(t) => accumulated(
            s,
            t,
            sbc_value(a, operand(s, t), f.carry),
            sbc_flags(a, operand(s, t), f.carry),
        ),
        Instruction::XOR(t) => accumulated(
            s,
            t,
            a ^ operand(s, t),
            logic_flags(a ^ operand(s, t), false),
        ),
        Instruction::CP(t) => falls_through(
            s.with_flags(sub_flags(a, operand(s, t))),
            operand_length(t),
        ),
        Instruction::INC(t) => falls_through(
            with_operand(s.with_flags(inc_flags(f, operand(s, t))), t, inc_value(operand(s, t))),
            1,
        ),
        Instruction::DEC(t) => falls_through(
            with_operand(s.with_flags(dec_flags(f, operand(s, t))), t, dec_value(operand(s, t))),
            1,
        ),
        Instruction::INC16(t) => falls_through(with_pair(s, t, offset(pair_value(s, t), 1)), 1),
        Instruction::DEC16(t) => falls_through(with_pair(s, t, offset(pair_value(s, t), -1)), 1),
        Instruction::ADD16(t) => added16(s, t),
        Instruction::LD(load_type) => loaded(s, load_type),
        Instruction::CALL(condition) => called(s, condition),
        Instruction::RET(condition) => returned(s, condition),
        Instruction::RST(value) => restarted(s, value),
        Instruction::JP(condition, address) => jumped(s, condition, address),
        Instruction::NOP => falls_through(s, 1),
        Instruction::STOP => falls_through(Machine { is_stopped: true, ..s }, 1),
        Instruction::HALT => falls_through(Machine { is_halted: true, ..s }, 1),
        Instruction::DI => falls_through(Machine { interrupt_enable: false, ..s }, 1),
        Instruction::EI => falls_through(Machine { interrupt_enable: true, ..s }, 1),
        Instruction::DAA => falls_through(s.with_a(daa_value(f, a)).with_flags(daa_flags(f, a)), 1),
        Instruction::CPL => falls_through(s.with_a(cpl_value(a)).with_flags(cpl_flags(f)), 1),
        Instruction::CCF => falls_through(s.with_flags(ccf_flags(f)), 1),
        Instruction::SCF => falls_through(s.with_flags(scf_flags(f)), 1),
    }
}

/// The effect of an instruction. A machine that is halted or stopped
/// executes nothing: its state stays, and so does its program counter.
pub open spec fn executed(s: Machine, instruction: Instruction) -> Effect {
    if s.running() {
        performed(s, instruction)
    } else {
        Effect { state: s, next_pc: s.pc, extra_cycles: 0 }
    }
}

/// Whether the byte at the program counter is the prefix.
pub open spec fn fetched_prefix(s: Machine) -> bool {
    s.load(s.pc) == PREFIX
}

/// The opcode at the program counter: the byte there, or the byte after
/// it where the byte there is the prefix.
pub open spec fn fetched_opcode(s: Machine) -> u8 {
    if fetched_prefix(s) {
        s.imm8()
    } else {
        s.load(s.pc)
    }
}

/// The instruction at the program counter, if the opcode there has one.
pub open spec fn fetched(s: Machine) -> Option<Instruction> {
    Instruction::decoded(fetched_opcode(s), fetched_prefix(s))
}

/// The state after one step: the instruction at the program counter is
/// executed and the program counter moves to where execution goes on.
pub open spec fn stepped(s: Machine) -> Machine
    recommends
        fetched(s).is_some(),
{
    let effect = executed(s, fetched(s).unwrap());
    effect.state.with_pc(effect.next_pc)
}

/// The cycles that one step takes: the table's count for the opcode plus
/// the penalty of a branch taken.
pub open spec fn step_cycles(s: Machine) -> int
    recommends
        fetched(s).is_some(),
{
    executed(s, fetched(s).unwrap()).extra_cycles + cycle_count(
        fetched_opcode(s),
        fetched_prefix(s),
    )
}

/// The cycles of one frame: the clock frequency in Hz times the length of
/// a frame in microseconds, over a million.
pub open spec fn frame_budget(s: Machine) -> int {
    (s.frequency * s.frame_delay) / 1_000_000
}

/// The state in which a run of at most `fuel` steps ends that started
/// after `elapsed` cycles of a frame of `budget` cycles. The run ends when
/// the cycles that have gone by reach the budget. `None` where the run
/// meets an opcode without an instruction, or needs more steps.
pub open spec fn frame_run(s: Machine, elapsed: int, budget: int, fuel: nat) -> Option<Machine>
    decreases fuel,
{
    if elapsed >= budget {
        Some(s)
    } else if fuel == 0 || fetched(s).is_none() {
        None
    } else {
        frame_run(stepped(s), elapsed + step_cycles(s), budget, (fuel - 1) as nat)
    }
}

/// Whether the frame that starts in `s` comes to its end.
pub open spec fn frame_completes(s: Machine) -> bool {
    exists|fuel: nat| frame_run(s, 0, frame_budget(s), fuel).is_some()
}

/// The state at the end of the frame that starts in `s`.
pub open spec fn after_frame(s: Machine) -> Machine
    recommends
        frame_completes(s),
{
    frame_run(
        s,
        0,
        frame_budget(s),
        choose|fuel: nat| frame_run(s, 0, frame_budget(s), fuel).is_some(),
    ).unwrap()
}

} // verus!
