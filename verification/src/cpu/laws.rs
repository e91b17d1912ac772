//! Laws of the machine, proved of its description.

use crate::cpu::alu::{
    adc_flags, adc_value, add16_flags, add_flags, add_value, carry_in, cpl_value, dec_flags,
    dec_value, inc_flags, inc_value, lemma_complement, lemma_low_nibble, lemma_low_twelve,
    sbc_flags, sbc_value, sub_flags, sub_value,
};
use crate::cpu::instructions::{
    ArithmeticTarget, ArithmeticTarget16, ControlCondition, Instruction, LoadByteDestination,
    LoadByteSource, LoadType, LoadWordDestination, LoadWordSource,
};
use crate::cpu::machine::{offset, Machine};
use crate::cpu::registers::FlagsRegister;
use crate::cpu::semantics::{
    after_byte_source, after_frame, after_word_source, byte_source, byte_stored, condition_holds,
    executed, fetched, fetched_opcode, fetched_prefix, frame_budget, frame_completes, frame_run,
    length, loaded, operand, pair_value, performed, redirects, step_cycles, stepped, supported,
    with_operand, with_pair, word_source, word_stored, CALL_PENALTY, JUMP_PENALTY,
};
use vstd::prelude::*;

verus! {

/// The flags of an addition: zero exactly when the sum is a multiple of
/// 256, carry exactly when the sum is above 255, half-carry exactly when
/// the low nibbles add up to more than 15, and subtract never.
pub proof fn lemma_add_flags(a: u8, v: u8)
    ensures
        add_value(a, v) == (a + v) % 256,
        add_flags(a, v).zero <==> (a + v) % 256 == 0,
        add_flags(a, v).carry <==> a + v > 255,
        add_flags(a, v).half_carry <==> (a & 0xF) + (v & 0xF) > 0xF,
        !add_flags(a, v).subtract,
{
    lemma_low_nibble(a);
    lemma_low_nibble(v);
}

/// The half-carry rules in terms of bit masks: a carry out of the low
/// nibble of an addition, a borrow into it of a subtraction. The
/// complement inverts every bit.
pub proof fn lemma_half_carry_masks(f: FlagsRegister, a: u8, v: u8, carry: bool)
    ensures
        add_flags(a, v).half_carry <==> (a & 0xF) + (v & 0xF) > 0xF,
        adc_flags(a, v, carry).half_carry <==> (a & 0xF) + (v & 0xF) + carry_in(carry) > 0xF,
        sub_flags(a, v).half_carry <==> (a & 0xF) < (v & 0xF),
        sbc_flags(a, v, carry).half_carry <==> (a & 0xF) < (v & 0xF) + carry_in(carry),
        inc_flags(f, v).half_carry <==> (v & 0xF) == 0xF,
        dec_flags(f, v).half_carry <==> (v & 0xF) == 0,
        cpl_value(a) == a ^ 0xFF,
{
    lemma_low_nibble(a);
    lemma_low_nibble(v);
    lemma_complement(a);
}

/// The half-carry of a 16-bit addition is the carry out of bit 11.
pub proof fn lemma_half_carry_mask16(f: FlagsRegister, v1: u16, v2: u16)
    ensures
        add16_flags(f, v1, v2).half_carry <==> (v1 & 0xFFF) + (v2 & 0xFFF) > 0xFFF,
{
    lemma_low_twelve(v1);
    lemma_low_twelve(v2);
}

/// An addition with carry is two additions, and its carry flag is set
/// exactly when either of them overflows. A subtraction with carry is two
/// subtractions, and its carry flag is set exactly when either of them
/// underflows.
pub proof fn lemma_carry_of_two_steps(a: u8, v: u8, carry: bool)
    ensures
        adc_value(a, v, carry) == add_value(add_value(a, v), carry_in(carry) as u8),
        adc_flags(a, v, carry).carry <==> a + v > 0xFF || add_value(a, v) + carry_in(carry) > 0xFF,
        sbc_value(a, v, carry) == sub_value(sub_value(a, v), carry_in(carry) as u8),
        sbc_flags(a, v, carry).carry <==> a < v || sub_value(a, v) < carry_in(carry),
{
}

/// A value minus itself is zero, with the zero and subtract flags set and
/// no borrow of either kind.
pub proof fn lemma_sub_self(a: u8)
    ensures
        sub_value(a, a) == 0,
        sub_flags(a, a) == (FlagsRegister {
            zero: true,
            subtract: true,
            half_carry: false,
            carry: false,
        }),
{
}

/// Pushing moves the stack pointer down by the number of bytes, leaves the
/// `i`-th byte `i + 1` below where the stack pointer was, and changes
/// nothing but the memory and the stack pointer.
#[verifier::rlimit(40)]
pub proof fn lemma_pushed_all(s: Machine, bytes: Seq<u8>)
    requires
        s.wf(),
        bytes.len() <= 0x10000,
    ensures
        s.pushed_all(bytes).wf(),
        s.pushed_all(bytes).sp == offset(s.sp, -(bytes.len() as int)),
        forall|i: int|
            0 <= i < bytes.len() ==> #[trigger] s.pushed_all(bytes).load(offset(s.sp, -(i + 1)))
                == bytes[i],
        s.pushed_all(bytes) == (Machine {
            memory: s.pushed_all(bytes).memory,
            sp: s.pushed_all(bytes).sp,
            ..s
        }),
    decreases bytes.len(),
{
    if bytes.len() > 0 {
        let front = bytes.drop_last();
        lemma_pushed_all(s, front);
        let before = s.pushed_all(front);
        let after = s.pushed_all(bytes);
        assert(after == before.pushed(bytes.last()));
        assert forall|i: int| 0 <= i < bytes.len() implies #[trigger] after.load(
            offset(s.sp, -(i + 1)),
        ) == bytes[i] by {
            if i < front.len() {
                assert(before.load(offset(s.sp, -(i + 1))) == front[i]);
                assert(offset(s.sp, -(i + 1)) != offset(before.sp, -1));
            }
        }
    }
}

/// Popping moves the stack pointer up by the number of pops and returns
/// the bytes that lay above it, nearest first.
pub proof fn lemma_popped(s: Machine, n: nat)
    ensures
        s.popped_times(n).sp == offset(s.sp, n as int),
        s.popped_times(n) == s.with_sp(s.popped_times(n).sp),
        s.popped_bytes(n).len() == n,
        forall|j: int| 0 <= j < n ==> #[trigger] s.popped_bytes(n)[j] == s.load(offset(s.sp, j)),
    decreases n,
{
    if n > 0 {
        let rest = (n - 1) as nat;
        lemma_popped(s.popped(), rest);
        assert forall|j: int| 0 <= j < n implies #[trigger] s.popped_bytes(n)[j] == s.load(
            offset(s.sp, j),
        ) by {
            if j > 0 {
                assert(s.popped_bytes(n)[j] == s.popped().popped_bytes(rest)[j - 1]);
                assert(offset(s.popped().sp, j - 1) == offset(s.sp, j));
            }
        }
    }
}

/// The stack is last in, first out: as many pops as there were pushes
/// return the pushed bytes in reverse, and bring the stack pointer back to
/// where it was. The stack wraps around the address space, so this holds
/// of up to 0x10000 bytes.
#[verifier::rlimit(40)]
pub proof fn lemma_stack_discipline(s: Machine, bytes: Seq<u8>)
    requires
        s.wf(),
        bytes.len() <= 0x10000,
    ensures
        s.pushed_all(bytes).popped_bytes(bytes.len()) == bytes.reverse(),
        s.pushed_all(bytes).popped_times(bytes.len()).sp == s.sp,
{
    let n = bytes.len();
    let full = s.pushed_all(bytes);
    lemma_pushed_all(s, bytes);
    lemma_popped(full, n);
    assert forall|j: int| 0 <= j < n implies full.popped_bytes(n)[j] == bytes.reverse()[j] by {
        let i = n - 1 - j;
        assert(offset(full.sp, j) == offset(s.sp, -(i + 1)));
        assert(full.load(offset(s.sp, -(i + 1))) == bytes[i]);
    }
    assert(full.popped_bytes(n) =~= bytes.reverse());
}

/// A byte that was pushed is the byte that the next pop returns, and the
/// pop brings the stack pointer back.
pub proof fn lemma_push_pop(s: Machine, value: u8)
    requires
        s.wf(),
    ensures
        s.pushed(value).top() == value,
        s.pushed(value).popped().sp == s.sp,
{
}

/// A call that is taken, followed by a return that is taken, goes on at
/// the instruction after the call and leaves the stack pointer where it
/// was before the call.
#[verifier::rlimit(40)]
pub proof fn lemma_call_return(
    s: Machine,
    call_condition: ControlCondition,
    return_condition: ControlCondition,
)
    requires
        s.wf(),
        s.running(),
        call_condition != ControlCondition::NONEEI,
        condition_holds(s.reg.f, call_condition),
        condition_holds(s.reg.f, return_condition),
    ensures
        ({
            let call = executed(s, Instruction::CALL(call_condition));
            let ret = executed(call.state.with_pc(call.next_pc), Instruction::RET(return_condition));
            &&& call.next_pc == call.state.imm16()
            &&& ret.next_pc == offset(s.pc, 3)
            &&& ret.state.sp == s.sp
        }),
{
}

/// The decoder yields only instructions that the engine executes.
pub proof fn lemma_decoded_supported(byte: u8, prefixed: bool)
    ensures
        Instruction::decoded(byte, prefixed) matches Some(instruction) ==> supported(instruction),
{
}

/// The instruction at the program counter is one that the engine executes.
pub proof fn lemma_fetched_supported(s: Machine)
    ensures
        fetched(s) matches Some(instruction) ==> supported(instruction),
{
    lemma_decoded_supported(fetched_opcode(s), fetched_prefix(s));
}

/// A branch costs nothing, the jump penalty or the call penalty.
pub proof fn lemma_extra_cycles_bound(s: Machine, instruction: Instruction)
    ensures
        executed(s, instruction).extra_cycles == 0 || executed(s, instruction).extra_cycles
            == JUMP_PENALTY || executed(s, instruction).extra_cycles == CALL_PENALTY,
{
}

/// Execution goes on right after an instruction unless the instruction
/// redirects it, and only the branch that is taken costs extra cycles: a
/// call or a return the call penalty, a jump the jump penalty.
#[verifier::rlimit(40)]
pub proof fn lemma_next_pc(s: Machine, instruction: Instruction)
    requires
        s.running(),
    ensures
        !redirects(s, instruction) ==> executed(s, instruction).next_pc == offset(
            s.pc,
            length(instruction),
        ),
        1 <= length(instruction) <= 3,
        executed(s, instruction).extra_cycles == (if !redirects(s, instruction) {
            0
        } else if instruction is JP {
            JUMP_PENALTY
        } else if instruction is RST {
            0
        } else {
            CALL_PENALTY
        }),
{
}

/// Whether `t` is well formed and has the program counter, the clock
/// frequency and the frame length of `s`.
pub open spec fn keeps_frame(s: Machine, t: Machine) -> bool {
    &&& t.wf()
    &&& t.pc == s.pc
    &&& t.frequency == s.frequency
    &&& t.frame_delay == s.frame_delay
}

/// A byte load keeps the frame.
proof fn lemma_byte_load_keeps_frame(
    s: Machine,
    destination: LoadByteDestination,
    source: LoadByteSource,
)
    requires
        s.wf(),
    ensures
        keeps_frame(s, loaded(s, LoadType::Byte(destination, source)).state),
{
    let read = after_byte_source(s, source);
    assert(keeps_frame(s, read));
    assert(keeps_frame(read, byte_stored(read, destination, byte_source(s, source))));
}

/// A word load keeps the frame.
proof fn lemma_word_load_keeps_frame(
    s: Machine,
    destination: LoadWordDestination,
    source: LoadWordSource,
)
    requires
        s.wf(),
    ensures
        keeps_frame(s, loaded(s, LoadType::Word(destination, source)).state),
{
    let read = after_word_source(s, source);
    assert(keeps_frame(s, read));
    assert(keeps_frame(read, word_stored(read, destination, word_source(s, source))));
}

/// Writing the operand of an increment or decrement keeps the frame.
proof fn lemma_operand_keeps_frame(s: Machine, target: ArithmeticTarget, value: u8)
    requires
        s.wf(),
    ensures
        keeps_frame(s, with_operand(s, target, value)),
{
}

/// Writing a register pair or the stack pointer keeps the frame.
proof fn lemma_pair_keeps_frame(s: Machine, target: ArithmeticTarget16, value: u16)
    requires
        s.wf(),
    ensures
        keeps_frame(s, with_pair(s, target, value)),
{
}

/// A call, a return, a restart and a 16-bit addition keep the frame.
proof fn lemma_transfer_keeps_frame(s: Machine, instruction: Instruction)
    requires
        s.wf(),
        instruction is CALL || instruction is RET || instruction is RST || instruction is ADD16,
    ensures
        keeps_frame(s, performed(s, instruction).state),
{
}

/// An instruction keeps the machine well formed, and leaves its clock
/// frequency and the length of its frame as they are. The program counter
/// stays too: it is the caller of the engine that moves it.
pub proof fn lemma_executed_keeps_frame(s: Machine, instruction: Instruction)
    requires
        s.wf(),
    ensures
        keeps_frame(s, executed(s, instruction).state),
{
    if s.running() {
        let f = s.reg.f;
        match instruction {
            Instruction::LD(LoadType::Byte(destination, source)) => {
                lemma_byte_load_keeps_frame(s, destination, source);
            },
            Instruction::LD(LoadType::Word(destination, source)) => {
                lemma_word_load_keeps_frame(s, destination, source);
            },
            Instruction::INC(t) => {
                let flagged = s.with_flags(inc_flags(f, operand(s, t)));
                lemma_operand_keeps_frame(flagged, t, inc_value(operand(s, t)));
            },
            Instruction::DEC(t) => {
                let flagged = s.with_flags(dec_flags(f, operand(s, t)));
                lemma_operand_keeps_frame(flagged, t, dec_value(operand(s, t)));
            },
            Instruction::INC16(t) => {
                lemma_pair_keeps_frame(s, t, offset(pair_value(s, t), 1));
            },
            Instruction::DEC16(t) => {
                lemma_pair_keeps_frame(s, t, offset(pair_value(s, t), -1));
            },
            Instruction::CALL(_)
            | Instruction::RET(_)
            | Instruction::RST(_)
            | Instruction::ADD16(_) => {
                lemma_transfer_keeps_frame(s, instruction);
            },
            Instruction::ADD(_) => {},
            Instruction::SUB(_) => {},
            Instruction::AND(_) => {},
            Instruction::OR(_) => {},
            Instruction::ADC(_) => {},
            Instruction::SBC(_) => {},
            Instruction::XOR(_) => {},
            Instruction::CP(_) => {},
            Instruction::JP(_, _) => {},
            Instruction::NOP => {},
            Instruction::STOP => {},
            Instruction::HALT => {},
            Instruction::DI => {},
            Instruction::EI => {},
            Instruction::DAA => {},
            Instruction::CPL => {},
            Instruction::CCF => {},
            Instruction::SCF => {},
        }
    }
}

/// A step keeps the machine well formed, and leaves its clock frequency
/// and the length of its frame as they are.
pub proof fn lemma_stepped_wf(s: Machine)
    requires
        s.wf(),
        fetched(s).is_some(),
    ensures
        stepped(s).wf(),
        stepped(s).frequency == s.frequency,
        stepped(s).frame_delay == s.frame_delay,
        frame_budget(stepped(s)) == frame_budget(s),
{
    lemma_executed_keeps_frame(s, fetched(s).unwrap());
}

/// The machine halts on HALT and stops on STOP, and no instruction brings
/// it back: once halted it stays halted, once stopped it stays stopped.
#[verifier::rlimit(40)]
pub proof fn lemma_run_state(s: Machine, instruction: Instruction)
    ensures
        executed(s, instruction).state.is_halted <==> s.is_halted || (s.running() && instruction
            == Instruction::HALT),
        executed(s, instruction).state.is_stopped <==> s.is_stopped || (s.running() && instruction
            == Instruction::STOP),
{
}

/// Only the return that enables interrupts, EI and DI touch the interrupt
/// switch.
#[verifier::rlimit(40)]
pub proof fn lemma_interrupt_switch(s: Machine, instruction: Instruction)
    requires
        s.running(),
    ensures
        executed(s, instruction).state.interrupt_enable == (if instruction == Instruction::EI
            || instruction == Instruction::RET(ControlCondition::NONEEI) {
            true
        } else if instruction == Instruction::DI {
            false
        } else {
            s.interrupt_enable
        }),
{
}

/// A machine that is halted or stopped stays as it is, program counter
/// included, whatever instruction it is given.
pub proof fn lemma_idle_executes_nothing(s: Machine, instruction: Instruction)
    requires
        !s.running(),
    ensures
        executed(s, instruction).state == s,
        executed(s, instruction).next_pc == s.pc,
        executed(s, instruction).extra_cycles == 0,
        fetched(s).is_some() ==> stepped(s) == s,
{
}

/// A run that ends with some fuel ends in the same state with more.
pub proof fn lemma_frame_run_more_fuel(s: Machine, elapsed: int, budget: int, fuel: nat, more: nat)
    requires
        frame_run(s, elapsed, budget, fuel).is_some(),
        fuel <= more,
    ensures
        frame_run(s, elapsed, budget, more) == frame_run(s, elapsed, budget, fuel),
    decreases fuel,
{
    if elapsed < budget {
        lemma_frame_run_more_fuel(
            stepped(s),
            elapsed + step_cycles(s),
            budget,
            (fuel - 1) as nat,
            (more - 1) as nat,
        );
    }
}

/// The end of a frame does not depend on the fuel: any count of steps
/// within which the run ends shows that the frame completes, and in which
/// state.
pub proof fn lemma_frame_end(s: Machine, fuel: nat)
    requires
        frame_run(s, 0, frame_budget(s), fuel).is_some(),
    ensures
        frame_completes(s),
        after_frame(s) == frame_run(s, 0, frame_budget(s), fuel).unwrap(),
{
    let budget = frame_budget(s);
    let chosen = choose|f: nat| frame_run(s, 0, budget, f).is_some();
    if chosen <= fuel {
        lemma_frame_run_more_fuel(s, 0, budget, chosen, fuel);
    } else {
        lemma_frame_run_more_fuel(s, 0, budget, fuel, chosen);
    }
}

/// A machine that is halted or stopped, on an opcode with a positive cycle
/// count, spins in place for `fuel` steps and more.
proof fn lemma_idle_run(s: Machine, elapsed: int, budget: int, fuel: nat)
    requires
        !s.running(),
        fetched(s).is_some(),
        step_cycles(s) > 0,
        budget - elapsed <= fuel,
    ensures
        frame_run(s, elapsed, budget, fuel) == Some(s),
    decreases fuel,
{
    if elapsed < budget {
        lemma_idle_executes_nothing(s, fetched(s).unwrap());
        lemma_idle_run(s, elapsed + step_cycles(s), budget, (fuel - 1) as nat);
    }
}

/// A machine that is halted or stopped, on an opcode with a positive cycle
/// count, completes its frame and ends it as it began.
pub proof fn lemma_idle_frame(s: Machine)
    requires
        !s.running(),
        fetched(s).is_some(),
        step_cycles(s) > 0,
    ensures
        frame_completes(s),
        after_frame(s) == s,
{
    let budget = frame_budget(s);
    let fuel: nat = if budget > 0 {
        budget as nat
    } else {
        0
    };
    lemma_idle_run(s, 0, budget, fuel);
    lemma_frame_end(s, fuel);
}

} // verus!
