//! The base cycle count of each opcode.

use vstd::prelude::*;

verus! {

/// The number of opcodes, counted from 0x00, that the table covers.
pub const TABLE_LEN: u8 = 0x20;

/// The base cycle counts of the opcodes 0x00 to 0x1F, indexed by opcode.
pub const BASE_CYCLES: [u8; 32] = [
    4, 12, 8, 8, 4, 4, 8, 4, 20, 8, 8, 8, 4, 4, 8, 4,
    4, 12, 8, 8, 4, 4, 8, 4, 12, 8, 8, 8, 4, 4, 8, 4,
];

/// The base cycle count of an opcode in the first two rows of the opcode
/// map, by its column: 4 cycles for an instruction that stays in the
/// registers, 8 where a byte is read or written or a pair is computed, 12
/// where two immediate bytes are read or a relative jump is made, 20 for
/// the store of the stack pointer.
pub open spec fn base_cycles(row: int, column: int) -> u8 {
    if column == 0x1 {
        12
    } else if column == 0x8 {
        if row == 0 {
            20
        } else {
            12
        }
    } else if column == 0x2 || column == 0x3 || column == 0x6 || column == 0x9 || column == 0xA
        || column == 0xB || column == 0xE {
        8
    } else {
        4
    }
}

/// The base cycle count of an opcode. Only the opcodes below `TABLE_LEN`
/// outside the prefixed space have one; every other opcode counts 0.
pub open spec fn cycle_count(instruction: u8, prefixed: bool) -> u8 {
    if prefixed || instruction >= TABLE_LEN {
        0
    } else {
        base_cycles(instruction as int / 16, instruction as int % 16)
    }
}

/// Looks up the number of cycles an instruction takes before any penalty
/// for a branch taken.
pub fn get_cycle_count(instruction: u8, prefixed: bool) -> (cycles: u8)
    ensures
        cycles == cycle_count(instruction, prefixed),
        cycles <= 20,
{
    if prefixed || instruction >= TABLE_LEN {
        0
    } else {
        BASE_CYCLES[instruction as usize]
    }
}

} // verus!
