//! The arithmetic and logic operations and their effect on the flags.

use crate::cpu::registers::FlagsRegister;
use crate::cpu::CPU;
use vstd::prelude::*;

verus! {

/// The number that a carry flag adds or subtracts.
pub open spec fn carry_in(carry: bool) -> int {
    if carry {
        1
    } else {
        0
    }
}

/// `a + v`, wrapping at 8 bits.
pub open spec fn add_value(a: u8, v: u8) -> u8 {
    ((a as int + v as int) % 0x100) as u8
}

/// The flags after `a + v`: zero from the result, half-carry on a carry
/// out of bit 3 (the low nibbles add up to more than 15), carry on a carry
/// out of bit 7.
pub open spec fn add_flags(a: u8, v: u8) -> FlagsRegister {
    FlagsRegister {
        zero: add_value(a, v) == 0,
        subtract: false,
        half_carry: a as int % 16 + v as int % 16 > 0xF,
        carry: a as int + v as int > 0xFF,
    }
}

/// `v1 + v2`, wrapping at 16 bits.
pub open spec fn add16_value(v1: u16, v2: u16) -> u16 {
    ((v1 as int + v2 as int) % 0x10000) as u16
}

/// The flags after the 16-bit `v1 + v2`: zero is kept, half-carry on a
/// carry out of bit 11, carry on a carry out of bit 15.
pub open spec fn add16_flags(f: FlagsRegister, v1: u16, v2: u16) -> FlagsRegister {
    FlagsRegister {
        zero: f.zero,
        subtract: false,
        half_carry: v1 as int % 0x1000 + v2 as int % 0x1000 > 0xFFF,
        carry: v1 as int + v2 as int > 0xFFFF,
    }
}

/// `a + v + carry`, wrapping at 8 bits.
pub open spec fn adc_value(a: u8, v: u8, carry: bool) -> u8 {
    ((a as int + v as int + carry_in(carry)) % 0x100) as u8
}

/// The flags after `a + v + carry`.
pub open spec fn adc_flags(a: u8, v: u8, carry: bool) -> FlagsRegister {
    FlagsRegister {
        zero: adc_value(a, v, carry) == 0,
        subtract: false,
        half_carry: a as int % 16 + v as int % 16 + carry_in(carry) > 0xF,
        carry: a as int + v as int + carry_in(carry) > 0xFF,
    }
}

/// `a - v`, wrapping at 8 bits.
pub open spec fn sub_value(a: u8, v: u8) -> u8 {
    ((a as int - v as int) % 0x100) as u8
}

/// The flags after `a - v`: half-carry on a borrow from bit 4, carry on a
/// borrow from beyond bit 7.
pub open spec fn sub_flags(a: u8, v: u8) -> FlagsRegister {
    FlagsRegister {
        zero: sub_value(a, v) == 0,
        subtract: true,
        half_carry: a as int % 16 < v as int % 16,
        carry: (a as int) < (v as int),
    }
}

/// `a - v - carry`, wrapping at 8 bits.
pub open spec fn sbc_value(a: u8, v: u8, carry: bool) -> u8 {
    ((a as int - v as int - carry_in(carry)) % 0x100) as u8
}

/// The flags after `a - v - carry`.
pub open spec fn sbc_flags(a: u8, v: u8, carry: bool) -> FlagsRegister {
    FlagsRegister {
        zero: sbc_value(a, v, carry) == 0,
        subtract: true,
        half_carry: a as int % 16 < v as int % 16 + carry_in(carry),
        carry: (a as int) < v as int + carry_in(carry),
    }
}

/// The flags after a bitwise operation with the given result.
pub open spec fn logic_flags(result: u8, half_carry: bool) -> FlagsRegister {
    FlagsRegister { zero: result == 0, subtract: false, half_carry, carry: false }
}

/// `v + 1`, wrapping at 8 bits.
pub open spec fn inc_value(v: u8) -> u8 {
    ((v as int + 1) % 0x100) as u8
}

/// The flags after `v + 1`: carry is kept.
pub open spec fn inc_flags(f: FlagsRegister, v: u8) -> FlagsRegister {
    FlagsRegister {
        zero: inc_value(v) == 0,
        subtract: false,
        half_carry: v as int % 16 == 0xF,
        carry: f.carry,
    }
}

/// `v - 1`, wrapping at 8 bits.
pub open spec fn dec_value(v: u8) -> u8 {
    ((v as int - 1) % 0x100) as u8
}

/// The flags after `v - 1`: carry is kept.
pub open spec fn dec_flags(f: FlagsRegister, v: u8) -> FlagsRegister {
    FlagsRegister {
        zero: dec_value(v) == 0,
        subtract: true,
        half_carry: v as int % 16 == 0,
        carry: f.carry,
    }
}

/// What the decimal adjustment adds to `a`, before wrapping. After an
/// addition: 0x60 if the carry is set or `a` is above 0x99, and 0x06 if the
/// half-carry is set or the low digit is above 9. After a subtraction: the
/// complements of those, chosen by the two flags alone.
pub open spec fn daa_correction(f: FlagsRegister, a: u8) -> int {
    if !f.subtract {
        (if f.carry || a > 0x99 {
            0x60int
        } else {
            0
        }) + (if f.half_carry || a as int % 16 > 0x09 {
            0x06int
        } else {
            0
        })
    } else if f.carry {
        if f.half_carry {
            0x9A
        } else {
            0xA0
        }
    } else if f.half_carry {
        0xFA
    } else {
        0
    }
}

/// The accumulator after the decimal adjustment.
pub open spec fn daa_value(f: FlagsRegister, a: u8) -> u8 {
    ((a as int + daa_correction(f, a)) % 0x100) as u8
}

/// The flags after the decimal adjustment: zero from the adjusted value,
/// subtract kept, half-carry cleared, and carry set where 0x60 or its
/// complement went in.
pub open spec fn daa_flags(f: FlagsRegister, a: u8) -> FlagsRegister {
    FlagsRegister {
        zero: daa_value(f, a) == 0,
        subtract: f.subtract,
        half_carry: false,
        carry: if !f.subtract {
            f.carry || a > 0x99
        } else {
            f.carry
        },
    }
}

/// The complement of `a`: every bit inverted.
pub open spec fn cpl_value(a: u8) -> u8 {
    (0xFF - a) as u8
}

/// The flags after a complement: subtract and half-carry are set.
pub open spec fn cpl_flags(f: FlagsRegister) -> FlagsRegister {
    FlagsRegister { subtract: true, half_carry: true, ..f }
}

/// The flags after the carry was inverted.
pub open spec fn ccf_flags(f: FlagsRegister) -> FlagsRegister {
    FlagsRegister { subtract: false, half_carry: false, carry: !f.carry, ..f }
}

/// The flags after the carry was set.
pub open spec fn scf_flags(f: FlagsRegister) -> FlagsRegister {
    FlagsRegister { subtract: false, half_carry: false, carry: true, ..f }
}

/// The low nibble of a byte is below 16 and is the byte's remainder by 16.
pub proof fn lemma_low_nibble(v: u8)
    by (bit_vector)
    ensures
        v & 0xF <= 0xF,
        v & 0xF == v % 16,
{
}

/// Inverting every bit of a byte subtracts it from 0xFF.
pub proof fn lemma_complement(a: u8)
    by (bit_vector)
    ensures
        a ^ 0xFF == 0xFF - a,
{
}

/// The low twelve bits of a word are below 0x1000.
pub proof fn lemma_low_twelve(v: u16)
    by (bit_vector)
    ensures
        v & 0xFFF <= 0xFFF,
        v & 0xFFF == v % 0x1000,
{
}

impl CPU {
    /// Returns `A + value` and updates the flags: Z 0 H C.
    pub fn add(&mut self, value: u8) -> (result: u8)
        ensures
            result == add_value(old(self).reg.a, value),
            final(self)@ == old(self)@.with_flags(add_flags(old(self).reg.a, value)),
    {
        let a = self.reg.a;
        let new_value = a.wrapping_add(value);
        proof {
            lemma_low_nibble(a);
            lemma_low_nibble(value);
        }
        self.reg.f.zero = new_value == 0;
        self.reg.f.subtract = false;
        self.reg.f.half_carry = (a & 0xF) + (value & 0xF) > 0xF;
        self.reg.f.carry = a as u16 + value as u16 > 0xFF;
        new_value
    }

    /// Returns `v1 + v2` and updates the flags: - 0 H C. The half-carry is
    /// the carry out of bit 11.
    pub fn add16(&mut self, v1: u16, v2: u16) -> (result: u16)
        ensures
            result == add16_value(v1, v2),
            final(self)@ == old(self)@.with_flags(add16_flags(old(self).reg.f, v1, v2)),
    {
        let new_value = v1.wrapping_add(v2);
        proof {
            lemma_low_twelve(v1);
            lemma_low_twelve(v2);
        }
        self.reg.f.subtract = false;
        self.reg.f.half_carry = (v1 & 0xFFF) + (v2 & 0xFFF) > 0xFFF;
        self.reg.f.carry = v1 as u32 + v2 as u32 > 0xFFFF;
        new_value
    }

    /// Returns `A + value + carry` and updates the flags: Z 0 H C.
    pub fn adc(&mut self, value: u8) -> (result: u8)
        ensures
            result == adc_value(old(self).reg.a, value, old(self).reg.f.carry),
            final(self)@ == old(self)@.with_flags(
                adc_flags(old(self).reg.a, value, old(self).reg.f.carry),
            ),
    {
        let a = self.reg.a;
        let carry: u8 = if self.reg.f.carry { 1 } else { 0 };
        let first = a.wrapping_add(value);
        let second = first.wrapping_add(carry);
        proof {
            lemma_low_nibble(a);
            lemma_low_nibble(value);
        }
        self.reg.f.zero = second == 0;
        self.reg.f.subtract = false;
        self.reg.f.half_carry = (a & 0xF) + (value & 0xF) + carry > 0xF;
        self.reg.f.carry = a as u16 + value as u16 + carry as u16 > 0xFF;
        second
    }

    /// Returns `A - value` and updates the flags: Z 1 H C.
    pub fn sub(&mut self, value: u8) -> (result: u8)
        ensures
            result == sub_value(old(self).reg.a, value),
            final(self)@ == old(self)@.with_flags(sub_flags(old(self).reg.a, value)),
    {
        let a = self.reg.a;
        let new_value = a.wrapping_sub(value);
        proof {
            lemma_low_nibble(a);
            lemma_low_nibble(value);
        }
        self.reg.f.zero = new_value == 0;
        self.reg.f.subtract = true;
        self.reg.f.half_carry = (a & 0xF) < (value & 0xF);
        self.reg.f.carry = a < value;
        new_value
    }

    /// Returns `A - value - carry` and updates the flags: Z 1 H C.
    pub fn sbc(&mut self, value: u8) -> (result: u8)
        ensures
            result == sbc_value(old(self).reg.a, value, old(self).reg.f.carry),
            final(self)@ == old(self)@.with_flags(
                sbc_flags(old(self).reg.a, value, old(self).reg.f.carry),
            ),
    {
        let a = self.reg.a;
        let carry: u8 = if self.reg.f.carry { 1 } else { 0 };
        let first = a.wrapping_sub(value);
        let second = first.wrapping_sub(carry);
        proof {
            lemma_low_nibble(a);
            lemma_low_nibble(value);
        }
        self.reg.f.zero = second == 0;
        self.reg.f.subtract = true;
        self.reg.f.half_carry = (a & 0xF) < (value & 0xF) + carry;
        self.reg.f.carry = (a as u16) < value as u16 + carry as u16;
        second
    }

    /// Returns `A & value` and updates the flags: Z 0 1 0.
    pub fn and(&mut self, value: u8) -> (result: u8)
        ensures
            result == old(self).reg.a & value,
            final(self)@ == old(self)@.with_flags(logic_flags(result, true)),
    {
        let new_value = self.reg.a & value;
        self.reg.f.zero = new_value == 0;
        self.reg.f.subtract = false;
        self.reg.f.half_carry = true;
        self.reg.f.carry = false;
        new_value
    }

    /// Returns `A | value` and updates the flags: Z 0 0 0.
    pub fn or(&mut self, value: u8) -> (result: u8)
        ensures
            result == old(self).reg.a | value,
            final(self)@ == old(self)@.with_flags(logic_flags(result, false)),
    {
        let new_value = self.reg.a | value;
        self.reg.f.zero = new_value == 0;
        self.reg.f.subtract = false;
        self.reg.f.half_carry = false;
        self.reg.f.carry = false;
        new_value
    }

    /// Returns `A ^ value` and updates the flags: Z 0 0 0.
    pub fn xor(&mut self, value: u8) -> (result: u8)
        ensures
            result == old(self).reg.a ^ value,
            final(self)@ == old(self)@.with_flags(logic_flags(result, false)),
    {
        let new_value = self.reg.a ^ value;
        self.reg.f.zero = new_value == 0;
        self.reg.f.subtract = false;
        self.reg.f.half_carry = false;
        self.reg.f.carry = false;
        new_value
    }

    /// Returns `value + 1` and updates the flags: Z 0 H -.
    pub fn inc(&mut self, value: u8) -> (result: u8)
        ensures
            result == inc_value(value),
            final(self)@ == old(self)@.with_flags(inc_flags(old(self).reg.f, value)),
    {
        let new_value = value.wrapping_add(1);
        proof {
            lemma_low_nibble(value);
        }
        self.reg.f.zero = new_value == 0;
        self.reg.f.subtract = false;
        self.reg.f.half_carry = (value & 0xF) == 0xF;
        new_value
    }

    /// Returns `value - 1` and updates the flags: Z 1 H -.
    pub fn dec(&mut self, value: u8) -> (result: u8)
        ensures
            result == dec_value(value),
            final(self)@ == old(self)@.with_flags(dec_flags(old(self).reg.f, value)),
    {
        let new_value = value.wrapping_sub(1);
        proof {
            lemma_low_nibble(value);
        }
        self.reg.f.zero = new_value == 0;
        self.reg.f.subtract = true;
        self.reg.f.half_carry = (value & 0xF) == 0;
        new_value
    }

    /// Adjusts `A` to packed decimal after an addition or a subtraction of
    /// packed decimals, and updates the flags: Z - 0 C.
    pub fn daa(&mut self)
        ensures
            final(self)@ == old(self)@.with_a(daa_value(old(self).reg.f, old(self).reg.a)).with_flags(
                daa_flags(old(self).reg.f, old(self).reg.a),
            ),
    {
        let mut carry = false;
        proof {
            lemma_low_nibble(self.reg.a);
        }
        if !self.reg.f.subtract {
            if self.reg.f.carry || self.reg.a > 0x99 {
                self.reg.a = self.reg.a.wrapping_add(0x60);
                carry = true;
            }
            proof {
                // Adding 0x60 leaves the low digit as it was.
                lemma_low_nibble(self.reg.a);
            }
            if self.reg.f.half_carry || self.reg.a & 0x0f > 0x09 {
                self.reg.a = self.reg.a.wrapping_add(0x06);
            }
        } else if self.reg.f.carry {
            carry = true;
            self.reg.a = self.reg.a.wrapping_add(if self.reg.f.half_carry { 0x9a } else { 0xa0 });
        } else if self.reg.f.half_carry {
            self.reg.a = self.reg.a.wrapping_add(0xfa);
        }
        self.reg.f.zero = self.reg.a == 0;
        self.reg.f.half_carry = false;
        self.reg.f.carry = carry;
    }
}

} // verus!
