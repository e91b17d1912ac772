//! The register file and the flags register.

use vstd::prelude::*;
use vstd::std_specs::convert::FromSpec;

verus! {

/// The bit of the zero flag in the byte that encodes the flags.
pub const ZERO_FLAG_BYTE_POSITION: u8 = 7;

/// The bit of the subtract flag.
pub const SUBTRACT_FLAG_BYTE_POSITION: u8 = 6;

/// The bit of the half-carry flag.
pub const HALF_CARRY_FLAG_BYTE_POSITION: u8 = 5;

/// The bit of the carry flag.
pub const CARRY_FLAG_BYTE_POSITION: u8 = 4;

/// The 16-bit value whose high byte is `hi` and whose low byte is `lo`.
pub open spec fn word(hi: u8, lo: u8) -> u16 {
    (hi as int * 256 + lo as int) as u16
}

/// The high byte of a 16-bit value.
pub open spec fn high_byte(w: u16) -> u8 {
    (w as int / 256) as u8
}

/// The low byte of a 16-bit value.
pub open spec fn low_byte(w: u16) -> u8 {
    (w as int % 256) as u8
}

/// Shifts and masks on a 16-bit value agree with division and remainder
/// by 256.
pub proof fn lemma_split_word(w: u16)
    by (bit_vector)
    ensures
        w >> 8 == w / 256,
        w >> 8 <= 0xFF,
        w & 0xFF == w % 256,
        w & 0xFF <= 0xFF,
{
}

/// Joining two bytes with a shift and an or is `hi * 256 + lo`.
pub proof fn lemma_join_bytes(hi: u8, lo: u8)
    by (bit_vector)
    ensures
        ((hi as u16) << 8) | (lo as u16) == (hi as u16) * 256 + (lo as u16),
{
}

/// Joins a high and a low byte.
pub fn join_bytes(hi: u8, lo: u8) -> (w: u16)
    ensures
        w == word(hi, lo),
{
    proof {
        lemma_join_bytes(hi, lo);
    }
    (hi as u16) << 8 | lo as u16
}

/// Splits a 16-bit value into its high and its low byte.
pub fn split_word(w: u16) -> (bytes: (u8, u8))
    ensures
        bytes.0 == high_byte(w),
        bytes.1 == low_byte(w),
{
    proof {
        lemma_split_word(w);
    }
    ((w >> 8) as u8, (w & 0xFF) as u8)
}

/// Testing one of the four flag bits by shift and mask is a division and
/// a parity test.
pub proof fn lemma_flag_bit_tests(byte: u8)
    by (bit_vector)
    ensures
        ((byte >> 7) & 1 != 0) == ((byte / 128) % 2 == 1),
        ((byte >> 6) & 1 != 0) == ((byte / 64) % 2 == 1),
        ((byte >> 5) & 1 != 0) == ((byte / 32) % 2 == 1),
        ((byte >> 4) & 1 != 0) == ((byte / 16) % 2 == 1),
{
}

/// Packing four single bits at positions 7, 6, 5, 4 adds their weights.
pub proof fn lemma_flag_bits_pack(z: u8, n: u8, h: u8, c: u8)
    by (bit_vector)
    requires
        z <= 1,
        n <= 1,
        h <= 1,
        c <= 1,
    ensures
        (z << 7) | (n << 6) | (h << 5) | (c << 4) == z * 128 + n * 64 + h * 32 + c * 16,
{
}

/// The four condition flags of the processor.
#[derive(Clone, Copy, Debug, PartialEq, Eq, Structural)]
pub struct FlagsRegister {
    pub zero: bool,
    pub subtract: bool,
    pub half_carry: bool,
    pub carry: bool,
}

impl FlagsRegister {
    /// The byte that encodes the flags: zero in bit 7, subtract in bit 6,
    /// half-carry in bit 5, carry in bit 4, and a low nibble of zero.
    pub open spec fn to_byte(self) -> u8 {
        ((if self.zero { 128int } else { 0 })
            + (if self.subtract { 64int } else { 0 })
            + (if self.half_carry { 32int } else { 0 })
            + (if self.carry { 16int } else { 0 })) as u8
    }

    /// The flags that a byte encodes; its low nibble is ignored.
    pub open spec fn of_byte(byte: u8) -> FlagsRegister {
        FlagsRegister {
            zero: (byte as int / 128) % 2 == 1,
            subtract: (byte as int / 64) % 2 == 1,
            half_carry: (byte as int / 32) % 2 == 1,
            carry: (byte as int / 16) % 2 == 1,
        }
    }
}

impl From<FlagsRegister> for u8 {
    fn from(flags: FlagsRegister) -> (byte: u8) {
        let z: u8 = if flags.zero { 1 } else { 0 };
        let n: u8 = if flags.subtract { 1 } else { 0 };
        let h: u8 = if flags.half_carry { 1 } else { 0 };
        let c: u8 = if flags.carry { 1 } else { 0 };
        proof {
            lemma_flag_bits_pack(z, n, h, c);
        }
        (z << ZERO_FLAG_BYTE_POSITION) | (n << SUBTRACT_FLAG_BYTE_POSITION) | (h
            << HALF_CARRY_FLAG_BYTE_POSITION) | (c << CARRY_FLAG_BYTE_POSITION)
    }
}

impl vstd::std_specs::convert::FromSpecImpl<FlagsRegister> for u8 {
    open spec fn obeys_from_spec() -> bool {
        true
    }

    open spec fn from_spec(flags: FlagsRegister) -> u8 {
        flags.to_byte()
    }
}

impl From<u8> for FlagsRegister {
    fn from(byte: u8) -> (flags: FlagsRegister) {
        proof {
            lemma_flag_bit_tests(byte);
        }
        let zero = ((byte >> ZERO_FLAG_BYTE_POSITION) & 0b1) != 0;
        let subtract = ((byte >> SUBTRACT_FLAG_BYTE_POSITION) & 0b1) != 0;
        let half_carry = ((byte >> HALF_CARRY_FLAG_BYTE_POSITION) & 0b1) != 0;
        let carry = ((byte >> CARRY_FLAG_BYTE_POSITION) & 0b1) != 0;
        FlagsRegister { zero, subtract, half_carry, carry }
    }
}

impl vstd::std_specs::convert::FromSpecImpl<u8> for FlagsRegister {
    open spec fn obeys_from_spec() -> bool {
        true
    }

    open spec fn from_spec(byte: u8) -> FlagsRegister {
        FlagsRegister::of_byte(byte)
    }
}

/// The eight 8-bit registers. The flags take the place of a register `f`.
#[derive(Clone, Copy, Debug, PartialEq, Eq, Structural)]
pub struct Registers {
    pub a: u8,
    pub b: u8,
    pub c: u8,
    pub d: u8,
    pub e: u8,
    pub f: FlagsRegister,
    pub h: u8,
    pub l: u8,
}

impl Registers {
    /// The pair AF: `a` above the byte that encodes the flags.
    pub open spec fn af(self) -> u16 {
        word(self.a, self.f.to_byte())
    }

    /// The pair BC.
    pub open spec fn bc(self) -> u16 {
        word(self.b, self.c)
    }

    /// The pair DE.
    pub open spec fn de(self) -> u16 {
        word(self.d, self.e)
    }

    /// The pair HL.
    pub open spec fn hl(self) -> u16 {
        word(self.h, self.l)
    }

    /// These registers with AF replaced: `a` takes the high byte, and the
    /// flags are decoded from the low byte, whose low nibble is dropped.
    pub open spec fn with_af(self, af: u16) -> Registers {
        Registers { a: high_byte(af), f: FlagsRegister::of_byte(low_byte(af)), ..self }
    }

    /// These registers with BC replaced.
    pub open spec fn with_bc(self, bc: u16) -> Registers {
        Registers { b: high_byte(bc), c: low_byte(bc), ..self }
    }

    /// These registers with DE replaced.
    pub open spec fn with_de(self, de: u16) -> Registers {
        Registers { d: high_byte(de), e: low_byte(de), ..self }
    }

    /// These registers with HL replaced.
    pub open spec fn with_hl(self, hl: u16) -> Registers {
        Registers { h: high_byte(hl), l: low_byte(hl), ..self }
    }

    /// Reads the pair AF. The low byte encodes the flags, so its low nibble
    /// is zero.
    pub fn get_af(&self) -> (af: u16)
        ensures
            af == self.af(),
    {
        join_bytes(self.a, u8::from(self.f))
    }

    /// Sets the pair AF. The flags take only the high nibble of the low byte.
    pub fn set_af(&mut self, af: u16)
        ensures
            *final(self) == old(self).with_af(af),
    {
        let (high, low) = split_word(af);
        self.a = high;
        self.f = FlagsRegister::from(low);
    }

    /// Reads the pair BC.
    pub fn get_bc(&self) -> (bc: u16)
        ensures
            bc == self.bc(),
    {
        join_bytes(self.b, self.c)
    }

    /// Sets the pair BC.
    pub fn set_bc(&mut self, bc: u16)
        ensures
            *final(self) == old(self).with_bc(bc),
    {
        let (high, low) = split_word(bc);
        self.b = high;
        self.c = low;
    }

    /// Reads the pair DE.
    pub fn get_de(&self) -> (de: u16)
        ensures
            de == self.de(),
    {
        join_bytes(self.d, self.e)
    }

    /// Sets the pair DE.
    pub fn set_de(&mut self, de: u16)
        ensures
            *final(self) == old(self).with_de(de),
    {
        let (high, low) = split_word(de);
        self.d = high;
        self.e = low;
    }

    /// Reads the pair HL.
    pub fn get_hl(&self) -> (hl: u16)
        ensures
            hl == self.hl(),
    {
        join_bytes(self.h, self.l)
    }

    /// Sets the pair HL.
    pub fn set_hl(&mut self, hl: u16)
        ensures
            *final(self) == old(self).with_hl(hl),
    {
        let (high, low) = split_word(hl);
        self.h = high;
        self.l = low;
    }
}

/// Encoding flags and decoding the byte gives the flags back.
pub proof fn lemma_flags_decode_encode(flags: FlagsRegister)
    ensures
        FlagsRegister::of_byte(flags.to_byte()) == flags,
        FlagsRegister::from_spec(u8::from_spec(flags)) == flags,
{
}

/// Decoding a byte and encoding the flags gives the byte with its low
/// nibble cleared; a byte whose low nibble is zero comes back unchanged.
pub proof fn lemma_flags_encode_decode(byte: u8)
    ensures
        FlagsRegister::of_byte(byte).to_byte() == byte - byte % 16,
        byte % 16 == 0 ==> u8::from_spec(FlagsRegister::from_spec(byte)) == byte,
{
}

/// A register pair that was set reads back as the value it was set to.
/// For AF the low nibble reads back as zero.
pub proof fn lemma_pair_round_trip(regs: Registers, w: u16)
    ensures
        regs.with_bc(w).bc() == w,
        regs.with_de(w).de() == w,
        regs.with_hl(w).hl() == w,
        regs.with_af(w).af() == w - w % 16,
{
    lemma_flags_encode_decode(low_byte(w));
}

} // verus!
