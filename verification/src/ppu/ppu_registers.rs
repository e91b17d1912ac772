//! The registers of the picture processing unit.

use vstd::prelude::*;
use vstd::std_specs::convert::FromSpecImpl;

verus! {

/// The number that a flag adds to a sum of bit weights.
pub open spec fn unit(flag: bool) -> int {
    if flag {
        1
    } else {
        0
    }
}

/// Whether bit `n` of a byte, of weight `weight`, is set.
pub open spec fn has_bit(byte: u8, weight: int) -> bool {
    (byte as int / weight) % 2 == 1
}

pub const LCD_EN_BYTE_POSITION: u8 = 7;

pub const WIN_MAP_BYTE_POSITION: u8 = 6;

pub const WIN_EN_BYTE_POSITION: u8 = 6;

pub const TILE_SEL_BYTE_POSITION: u8 = 5;

pub const BG_MAP_BYTE_POSITION: u8 = 3;

pub const OBJ_SIZE_BYTE_POSITION: u8 = 2;

pub const OBJ_EN_BYTE_POSITION: u8 = 1;

pub const BG_EN_BYTE_POSITION: u8 = 0;

/// The control register (LCDC) at 0xFF40.
#[derive(Clone, Copy, Debug, PartialEq, Eq, Structural)]
pub struct PPUControlRegister {
    pub lcd_en: bool,
    pub win_map: bool,
    pub win_en: bool,
    pub tile_sel: bool,
    pub bg_map: bool,
    pub obj_size: bool,
    pub obj_en: bool,
    pub bg_en: bool,
}

/// Testing a bit by shift and mask is a division and a parity test.
pub proof fn lemma_bit_tests(byte: u8)
    by (bit_vector)
    ensures
        ((byte >> 7) & 1 != 0) == ((byte / 128) % 2 == 1),
        ((byte >> 6) & 1 != 0) == ((byte / 64) % 2 == 1),
        ((byte >> 5) & 1 != 0) == ((byte / 32) % 2 == 1),
        ((byte >> 4) & 1 != 0) == ((byte / 16) % 2 == 1),
        ((byte >> 3) & 1 != 0) == ((byte / 8) % 2 == 1),
        ((byte >> 2) & 1 != 0) == ((byte / 4) % 2 == 1),
        ((byte >> 1) & 1 != 0) == ((byte / 2) % 2 == 1),
        ((byte >> 0) & 1 != 0) == ((byte / 1) % 2 == 1),
        (byte & 1 != 0) == (byte % 2 == 1),
{
}

/// Packing the bits of the control register: the two window flags share
/// bit 6, so that bit is the or of the two.
pub proof fn lemma_control_pack(
    lcd_en: u8,
    win_map: u8,
    win_en: u8,
    tile_sel: u8,
    bg_map: u8,
    obj_size: u8,
    obj_en: u8,
    bg_en: u8,
)
    by (bit_vector)
    requires
        lcd_en <= 1,
        win_map <= 1,
        win_en <= 1,
        tile_sel <= 1,
        bg_map <= 1,
        obj_size <= 1,
        obj_en <= 1,
        bg_en <= 1,
    ensures
        (lcd_en << 7) | (win_map << 6) | (win_en << 6) | (tile_sel << 5) | (bg_map << 3) | (obj_size
            << 2) | (obj_en << 1) | (bg_en << 0) == lcd_en * 128 + (win_map | win_en) * 64
            + tile_sel * 32 + bg_map * 8 + obj_size * 4 + obj_en * 2 + bg_en,
        (win_map | win_en) == (if win_map == 1 || win_en == 1 {
            1u8
        } else {
            0u8
        }),
{
}

/// Packing the bits of the status register.
pub proof fn lemma_status_pack(
    intr_lyc: u8,
    intr_m2: u8,
    intr_m1: u8,
    intr_m0: u8,
    lyc_stat: u8,
    mode1: u8,
    mode0: u8,
)
    by (bit_vector)
    requires
        intr_lyc <= 1,
        intr_m2 <= 1,
        intr_m1 <= 1,
        intr_m0 <= 1,
        lyc_stat <= 1,
        mode1 <= 1,
        mode0 <= 1,
    ensures
        (intr_lyc << 6) | (intr_m2 << 5) | (intr_m1 << 4) | (intr_m0 << 3) | (lyc_stat << 2) | (
        mode1 << 1) | mode0 == intr_lyc * 64 + intr_m2 * 32 + intr_m1 * 16 + intr_m0 * 8 + lyc_stat
            * 4 + mode1 * 2 + mode0,
{
}

impl PPUControlRegister {
    /// The byte that encodes the register: `lcd_en` in bit 7, `win_map` and
    /// `win_en` both in bit 6, `tile_sel` in bit 5, `bg_map` in bit 3,
    /// `obj_size` in bit 2, `obj_en` in bit 1, `bg_en` in bit 0. Bit 4 is
    /// never set.
    pub open spec fn to_byte(self) -> u8 {
        (unit(self.lcd_en) * 128 + unit(self.win_map || self.win_en) * 64 + unit(self.tile_sel)
            * 32 + unit(self.bg_map) * 8 + unit(self.obj_size) * 4 + unit(self.obj_en) * 2 + unit(
            self.bg_en,
        )) as u8
    }

    /// The register that a byte encodes. Both window flags are read from
    /// bit 6; bit 4 is ignored.
    pub open spec fn of_byte(byte: u8) -> PPUControlRegister {
        PPUControlRegister {
            lcd_en: has_bit(byte, 128),
            win_map: has_bit(byte, 64),
            win_en: has_bit(byte, 64),
            tile_sel: has_bit(byte, 32),
            bg_map: has_bit(byte, 8),
            obj_size: has_bit(byte, 4),
            obj_en: has_bit(byte, 2),
            bg_en: has_bit(byte, 1),
        }
    }

    /// The register with every flag cleared.
    pub fn new() -> (reg: PPUControlRegister)
        ensures
            reg == (PPUControlRegister {
                lcd_en: false,
                win_map: false,
                win_en: false,
                tile_sel: false,
                bg_map: false,
                obj_size: false,
                obj_en: false,
                bg_en: false,
            }),
    {
        PPUControlRegister {
            lcd_en: false,
            win_map: false,
            win_en: false,
            tile_sel: false,
            bg_map: false,
            obj_size: false,
            obj_en: false,
            bg_en: false,
        }
    }
}

impl From<PPUControlRegister> for u8 {
    #[verifier::rlimit(40)]
    fn from(reg: PPUControlRegister) -> (byte: u8) {
        let lcd_en: u8 = if reg.lcd_en { 1 } else { 0 };
        let win_map: u8 = if reg.win_map { 1 } else { 0 };
        let win_en: u8 = if reg.win_en { 1 } else { 0 };
        let tile_sel: u8 = if reg.tile_sel { 1 } else { 0 };
        let bg_map: u8 = if reg.bg_map { 1 } else { 0 };
        let obj_size: u8 = if reg.obj_size { 1 } else { 0 };
        let obj_en: u8 = if reg.obj_en { 1 } else { 0 };
        let bg_en: u8 = if reg.bg_en { 1 } else { 0 };
        proof {
            lemma_control_pack(lcd_en, win_map, win_en, tile_sel, bg_map, obj_size, obj_en, bg_en);
        }
        (lcd_en << LCD_EN_BYTE_POSITION) | (win_map << WIN_MAP_BYTE_POSITION) | (win_en
            << WIN_EN_BYTE_POSITION) | (tile_sel << TILE_SEL_BYTE_POSITION) | (bg_map
            << BG_MAP_BYTE_POSITION) | (obj_size << OBJ_SIZE_BYTE_POSITION) | (obj_en
            << OBJ_EN_BYTE_POSITION) | (bg_en << BG_EN_BYTE_POSITION)
    }
}

impl FromSpecImpl<PPUControlRegister> for u8 {
    open spec fn obeys_from_spec() -> bool {
        true
    }

    open spec fn from_spec(reg: PPUControlRegister) -> u8 {
        reg.to_byte()
    }
}

impl From<u8> for PPUControlRegister {
    fn from(byte: u8) -> (reg: PPUControlRegister) {
        proof {
            lemma_bit_tests(byte);
        }
        let lcd_en = ((byte >> LCD_EN_BYTE_POSITION) & 0b1) != 0;
        let win_map = ((byte >> WIN_MAP_BYTE_POSITION) & 0b1) != 0;
        let win_en = ((byte >> WIN_EN_BYTE_POSITION) & 0b1) != 0;
        let tile_sel = ((byte >> TILE_SEL_BYTE_POSITION) & 0b1) != 0;
        let bg_map = ((byte >> BG_MAP_BYTE_POSITION) & 0b1) != 0;
        let obj_size = ((byte >> OBJ_SIZE_BYTE_POSITION) & 0b1) != 0;
        let obj_en = ((byte >> OBJ_EN_BYTE_POSITION) & 0b1) != 0;
        let bg_en = ((byte >> BG_EN_BYTE_POSITION) & 0b1) != 0;
        PPUControlRegister { lcd_en, win_map, win_en, tile_sel, bg_map, obj_size, obj_en, bg_en }
    }
}

impl FromSpecImpl<u8> for PPUControlRegister {
    open spec fn obeys_from_spec() -> bool {
        true
    }

    open spec fn from_spec(byte: u8) -> PPUControlRegister {
        PPUControlRegister::of_byte(byte)
    }
}

pub const INTR_LYC_BYTE_POSITION: u8 = 6;

pub const INTR_M2_BYTE_POSITION: u8 = 5;

pub const INTR_M1_BYTE_POSITION: u8 = 4;

pub const INTR_M0_BYTE_POSITION: u8 = 3;

pub const LYC_STAT_BYTE_POSITION: u8 = 2;

pub const LCD_MODE_BYTE_POSITION: u8 = 1;

/// The status register (STAT) at 0xFF41.
#[derive(Clone, Copy, Debug)]
pub struct PPUStatusRegister {
    pub intr_lyc: bool,
    pub intr_m2: bool,
    pub intr_m1: bool,
    pub intr_m0: bool,
    pub lyc_stat: bool,
    pub lcd_mode: [bool; 2],
}

impl PPUStatusRegister {
    /// The byte that encodes the register: the four interrupt sources in
    /// bits 6 to 3, `lyc_stat` in bit 2, `lcd_mode[1]` in bit 1 and
    /// `lcd_mode[0]` in bit 0. Bit 7 is never set.
    pub open spec fn to_byte(self) -> u8 {
        (unit(self.intr_lyc) * 64 + unit(self.intr_m2) * 32 + unit(self.intr_m1) * 16 + unit(
            self.intr_m0,
        ) * 8 + unit(self.lyc_stat) * 4 + unit(self.lcd_mode@[1]) * 2 + unit(
            self.lcd_mode@[0],
        )) as u8
    }

    /// The register that a byte encodes: the flags are read from bits 6 to
    /// 2, `lcd_mode[0]` from bit 1 and `lcd_mode[1]` from bit 0. Bit 7 is
    /// ignored.
    pub open spec fn of_byte(byte: u8) -> PPUStatusRegister {
        PPUStatusRegister {
            intr_lyc: has_bit(byte, 64),
            intr_m2: has_bit(byte, 32),
            intr_m1: has_bit(byte, 16),
            intr_m0: has_bit(byte, 8),
            lyc_stat: has_bit(byte, 4),
            lcd_mode: [has_bit(byte, 2), has_bit(byte, 1)],
        }
    }

    /// The register with every flag cleared.
    pub fn new() -> (reg: PPUStatusRegister)
        ensures
            reg == Self::of_byte(0),
    {
        PPUStatusRegister {
            intr_lyc: false,
            intr_m2: false,
            intr_m1: false,
            intr_m0: false,
            lyc_stat: false,
            lcd_mode: [false, false],
        }
    }
}

impl From<PPUStatusRegister> for u8 {
    fn from(reg: PPUStatusRegister) -> (byte: u8) {
        let intr_lyc: u8 = if reg.intr_lyc { 1 } else { 0 };
        let intr_m2: u8 = if reg.intr_m2 { 1 } else { 0 };
        let intr_m1: u8 = if reg.intr_m1 { 1 } else { 0 };
        let intr_m0: u8 = if reg.intr_m0 { 1 } else { 0 };
        let lyc_stat: u8 = if reg.lyc_stat { 1 } else { 0 };
        let mode1: u8 = if reg.lcd_mode[1] { 1 } else { 0 };
        let mode0: u8 = if reg.lcd_mode[0] { 1 } else { 0 };
        proof {
            lemma_status_pack(intr_lyc, intr_m2, intr_m1, intr_m0, lyc_stat, mode1, mode0);
        }
        (intr_lyc << INTR_LYC_BYTE_POSITION) | (intr_m2 << INTR_M2_BYTE_POSITION) | (intr_m1
            << INTR_M1_BYTE_POSITION) | (intr_m0 << INTR_M0_BYTE_POSITION) | (lyc_stat
            << LYC_STAT_BYTE_POSITION) | (mode1 << LCD_MODE_BYTE_POSITION) | mode0
    }
}

impl FromSpecImpl<PPUStatusRegister> for u8 {
    open spec fn obeys_from_spec() -> bool {
        true
    }

    open spec fn from_spec(reg: PPUStatusRegister) -> u8 {
        reg.to_byte()
    }
}

impl From<u8> for PPUStatusRegister {
    fn from(byte: u8) -> (reg: PPUStatusRegister) {
        proof {
            lemma_bit_tests(byte);
        }
        let intr_lyc = ((byte >> INTR_LYC_BYTE_POSITION) & 0b1) != 0;
        let intr_m2 = ((byte >> INTR_M2_BYTE_POSITION) & 0b1) != 0;
        let intr_m1 = ((byte >> INTR_M1_BYTE_POSITION) & 0b1) != 0;
        let intr_m0 = ((byte >> INTR_M0_BYTE_POSITION) & 0b1) != 0;
        let lyc_stat = ((byte >> LYC_STAT_BYTE_POSITION) & 0b1) != 0;
        let lcd_mode = [((byte >> LCD_MODE_BYTE_POSITION) & 0b1) != 0, (byte & 0b1) != 0];
        PPUStatusRegister { intr_lyc, intr_m2, intr_m1, intr_m0, lyc_stat, lcd_mode }
    }
}

impl FromSpecImpl<u8> for PPUStatusRegister {
    open spec fn obeys_from_spec() -> bool {
        true
    }

    open spec fn from_spec(byte: u8) -> PPUStatusRegister {
        PPUStatusRegister::of_byte(byte)
    }
}

/// The vertical scroll register (SCY) at 0xFF42.
#[derive(Clone, Copy, Debug, PartialEq, Eq, Structural)]
pub struct VerticalScrollRegister {
    pub scy: u8,
}

/// The horizontal scroll register (SCX) at 0xFF43.
#[derive(Clone, Copy, Debug, PartialEq, Eq, Structural)]
pub struct HorizontalScrollRegister {
    pub scx: u8,
}

/// The scanline register (LY) at 0xFF44.
#[derive(Clone, Copy, Debug, PartialEq, Eq, Structural)]
pub struct ScanlineRegister {
    pub ly: u8,
}

/// The scanline compare register (LYC) at 0xFF45.
#[derive(Clone, Copy, Debug, PartialEq, Eq, Structural)]
pub struct ScanlineCompareRegister {
    pub lyc: u8,
}

} // verus!
