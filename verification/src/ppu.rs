//! The picture side of the machine: the registers of the picture
//! processing unit, and the test pattern that fills a frame.

pub mod ppu_registers;

pub use self::ppu_registers::HorizontalScrollRegister;
pub use self::ppu_registers::PPUControlRegister;
pub use self::ppu_registers::PPUStatusRegister;
pub use self::ppu_registers::ScanlineCompareRegister;
pub use self::ppu_registers::ScanlineRegister;
pub use self::ppu_registers::VerticalScrollRegister;

use vstd::prelude::*;

verus! {

/// The bytes of one pixel: red, green, blue, alpha.
pub const PIXEL_BYTES: usize = 4;

/// The alpha of a painted pixel: opaque.
pub const OPAQUE: u8 = 255;

/// Where in a frame of `len` bytes the pixel starts that `pick` selects:
/// at `pick` modulo `len`, rounded down to a multiple of four.
pub open spec fn pixel_start(pick: usize, len: nat) -> int {
    let i = pick as int % len as int;
    i - i % 4
}

/// A frame with the four bytes from `start` replaced by an opaque colour.
pub open spec fn painted(frame: Seq<u8>, start: int, red: u8, green: u8, blue: u8) -> Seq<u8> {
    frame.update(start, red).update(start + 1, green).update(start + 2, blue).update(
        start + 3,
        OPAQUE,
    )
}

/// Whether a buffer is a frame: a whole number of pixels, and at least one.
pub open spec fn is_frame(frame: Seq<u8>) -> bool {
    frame.len() > 0 && frame.len() % 4 == 0
}

/// Draws a machine-sized number from `rand::random`. Nothing is promised
/// of the number: each call may return any value.
#[verifier::external_body]
fn random_index() -> usize {
    rand::random::<usize>()
}

/// Draws a byte from `rand::random`. Nothing is promised of the byte: each
/// call may return any value.
#[verifier::external_body]
fn random_byte() -> u8 {
    rand::random::<u8>()
}

/// Paints the pixel that `pick` selects in an opaque colour.
pub fn paint_pixel(frame: &mut [u8], pick: usize, red: u8, green: u8, blue: u8)
    requires
        is_frame(old(frame)@),
    ensures
        final(frame)@ == painted(
            old(frame)@,
            pixel_start(pick, old(frame)@.len()),
            red,
            green,
            blue,
        ),
{
    let mut i = pick % frame.len();
    i = i - (i % PIXEL_BYTES);
    frame[i] = red;
    frame[i + 1] = green;
    frame[i + 2] = blue;
    frame[i + 3] = OPAQUE;
}

/// Paints one pixel of the frame, chosen at random, in an opaque colour
/// chosen at random. All other bytes stay.
pub fn populate_frame_random_rgba(frame: &mut [u8])
    requires
        is_frame(old(frame)@),
    ensures
        exists|pick: usize, red: u8, green: u8, blue: u8|
            final(frame)@ == painted(
                old(frame)@,
                pixel_start(pick, old(frame)@.len()),
                red,
                green,
                blue,
            ),
{
    let pick = random_index();
    let red = random_byte();
    let green = random_byte();
    let blue = random_byte();
    paint_pixel(frame, pick, red, green, blue);
}

} // verus!
