use vstd::prelude::*;
use crate::constants::{DISPLAY_HEIGHT, DISPLAY_WIDTH};
use crate::display::frame_of;

verus! {

/// Number of bytes in a rendered frame: four per pixel.
pub const FRAME_BYTES: usize = 8192;

/// Byte `k` of the picture of `frame`. Pixels follow each other row by
/// row, four bytes each: red, green and blue, which are 255 for a lit
/// pixel and 0 for a dark one, and alpha, which is always 255.
pub open spec fn rendered_byte(frame: Seq<Seq<bool>>, k: int) -> u8 {
    let pixel = k / 4;
    if k % 4 == 3 || frame[pixel / (DISPLAY_WIDTH as int)][pixel % (DISPLAY_WIDTH as int)] {
        0xFF
    } else {
        0x00
    }
}

/// The picture of `frame` as RGBA bytes.
pub open spec fn rendered(frame: Seq<Seq<bool>>) -> Seq<u8> {
    Seq::new(FRAME_BYTES as nat, |k: int| rendered_byte(frame, k))
}

/// Renders a framebuffer as RGBA bytes, white on black, for a surface of
/// 64 by 32 pixels.
pub fn render_frame(buffer: &[[bool; DISPLAY_WIDTH]; DISPLAY_HEIGHT]) -> (bytes: Vec<u8>)
    ensures
        bytes@ == rendered(frame_of(*buffer)),
{
    let ghost frame = frame_of(*buffer);
    let mut bytes: Vec<u8> = Vec::new();
    let mut y: usize = 0;
    while y < DISPLAY_HEIGHT
        invariant
            y <= DISPLAY_HEIGHT,
            frame == frame_of(*buffer),
            bytes@.len() == 4 * (y * DISPLAY_WIDTH),
            forall|k: int| 0 <= k < bytes@.len() ==> #[trigger] bytes@[k] == rendered_byte(frame, k),
        decreases DISPLAY_HEIGHT - y,
    {
        let mut x: usize = 0;
        while x < DISPLAY_WIDTH
            invariant
                y < DISPLAY_HEIGHT,
                x <= DISPLAY_WIDTH,
                frame == frame_of(*buffer),
                bytes@.len() == 4 * (y * DISPLAY_WIDTH + x),
                forall|k: int|
                    0 <= k < bytes@.len() ==> #[trigger] bytes@[k] == rendered_byte(frame, k),
            decreases DISPLAY_WIDTH - x,
        {
            let shade: u8 = if buffer[y][x] { 0xFF } else { 0x00 };
            bytes.push(shade);
            bytes.push(shade);
            bytes.push(shade);
            bytes.push(0xFF);
            x += 1;
        }
        y += 1;
    }
    bytes
}

} // verus!
