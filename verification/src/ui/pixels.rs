//! The picture in memory: two bytes a pixel, the low one first, row by row.
use crate::ui::canvas::{HEIGHT, WIDTH};
use vstd::prelude::*;

verus! {

/// How many bytes a picture has.
pub const FRAME_BYTES: usize = 691_200;

/// A picture.
pub struct Pixels {
    pub bytes: Vec<u8>,
}

/// Where the bytes of a pixel start.
pub open spec fn byte_index(x: int, y: int) -> int {
    (y * WIDTH + x) * 2
}

pub open spec fn on_screen(x: int, y: int) -> bool {
    0 <= x < WIDTH && 0 <= y < HEIGHT
}

/// A picture with one pixel set. A point off the screen changes nothing.
pub open spec fn with_pixel(bytes: Seq<u8>, x: int, y: int, color: u16) -> Seq<u8> {
    if on_screen(x, y) {
        bytes.update(byte_index(x, y), (color % 256) as u8).update(
            byte_index(x, y) + 1,
            (color / 256) as u8,
        )
    } else {
        bytes
    }
}

/// The colour of a pixel.
pub open spec fn pixel(bytes: Seq<u8>, x: int, y: int) -> int {
    bytes[byte_index(x, y)] + bytes[byte_index(x, y) + 1] * 256
}

/// A picture of one colour.
pub open spec fn solid(color: u16) -> Seq<u8> {
    Seq::new(
        FRAME_BYTES as nat,
        |i: int|
            if i % 2 == 0 {
                (color % 256) as u8
            } else {
                (color / 256) as u8
            },
    )
}

/// A pixel of the screen has its bytes in the picture.
proof fn lemma_byte_index(x: int, y: int)
    requires
        on_screen(x, y),
    ensures
        0 <= byte_index(x, y) < FRAME_BYTES - 1,
        byte_index(x, y) % 2 == 0,
{
}

impl Pixels {
    /// A black picture.
    pub fn black() -> (r: Pixels)
        ensures
            r.bytes@ == solid(0),
    {
        Pixels { bytes: solid_frame(0) }
    }

    /// Sets one pixel.
    pub fn set_pixel(&mut self, x: i32, y: i32, color: u16)
        requires
            old(self).bytes@.len() == FRAME_BYTES,
        ensures
            final(self).bytes@ == with_pixel(old(self).bytes@, x as int, y as int, color),
            final(self).bytes@.len() == FRAME_BYTES,
    {
        if x < 0 || y < 0 || x >= WIDTH as i32 || y >= HEIGHT as i32 {
            return;
        }
        proof {
            lemma_byte_index(x as int, y as int);
        }
        let index: usize = (y as usize * WIDTH + x as usize) * 2;
        self.bytes.set(index, (color % 256) as u8);
        self.bytes.set(index + 1, (color / 256) as u8);
    }
}

/// A picture of one colour.
pub fn solid_frame(color: u16) -> (r: Vec<u8>)
    ensures
        r@ == solid(color),
{
    let low: u8 = (color % 256) as u8;
    let high: u8 = (color / 256) as u8;
    let mut bytes: Vec<u8> = Vec::new();
    while bytes.len() < FRAME_BYTES
        invariant
            low == (color % 256) as u8,
            high == (color / 256) as u8,
            bytes.len() <= FRAME_BYTES,
            bytes.len() % 2 == 0,
            forall|i: int| 0 <= i < bytes.len() ==> #[trigger] bytes@[i] == solid(color)[i],
        decreases FRAME_BYTES - bytes.len(),
    {
        bytes.push(low);
        bytes.push(high);
    }
    assert(bytes@ =~= solid(color));
    bytes
}

/// Where a picture starts in the memory of the panel, which holds two of them.
pub fn frame_offset(frame: usize) -> (r: u64)
    requires
        frame <= 1,
    ensures
        r == frame * FRAME_BYTES,
{
    frame as u64 * 691_200
}

/// A pixel that is set has its colour and every other one keeps its own.
pub proof fn set_pixel_reads_back(bytes: Seq<u8>, x: int, y: int, color: u16, i: int, j: int)
    requires
        bytes.len() == FRAME_BYTES,
        on_screen(x, y),
        on_screen(i, j),
    ensures
        pixel(with_pixel(bytes, x, y, color), i, j) == if i == x && j == y {
            color as int
        } else {
            pixel(bytes, i, j)
        },
{
    lemma_byte_index(x, y);
    lemma_byte_index(i, j);
    if byte_index(x, y) == byte_index(i, j) {
        assert(y == j && x == i);
    }
}

/// A picture of one colour has it everywhere, and a point off the screen changes nothing.
pub proof fn one_colour_is_everywhere(bytes: Seq<u8>, color: u16, x: int, y: int)
    ensures
        on_screen(x, y) ==> pixel(solid(color), x, y) == color,
        !on_screen(x, y) ==> with_pixel(bytes, x, y, color) == bytes,
{
    if on_screen(x, y) {
        let n = y * WIDTH + x;
        assert(0 <= n < 480 * 720);
        assert(byte_index(x, y) == n * 2);
        assert((n * 2) % 2 == 0);
        assert((n * 2 + 1) % 2 == 1);
    }
}

} // verus!
