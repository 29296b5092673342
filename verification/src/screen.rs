//! The picture that the video memory holds.
//!
//! The video window is a bitmap of one bit per pixel. The monitor of the
//! machine stands on its side: a byte holds eight pixels that lie above each
//! other on the screen, the lowest bit being the lowest pixel, and the bytes
//! run up the screen, column after column from left to right.

use vstd::prelude::*;
use crate::emulator::{HEIGHT, WIDTH};
use crate::memory::{GRAPHIC_MEMORY_SIZE, SCREEN_WIDTH};
use crate::state::{bit_of, test_bit};

verus! {

pub const RED: u32 = 0x00ff0000;

pub const GREEN: u32 = 0x0000ff00;

pub const WHITE: u32 = 0xffffff;

pub const BLACK: u32 = 0;

/// The colour of a lit pixel in the strip of eight lines that starts
/// `strip` lines above the bottom of the screen: the overlay on the screen
/// is green over the lowest 80 lines and red over lines 208 to 223.
pub open spec fn overlay(strip: int) -> u32 {
    if 200 < strip < 220 {
        RED
    } else if strip < 80 {
        GREEN
    } else {
        WHITE
    }
}

/// The colour of the pixel in column `x` and row `y` of the screen, row 0
/// being the top row, for the video window `video`.
pub open spec fn pixel(video: Seq<u8>, x: int, y: int) -> u32
    recommends
        0 <= x < WIDTH,
        0 <= y < HEIGHT,
        video.len() == GRAPHIC_MEMORY_SIZE,
{
    let line = HEIGHT - 1 - y;
    if bit_of(video[x * SCREEN_WIDTH + line / 8], line % 8) {
        overlay(line - line % 8)
    } else {
        BLACK
    }
}

/// The picture of the video window `video`, row by row from the top, each
/// row from left to right, one colour for each pixel.
pub fn render(video: &[u8]) -> (picture: Vec<u32>)
    requires
        video@.len() == GRAPHIC_MEMORY_SIZE,
    ensures
        picture@.len() == WIDTH * HEIGHT,
        forall|x: int, y: int|
            0 <= x < WIDTH && 0 <= y < HEIGHT ==> picture@[y * WIDTH + x] == #[trigger] pixel(
                video@,
                x,
                y,
            ),
{
    let width: usize = WIDTH as usize;
    let height: usize = HEIGHT as usize;
    let mut picture: Vec<u32> = Vec::with_capacity(width * height);
    let mut y: usize = 0;
    while y < height
        invariant
            width == WIDTH,
            height == HEIGHT,
            video@.len() == GRAPHIC_MEMORY_SIZE,
            y <= height,
            picture@.len() == y * width,
            forall|i: int, j: int|
                0 <= i < WIDTH && 0 <= j < y ==> picture@[j * WIDTH + i] == #[trigger] pixel(
                    video@,
                    i,
                    j,
                ),
        decreases height - y,
    {
        let line: usize = height - 1 - y;
        let strip: usize = line - line % 8;
        let color: u32 = if strip > 200 && strip < 220 {
            RED
        } else if strip < 80 {
            GREEN
        } else {
            WHITE
        };
        let mut x: usize = 0;
        while x < width
            invariant
                width == WIDTH,
                height == HEIGHT,
                video@.len() == GRAPHIC_MEMORY_SIZE,
                y < height,
                line == height - 1 - y,
                color == overlay(line - line % 8),
                x <= width,
                picture@.len() == y * width + x,
                forall|i: int, j: int|
                    0 <= i < WIDTH && 0 <= j < y ==> picture@[j * WIDTH + i] == #[trigger] pixel(
                        video@,
                        i,
                        j,
                    ),
                forall|i: int|
                    0 <= i < x ==> picture@[y * WIDTH + i] == #[trigger] pixel(
                        video@,
                        i,
                        y as int,
                    ),
            decreases width - x,
        {
            let byte: u8 = video[x * SCREEN_WIDTH + line / 8];
            let lit: bool = test_bit(byte, (line % 8) as u8);
            picture.push(
                if lit {
                    color
                } else {
                    BLACK
                },
            );
            x += 1;
        }
        y += 1;
    }
    picture
}

} // verus!
