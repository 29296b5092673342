use emulator::screen::{render, BLACK, GREEN, RED, WHITE};

const WIDTH: usize = 224;
const HEIGHT: usize = 256;

fn blank() -> Vec<u8> {
    vec![0; 0x1c00]
}

#[test]
fn dark_memory_gives_a_black_screen() {
    let picture = render(&blank());
    assert_eq!(picture.len(), WIDTH * HEIGHT);
    assert!(picture.iter().all(|pixel| *pixel == BLACK));
}

#[test]
fn first_bit_is_the_bottom_left_pixel() {
    let mut video = blank();
    video[0] = 0x01;
    let picture = render(&video);
    assert_eq!(picture[255 * WIDTH], GREEN);
    assert_eq!(picture.iter().filter(|pixel| **pixel != BLACK).count(), 1);
}

#[test]
fn bytes_run_up_the_screen() {
    let mut video = blank();
    // column 0, lines 8 to 15 from the bottom: the top bit is line 15
    video[1] = 0x80;
    // column 3, strip 26: lines 208 to 215, under the red overlay
    video[3 * 32 + 26] = 0x01;
    // column 5, line 100
    video[5 * 32 + 12] = 0x10;
    // the last byte of column 223: line 255 is the top row
    video[223 * 32 + 31] = 0x80;
    let picture = render(&video);
    assert_eq!(picture[(255 - 15) * WIDTH], GREEN);
    assert_eq!(picture[(255 - 208) * WIDTH + 3], RED);
    assert_eq!(picture[(255 - 100) * WIDTH + 5], WHITE);
    assert_eq!(picture[223], WHITE);
    assert_eq!(picture.iter().filter(|pixel| **pixel != BLACK).count(), 4);
}

#[test]
fn overlay_colours_the_strips() {
    let video = vec![0xff; 0x1c00];
    let picture = render(&video);
    for y in 0..HEIGHT {
        let line = 255 - y;
        let expected = if (208..224).contains(&line) {
            RED
        } else if line < 80 {
            GREEN
        } else {
            WHITE
        };
        for x in 0..WIDTH {
            assert_eq!(picture[y * WIDTH + x], expected);
        }
    }
    assert_eq!((RED, GREEN, WHITE, BLACK), (0xff0000, 0x00ff00, 0xffffff, 0));
}
