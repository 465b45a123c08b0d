use emulator::constants::{DISPLAY_HEIGHT, DISPLAY_WIDTH};
use emulator::display::Display;

fn lit(display: &Display) -> Vec<(usize, usize)> {
    let buffer = display.get_buffer();
    let mut pixels = Vec::new();
    for y in 0..DISPLAY_HEIGHT {
        for x in 0..DISPLAY_WIDTH {
            if buffer[y][x] {
                pixels.push((x, y));
            }
        }
    }
    pixels
}

#[test]
fn new_display_is_dark() {
    let display = Display::new();
    assert_eq!(lit(&display), vec![]);
    assert_eq!(display.get_buffer().len(), 32);
    assert_eq!(display.get_buffer()[0].len(), 64);
}

#[test]
fn full_row_sprite_at_origin_lights_eight_pixels() {
    let mut display = Display::new();
    assert!(!display.draw_sprite(0, 0, &[0xFF]));
    assert_eq!(lit(&display), (0..8).map(|x| (x, 0)).collect::<Vec<_>>());
    assert!(display.draw_sprite(0, 0, &[0xFF]));
    assert_eq!(lit(&display), vec![]);
}

#[test]
fn most_significant_bit_is_leftmost() {
    let mut display = Display::new();
    assert!(!display.draw_sprite(10, 5, &[0b1000_0001, 0b0100_0000]));
    assert_eq!(lit(&display), vec![(10, 5), (17, 5), (11, 6)]);
}

#[test]
fn empty_sprite_draws_nothing() {
    let mut display = Display::new();
    display.draw_sprite(0, 0, &[0xFF]);
    assert!(!display.draw_sprite(0, 0, &[]));
    assert_eq!(lit(&display).len(), 8);
}

#[test]
fn zero_bits_leave_pixels_alone() {
    let mut display = Display::new();
    display.draw_sprite(0, 0, &[0xFF]);
    assert!(!display.draw_sprite(0, 0, &[0x00]));
    assert_eq!(lit(&display).len(), 8);
}

#[test]
fn anchor_wraps_around_the_display() {
    let mut display = Display::new();
    assert!(!display.draw_sprite(64 + 3, 32 + 2, &[0x80]));
    assert_eq!(lit(&display), vec![(3, 2)]);
    assert!(display.draw_sprite(3 + 128, 2 + 64, &[0x80]));
    assert_eq!(lit(&display), vec![]);
}

#[test]
fn sprite_is_clipped_at_the_right_edge() {
    let mut display = Display::new();
    assert!(!display.draw_sprite(60, 0, &[0xFF]));
    assert_eq!(lit(&display), vec![(60, 0), (61, 0), (62, 0), (63, 0)]);
}

#[test]
fn sprite_is_clipped_at_the_bottom_edge() {
    let mut display = Display::new();
    assert!(!display.draw_sprite(0, 30, &[0x80, 0x80, 0x80, 0x80]));
    assert_eq!(lit(&display), vec![(0, 30), (0, 31)]);
}

#[test]
fn sprite_is_clipped_at_the_corner() {
    let mut display = Display::new();
    assert!(!display.draw_sprite(63, 31, &[0xFF, 0xFF]));
    assert_eq!(lit(&display), vec![(63, 31)]);
}

#[test]
fn tall_sprite_is_accepted() {
    let mut display = Display::new();
    assert!(!display.draw_sprite(0, 0, &[0x80; 20]));
    assert_eq!(lit(&display), (0..20).map(|y| (0, y)).collect::<Vec<_>>());
    let mut other = Display::new();
    assert!(!other.draw_sprite(1, 0, &[0x80; 40]));
    assert_eq!(lit(&other).len(), 32);
}

#[test]
fn collision_needs_a_lit_pixel_to_go_dark() {
    let mut display = Display::new();
    assert!(!display.draw_sprite(0, 0, &[0b1010_0000]));
    assert!(!display.draw_sprite(0, 0, &[0b0101_0000]));
    assert_eq!(lit(&display), vec![(0, 0), (1, 0), (2, 0), (3, 0)]);
    assert!(display.draw_sprite(0, 0, &[0b0001_1000]));
    assert_eq!(lit(&display), vec![(0, 0), (1, 0), (2, 0), (4, 0)]);
}

#[test]
fn drawing_twice_restores_the_frame() {
    let mut display = Display::new();
    display.draw_sprite(5, 5, &[0x3C, 0x42, 0x81]);
    display.draw_sprite(58, 29, &[0xF0, 0x0F, 0xAA, 0x55]);
    let before = *display.get_buffer();
    let sprite = [0xFF, 0x18, 0x24, 0xC3, 0x01];
    let first = display.draw_sprite(3, 4, &sprite);
    assert!(first);
    let second = display.draw_sprite(3, 4, &sprite);
    assert!(second);
    assert_eq!(*display.get_buffer(), before);
}

#[test]
fn second_draw_on_dark_ground_collides() {
    let mut display = Display::new();
    assert!(!display.draw_sprite(20, 10, &[0x42]));
    assert!(display.draw_sprite(20, 10, &[0x42]));
    assert_eq!(lit(&display), vec![]);
}

#[test]
fn clear_turns_every_pixel_dark() {
    let mut display = Display::new();
    display.draw_sprite(0, 0, &[0xFF, 0xFF, 0xFF]);
    display.clear();
    assert_eq!(lit(&display), vec![]);
}
