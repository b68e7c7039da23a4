//! Buffered graphics mode tests: dirty-rectangle tracking and flushing.

use ssd1306::buffered_graphics::BufferedGraphicsMode;
use ssd1306::mode::DisplayConfig;
use ssd1306::bus::BusOp;
use ssd1306::i2c_interface::{I2CDisplayInterface, I2CInterface};
use ssd1306::prelude::{DisplayRotation, DisplaySize};
use ssd1306::Ssd1306;

fn new_gfx(rotation: DisplayRotation) -> Ssd1306<I2CInterface<()>, BufferedGraphicsMode> {
    Ssd1306::new(I2CDisplayInterface::new(()), DisplaySize::new_128x64(), rotation)
        .into_buffered_graphics_mode()
}

fn cmd(bytes: &[u8]) -> BusOp {
    let mut v = vec![0x00u8];
    v.extend_from_slice(bytes);
    BusOp::I2cWrite { addr: 0x3c, bytes: v }
}

fn data(bytes: &[u8]) -> BusOp {
    let mut v = vec![0x40u8];
    v.extend_from_slice(bytes);
    BusOp::I2cWrite { addr: 0x3c, bytes: v }
}

#[test]
fn flush_covers_only_the_dirty_region() {
    let mut d = new_gfx(DisplayRotation::Rotate0);
    d.init().unwrap();
    d.flush().unwrap(); // repaint after init's full-screen clear
    d.set_pixel(0, 0, true);
    let ops = d.flush().unwrap();
    // Horizontal mode: a column window, a page window, then one band byte.
    assert_eq!(ops, vec![cmd(&[0x21, 0, 0]), cmd(&[0x22, 0, 0]), data(&[0x01])]);
}

#[test]
fn flush_twice_issues_no_transactions_the_second_time() {
    let mut d = new_gfx(DisplayRotation::Rotate0);
    d.init().unwrap();
    d.set_pixel(10, 10, true);
    let first = d.flush().unwrap();
    assert!(!first.is_empty());
    let second = d.flush().unwrap();
    assert!(second.is_empty());
}

#[test]
fn clear_dirties_the_full_rectangle() {
    let mut d = new_gfx(DisplayRotation::Rotate0);
    d.init().unwrap();
    d.flush().unwrap();
    d.clear();
    let ops = d.flush().unwrap();
    // The window covers every column and every page; then 64 chunks of
    // zeros per page band follow (128 bytes per band, 16 bytes per chunk).
    assert_eq!(ops[0], cmd(&[0x21, 0, 127]));
    assert_eq!(ops[1], cmd(&[0x22, 0, 7]));
    assert_eq!(ops.len(), 2 + 8 * 8);
    for op in &ops[2..] {
        assert_eq!(op, &data(&[0u8; 16]));
    }
}

#[test]
fn out_of_bounds_pixels_are_ignored() {
    let mut d = new_gfx(DisplayRotation::Rotate0);
    d.init().unwrap();
    d.flush().unwrap();
    d.set_pixel(128, 0, true);
    d.set_pixel(0, 64, true);
    d.set_pixel(4000, 4000, true);
    let ops = d.flush().unwrap();
    assert!(ops.is_empty());
}

#[test]
fn setting_and_clearing_a_pixel_restores_the_byte() {
    let mut d = new_gfx(DisplayRotation::Rotate0);
    d.init().unwrap();
    d.flush().unwrap();
    d.set_pixel(5, 3, true);
    let first = d.flush().unwrap();
    assert_eq!(first, vec![cmd(&[0x21, 5, 5]), cmd(&[0x22, 0, 0]), data(&[0x08])]);
    d.set_pixel(5, 3, false);
    let second = d.flush().unwrap();
    // The byte went back to its prior all-clear value.
    assert_eq!(second, vec![cmd(&[0x21, 5, 5]), cmd(&[0x22, 0, 0]), data(&[0x00])]);
}

#[test]
fn pixels_transpose_at_ninety_degrees() {
    let mut d = new_gfx(DisplayRotation::Rotate90);
    d.init().unwrap();
    d.flush().unwrap();
    assert_eq!(d.dimensions(), (64, 128));
    d.set_pixel(0, 0, true);
    let ops = d.flush().unwrap();
    assert_eq!(ops, vec![cmd(&[0x21, 0, 0]), cmd(&[0x22, 0, 0]), data(&[0x01])]);
}

#[test]
fn dirty_rectangle_grows_with_pixels() {
    let mut d = new_gfx(DisplayRotation::Rotate0);
    d.init().unwrap();
    d.flush().unwrap();
    d.set_pixel(8, 0, true);
    d.set_pixel(10, 14, true);
    let ops = d.flush().unwrap();
    // Columns 8..=10, pages 0..=1, two bands of three bytes each.
    assert_eq!(ops[0], cmd(&[0x21, 8, 10]));
    assert_eq!(ops[1], cmd(&[0x22, 0, 1]));
    assert_eq!(ops[2], data(&[0x01, 0, 0]));
    assert_eq!(ops[3], data(&[0, 0, 0x40]));
    assert_eq!(ops.len(), 4);
}

#[test]
fn rotating_marks_the_full_rectangle_dirty() {
    let mut d = new_gfx(DisplayRotation::Rotate0);
    d.init().unwrap();
    d.flush().unwrap();
    DisplayConfig::set_rotation(&mut d, DisplayRotation::Rotate90).unwrap();
    let ops = d.flush().unwrap();
    // The next flush repaints the whole screen under the new rotation.
    assert_eq!(ops[0], cmd(&[0x21, 0, 127]));
    assert_eq!(ops[1], cmd(&[0x22, 0, 7]));
    assert_eq!(ops.len(), 2 + 8 * 8);
}

#[test]
fn init_emits_the_fixed_sequence_in_horizontal_mode() {
    let mut d = new_gfx(DisplayRotation::Rotate0);
    let ops = d.init().unwrap();
    assert_eq!(ops.len(), 17);
    assert_eq!(ops[6], cmd(&[0x20, 0x00]));
}
