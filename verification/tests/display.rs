//! Device core tests: dimensions, rotation, command streams.

use ssd1306::bus::BusOp;
use ssd1306::command::AddrMode;
use ssd1306::i2c_interface::{I2CDisplayInterface, I2CInterface};
use ssd1306::prelude::{DisplayRotation, DisplaySize};
use ssd1306::Ssd1306;

fn new_display(rotation: DisplayRotation) -> Ssd1306<I2CInterface<()>, ssd1306::mode::BasicMode> {
    Ssd1306::new(I2CDisplayInterface::new(()), DisplaySize::new_128x64(), rotation)
}

fn cmd(bytes: &[u8]) -> BusOp {
    let mut v = vec![0x00u8];
    v.extend_from_slice(bytes);
    BusOp::I2cWrite { addr: 0x3c, bytes: v }
}

#[test]
fn dimensions_follow_rotation() {
    assert_eq!(new_display(DisplayRotation::Rotate0).dimensions(), (128, 64));
    assert_eq!(new_display(DisplayRotation::Rotate180).dimensions(), (128, 64));
    assert_eq!(new_display(DisplayRotation::Rotate90).dimensions(), (64, 128));
    assert_eq!(new_display(DisplayRotation::Rotate270).dimensions(), (64, 128));
}

#[test]
fn rotation_getter() {
    let mut d = new_display(DisplayRotation::Rotate0);
    assert_eq!(d.rotation(), DisplayRotation::Rotate0);
    d.set_rotation(DisplayRotation::Rotate90).unwrap();
    assert_eq!(d.rotation(), DisplayRotation::Rotate90);
    assert_eq!(d.dimensions(), (64, 128));
}

#[test]
fn rotation_command_pairs() {
    let mut d = new_display(DisplayRotation::Rotate0);
    let pairs = [
        (DisplayRotation::Rotate0, 0xa1u8, 0xc8u8),
        (DisplayRotation::Rotate90, 0xa0, 0xc8),
        (DisplayRotation::Rotate180, 0xa0, 0xc0),
        (DisplayRotation::Rotate270, 0xa1, 0xc0),
    ];
    for (rotation, seg, com) in pairs {
        let ops = d.set_rotation(rotation).unwrap();
        assert_eq!(ops, vec![cmd(&[seg]), cmd(&[com])]);
    }
}

#[test]
fn mirror_command_pairs() {
    let mut d = new_display(DisplayRotation::Rotate0);
    let ops = d.set_mirror(true).unwrap();
    assert_eq!(ops, vec![cmd(&[0xa0]), cmd(&[0xc8])]);
    // Disabling the mirror reapplies the normal rotation pair.
    let ops = d.set_mirror(false).unwrap();
    assert_eq!(ops, vec![cmd(&[0xa1]), cmd(&[0xc8])]);
}

#[test]
fn init_sequence_is_fixed() {
    let mut d = new_display(DisplayRotation::Rotate0);
    let ops = d.init_with_addr_mode(AddrMode::Horizontal).unwrap();
    // Eight base commands, no internal reference on this panel, two
    // rotation commands, two brightness commands, five trailing commands.
    assert_eq!(ops.len(), 17);
    assert_eq!(ops[0], cmd(&[0xae]));
    assert_eq!(ops[1], cmd(&[0xd5, 0x80]));
    assert_eq!(ops[2], cmd(&[0xa8, 63]));
    assert_eq!(ops[3], cmd(&[0xd3, 0x00]));
    assert_eq!(ops[4], cmd(&[0x40]));
    assert_eq!(ops[5], cmd(&[0x8d, 0x14]));
    assert_eq!(ops[6], cmd(&[0x20, 0x00]));
    assert_eq!(ops[7], cmd(&[0xda, 0x12]));
    assert_eq!(ops[8], cmd(&[0xa1]));
    assert_eq!(ops[9], cmd(&[0xc8]));
    assert_eq!(ops[10], cmd(&[0xd9, 0x21]));
    assert_eq!(ops[11], cmd(&[0x81, 0x5f]));
    assert_eq!(ops[12], cmd(&[0xdb, 0x40]));
    assert_eq!(ops[13], cmd(&[0xa4]));
    assert_eq!(ops[14], cmd(&[0xa6]));
    assert_eq!(ops[15], cmd(&[0x2e]));
    assert_eq!(ops[16], cmd(&[0xaf]));
}

#[test]
fn init_with_internal_iref_panel() {
    let mut d = Ssd1306::new(
        I2CDisplayInterface::new(()),
        DisplaySize::new_72x40(),
        DisplayRotation::Rotate0,
    );
    let ops = d.init_with_addr_mode(AddrMode::Page).unwrap();
    assert_eq!(ops.len(), 18);
    assert_eq!(ops[2], cmd(&[0xa8, 39]));
    assert_eq!(ops[6], cmd(&[0x20, 0x02]));
    assert_eq!(ops[8], cmd(&[0xad, 0x30]));
}

#[test]
fn draw_area_outside_page_mode_sets_both_windows() {
    let mut d = new_display(DisplayRotation::Rotate0);
    d.set_addr_mode(AddrMode::Horizontal).unwrap();
    let ops = d.set_draw_area((4, 8), (68, 32)).unwrap();
    assert_eq!(ops, vec![cmd(&[0x21, 4, 67]), cmd(&[0x22, 1, 3])]);
}

#[test]
fn draw_area_in_page_mode_sets_columns_only() {
    // A fresh display starts in page addressing mode.
    let mut d = new_display(DisplayRotation::Rotate0);
    let ops = d.set_draw_area((4, 8), (68, 32)).unwrap();
    assert_eq!(ops, vec![cmd(&[0x21, 4, 67])]);
}

#[test]
fn column_and_row_pointers() {
    let mut d = new_display(DisplayRotation::Rotate0);
    let ops = d.set_column(0x12).unwrap();
    assert_eq!(ops, vec![cmd(&[0x02, 0x11])]);
    // The row is given in pixels; the page holding it is selected.
    let ops = d.set_row(26).unwrap();
    assert_eq!(ops, vec![cmd(&[0xb3])]);
}

#[test]
fn set_brightness_sends_precharge_then_contrast() {
    let mut d = new_display(DisplayRotation::Rotate0);
    let ops = d
        .set_brightness(ssd1306::brightness::Brightness::brightest())
        .unwrap();
    assert_eq!(ops, vec![cmd(&[0xd9, 0x21]), cmd(&[0x81, 0xff])]);
}

#[test]
fn set_display_on_off() {
    let mut d = new_display(DisplayRotation::Rotate0);
    assert_eq!(d.set_display_on(true).unwrap(), vec![cmd(&[0xaf])]);
    assert_eq!(d.set_display_on(false).unwrap(), vec![cmd(&[0xae])]);
}

#[test]
fn draw_chunks_data_through_the_transport() {
    let mut d = new_display(DisplayRotation::Rotate0);
    let payload: Vec<u8> = (0u8..20).collect();
    let ops = d.draw(&payload).unwrap();
    assert_eq!(ops.len(), 2);
    let mut first = vec![0x40u8];
    first.extend_from_slice(&payload[0..16]);
    assert_eq!(ops[0], BusOp::I2cWrite { addr: 0x3c, bytes: first });
}

#[test]
fn bounded_draw_sends_one_write_per_page_band() {
    let mut d = new_display(DisplayRotation::Rotate0);
    // Two pages of a 16-column buffer; the box spans columns 2..6 of both.
    let buffer: Vec<u8> = (0u8..32).collect();
    let ops = d.bounded_draw(&buffer, 16, (2, 0), (6, 15)).unwrap();
    assert_eq!(ops.len(), 2);
    assert_eq!(
        ops[0],
        BusOp::I2cWrite {
            addr: 0x3c,
            bytes: vec![0x40, 2, 3, 4, 5],
        }
    );
    assert_eq!(
        ops[1],
        BusOp::I2cWrite {
            addr: 0x3c,
            bytes: vec![0x40, 18, 19, 20, 21],
        }
    );
}

#[test]
fn basic_clear_blanks_the_whole_panel() {
    let mut d = new_display(DisplayRotation::Rotate0);
    let ops = d.clear().unwrap();
    // One column-address command (page mode), then 1024 zero bytes in
    // 16-byte chunks.
    assert_eq!(ops.len(), 1 + 64);
    assert_eq!(ops[0], cmd(&[0x21, 0, 127]));
    let mut blank = vec![0x40u8];
    blank.extend_from_slice(&[0u8; 16]);
    assert_eq!(ops[1], BusOp::I2cWrite { addr: 0x3c, bytes: blank });
}
