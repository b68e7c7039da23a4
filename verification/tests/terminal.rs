//! Terminal mode tests: cursor, glyphs, printing, clearing.

use ssd1306::bus::BusOp;
use ssd1306::i2c_interface::{I2CDisplayInterface, I2CInterface};
use ssd1306::prelude::{DisplayRotation, DisplaySize, TerminalDisplaySize};
use ssd1306::terminal::{Cursor, TerminalMode, TerminalModeError};
use ssd1306::Ssd1306;

fn new_term(rotation: DisplayRotation) -> Ssd1306<I2CInterface<()>, TerminalMode> {
    Ssd1306::new(I2CDisplayInterface::new(()), DisplaySize::new_128x64(), rotation)
        .into_terminal_mode()
}

fn cmd(bytes: &[u8]) -> BusOp {
    let mut v = vec![0x00u8];
    v.extend_from_slice(bytes);
    BusOp::I2cWrite { addr: 0x3c, bytes: v }
}

#[test]
fn operations_fail_before_initialization() {
    let mut d = new_term(DisplayRotation::Rotate0);
    assert_eq!(d.position().unwrap_err(), TerminalModeError::Uninitialized);
    assert_eq!(
        d.print_char('x').unwrap_err(),
        TerminalModeError::Uninitialized
    );
    assert_eq!(
        d.set_position(0, 0).unwrap_err(),
        TerminalModeError::Uninitialized
    );
}

#[test]
fn sixteen_characters_wrap_to_the_next_row() {
    let mut d = new_term(DisplayRotation::Rotate0);
    d.init().unwrap();
    for _ in 0..16 {
        d.print_char('A').unwrap();
    }
    assert_eq!(d.position().unwrap(), (0, 1));
}

#[test]
fn a_full_screen_of_characters_wraps_to_the_origin() {
    let mut d = new_term(DisplayRotation::Rotate0);
    d.init().unwrap();
    for _ in 0..128 {
        d.print_char('A').unwrap();
    }
    assert_eq!(d.position().unwrap(), (0, 0));
}

#[test]
fn set_position_rejects_out_of_bounds_and_keeps_the_cursor() {
    let mut d = new_term(DisplayRotation::Rotate0);
    d.init().unwrap();
    d.set_position(3, 2).unwrap();
    assert_eq!(
        d.set_position(16, 0).unwrap_err(),
        TerminalModeError::OutOfBounds
    );
    assert_eq!(
        d.set_position(0, 8).unwrap_err(),
        TerminalModeError::OutOfBounds
    );
    assert_eq!(d.position().unwrap(), (3, 2));
}

#[test]
fn set_position_moves_the_hardware_pointer() {
    let mut d = new_term(DisplayRotation::Rotate0);
    d.init().unwrap();
    let ops = d.set_position(2, 3).unwrap();
    // Column 16 (lower nibble 0, upper nibble 1), page 3.
    assert_eq!(ops, vec![cmd(&[0x00, 0x11]), cmd(&[0xb3])]);
    assert_eq!(d.position().unwrap(), (2, 3));
}

#[test]
fn newline_moves_to_the_next_row() {
    let mut d = new_term(DisplayRotation::Rotate0);
    d.init().unwrap();
    d.print_char('A').unwrap();
    let ops = d.print_char('\n').unwrap();
    assert_eq!(d.position().unwrap(), (0, 1));
    assert_eq!(ops, vec![cmd(&[0x00, 0x10]), cmd(&[0xb1])]);
}

#[test]
fn newline_wraps_from_the_last_row() {
    let mut d = new_term(DisplayRotation::Rotate0);
    d.init().unwrap();
    for _ in 0..7 {
        d.print_char('\n').unwrap();
    }
    assert_eq!(d.position().unwrap(), (0, 7));
    d.print_char('\n').unwrap();
    assert_eq!(d.position().unwrap(), (0, 0));
}

#[test]
fn carriage_return_keeps_the_row() {
    let mut d = new_term(DisplayRotation::Rotate0);
    d.init().unwrap();
    d.print_char('\n').unwrap();
    d.print_char('A').unwrap();
    d.print_char('B').unwrap();
    let ops = d.print_char('\r').unwrap();
    assert_eq!(d.position().unwrap(), (0, 1));
    // The hardware pointer is repositioned like set_position: column and
    // page commands for cell (0, 1).
    assert_eq!(ops, vec![cmd(&[0x00, 0x10]), cmd(&[0xb1])]);
}

#[test]
fn newline_applies_the_panel_offset() {
    // A 72x40 panel sits 28 driver columns in; the newline reposition must
    // carry that offset, exactly as set_position does.
    let mut d = Ssd1306::new(
        I2CDisplayInterface::new(()),
        DisplaySize::new_72x40(),
        DisplayRotation::Rotate0,
    )
    .into_terminal_mode();
    d.init().unwrap();
    let ops = d.print_char('\n').unwrap();
    // Column 28: lower nibble 0xc, upper nibble 0x1; page 1.
    assert_eq!(ops, vec![cmd(&[0x0c, 0x11]), cmd(&[0xb1])]);
    assert_eq!(d.position().unwrap(), (0, 1));
}

#[test]
fn printing_draws_the_glyph_and_advances() {
    let mut d = new_term(DisplayRotation::Rotate0);
    d.init().unwrap();
    let ops = d.print_char('A').unwrap();
    // One data write of the glyph, then the two pointer commands for the
    // advanced cursor at (1, 0).
    let mut glyph = vec![0x40u8];
    glyph.extend_from_slice(&[0x00, 0x3e, 0x09, 0x09, 0x09, 0x09, 0x3e, 0x00]);
    assert_eq!(ops.len(), 3);
    assert_eq!(ops[0], BusOp::I2cWrite { addr: 0x3c, bytes: glyph });
    assert_eq!(ops[1], cmd(&[0x08, 0x10]));
    assert_eq!(ops[2], cmd(&[0xb0]));
    assert_eq!(d.position().unwrap(), (1, 0));
}

#[test]
fn unmapped_characters_render_blank() {
    let glyph = Ssd1306::<I2CInterface<()>, TerminalMode>::char_to_bitmap('\u{7f}');
    assert_eq!(glyph, vec![0u8; 8]);
    let glyph = Ssd1306::<I2CInterface<()>, TerminalMode>::char_to_bitmap(' ');
    assert_eq!(glyph, vec![0u8; 8]);
}

#[test]
fn known_glyphs_match_the_table() {
    let bang = Ssd1306::<I2CInterface<()>, TerminalMode>::char_to_bitmap('!');
    assert_eq!(bang, vec![0x00, 0x00, 0x2f, 0x00, 0x00, 0x00, 0x00, 0x00]);
    let tilde = Ssd1306::<I2CInterface<()>, TerminalMode>::char_to_bitmap('~');
    assert_eq!(tilde, vec![0x00, 0x02, 0x01, 0x02, 0x01, 0x00, 0x00, 0x00]);
}

#[test]
fn rotate_bitmap_transposes_bits() {
    // Bit 7 of column 0 moves to bit 0 of column 7.
    let input = vec![0x80u8, 0, 0, 0, 0, 0, 0, 0];
    let out = Ssd1306::<I2CInterface<()>, TerminalMode>::rotate_bitmap(&input);
    assert_eq!(out, vec![0, 0, 0, 0, 0, 0, 0, 0x01]);
    // Bit 0 of column 3 moves to bit 3 of column 0.
    let input = vec![0, 0, 0, 0x01u8, 0, 0, 0, 0];
    let out = Ssd1306::<I2CInterface<()>, TerminalMode>::rotate_bitmap(&input);
    assert_eq!(out, vec![0x08, 0, 0, 0, 0, 0, 0, 0]);
}

#[test]
fn printing_rotated_uses_the_transposed_glyph() {
    let mut d = new_term(DisplayRotation::Rotate90);
    d.init().unwrap();
    let ops = d.print_char('A').unwrap();
    let glyph = Ssd1306::<I2CInterface<()>, TerminalMode>::char_to_bitmap('A');
    let rotated = Ssd1306::<I2CInterface<()>, TerminalMode>::rotate_bitmap(&glyph);
    let mut expected = vec![0x40u8];
    expected.extend_from_slice(&rotated);
    assert_eq!(ops[0], BusOp::I2cWrite { addr: 0x3c, bytes: expected });
}

#[test]
fn clear_blanks_every_cell_and_resets_the_cursor() {
    let mut d = new_term(DisplayRotation::Rotate0);
    d.init().unwrap();
    d.set_position(5, 5).unwrap();
    let ops = d.clear().unwrap();
    // Horizontal mode on, window, 128 blank cells, page mode, two pointer
    // commands.
    assert_eq!(ops.len(), 1 + 2 + 128 + 1 + 2);
    assert_eq!(ops[0], cmd(&[0x20, 0x00]));
    assert_eq!(ops[1], cmd(&[0x21, 0, 127]));
    assert_eq!(ops[2], cmd(&[0x22, 0, 7]));
    let mut blank = vec![0x40u8];
    blank.extend_from_slice(&[0u8; 8]);
    assert_eq!(ops[3], BusOp::I2cWrite { addr: 0x3c, bytes: blank });
    assert_eq!(ops[131], cmd(&[0x20, 0x02]));
    assert_eq!(d.position().unwrap(), (0, 0));
}

#[test]
fn char_num_counts_cells() {
    assert_eq!(DisplaySize::new_128x64().char_num(), 128);
    assert_eq!(DisplaySize::new_128x32().char_num(), 64);
    assert_eq!(DisplaySize::new_96x16().char_num(), 24);
    assert_eq!(DisplaySize::new_72x40().char_num(), 45);
    assert_eq!(DisplaySize::new_64x48().char_num(), 48);
}

#[test]
fn cursor_advances_and_wraps() {
    let mut c = Cursor::new(128, 64);
    assert_eq!(c.get_dimensions(), (16, 8));
    assert_eq!(c.get_position(), (0, 0));
    for _ in 0..15 {
        assert!(c.advance().is_none());
    }
    let wrap = c.advance();
    assert!(wrap.is_some());
    assert_eq!(wrap.unwrap().0, 1);
    assert_eq!(c.get_position(), (0, 1));
}

#[test]
fn cursor_advance_line_wraps_the_screen() {
    let mut c = Cursor::new(128, 64);
    for expected in [1, 2, 3, 4, 5, 6, 7, 0] {
        let ev = c.advance_line();
        assert_eq!(ev.0, expected);
    }
    assert_eq!(c.get_position(), (0, 0));
}

#[test]
fn cursor_set_position_caps_at_the_grid() {
    let mut c = Cursor::new(128, 64);
    c.set_position(200, 200);
    assert_eq!(c.get_position(), (15, 7));
    c.set_position(3, 4);
    assert_eq!(c.get_position(), (3, 4));
}
