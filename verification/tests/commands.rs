//! Command encoding tests.

use ssd1306::command::{AddrMode, Command, VcomhLevel};

#[test]
fn display_on_off() {
    assert_eq!(Command::DisplayOn(true).bytes(), vec![0xaf]);
    assert_eq!(Command::DisplayOn(false).bytes(), vec![0xae]);
}

#[test]
fn clock_divider_packs_nibbles() {
    assert_eq!(Command::DisplayClockDiv(0x8, 0x0).bytes(), vec![0xd5, 0x80]);
}

#[test]
fn multiplex_and_offsets() {
    assert_eq!(Command::Multiplex(63).bytes(), vec![0xa8, 63]);
    assert_eq!(Command::DisplayOffset(0).bytes(), vec![0xd3, 0x00]);
    assert_eq!(Command::StartLine(0).bytes(), vec![0x40]);
    assert_eq!(Command::StartLine(5).bytes(), vec![0x45]);
}

#[test]
fn charge_pump() {
    assert_eq!(Command::ChargePump(true).bytes(), vec![0x8d, 0x14]);
    assert_eq!(Command::ChargePump(false).bytes(), vec![0x8d, 0x10]);
}

#[test]
fn addressing_modes() {
    assert_eq!(
        Command::AddressMode(AddrMode::Horizontal).bytes(),
        vec![0x20, 0x00]
    );
    assert_eq!(Command::AddressMode(AddrMode::Page).bytes(), vec![0x20, 0x02]);
}

#[test]
fn com_pin_config() {
    assert_eq!(Command::ComPinConfig(true, false).bytes(), vec![0xda, 0x12]);
    assert_eq!(Command::ComPinConfig(false, false).bytes(), vec![0xda, 0x02]);
    assert_eq!(Command::ComPinConfig(true, true).bytes(), vec![0xda, 0x32]);
}

#[test]
fn mirroring_pair() {
    assert_eq!(Command::SegmentRemap(true).bytes(), vec![0xa1]);
    assert_eq!(Command::SegmentRemap(false).bytes(), vec![0xa0]);
    assert_eq!(Command::ReverseComDir(true).bytes(), vec![0xc8]);
    assert_eq!(Command::ReverseComDir(false).bytes(), vec![0xc0]);
}

#[test]
fn brightness_pair() {
    assert_eq!(Command::PreChargePeriod(1, 2).bytes(), vec![0xd9, 0x21]);
    assert_eq!(Command::Contrast(0x5f).bytes(), vec![0x81, 0x5f]);
}

#[test]
fn vcomh_levels() {
    assert_eq!(
        Command::VcomhDeselect(VcomhLevel::V065).bytes(),
        vec![0xdb, 0x00]
    );
    assert_eq!(
        Command::VcomhDeselect(VcomhLevel::V077).bytes(),
        vec![0xdb, 0x20]
    );
    assert_eq!(
        Command::VcomhDeselect(VcomhLevel::V083).bytes(),
        vec![0xdb, 0x30]
    );
    assert_eq!(
        Command::VcomhDeselect(VcomhLevel::Auto).bytes(),
        vec![0xdb, 0x40]
    );
}

#[test]
fn panel_state_toggles() {
    assert_eq!(Command::AllOn(false).bytes(), vec![0xa4]);
    assert_eq!(Command::AllOn(true).bytes(), vec![0xa5]);
    assert_eq!(Command::Invert(false).bytes(), vec![0xa6]);
    assert_eq!(Command::Invert(true).bytes(), vec![0xa7]);
    assert_eq!(Command::EnableScroll(false).bytes(), vec![0x2e]);
    assert_eq!(Command::EnableScroll(true).bytes(), vec![0x2f]);
}

#[test]
fn window_addresses() {
    assert_eq!(Command::ColumnAddress(3, 120).bytes(), vec![0x21, 3, 120]);
    assert_eq!(Command::PageAddress(0, 7).bytes(), vec![0x22, 0, 7]);
}

#[test]
fn page_mode_pointer_commands() {
    // Column 0x12: lower nibble then upper nibble.
    assert_eq!(Command::ColStart(0x12).bytes(), vec![0x02, 0x11]);
    assert_eq!(Command::PageStart(3).bytes(), vec![0xb3]);
    assert_eq!(Command::PageStart(0).bytes(), vec![0xb0]);
}
