//! Controller commands and their wire encoding.

use vstd::prelude::*;

verus! {

/// Write-pointer addressing mode of the controller.
#[derive(Clone, Copy, Debug, PartialEq, Eq, Structural)]
pub enum AddrMode {
    /// The write pointer auto-increments within one 8-pixel page band.
    Page,
    /// The write pointer auto-increments across the whole addressed
    /// rectangle, wrapping page bands automatically.
    Horizontal,
}

/// VCOMH deselect voltage level.
#[derive(Clone, Copy, Debug, PartialEq, Eq, Structural)]
pub enum VcomhLevel {
    /// 0.65 * Vcc.
    V065,
    /// 0.77 * Vcc.
    V077,
    /// 0.83 * Vcc.
    V083,
    /// Automatic selection.
    Auto,
}

impl VcomhLevel {
    /// The level bits placed into the upper nibble of the command argument.
    pub open spec fn spec_nibble(self) -> u8 {
        match self {
            VcomhLevel::V065 => 0x0,
            VcomhLevel::V077 => 0x2,
            VcomhLevel::V083 => 0x3,
            VcomhLevel::Auto => 0x4,
        }
    }
}

/// A controller command, by meaning rather than by wire bytes.
#[derive(Clone, Copy, Debug, PartialEq, Eq, Structural)]
pub enum Command {
    /// Turn the whole display on or off.
    DisplayOn(bool),
    /// Set the clock divide ratio (low nibble) and oscillator frequency
    /// (high nibble).
    DisplayClockDiv(u8, u8),
    /// Set the multiplex ratio (number of active rows minus one).
    Multiplex(u8),
    /// Set the vertical display offset in COM lines.
    DisplayOffset(u8),
    /// Set the display RAM start line (0 to 63).
    StartLine(u8),
    /// Enable or disable the internal charge pump.
    ChargePump(bool),
    /// Select the write-pointer addressing mode.
    AddressMode(AddrMode),
    /// Configure COM pin layout: alternating rows, left/right remap.
    ComPinConfig(bool, bool),
    /// Configure the internal current reference: enabled, high current.
    InternalIref(bool, bool),
    /// Map column address 0 to the last segment (true) or the first (false).
    SegmentRemap(bool),
    /// Scan COM outputs in reverse order (true) or forward order (false).
    ReverseComDir(bool),
    /// Set the pre-charge period: phase 1 (low nibble), phase 2 (high nibble).
    PreChargePeriod(u8, u8),
    /// Set the contrast (brightness) value.
    Contrast(u8),
    /// Select the VCOMH deselect level.
    VcomhDeselect(VcomhLevel),
    /// Light every pixel regardless of display RAM (true), or show RAM
    /// contents (false).
    AllOn(bool),
    /// Invert the displayed image.
    Invert(bool),
    /// Enable or disable scrolling.
    EnableScroll(bool),
    /// Set the column address window: first and last column.
    ColumnAddress(u8, u8),
    /// Set the page address window: first and last page.
    PageAddress(u8, u8),
    /// Set the write pointer to the given column (page addressing mode).
    ColStart(u8),
    /// Set the write pointer to the given page, 0 to 7 (page addressing
    /// mode).
    PageStart(u8),
}

impl Command {
    /// The wire bytes of the command.
    pub open spec fn spec_bytes(self) -> Seq<u8> {
        match self {
            Command::DisplayOn(on) => seq![if on { 0xafu8 } else { 0xaeu8 }],
            Command::DisplayClockDiv(freq, div) => seq![
                0xd5u8,
                (((freq & 0xf) << 4) | (div & 0xf)) as u8,
            ],
            Command::Multiplex(ratio) => seq![0xa8u8, ratio],
            Command::DisplayOffset(offset) => seq![0xd3u8, offset],
            Command::StartLine(line) => seq![(0x40 | (line & 0x3f)) as u8],
            Command::ChargePump(on) => seq![0x8du8, if on { 0x14u8 } else { 0x10u8 }],
            Command::AddressMode(mode) => seq![
                0x20u8,
                match mode {
                    AddrMode::Horizontal => 0x00u8,
                    AddrMode::Page => 0x02u8,
                },
            ],
            Command::ComPinConfig(alt, lr) => seq![
                0xdau8,
                (0x02 | (if alt { 0x10u8 } else { 0x00u8 }) | (if lr { 0x20u8 } else { 0x00u8 })) as u8,
            ],
            Command::InternalIref(on, current) => seq![
                0xadu8,
                ((if on { 0x10u8 } else { 0x00u8 }) | (if current { 0x20u8 } else { 0x00u8 })) as u8,
            ],
            Command::SegmentRemap(remap) => seq![if remap { 0xa1u8 } else { 0xa0u8 }],
            Command::ReverseComDir(reverse) => seq![if reverse { 0xc8u8 } else { 0xc0u8 }],
            Command::PreChargePeriod(phase1, phase2) => seq![
                0xd9u8,
                ((phase1 & 0xf) | ((phase2 & 0xf) << 4)) as u8,
            ],
            Command::Contrast(contrast) => seq![0x81u8, contrast],
            Command::VcomhDeselect(level) => seq![0xdbu8, (level.spec_nibble() << 4) as u8],
            Command::AllOn(on) => seq![if on { 0xa5u8 } else { 0xa4u8 }],
            Command::Invert(invert) => seq![if invert { 0xa7u8 } else { 0xa6u8 }],
            Command::EnableScroll(on) => seq![if on { 0x2fu8 } else { 0x2eu8 }],
            Command::ColumnAddress(start, end) => seq![0x21u8, start, end],
            Command::PageAddress(start, end) => seq![0x22u8, start, end],
            Command::ColStart(column) => seq![(column & 0xf) as u8, (0x10 | (column >> 4)) as u8],
            Command::PageStart(page) => seq![(0xb0 | (page & 0x7)) as u8],
        }
    }

    /// A command encodes to at most three bytes.
    pub proof fn lemma_bytes_len(self)
        ensures
            1 <= self.spec_bytes().len() <= 3,
    {
    }

    /// Encode the command into its wire bytes.
    pub fn bytes(&self) -> (r: Vec<u8>)
        ensures
            r@ == self.spec_bytes(),
    {
        let mut out: Vec<u8> = Vec::new();
        match *self {
            Command::DisplayOn(on) => {
                out.push(if on { 0xaf } else { 0xae });
            },
            Command::DisplayClockDiv(freq, div) => {
                out.push(0xd5);
                out.push(((freq & 0xf) << 4) | (div & 0xf));
            },
            Command::Multiplex(ratio) => {
                out.push(0xa8);
                out.push(ratio);
            },
            Command::DisplayOffset(offset) => {
                out.push(0xd3);
                out.push(offset);
            },
            Command::StartLine(line) => {
                out.push(0x40 | (line & 0x3f));
            },
            Command::ChargePump(on) => {
                out.push(0x8d);
                out.push(if on { 0x14 } else { 0x10 });
            },
            Command::AddressMode(mode) => {
                out.push(0x20);
                out.push(
                    match mode {
                        AddrMode::Horizontal => 0x00,
                        AddrMode::Page => 0x02,
                    },
                );
            },
            Command::ComPinConfig(alt, lr) => {
                out.push(0xda);
                out.push(0x02 | (if alt { 0x10 } else { 0x00 }) | (if lr { 0x20 } else { 0x00 }));
            },
            Command::InternalIref(on, current) => {
                out.push(0xad);
                out.push((if on { 0x10 } else { 0x00 }) | (if current { 0x20 } else { 0x00 }));
            },
            Command::SegmentRemap(remap) => {
                out.push(if remap { 0xa1 } else { 0xa0 });
            },
            Command::ReverseComDir(reverse) => {
                out.push(if reverse { 0xc8 } else { 0xc0 });
            },
            Command::PreChargePeriod(phase1, phase2) => {
                out.push(0xd9);
                out.push((phase1 & 0xf) | ((phase2 & 0xf) << 4));
            },
            Command::Contrast(contrast) => {
                out.push(0x81);
                out.push(contrast);
            },
            Command::VcomhDeselect(level) => {
                out.push(0xdb);
                let nibble: u8 = match level {
                    VcomhLevel::V065 => 0x0,
                    VcomhLevel::V077 => 0x2,
                    VcomhLevel::V083 => 0x3,
                    VcomhLevel::Auto => 0x4,
                };
                out.push(nibble << 4);
            },
            Command::AllOn(on) => {
                out.push(if on { 0xa5 } else { 0xa4 });
            },
            Command::Invert(invert) => {
                out.push(if invert { 0xa7 } else { 0xa6 });
            },
            Command::EnableScroll(on) => {
                out.push(if on { 0x2f } else { 0x2e });
            },
            Command::ColumnAddress(start, end) => {
                out.push(0x21);
                out.push(start);
                out.push(end);
            },
            Command::PageAddress(start, end) => {
                out.push(0x22);
                out.push(start);
                out.push(end);
            },
            Command::ColStart(column) => {
                out.push(column & 0xf);
                out.push(0x10 | (column >> 4));
            },
            Command::PageStart(page) => {
                out.push(0xb0 | (page & 0x7));
            },
        }
        assert(out@ =~= self.spec_bytes());
        out
    }
}

} // verus!
