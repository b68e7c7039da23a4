//! Panel geometry.

use crate::command::Command;
use vstd::prelude::*;

verus! {

/// Geometry of one panel model, fixed at construction.
///
/// The controller always drives `driver_cols` columns; a panel narrower than
/// that is wired to a window of them starting at `offset_x`.
#[derive(Clone, Copy, Debug, PartialEq, Eq, Structural)]
pub struct DisplaySize {
    /// Logical width in pixels, before rotation.
    pub width: u8,
    /// Logical height in pixels, before rotation.
    pub height: u8,
    /// First driver column wired to the panel.
    pub offset_x: u8,
    /// First COM line wired to the panel.
    pub offset_y: u8,
    /// Number of columns the driver chip addresses.
    pub driver_cols: u8,
    /// COM pin configuration: alternating rows.
    pub com_pin_alt: bool,
    /// COM pin configuration: left/right remap.
    pub com_pin_lr: bool,
    /// Whether initialization configures the internal current reference.
    pub internal_iref: bool,
}

impl DisplaySize {
    /// Well-formed geometry: dimensions are positive multiples of eight and
    /// the panel window fits inside the driver's address space.
    pub open spec fn wf(self) -> bool {
        &&& 8 <= self.width
        &&& self.width % 8 == 0
        &&& 8 <= self.height
        &&& self.height % 8 == 0
        &&& self.offset_x + self.width <= self.driver_cols
        &&& self.driver_cols <= 128
        &&& self.offset_y + self.height <= 64
    }

    /// The COM pin configuration command for this panel.
    pub open spec fn spec_com_pin_command(self) -> Command {
        Command::ComPinConfig(self.com_pin_alt, self.com_pin_lr)
    }

    /// A 128 by 64 pixel panel.
    pub fn new_128x64() -> (r: Self)
        ensures
            r.wf(),
            r.width == 128 && r.height == 64,
            r.offset_x == 0 && r.offset_y == 0 && r.driver_cols == 128,
    {
        DisplaySize {
            width: 128,
            height: 64,
            offset_x: 0,
            offset_y: 0,
            driver_cols: 128,
            com_pin_alt: true,
            com_pin_lr: false,
            internal_iref: false,
        }
    }

    /// A 128 by 32 pixel panel.
    pub fn new_128x32() -> (r: Self)
        ensures
            r.wf(),
            r.width == 128 && r.height == 32,
            r.offset_x == 0 && r.offset_y == 0 && r.driver_cols == 128,
    {
        DisplaySize {
            width: 128,
            height: 32,
            offset_x: 0,
            offset_y: 0,
            driver_cols: 128,
            com_pin_alt: false,
            com_pin_lr: false,
            internal_iref: false,
        }
    }

    /// A 96 by 16 pixel panel.
    pub fn new_96x16() -> (r: Self)
        ensures
            r.wf(),
            r.width == 96 && r.height == 16,
            r.offset_x == 32 && r.offset_y == 0 && r.driver_cols == 128,
    {
        DisplaySize {
            width: 96,
            height: 16,
            offset_x: 32,
            offset_y: 0,
            driver_cols: 128,
            com_pin_alt: false,
            com_pin_lr: false,
            internal_iref: false,
        }
    }

    /// A 72 by 40 pixel panel.
    pub fn new_72x40() -> (r: Self)
        ensures
            r.wf(),
            r.width == 72 && r.height == 40,
            r.offset_x == 28 && r.offset_y == 0 && r.driver_cols == 128,
    {
        DisplaySize {
            width: 72,
            height: 40,
            offset_x: 28,
            offset_y: 0,
            driver_cols: 128,
            com_pin_alt: true,
            com_pin_lr: false,
            internal_iref: true,
        }
    }

    /// A 64 by 48 pixel panel.
    pub fn new_64x48() -> (r: Self)
        ensures
            r.wf(),
            r.width == 64 && r.height == 48,
            r.offset_x == 32 && r.offset_y == 0 && r.driver_cols == 128,
    {
        DisplaySize {
            width: 64,
            height: 48,
            offset_x: 32,
            offset_y: 0,
            driver_cols: 128,
            com_pin_alt: true,
            com_pin_lr: false,
            internal_iref: false,
        }
    }
}

} // verus!
