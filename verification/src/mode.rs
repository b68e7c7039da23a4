//! Display modes.

use crate::buffered_graphics::BufferedGraphicsMode;
use crate::bus::{BusOp, BusOpModel};
use crate::command::AddrMode;
use crate::rotation::DisplayRotation;
use crate::terminal::{TerminalMode, TerminalModeError};
use crate::{spec_draw_area_ops, spec_init_ops, DisplayError, Ssd1306, WriteOnlyDataCommand};
use vstd::prelude::*;

verus! {

/// A mode with no functionality beyond that of the base [`crate::Ssd1306`]
/// driver.
#[derive(Debug, Copy, Clone, PartialEq, Eq, Structural)]
pub struct BasicMode;

/// An all-zero byte sequence.
pub open spec fn spec_zeros(n: int) -> Seq<u8> {
    Seq::new(n as nat, |i: int| 0u8)
}

/// Common configuration entry points of all display modes.
pub trait DisplayConfig: Sized {
    /// The mode's error type.
    type Error;

    /// When the display is ready for configuration calls.
    spec fn config_wf(&self) -> bool;

    /// Set the display rotation.
    fn set_rotation(&mut self, rotation: DisplayRotation) -> (r: Result<Vec<BusOp>, Self::Error>)
        requires
            old(self).config_wf(),
        ensures
            final(self).config_wf(),
    ;

    /// Initialize and configure the display for the mode.
    fn init(&mut self) -> (r: Result<Vec<BusOp>, Self::Error>)
        requires
            old(self).config_wf(),
        ensures
            final(self).config_wf(),
    ;
}

impl<DI: WriteOnlyDataCommand> Ssd1306<DI, BasicMode> {
    /// Clear the whole display: address the full visible rectangle and
    /// write zero bytes across it.
    pub fn clear(&mut self) -> (r: Result<Vec<BusOp>, DisplayError>)
        requires
            old(self).wf(),
        ensures
            *final(self) == *old(self),
            r matches Ok(ops) && ops.deep_view() == spec_draw_area_ops(
                old(self).interface,
                old(self).addr_mode,
                (0, 0),
                old(self).spec_dimensions(),
            ) + old(self).interface.data_ops(
                spec_zeros(old(self).size.width * old(self).size.height / 8),
            ),
    {
        let dims = self.dimensions();
        let mut ops = self.set_draw_area((0, 0), dims)?;
        proof {
            assert((self.size.width as int) * (self.size.height as int) <= 128 * 64) by (
            nonlinear_arith)
                requires
                    self.size.width <= 128,
                    self.size.height <= 64,
            ;
        }
        let len: usize = (self.size.width as usize) * (self.size.height as usize) / 8;
        let mut zeros: Vec<u8> = Vec::new();
        let mut i: usize = 0;
        while i < len
            invariant
                i <= len,
                zeros@.len() == i,
                forall|j: int| 0 <= j < i ==> zeros@[j] == 0u8,
            decreases len - i,
        {
            zeros.push(0u8);
            i = i + 1;
        }
        proof {
            assert(zeros@ =~= spec_zeros(
                old(self).size.width * old(self).size.height / 8,
            ));
        }
        let mut data = self.draw(zeros.as_slice())?;
        let ghost pre = ops.deep_view();
        let ghost dpre = data.deep_view();
        ops.append(&mut data);
        proof {
            assert(ops.deep_view() =~= pre + dpre);
        }
        Ok(ops)
    }
}

impl<DI: WriteOnlyDataCommand> DisplayConfig for Ssd1306<DI, BasicMode> {
    type Error = DisplayError;

    /// A basic display is ready whenever its geometry is sound.
    open spec fn config_wf(&self) -> bool {
        self.wf()
    }

    /// Set the display rotation.
    fn set_rotation(&mut self, rotation: DisplayRotation) -> (r: Result<Vec<BusOp>, Self::Error>)
        ensures
            final(self).rotation == rotation,
            r matches Ok(ops) && ops.deep_view() == crate::spec_rotation_ops(
                old(self).interface,
                rotation,
            ),
    {
        self.apply_rotation(rotation)
    }

    /// Initialize in horizontal addressing mode.
    fn init(&mut self) -> (r: Result<Vec<BusOp>, Self::Error>)
        ensures
            final(self).addr_mode == AddrMode::Horizontal,
            r matches Ok(ops) && ops.deep_view() == spec_init_ops(
                old(self).interface,
                old(self).size,
                old(self).rotation,
                AddrMode::Horizontal,
            ),
    {
        self.init_with_addr_mode(AddrMode::Horizontal)
    }
}

impl<DI: WriteOnlyDataCommand> DisplayConfig for Ssd1306<DI, BufferedGraphicsMode> {
    type Error = DisplayError;

    /// A buffered display is ready when its framebuffer and dirty bounds
    /// are sound.
    open spec fn config_wf(&self) -> bool {
        self.gfx_wf()
    }

    /// Set the display rotation and mark the full visible rectangle dirty,
    /// so that the next flush repaints the screen under the new rotation.
    fn set_rotation(&mut self, rotation: DisplayRotation) -> (r: Result<Vec<BusOp>, Self::Error>)
        ensures
            final(self).rotation == rotation,
            final(self).mode.buffer@ == old(self).mode.buffer@,
            final(self).mode.min_x == 0,
            final(self).mode.max_x == final(self).spec_dimensions().0 - 1,
            final(self).mode.min_y == 0,
            final(self).mode.max_y == final(self).spec_dimensions().1 - 1,
            r matches Ok(ops) && ops.deep_view() == crate::spec_rotation_ops(
                old(self).interface,
                rotation,
            ),
    {
        let ops = self.apply_rotation(rotation)?;
        let (width, height) = self.dimensions();
        self.mode.min_x = 0;
        self.mode.max_x = width - 1;
        self.mode.min_y = 0;
        self.mode.max_y = height - 1;
        Ok(ops)
    }

    /// Initialize and clear the display in graphics mode.
    fn init(&mut self) -> (r: Result<Vec<BusOp>, Self::Error>)
        ensures
            final(self).addr_mode == AddrMode::Horizontal,
            r matches Ok(ops) && ops.deep_view() == spec_init_ops(
                old(self).interface,
                old(self).size,
                old(self).rotation,
                AddrMode::Horizontal,
            ),
    {
        self.init_buffered()
    }
}

impl<DI: WriteOnlyDataCommand> DisplayConfig for Ssd1306<DI, TerminalMode> {
    type Error = TerminalModeError;

    /// A terminal display is ready when its geometry and cursor are sound.
    open spec fn config_wf(&self) -> bool {
        self.term_wf()
    }

    /// Set the display rotation; the cursor is reset to the top left corner
    /// of the new grid, but the screen is not cleared.
    fn set_rotation(&mut self, rotation: DisplayRotation) -> (r: Result<
        Vec<BusOp>,
        Self::Error,
    >)
    {
        let mut ops = match self.apply_rotation(rotation) {
            Ok(v) => v,
            Err(e) => {
                return Err(TerminalModeError::InterfaceError(e));
            },
        };
        let mut v2 = self.reset_pos()?;
        let ghost pre = ops.deep_view();
        let ghost v2pre = v2.deep_view();
        ops.append(&mut v2);
        proof {
            assert(ops.deep_view() =~= pre + v2pre);
        }
        Ok(ops)
    }

    /// Initialize in page addressing mode, with the cursor at the top left
    /// corner.
    fn init(&mut self) -> (r: Result<Vec<BusOp>, Self::Error>) {
        self.init_terminal()
    }
}

} // verus!
