//! Terminal mode.
//!
//! A bufferless mode that renders fixed 8x8 glyphs straight to the
//! hardware, tracking only a character-cell cursor with line wrapping.

use crate::bus::{BusOp, BusOpModel};
use crate::buffered_graphics::{spec_bit_set, spec_offset_x};
use crate::command::{AddrMode, Command};
use crate::rotation::DisplayRotation;
use crate::size::DisplaySize;
use crate::{
    spec_command_ops, spec_draw_area_ops, spec_init_ops, DisplayError, Ssd1306,
    WriteOnlyDataCommand,
};
use vstd::prelude::*;

verus! {

/// The character-cell cursor of the terminal mode, together with the cached
/// character grid dimensions.
#[derive(Copy, Clone, Debug, PartialEq, Eq, Structural)]
pub struct Cursor {
    /// Current column, in characters.
    pub col: u8,
    /// Current row, in characters.
    pub row: u8,
    /// Grid width, in characters.
    pub width: u8,
    /// Grid height, in characters.
    pub height: u8,
}

/// Contains the new row that the cursor has wrapped around to.
#[derive(Copy, Clone, Debug, PartialEq, Eq, Structural)]
pub struct CursorWrapEvent(pub u8);

impl Cursor {
    /// A well-formed cursor: the grid is non-empty and the position lies
    /// inside it.
    pub open spec fn wf(self) -> bool {
        &&& 1 <= self.width
        &&& 1 <= self.height
        &&& self.col < self.width
        &&& self.row < self.height
    }

    /// Create a cursor at the origin of the character grid of a panel with
    /// the given pixel dimensions (eight pixels per character cell).
    pub fn new(width_pixels: u8, height_pixels: u8) -> (r: Self)
        requires
            width_pixels >= 8,
            height_pixels >= 8,
        ensures
            r.wf(),
            r.col == 0 && r.row == 0,
            r.width == width_pixels / 8,
            r.height == height_pixels / 8,
    {
        Cursor { col: 0, row: 0, width: width_pixels / 8, height: height_pixels / 8 }
    }

    /// Advance the logical cursor by one character, wrapping to the next
    /// line, and from the last line to the first.  Returns the new row when
    /// the cursor wrapped to a new line.
    pub fn advance(&mut self) -> (r: Option<CursorWrapEvent>)
        requires
            old(self).wf(),
        ensures
            final(self).wf(),
            final(self).width == old(self).width && final(self).height == old(self).height,
            final(self).col == (old(self).col + 1) % (old(self).width as int),
            final(self).col == 0 ==> final(self).row == (old(self).row + 1) % (
            old(self).height as int) && r == Some(CursorWrapEvent(final(self).row)),
            final(self).col != 0 ==> final(self).row == old(self).row && r is None,
    {
        self.col = (self.col + 1) % self.width;
        if self.col == 0 {
            self.row = (self.row + 1) % self.height;
            Some(CursorWrapEvent(self.row))
        } else {
            None
        }
    }

    /// Advance the logical cursor to the start of the next line, wrapping
    /// from the last line to the first.  Returns the now active row.
    pub fn advance_line(&mut self) -> (r: CursorWrapEvent)
        requires
            old(self).wf(),
        ensures
            final(self).wf(),
            final(self).width == old(self).width && final(self).height == old(self).height,
            final(self).col == 0,
            final(self).row == (old(self).row + 1) % (old(self).height as int),
            r == CursorWrapEvent(final(self).row),
    {
        self.row = (self.row + 1) % self.height;
        self.col = 0;
        CursorWrapEvent(self.row)
    }

    /// Set the position of the logical cursor, capped at the last column and
    /// row of the grid.
    pub fn set_position(&mut self, col: u8, row: u8)
        requires
            old(self).wf(),
        ensures
            final(self).wf(),
            final(self).width == old(self).width && final(self).height == old(self).height,
            final(self).col == if col < old(self).width { col as int } else {
                old(self).width - 1
            },
            final(self).row == if row < old(self).height { row as int } else {
                old(self).height - 1
            },
    {
        self.col = if col < self.width { col } else { self.width - 1 };
        self.row = if row < self.height { row } else { self.height - 1 };
    }

    /// The position of the logical cursor, as (column, row).
    pub fn get_position(&self) -> (r: (u8, u8))
        ensures
            r == (self.col, self.row),
    {
        (self.col, self.row)
    }

    /// The dimensions of the character grid, as (width, height).
    pub fn get_dimensions(&self) -> (r: (u8, u8))
        ensures
            r == (self.width, self.height),
    {
        (self.width, self.height)
    }
}

/// Terminal mode state.  The cursor is absent until the mode is initialized
/// or cleared.
#[derive(Copy, Clone, Debug, PartialEq, Eq, Structural)]
pub struct TerminalMode {
    /// The cursor, present once the mode has been initialized.
    pub cursor: Option<Cursor>,
}

impl TerminalMode {
    /// Create a terminal mode state with no cursor yet.
    pub fn new() -> (r: Self)
        ensures
            r.cursor is None,
    {
        TerminalMode { cursor: None }
    }
}

/// Errors of the terminal mode.
#[derive(Clone, Copy, Debug, PartialEq, Eq, Structural)]
pub enum TerminalModeError {
    /// An error occurred in the underlying interface layer.
    InterfaceError(DisplayError),
    /// The mode was used before it was initialized.
    Uninitialized,
    /// A position outside the bounds of the character grid was given.
    OutOfBounds,
}

/// Extends the panel geometry with the number of characters that fit on the
/// display at once.
pub trait TerminalDisplaySize {
    /// The number of character cells.
    spec fn spec_char_num(&self) -> int;

    /// When the cell count can be asked for.
    spec fn char_num_ok(&self) -> bool;

    /// The number of character cells, as a value.
    fn char_num(&self) -> (r: u8)
        requires
            self.char_num_ok(),
        ensures
            r == self.spec_char_num(),
    ;
}

impl TerminalDisplaySize for DisplaySize {
    /// Eight-pixel cells: `width / 8 * height / 8` of them.
    open spec fn spec_char_num(&self) -> int {
        (self.width as int / 8) * (self.height as int / 8)
    }

    /// The cell count is available for any well-formed geometry.
    open spec fn char_num_ok(&self) -> bool {
        self.wf()
    }

    fn char_num(&self) -> (r: u8) {
        proof {
            assert((self.width as int / 8) * (self.height as int / 8) <= 16 * 8) by (
            nonlinear_arith)
                requires
                    self.width <= 128,
                    self.height <= 64,
            ;
        }
        (self.width / 8) * (self.height / 8)
    }
}

/// The transactions that move the hardware write pointer to a character
/// cell: a column-start command at the rotation-aware column offset, then a
/// page-start command for the cell row.  At 90 and 270 degrees the cell
/// coordinates swap roles.
pub open spec fn spec_position_ops<DI: WriteOnlyDataCommand>(
    di: DI,
    size: DisplaySize,
    rotation: DisplayRotation,
    col: u8,
    row: u8,
) -> Seq<BusOpModel> {
    let offx = spec_offset_x(size, rotation);
    let offy = size.offset_y;
    if !rotation.spec_swaps_axes() {
        spec_command_ops(di, Command::ColStart((offx + col * 8) as u8)) + spec_command_ops(
            di,
            Command::PageStart((((offy + row * 8) as u8) / 8) as u8),
        )
    } else {
        spec_command_ops(di, Command::ColStart((offx + row * 8) as u8)) + spec_command_ops(
            di,
            Command::PageStart((((offy + col * 8) as u8) / 8) as u8),
        )
    }
}

/// The cursor after advancing by one character cell.
pub open spec fn spec_advanced(c: Cursor) -> Cursor {
    let ncol = ((c.col + 1) % (c.width as int)) as u8;
    if ncol == 0 {
        Cursor { col: 0, row: (((c.row + 1) % (c.height as int)) as u8), ..c }
    } else {
        Cursor { col: ncol, ..c }
    }
}

/// An all-blank glyph.
pub open spec fn spec_zero_glyph() -> Seq<u8> {
    Seq::new(8, |i: int| 0u8)
}

/// The transactions that blank `n` character cells: `n` data writes of one
/// blank glyph each.
pub open spec fn spec_blank_ops<DI: WriteOnlyDataCommand>(di: DI, n: int) -> Seq<BusOpModel>
    decreases n,
{
    if n <= 0 {
        seq![]
    } else {
        di.data_ops(spec_zero_glyph()) + spec_blank_ops(di, n - 1)
    }
}

/// `dst` is the 90-degree raster rotation of the 8x8 bitmap `src`: bit `r`
/// of column `c` moves to bit `c` of column `r`.
pub open spec fn is_transposed(src: Seq<u8>, dst: Seq<u8>) -> bool {
    &&& dst.len() == 8
    &&& forall|r: int, c: int|
        0 <= r < 8 && 0 <= c < 8 ==> #[trigger] spec_bit_set(dst[r], c as u8) == spec_bit_set(
            src[c],
            r as u8,
        )
}

/// Setting bit `c` of a byte reads back as set and leaves every other bit.
proof fn lemma_set_bit(b: u8, c: u8)
    by (bit_vector)
    requires
        c < 8,
    ensures
        (b | (1u8 << c)) & (1u8 << c) != 0,
        forall|k: u8|
            k < 8 && k != c ==> ((b | (1u8 << c)) & (1u8 << k) != 0) == (b & (1u8 << k) != 0),
{
}

/// The zero byte has no bit set.
proof fn lemma_zero_bits()
    by (bit_vector)
    ensures
        forall|k: u8| (0u8 & (1u8 << k)) == 0,
{
}

impl<DI: WriteOnlyDataCommand> Ssd1306<DI, TerminalMode> {
    /// Well-formed terminal display: sound geometry, and a cursor (when
    /// present) that lies inside the character grid of the rotated
    /// dimensions.
    pub open spec fn term_wf(self) -> bool {
        &&& self.wf()
        &&& match self.mode.cursor {
            Some(c) => c.wf() && c.width == self.spec_dimensions().0 / 8 && c.height
                == self.spec_dimensions().1 / 8,
            None => true,
        }
    }

    /// The cursor, or the uninitialized error before `init` or `clear`.
    pub fn ensure_cursor(&self) -> (r: Result<Cursor, TerminalModeError>)
        ensures
            match self.mode.cursor {
                Some(c) => r == Ok::<Cursor, TerminalModeError>(c),
                None => r == Err::<Cursor, TerminalModeError>(TerminalModeError::Uninitialized),
            },
    {
        match self.mode.cursor {
            Some(c) => Ok(c),
            None => Err(TerminalModeError::Uninitialized),
        }
    }

    /// The cursor position in character coordinates: where the next
    /// character will be written.
    pub fn position(&self) -> (r: Result<(u8, u8), TerminalModeError>)
        ensures
            match self.mode.cursor {
                Some(c) => r == Ok::<(u8, u8), TerminalModeError>((c.col, c.row)),
                None => r == Err::<(u8, u8), TerminalModeError>(
                    TerminalModeError::Uninitialized,
                ),
            },
    {
        match self.mode.cursor {
            Some(c) => Ok(c.get_position()),
            None => Err(TerminalModeError::Uninitialized),
        }
    }

    /// Set the cursor position, in character coordinates: the (column, row)
    /// the next character will be written to.  A position outside the
    /// character grid is rejected and the cursor stays unchanged.
    pub fn set_position(&mut self, column: u8, row: u8) -> (r: Result<
        Vec<BusOp>,
        TerminalModeError,
    >)
        requires
            old(self).term_wf(),
        ensures
            final(self).term_wf(),
            final(self).interface == old(self).interface,
            final(self).size == old(self).size,
            final(self).rotation == old(self).rotation,
            final(self).addr_mode == old(self).addr_mode,
            old(self).mode.cursor is None ==> (r == Err::<Vec<BusOp>, TerminalModeError>(
                TerminalModeError::Uninitialized,
            ) && *final(self) == *old(self)),
            old(self).mode.cursor matches Some(c) ==> (!(column < c.width && row < c.height)
                ==> (r == Err::<Vec<BusOp>, TerminalModeError>(TerminalModeError::OutOfBounds)
                && *final(self) == *old(self))),
            old(self).mode.cursor matches Some(c) ==> ((column < c.width && row < c.height) ==> (
            (r matches Ok(ops) && ops.deep_view() == spec_position_ops(
                old(self).interface,
                old(self).size,
                old(self).rotation,
                column,
                row,
            )) && final(self).mode.cursor == Some(Cursor { col: column, row, ..c }))),
    {
        let c = match self.mode.cursor {
            Some(c) => c,
            None => {
                return Err(TerminalModeError::Uninitialized);
            },
        };
        if column >= c.width || row >= c.height {
            return Err(TerminalModeError::OutOfBounds);
        }
        let offset_x = match self.rotation {
            DisplayRotation::Rotate0 | DisplayRotation::Rotate270 => self.size.offset_x,
            DisplayRotation::Rotate180 | DisplayRotation::Rotate90 => self.size.driver_cols
                - self.size.width - self.size.offset_x,
        };
        let mut ops: Vec<BusOp>;
        match self.rotation {
            DisplayRotation::Rotate0 | DisplayRotation::Rotate180 => {
                proof {
                    lemma_cell_bound(column as int, self.size.width as int);
                    lemma_cell_bound(row as int, self.size.height as int);
                }
                ops = match self.set_column(offset_x + column * 8) {
                    Ok(v) => v,
                    Err(e) => {
                        return Err(TerminalModeError::InterfaceError(e));
                    },
                };
                let mut v2 = match self.set_row(self.size.offset_y + row * 8) {
                    Ok(v) => v,
                    Err(e) => {
                        return Err(TerminalModeError::InterfaceError(e));
                    },
                };
                let ghost pre = ops.deep_view();
                let ghost v2pre = v2.deep_view();
                ops.append(&mut v2);
                proof {
                    assert(ops.deep_view() =~= pre + v2pre);
                }
            },
            DisplayRotation::Rotate90 | DisplayRotation::Rotate270 => {
                proof {
                    lemma_cell_bound(row as int, self.size.width as int);
                    lemma_cell_bound(column as int, self.size.height as int);
                }
                ops = match self.set_column(offset_x + row * 8) {
                    Ok(v) => v,
                    Err(e) => {
                        return Err(TerminalModeError::InterfaceError(e));
                    },
                };
                let mut v2 = match self.set_row(self.size.offset_y + column * 8) {
                    Ok(v) => v,
                    Err(e) => {
                        return Err(TerminalModeError::InterfaceError(e));
                    },
                };
                let ghost pre = ops.deep_view();
                let ghost v2pre = v2.deep_view();
                ops.append(&mut v2);
                proof {
                    assert(ops.deep_view() =~= pre + v2pre);
                }
            },
        }
        let mut c2 = c;
        c2.set_position(column, row);
        self.mode.cursor = Some(c2);
        Ok(ops)
    }

    /// Recreate the cursor for the current rotation and move it, and the
    /// hardware write pointer, to the top left corner.
    pub(crate) fn reset_pos(&mut self) -> (r: Result<Vec<BusOp>, TerminalModeError>)
        requires
            old(self).wf(),
        ensures
            final(self).term_wf(),
            final(self).interface == old(self).interface,
            final(self).size == old(self).size,
            final(self).rotation == old(self).rotation,
            final(self).addr_mode == old(self).addr_mode,
            final(self).mode.cursor == Some(
                Cursor {
                    col: 0,
                    row: 0,
                    width: (old(self).spec_dimensions().0 / 8) as u8,
                    height: (old(self).spec_dimensions().1 / 8) as u8,
                },
            ),
            r matches Ok(ops) && ops.deep_view() == spec_position_ops(
                old(self).interface,
                old(self).size,
                old(self).rotation,
                0,
                0,
            ),
    {
        let (w, h) = self.dimensions();
        self.mode.cursor = Some(Cursor::new(w, h));
        self.set_position(0, 0)
    }

    /// Initialize the display for terminal use, in page addressing mode,
    /// with the cursor at the top left corner.
    pub fn init(&mut self) -> (r: Result<Vec<BusOp>, TerminalModeError>)
        requires
            old(self).wf(),
        ensures
            final(self).term_wf(),
            final(self).interface == old(self).interface,
            final(self).size == old(self).size,
            final(self).rotation == old(self).rotation,
            final(self).addr_mode == AddrMode::Page,
            final(self).mode.cursor == Some(
                Cursor {
                    col: 0,
                    row: 0,
                    width: (old(self).spec_dimensions().0 / 8) as u8,
                    height: (old(self).spec_dimensions().1 / 8) as u8,
                },
            ),
            r matches Ok(ops) && ops.deep_view() == spec_init_ops(
                old(self).interface,
                old(self).size,
                old(self).rotation,
                AddrMode::Page,
            ) + spec_position_ops(old(self).interface, old(self).size, old(self).rotation, 0, 0),
    {
        self.init_terminal()
    }

    /// The body of terminal-mode initialization, shared with the mode
    /// configuration entry points.
    pub(crate) fn init_terminal(&mut self) -> (r: Result<Vec<BusOp>, TerminalModeError>)
        requires
            old(self).wf(),
        ensures
            final(self).term_wf(),
            final(self).interface == old(self).interface,
            final(self).size == old(self).size,
            final(self).rotation == old(self).rotation,
            final(self).addr_mode == AddrMode::Page,
            final(self).mode.cursor == Some(
                Cursor {
                    col: 0,
                    row: 0,
                    width: (old(self).spec_dimensions().0 / 8) as u8,
                    height: (old(self).spec_dimensions().1 / 8) as u8,
                },
            ),
            r matches Ok(ops) && ops.deep_view() == spec_init_ops(
                old(self).interface,
                old(self).size,
                old(self).rotation,
                AddrMode::Page,
            ) + spec_position_ops(old(self).interface, old(self).size, old(self).rotation, 0, 0),
    {
        let mut ops = match self.init_with_addr_mode(AddrMode::Page) {
            Ok(v) => v,
            Err(e) => {
                return Err(TerminalModeError::InterfaceError(e));
            },
        };
        let mut v2 = self.reset_pos()?;
        let ghost pre = ops.deep_view();
        let ghost v2pre = v2.deep_view();
        ops.append(&mut v2);
        proof {
            assert(ops.deep_view() =~= pre + v2pre);
        }
        Ok(ops)
    }

    /// Blank the whole screen and move the cursor to the top left corner.
    ///
    /// The controller is switched to horizontal addressing for the duration,
    /// letting it wrap page bands itself while one blank glyph is written
    /// per character cell, and is returned to page addressing afterwards.
    pub fn clear(&mut self) -> (r: Result<Vec<BusOp>, TerminalModeError>)
        requires
            old(self).wf(),
        ensures
            final(self).term_wf(),
            final(self).interface == old(self).interface,
            final(self).size == old(self).size,
            final(self).rotation == old(self).rotation,
            final(self).addr_mode == AddrMode::Page,
            final(self).mode.cursor == Some(
                Cursor {
                    col: 0,
                    row: 0,
                    width: (old(self).spec_dimensions().0 / 8) as u8,
                    height: (old(self).spec_dimensions().1 / 8) as u8,
                },
            ),
            r matches Ok(ops) && ops.deep_view() == spec_command_ops(
                old(self).interface,
                Command::AddressMode(AddrMode::Horizontal),
            ) + spec_draw_area_ops(
                old(self).interface,
                AddrMode::Horizontal,
                (
                    spec_offset_x(old(self).size, old(self).rotation),
                    old(self).size.offset_y,
                ),
                (
                    (old(self).size.width + spec_offset_x(old(self).size, old(self).rotation))
                        as u8,
                    (old(self).size.height + old(self).size.offset_y) as u8,
                ),
            ) + spec_blank_ops(old(self).interface, old(self).size.spec_char_num())
                + spec_command_ops(old(self).interface, Command::AddressMode(AddrMode::Page))
                + spec_position_ops(
                old(self).interface,
                old(self).size,
                old(self).rotation,
                0,
                0,
            ),
    {
        let mut ops = match self.set_addr_mode(AddrMode::Horizontal) {
            Ok(v) => v,
            Err(e) => {
                return Err(TerminalModeError::InterfaceError(e));
            },
        };
        let offset_x = match self.rotation {
            DisplayRotation::Rotate0 | DisplayRotation::Rotate270 => self.size.offset_x,
            DisplayRotation::Rotate180 | DisplayRotation::Rotate90 => self.size.driver_cols
                - self.size.width - self.size.offset_x,
        };
        let mut v2 = match self.set_draw_area(
            (offset_x, self.size.offset_y),
            (self.size.width + offset_x, self.size.height + self.size.offset_y),
        ) {
            Ok(v) => v,
            Err(e) => {
                return Err(TerminalModeError::InterfaceError(e));
            },
        };
        let ghost pre1 = ops.deep_view();
        let ghost v2pre = v2.deep_view();
        ops.append(&mut v2);
        proof {
            assert(ops.deep_view() =~= pre1 + v2pre);
        }
        let mut zeros: Vec<u8> = Vec::new();
        let mut z: usize = 0;
        while z < 8
            invariant
                z <= 8,
                zeros@.len() == z,
                forall|j: int| 0 <= j < z ==> zeros@[j] == 0u8,
            decreases 8 - z,
        {
            zeros.push(0u8);
            z = z + 1;
        }
        proof {
            assert(zeros@ =~= spec_zero_glyph());
        }
        let n = self.size.char_num();
        let ghost mid = *self;
        let ghost base = ops.deep_view();
        let mut i: u8 = 0;
        while i < n
            invariant
                i <= n,
                *self == mid,
                n == mid.size.spec_char_num(),
                zeros@ == spec_zero_glyph(),
                base + spec_blank_ops(mid.interface, n as int) =~= ops.deep_view()
                    + spec_blank_ops(mid.interface, (n - i) as int),
            decreases n - i,
        {
            let mut v = match self.draw(zeros.as_slice()) {
                Ok(v) => v,
                Err(e) => {
                    return Err(TerminalModeError::InterfaceError(e));
                },
            };
            let ghost pre = ops.deep_view();
            let ghost vpre = v.deep_view();
            ops.append(&mut v);
            proof {
                assert(ops.deep_view() =~= pre + vpre);
                assert(spec_blank_ops(mid.interface, (n - i) as int) == mid.interface.data_ops(
                    spec_zero_glyph(),
                ) + spec_blank_ops(mid.interface, (n - i - 1) as int));
            }
            i = i + 1;
        }
        let mut v3 = match self.set_addr_mode(AddrMode::Page) {
            Ok(v) => v,
            Err(e) => {
                return Err(TerminalModeError::InterfaceError(e));
            },
        };
        let ghost pre3 = ops.deep_view();
        let ghost v3pre = v3.deep_view();
        ops.append(&mut v3);
        proof {
            assert(ops.deep_view() =~= pre3 + v3pre);
        }
        let mut v4 = self.reset_pos()?;
        let ghost pre4 = ops.deep_view();
        let ghost v4pre = v4.deep_view();
        ops.append(&mut v4);
        proof {
            assert(ops.deep_view() =~= pre4 + v4pre);
        }
        Ok(ops)
    }

    /// Print a character at the cursor.
    ///
    /// A newline advances to the start of the next row, wrapping from the
    /// last row to the first; a carriage return returns to the start of the
    /// current row; both reposition the hardware write pointer under the
    /// same offset and rotation rule as `set_position`.  Any other
    /// character draws its glyph — transposed at 90 and 270 degrees — as
    /// one data write at the current hardware position and advances the
    /// cursor by one cell, wrapping as needed.
    pub fn print_char(&mut self, c: char) -> (r: Result<Vec<BusOp>, TerminalModeError>)
        requires
            old(self).term_wf(),
        ensures
            final(self).term_wf(),
            final(self).interface == old(self).interface,
            final(self).size == old(self).size,
            final(self).rotation == old(self).rotation,
            final(self).addr_mode == old(self).addr_mode,
            old(self).mode.cursor is None ==> (r == Err::<Vec<BusOp>, TerminalModeError>(
                TerminalModeError::Uninitialized,
            ) && *final(self) == *old(self)),
            old(self).mode.cursor matches Some(cur) ==> (c == '\n' ==> ({
                let nrow = (((cur.row + 1) % (cur.height as int)) as u8);
                &&& final(self).mode.cursor == Some(Cursor { col: 0, row: nrow, ..cur })
                &&& (r matches Ok(ops) && ops.deep_view() == spec_position_ops(
                    old(self).interface,
                    old(self).size,
                    old(self).rotation,
                    0,
                    nrow,
                ))
            })),
            old(self).mode.cursor matches Some(cur) ==> (c == '\r' ==> (final(self).mode.cursor
                == Some(Cursor { col: 0, ..cur }) && (r matches Ok(ops) && ops.deep_view()
                == spec_position_ops(
                old(self).interface,
                old(self).size,
                old(self).rotation,
                0,
                cur.row,
            )))),
            old(self).mode.cursor matches Some(cur) ==> ((c != '\n' && c != '\r') ==> ({
                let adv = spec_advanced(cur);
                &&& final(self).mode.cursor == Some(adv)
                &&& (!old(self).rotation.spec_swaps_axes() ==> (r matches Ok(ops)
                    && ops.deep_view() == old(self).interface.data_ops(spec_glyph(c))
                    + spec_position_ops(
                    old(self).interface,
                    old(self).size,
                    old(self).rotation,
                    adv.col,
                    adv.row,
                )))
                &&& (old(self).rotation.spec_swaps_axes() ==> (r matches Ok(ops) && (exists|
                    t: Seq<u8>,
                |
                    #[trigger] is_transposed(spec_glyph(c), t) && ops.deep_view() == old(
                        self,
                    ).interface.data_ops(t) + spec_position_ops(
                        old(self).interface,
                        old(self).size,
                        old(self).rotation,
                        adv.col,
                        adv.row,
                    ))))
            })),
    {
        let cur = match self.mode.cursor {
            Some(x) => x,
            None => {
                return Err(TerminalModeError::Uninitialized);
            },
        };
        match c {
            '\n' => {
                let mut cursor = cur;
                let ev = cursor.advance_line();
                self.mode.cursor = Some(cursor);
                let CursorWrapEvent(new_line) = ev;
                self.set_position(0, new_line)
            },
            '\r' => {
                self.set_position(0, cur.row)
            },
            _ => {
                let bitmap: Vec<u8> = if self.rotation.swaps_axes() {
                    let glyph = Self::char_to_bitmap(c);
                    Self::rotate_bitmap(&glyph)
                } else {
                    Self::char_to_bitmap(c)
                };
                let mut ops = match self.draw(bitmap.as_slice()) {
                    Ok(v) => v,
                    Err(e) => {
                        return Err(TerminalModeError::InterfaceError(e));
                    },
                };
                let mut cursor = cur;
                cursor.advance();
                self.mode.cursor = Some(cursor);
                proof {
                    assert(cursor == spec_advanced(cur));
                }
                let (ncol, nrow) = cursor.get_position();
                let mut v2 = match self.set_position(ncol, nrow) {
                    Ok(v) => v,
                    Err(e) => {
                        return Err(e);
                    },
                };
                let ghost pre = ops.deep_view();
                let ghost v2pre = v2.deep_view();
                ops.append(&mut v2);
                proof {
                    assert(ops.deep_view() =~= pre + v2pre);
                }
                Ok(ops)
            },
        }
    }

    /// Transpose an 8x8 glyph: a 90 degree raster rotation, moving bit `r`
    /// of column `c` to bit `c` of column `r`.
    pub fn rotate_bitmap(bitmap: &Vec<u8>) -> (r: Vec<u8>)
        requires
            bitmap@.len() == 8,
        ensures
            is_transposed(bitmap@, r@),
    {
        let mut rotated: Vec<u8> = Vec::new();
        let mut z: usize = 0;
        while z < 8
            invariant
                z <= 8,
                rotated@.len() == z,
                forall|j: int| 0 <= j < z ==> rotated@[j] == 0u8,
            decreases 8 - z,
        {
            rotated.push(0u8);
            z = z + 1;
        }
        proof {
            lemma_zero_bits();
        }
        let mut col: usize = 0;
        while col < 8
            invariant
                col <= 8,
                rotated@.len() == 8,
                bitmap@.len() == 8,
                forall|ri: int, ci: int|
                    0 <= ri < 8 && 0 <= ci < col ==> #[trigger] spec_bit_set(
                        rotated@[ri],
                        ci as u8,
                    ) == spec_bit_set(bitmap@[ci], ri as u8),
                forall|ri: int, ci: int|
                    0 <= ri < 8 && col <= ci < 8 ==> !(#[trigger] spec_bit_set(
                        rotated@[ri],
                        ci as u8,
                    )),
            decreases 8 - col,
        {
            let source = bitmap[col];
            let mut row: usize = 0;
            while row < 8
                invariant
                    row <= 8,
                    col < 8,
                    rotated@.len() == 8,
                    bitmap@.len() == 8,
                    source == bitmap@[col as int],
                    forall|ri: int, ci: int|
                        0 <= ri < 8 && 0 <= ci < col ==> #[trigger] spec_bit_set(
                            rotated@[ri],
                            ci as u8,
                        ) == spec_bit_set(bitmap@[ci], ri as u8),
                    forall|ri: int, ci: int|
                        0 <= ri < 8 && col < ci < 8 ==> !(#[trigger] spec_bit_set(
                            rotated@[ri],
                            ci as u8,
                        )),
                    forall|ri: int|
                        0 <= ri < row ==> #[trigger] spec_bit_set(rotated@[ri], col as u8)
                            == spec_bit_set(bitmap@[col as int], ri as u8),
                    forall|ri: int|
                        row <= ri < 8 ==> !(#[trigger] spec_bit_set(rotated@[ri], col as u8)),
                decreases 8 - row,
            {
                let bit = source & (1u8 << (row as u8)) != 0;
                let ghost pre_rot = rotated@;
                let cur = rotated[row];
                if bit {
                    proof {
                        lemma_set_bit(cur, col as u8);
                    }
                    rotated.set(row, cur | (1u8 << (col as u8)));
                }
                proof {
                    let newv = rotated@;
                    assert forall|ri: int, ci: int|
                        0 <= ri < 8 && 0 <= ci < col implies #[trigger] spec_bit_set(
                        newv[ri],
                        ci as u8,
                    ) == spec_bit_set(bitmap@[ci], ri as u8) by {
                        if bit && ri == row as int {
                            assert(newv[ri] == cur | (1u8 << (col as u8)));
                            assert((ci as u8) < 8 && (ci as u8) != (col as u8));
                            assert(spec_bit_set(cur | (1u8 << (col as u8)), ci as u8)
                                == spec_bit_set(cur, ci as u8));
                        } else {
                            assert(newv[ri] == pre_rot[ri]);
                        }
                    }
                    assert forall|ri: int, ci: int|
                        0 <= ri < 8 && col < ci < 8 implies !(#[trigger] spec_bit_set(
                        newv[ri],
                        ci as u8,
                    )) by {
                        if bit && ri == row as int {
                            assert(newv[ri] == cur | (1u8 << (col as u8)));
                            assert((ci as u8) < 8 && (ci as u8) != (col as u8));
                            assert(spec_bit_set(cur | (1u8 << (col as u8)), ci as u8)
                                == spec_bit_set(cur, ci as u8));
                        } else {
                            assert(newv[ri] == pre_rot[ri]);
                        }
                    }
                    assert forall|ri: int|
                        0 <= ri < row + 1 implies #[trigger] spec_bit_set(newv[ri], col as u8)
                        == spec_bit_set(bitmap@[col as int], ri as u8) by {
                        if ri == row as int {
                            if bit {
                                assert(newv[ri] == cur | (1u8 << (col as u8)));
                                assert(spec_bit_set(cur | (1u8 << (col as u8)), col as u8));
                            } else {
                                assert(newv[ri] == pre_rot[ri]);
                                assert(!spec_bit_set(cur, col as u8));
                            }
                        } else {
                            assert(newv[ri] == pre_rot[ri]);
                        }
                    }
                    assert forall|ri: int|
                        row + 1 <= ri < 8 implies !(#[trigger] spec_bit_set(
                        newv[ri],
                        col as u8,
                    )) by {
                        assert(newv[ri] == pre_rot[ri]);
                    }
                }
                row = row + 1;
            }
            col = col + 1;
        }
        rotated
    }

    /// Look up the 8-byte glyph of a character; characters without a glyph
    /// render blank.
    pub fn char_to_bitmap(input: char) -> (r: Vec<u8>)
        ensures
            r@ == spec_glyph(input),
            r@.len() == 8,
    {
        let r: Vec<u8> = match input {
            '!' => vec![0x00u8, 0x00, 0x2f, 0x00, 0x00, 0x00, 0x00, 0x00],
            '"' => vec![0x00u8, 0x03, 0x00, 0x03, 0x00, 0x00, 0x00, 0x00],
            '#' => vec![0x00u8, 0x12, 0x3f, 0x12, 0x12, 0x3f, 0x12, 0x00],
            '$' => vec![0x00u8, 0x2e, 0x2a, 0x7f, 0x2a, 0x3a, 0x00, 0x00],
            '%' => vec![0x00u8, 0x23, 0x13, 0x08, 0x04, 0x32, 0x31, 0x00],
            '&' => vec![0x00u8, 0x10, 0x2a, 0x25, 0x2a, 0x10, 0x20, 0x00],
            '\'' => vec![0x00u8, 0x02, 0x01, 0x00, 0x00, 0x00, 0x00, 0x00],
            '(' => vec![0x00u8, 0x1e, 0x21, 0x00, 0x00, 0x00, 0x00, 0x00],
            ')' => vec![0x00u8, 0x21, 0x1e, 0x00, 0x00, 0x00, 0x00, 0x00],
            '*' => vec![0x00u8, 0x08, 0x2a, 0x1c, 0x2a, 0x08, 0x00, 0x00],
            '+' => vec![0x00u8, 0x08, 0x08, 0x3e, 0x08, 0x08, 0x00, 0x00],
            ',' => vec![0x00u8, 0x80, 0x60, 0x00, 0x00, 0x00, 0x00, 0x00],
            '-' => vec![0x00u8, 0x08, 0x08, 0x08, 0x08, 0x08, 0x00, 0x00],
            '.' => vec![0x00u8, 0x30, 0x30, 0x00, 0x00, 0x00, 0x00, 0x00],
            '/' => vec![0x00u8, 0x20, 0x10, 0x08, 0x04, 0x02, 0x00, 0x00],
            '0' => vec![0x00u8, 0x1e, 0x31, 0x29, 0x25, 0x23, 0x1e, 0x00],
            '1' => vec![0x00u8, 0x22, 0x21, 0x3f, 0x20, 0x20, 0x20, 0x00],
            '2' => vec![0x00u8, 0x32, 0x29, 0x29, 0x29, 0x29, 0x26, 0x00],
            '3' => vec![0x00u8, 0x12, 0x21, 0x21, 0x25, 0x25, 0x1a, 0x00],
            '4' => vec![0x00u8, 0x18, 0x14, 0x12, 0x3f, 0x10, 0x00, 0x00],
            '5' => vec![0x00u8, 0x17, 0x25, 0x25, 0x25, 0x25, 0x19, 0x00],
            '6' => vec![0x00u8, 0x1e, 0x25, 0x25, 0x25, 0x25, 0x18, 0x00],
            '7' => vec![0x00u8, 0x01, 0x01, 0x31, 0x09, 0x05, 0x03, 0x00],
            '8' => vec![0x00u8, 0x1a, 0x25, 0x25, 0x25, 0x25, 0x1a, 0x00],
            '9' => vec![0x00u8, 0x06, 0x29, 0x29, 0x29, 0x29, 0x1e, 0x00],
            ':' => vec![0x00u8, 0x24, 0x00, 0x00, 0x00, 0x00, 0x00, 0x00],
            ';' => vec![0x00u8, 0x80, 0x64, 0x00, 0x00, 0x00, 0x00, 0x00],
            '<' => vec![0x00u8, 0x08, 0x14, 0x22, 0x00, 0x00, 0x00, 0x00],
            '=' => vec![0x00u8, 0x14, 0x14, 0x14, 0x14, 0x14, 0x00, 0x00],
            '>' => vec![0x00u8, 0x22, 0x14, 0x08, 0x00, 0x00, 0x00, 0x00],
            '?' => vec![0x00u8, 0x02, 0x01, 0x01, 0x29, 0x05, 0x02, 0x00],
            '@' => vec![0x00u8, 0x1e, 0x21, 0x2d, 0x2b, 0x2d, 0x0e, 0x00],
            'A' => vec![0x00u8, 0x3e, 0x09, 0x09, 0x09, 0x09, 0x3e, 0x00],
            'B' => vec![0x00u8, 0x3f, 0x25, 0x25, 0x25, 0x25, 0x1a, 0x00],
            'C' => vec![0x00u8, 0x1e, 0x21, 0x21, 0x21, 0x21, 0x12, 0x00],
            'D' => vec![0x00u8, 0x3f, 0x21, 0x21, 0x21, 0x12, 0x0c, 0x00],
            'E' => vec![0x00u8, 0x3f, 0x25, 0x25, 0x25, 0x25, 0x21, 0x00],
            'F' => vec![0x00u8, 0x3f, 0x05, 0x05, 0x05, 0x05, 0x01, 0x00],
            'G' => vec![0x00u8, 0x1e, 0x21, 0x21, 0x21, 0x29, 0x1a, 0x00],
            'H' => vec![0x00u8, 0x3f, 0x04, 0x04, 0x04, 0x04, 0x3f, 0x00],
            'I' => vec![0x00u8, 0x21, 0x21, 0x3f, 0x21, 0x21, 0x00, 0x00],
            'J' => vec![0x00u8, 0x10, 0x20, 0x20, 0x20, 0x20, 0x1f, 0x00],
            'K' => vec![0x00u8, 0x3f, 0x04, 0x0c, 0x0a, 0x11, 0x20, 0x00],
            'L' => vec![0x00u8, 0x3f, 0x20, 0x20, 0x20, 0x20, 0x20, 0x00],
            'M' => vec![0x00u8, 0x3f, 0x02, 0x04, 0x04, 0x02, 0x3f, 0x00],
            'N' => vec![0x00u8, 0x3f, 0x02, 0x04, 0x08, 0x10, 0x3f, 0x00],
            'O' => vec![0x00u8, 0x1e, 0x21, 0x21, 0x21, 0x21, 0x1e, 0x00],
            'P' => vec![0x00u8, 0x3f, 0x09, 0x09, 0x09, 0x09, 0x06, 0x00],
            'Q' => vec![0x00u8, 0x1e, 0x21, 0x29, 0x31, 0x21, 0x5e, 0x00],
            'R' => vec![0x00u8, 0x3f, 0x09, 0x09, 0x09, 0x19, 0x26, 0x00],
            'S' => vec![0x00u8, 0x12, 0x25, 0x25, 0x25, 0x25, 0x18, 0x00],
            'T' => vec![0x00u8, 0x01, 0x01, 0x01, 0x3f, 0x01, 0x01, 0x00],
            'U' => vec![0x00u8, 0x1f, 0x20, 0x20, 0x20, 0x20, 0x1f, 0x00],
            'V' => vec![0x00u8, 0x0f, 0x10, 0x20, 0x20, 0x10, 0x0f, 0x00],
            'W' => vec![0x00u8, 0x1f, 0x20, 0x10, 0x10, 0x20, 0x1f, 0x00],
            'X' => vec![0x00u8, 0x21, 0x12, 0x0c, 0x0c, 0x12, 0x21, 0x00],
            'Y' => vec![0x00u8, 0x01, 0x02, 0x3c, 0x02, 0x01, 0x00, 0x00],
            'Z' => vec![0x00u8, 0x21, 0x31, 0x29, 0x25, 0x23, 0x21, 0x00],
            '[' => vec![0x00u8, 0x3f, 0x21, 0x00, 0x00, 0x00, 0x00, 0x00],
            '\\' => vec![0x00u8, 0x02, 0x04, 0x08, 0x10, 0x20, 0x00, 0x00],
            ']' => vec![0x00u8, 0x21, 0x3f, 0x00, 0x00, 0x00, 0x00, 0x00],
            '^' => vec![0x00u8, 0x04, 0x02, 0x3f, 0x02, 0x04, 0x00, 0x00],
            '_' => vec![0x00u8, 0x40, 0x40, 0x40, 0x40, 0x40, 0x40, 0x00],
            '`' => vec![0x00u8, 0x01, 0x02, 0x00, 0x00, 0x00, 0x00, 0x00],
            'a' => vec![0x00u8, 0x10, 0x2a, 0x2a, 0x2a, 0x3c, 0x00, 0x00],
            'b' => vec![0x00u8, 0x3f, 0x24, 0x24, 0x24, 0x18, 0x00, 0x00],
            'c' => vec![0x00u8, 0x1c, 0x22, 0x22, 0x22, 0x00, 0x00, 0x00],
            'd' => vec![0x00u8, 0x18, 0x24, 0x24, 0x24, 0x3f, 0x00, 0x00],
            'e' => vec![0x00u8, 0x1c, 0x2a, 0x2a, 0x2a, 0x24, 0x00, 0x00],
            'f' => vec![0x00u8, 0x00, 0x3e, 0x05, 0x01, 0x00, 0x00, 0x00],
            'g' => vec![0x00u8, 0x18, 0xa4, 0xa4, 0xa4, 0x7c, 0x00, 0x00],
            'h' => vec![0x00u8, 0x3f, 0x04, 0x04, 0x04, 0x38, 0x00, 0x00],
            'i' => vec![0x00u8, 0x00, 0x24, 0x3d, 0x20, 0x00, 0x00, 0x00],
            'j' => vec![0x00u8, 0x20, 0x40, 0x40, 0x3d, 0x00, 0x00, 0x00],
            'k' => vec![0x00u8, 0x3f, 0x0c, 0x12, 0x20, 0x00, 0x00, 0x00],
            'l' => vec![0x00u8, 0x1f, 0x20, 0x20, 0x00, 0x00, 0x00, 0x00],
            'm' => vec![0x00u8, 0x3e, 0x02, 0x3c, 0x02, 0x3c, 0x00, 0x00],
            'n' => vec![0x00u8, 0x3e, 0x02, 0x02, 0x02, 0x3c, 0x00, 0x00],
            'o' => vec![0x00u8, 0x1c, 0x22, 0x22, 0x22, 0x1c, 0x00, 0x00],
            'p' => vec![0x00u8, 0xfc, 0x24, 0x24, 0x24, 0x18, 0x00, 0x00],
            'q' => vec![0x00u8, 0x18, 0x24, 0x24, 0x24, 0xfc, 0x00, 0x00],
            'r' => vec![0x00u8, 0x3e, 0x04, 0x02, 0x02, 0x00, 0x00, 0x00],
            's' => vec![0x00u8, 0x24, 0x2a, 0x2a, 0x2a, 0x10, 0x00, 0x00],
            't' => vec![0x00u8, 0x02, 0x1f, 0x22, 0x20, 0x00, 0x00, 0x00],
            'u' => vec![0x00u8, 0x1e, 0x20, 0x20, 0x20, 0x1e, 0x00, 0x00],
            'v' => vec![0x00u8, 0x06, 0x18, 0x20, 0x18, 0x06, 0x00, 0x00],
            'w' => vec![0x00u8, 0x1e, 0x30, 0x1c, 0x30, 0x1e, 0x00, 0x00],
            'x' => vec![0x00u8, 0x22, 0x14, 0x08, 0x14, 0x22, 0x00, 0x00],
            'y' => vec![0x00u8, 0x1c, 0xa0, 0xa0, 0xa0, 0x7c, 0x00, 0x00],
            'z' => vec![0x00u8, 0x22, 0x32, 0x2a, 0x26, 0x22, 0x00, 0x00],
            '{' => vec![0x00u8, 0x0c, 0x3f, 0x21, 0x00, 0x00, 0x00, 0x00],
            '|' => vec![0x00u8, 0x3f, 0x00, 0x00, 0x00, 0x00, 0x00, 0x00],
            '}' => vec![0x00u8, 0x21, 0x3f, 0x0c, 0x00, 0x00, 0x00, 0x00],
            '~' => vec![0x00u8, 0x02, 0x01, 0x02, 0x01, 0x00, 0x00, 0x00],
            _ => vec![0x00u8, 0x00, 0x00, 0x00, 0x00, 0x00, 0x00, 0x00],
        };
        proof {
            assert(r@ =~= spec_glyph(input));
        }
        r
    }
}

/// The glyph of a character: an 8-byte column-major bitmap for the printable
/// ASCII range, all blank for every other character.
pub open spec fn spec_glyph(c: char) -> Seq<u8> {
    match c {
        '!' => seq![0x00u8, 0x00, 0x2f, 0x00, 0x00, 0x00, 0x00, 0x00],
        '"' => seq![0x00u8, 0x03, 0x00, 0x03, 0x00, 0x00, 0x00, 0x00],
        '#' => seq![0x00u8, 0x12, 0x3f, 0x12, 0x12, 0x3f, 0x12, 0x00],
        '$' => seq![0x00u8, 0x2e, 0x2a, 0x7f, 0x2a, 0x3a, 0x00, 0x00],
        '%' => seq![0x00u8, 0x23, 0x13, 0x08, 0x04, 0x32, 0x31, 0x00],
        '&' => seq![0x00u8, 0x10, 0x2a, 0x25, 0x2a, 0x10, 0x20, 0x00],
        '\'' => seq![0x00u8, 0x02, 0x01, 0x00, 0x00, 0x00, 0x00, 0x00],
        '(' => seq![0x00u8, 0x1e, 0x21, 0x00, 0x00, 0x00, 0x00, 0x00],
        ')' => seq![0x00u8, 0x21, 0x1e, 0x00, 0x00, 0x00, 0x00, 0x00],
        '*' => seq![0x00u8, 0x08, 0x2a, 0x1c, 0x2a, 0x08, 0x00, 0x00],
        '+' => seq![0x00u8, 0x08, 0x08, 0x3e, 0x08, 0x08, 0x00, 0x00],
        ',' => seq![0x00u8, 0x80, 0x60, 0x00, 0x00, 0x00, 0x00, 0x00],
        '-' => seq![0x00u8, 0x08, 0x08, 0x08, 0x08, 0x08, 0x00, 0x00],
        '.' => seq![0x00u8, 0x30, 0x30, 0x00, 0x00, 0x00, 0x00, 0x00],
        '/' => seq![0x00u8, 0x20, 0x10, 0x08, 0x04, 0x02, 0x00, 0x00],
        '0' => seq![0x00u8, 0x1e, 0x31, 0x29, 0x25, 0x23, 0x1e, 0x00],
        '1' => seq![0x00u8, 0x22, 0x21, 0x3f, 0x20, 0x20, 0x20, 0x00],
        '2' => seq![0x00u8, 0x32, 0x29, 0x29, 0x29, 0x29, 0x26, 0x00],
        '3' => seq![0x00u8, 0x12, 0x21, 0x21, 0x25, 0x25, 0x1a, 0x00],
        '4' => seq![0x00u8, 0x18, 0x14, 0x12, 0x3f, 0x10, 0x00, 0x00],
        '5' => seq![0x00u8, 0x17, 0x25, 0x25, 0x25, 0x25, 0x19, 0x00],
        '6' => seq![0x00u8, 0x1e, 0x25, 0x25, 0x25, 0x25, 0x18, 0x00],
        '7' => seq![0x00u8, 0x01, 0x01, 0x31, 0x09, 0x05, 0x03, 0x00],
        '8' => seq![0x00u8, 0x1a, 0x25, 0x25, 0x25, 0x25, 0x1a, 0x00],
        '9' => seq![0x00u8, 0x06, 0x29, 0x29, 0x29, 0x29, 0x1e, 0x00],
        ':' => seq![0x00u8, 0x24, 0x00, 0x00, 0x00, 0x00, 0x00, 0x00],
        ';' => seq![0x00u8, 0x80, 0x64, 0x00, 0x00, 0x00, 0x00, 0x00],
        '<' => seq![0x00u8, 0x08, 0x14, 0x22, 0x00, 0x00, 0x00, 0x00],
        '=' => seq![0x00u8, 0x14, 0x14, 0x14, 0x14, 0x14, 0x00, 0x00],
        '>' => seq![0x00u8, 0x22, 0x14, 0x08, 0x00, 0x00, 0x00, 0x00],
        '?' => seq![0x00u8, 0x02, 0x01, 0x01, 0x29, 0x05, 0x02, 0x00],
        '@' => seq![0x00u8, 0x1e, 0x21, 0x2d, 0x2b, 0x2d, 0x0e, 0x00],
        'A' => seq![0x00u8, 0x3e, 0x09, 0x09, 0x09, 0x09, 0x3e, 0x00],
        'B' => seq![0x00u8, 0x3f, 0x25, 0x25, 0x25, 0x25, 0x1a, 0x00],
        'C' => seq![0x00u8, 0x1e, 0x21, 0x21, 0x21, 0x21, 0x12, 0x00],
        'D' => seq![0x00u8, 0x3f, 0x21, 0x21, 0x21, 0x12, 0x0c, 0x00],
        'E' => seq![0x00u8, 0x3f, 0x25, 0x25, 0x25, 0x25, 0x21, 0x00],
        'F' => seq![0x00u8, 0x3f, 0x05, 0x05, 0x05, 0x05, 0x01, 0x00],
        'G' => seq![0x00u8, 0x1e, 0x21, 0x21, 0x21, 0x29, 0x1a, 0x00],
        'H' => seq![0x00u8, 0x3f, 0x04, 0x04, 0x04, 0x04, 0x3f, 0x00],
        'I' => seq![0x00u8, 0x21, 0x21, 0x3f, 0x21, 0x21, 0x00, 0x00],
        'J' => seq![0x00u8, 0x10, 0x20, 0x20, 0x20, 0x20, 0x1f, 0x00],
        'K' => seq![0x00u8, 0x3f, 0x04, 0x0c, 0x0a, 0x11, 0x20, 0x00],
        'L' => seq![0x00u8, 0x3f, 0x20, 0x20, 0x20, 0x20, 0x20, 0x00],
        'M' => seq![0x00u8, 0x3f, 0x02, 0x04, 0x04, 0x02, 0x3f, 0x00],
        'N' => seq![0x00u8, 0x3f, 0x02, 0x04, 0x08, 0x10, 0x3f, 0x00],
        'O' => seq![0x00u8, 0x1e, 0x21, 0x21, 0x21, 0x21, 0x1e, 0x00],
        'P' => seq![0x00u8, 0x3f, 0x09, 0x09, 0x09, 0x09, 0x06, 0x00],
        'Q' => seq![0x00u8, 0x1e, 0x21, 0x29, 0x31, 0x21, 0x5e, 0x00],
        'R' => seq![0x00u8, 0x3f, 0x09, 0x09, 0x09, 0x19, 0x26, 0x00],
        'S' => seq![0x00u8, 0x12, 0x25, 0x25, 0x25, 0x25, 0x18, 0x00],
        'T' => seq![0x00u8, 0x01, 0x01, 0x01, 0x3f, 0x01, 0x01, 0x00],
        'U' => seq![0x00u8, 0x1f, 0x20, 0x20, 0x20, 0x20, 0x1f, 0x00],
        'V' => seq![0x00u8, 0x0f, 0x10, 0x20, 0x20, 0x10, 0x0f, 0x00],
        'W' => seq![0x00u8, 0x1f, 0x20, 0x10, 0x10, 0x20, 0x1f, 0x00],
        'X' => seq![0x00u8, 0x21, 0x12, 0x0c, 0x0c, 0x12, 0x21, 0x00],
        'Y' => seq![0x00u8, 0x01, 0x02, 0x3c, 0x02, 0x01, 0x00, 0x00],
        'Z' => seq![0x00u8, 0x21, 0x31, 0x29, 0x25, 0x23, 0x21, 0x00],
        '[' => seq![0x00u8, 0x3f, 0x21, 0x00, 0x00, 0x00, 0x00, 0x00],
        '\\' => seq![0x00u8, 0x02, 0x04, 0x08, 0x10, 0x20, 0x00, 0x00],
        ']' => seq![0x00u8, 0x21, 0x3f, 0x00, 0x00, 0x00, 0x00, 0x00],
        '^' => seq![0x00u8, 0x04, 0x02, 0x3f, 0x02, 0x04, 0x00, 0x00],
        '_' => seq![0x00u8, 0x40, 0x40, 0x40, 0x40, 0x40, 0x40, 0x00],
        '`' => seq![0x00u8, 0x01, 0x02, 0x00, 0x00, 0x00, 0x00, 0x00],
        'a' => seq![0x00u8, 0x10, 0x2a, 0x2a, 0x2a, 0x3c, 0x00, 0x00],
        'b' => seq![0x00u8, 0x3f, 0x24, 0x24, 0x24, 0x18, 0x00, 0x00],
        'c' => seq![0x00u8, 0x1c, 0x22, 0x22, 0x22, 0x00, 0x00, 0x00],
        'd' => seq![0x00u8, 0x18, 0x24, 0x24, 0x24, 0x3f, 0x00, 0x00],
        'e' => seq![0x00u8, 0x1c, 0x2a, 0x2a, 0x2a, 0x24, 0x00, 0x00],
        'f' => seq![0x00u8, 0x00, 0x3e, 0x05, 0x01, 0x00, 0x00, 0x00],
        'g' => seq![0x00u8, 0x18, 0xa4, 0xa4, 0xa4, 0x7c, 0x00, 0x00],
        'h' => seq![0x00u8, 0x3f, 0x04, 0x04, 0x04, 0x38, 0x00, 0x00],
        'i' => seq![0x00u8, 0x00, 0x24, 0x3d, 0x20, 0x00, 0x00, 0x00],
        'j' => seq![0x00u8, 0x20, 0x40, 0x40, 0x3d, 0x00, 0x00, 0x00],
        'k' => seq![0x00u8, 0x3f, 0x0c, 0x12, 0x20, 0x00, 0x00, 0x00],
        'l' => seq![0x00u8, 0x1f, 0x20, 0x20, 0x00, 0x00, 0x00, 0x00],
        'm' => seq![0x00u8, 0x3e, 0x02, 0x3c, 0x02, 0x3c, 0x00, 0x00],
        'n' => seq![0x00u8, 0x3e, 0x02, 0x02, 0x02, 0x3c, 0x00, 0x00],
        'o' => seq![0x00u8, 0x1c, 0x22, 0x22, 0x22, 0x1c, 0x00, 0x00],
        'p' => seq![0x00u8, 0xfc, 0x24, 0x24, 0x24, 0x18, 0x00, 0x00],
        'q' => seq![0x00u8, 0x18, 0x24, 0x24, 0x24, 0xfc, 0x00, 0x00],
        'r' => seq![0x00u8, 0x3e, 0x04, 0x02, 0x02, 0x00, 0x00, 0x00],
        's' => seq![0x00u8, 0x24, 0x2a, 0x2a, 0x2a, 0x10, 0x00, 0x00],
        't' => seq![0x00u8, 0x02, 0x1f, 0x22, 0x20, 0x00, 0x00, 0x00],
        'u' => seq![0x00u8, 0x1e, 0x20, 0x20, 0x20, 0x1e, 0x00, 0x00],
        'v' => seq![0x00u8, 0x06, 0x18, 0x20, 0x18, 0x06, 0x00, 0x00],
        'w' => seq![0x00u8, 0x1e, 0x30, 0x1c, 0x30, 0x1e, 0x00, 0x00],
        'x' => seq![0x00u8, 0x22, 0x14, 0x08, 0x14, 0x22, 0x00, 0x00],
        'y' => seq![0x00u8, 0x1c, 0xa0, 0xa0, 0xa0, 0x7c, 0x00, 0x00],
        'z' => seq![0x00u8, 0x22, 0x32, 0x2a, 0x26, 0x22, 0x00, 0x00],
        '{' => seq![0x00u8, 0x0c, 0x3f, 0x21, 0x00, 0x00, 0x00, 0x00],
        '|' => seq![0x00u8, 0x3f, 0x00, 0x00, 0x00, 0x00, 0x00, 0x00],
        '}' => seq![0x00u8, 0x21, 0x3f, 0x0c, 0x00, 0x00, 0x00, 0x00],
        '~' => seq![0x00u8, 0x02, 0x01, 0x02, 0x01, 0x00, 0x00, 0x00],
        _ => seq![0x00u8, 0x00, 0x00, 0x00, 0x00, 0x00, 0x00, 0x00],
    }
}

/// A character cell index times eight stays inside its axis: for
/// `cell < pixels / 8` with `pixels` a positive multiple of eight,
/// `cell * 8 <= pixels - 8`.
proof fn lemma_cell_bound(cell: int, pixels: int)
    requires
        0 <= cell,
        8 <= pixels,
        pixels % 8 == 0,
        cell < pixels / 8,
    ensures
        cell * 8 <= pixels - 8,
{
    vstd::arithmetic::div_mod::lemma_fundamental_div_mod(pixels, 8);
    assert(cell * 8 <= (pixels / 8 - 1) * 8) by (nonlinear_arith)
        requires
            cell <= pixels / 8 - 1,
    ;
}

} // verus!
