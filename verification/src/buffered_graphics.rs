//! Buffered graphics mode.
//!
//! This mode keeps a one-bit-per-pixel framebuffer in memory, together with
//! the dirty rectangle of pixels changed since the last flush.  A flush
//! compiles transactions for exactly the changed region, rounded up to whole
//! 8-pixel page bands, which keeps bus traffic minimal.

use crate::bus::{BusOp, BusOpModel};
use crate::command::AddrMode;
use crate::rotation::DisplayRotation;
use crate::size::DisplaySize;
use crate::{
    spec_band_ops, spec_draw_area_ops, spec_init_ops, DisplayError, Ssd1306, WriteOnlyDataCommand,
};
use vstd::pervasive::VecAdditionalExecFns;
use vstd::prelude::*;

verus! {

/// Buffered graphics mode state: a one-bit-per-pixel framebuffer, packed
/// eight rows to a byte in page-major order, together with the dirty
/// rectangle of pixels changed since the last flush.
///
/// The dirty bounds `min_x <= max_x` and `min_y <= max_y` hold only while at
/// least one pixel changed; a clean state carries the sentinels 255 and 0,
/// under which the next flush does nothing.
#[derive(Clone, Debug, PartialEq, Eq)]
pub struct BufferedGraphicsMode {
    /// The framebuffer, `width * height / 8` bytes.
    pub buffer: Vec<u8>,
    /// Smallest x of a changed pixel.
    pub min_x: u8,
    /// Largest x of a changed pixel.
    pub max_x: u8,
    /// Smallest y of a changed pixel.
    pub min_y: u8,
    /// Largest y of a changed pixel.
    pub max_y: u8,
}

impl BufferedGraphicsMode {
    /// The framebuffer length that fits the given geometry.
    pub open spec fn spec_buffer_len(size: DisplaySize) -> int {
        size.width * size.height / 8
    }

    /// A fresh mode state: an all-zero framebuffer and a clean dirty
    /// rectangle.
    pub open spec fn spec_is_new(self, size: DisplaySize) -> bool {
        &&& self.buffer@.len() == Self::spec_buffer_len(size)
        &&& forall|i: int| 0 <= i < self.buffer@.len() ==> self.buffer@[i] == 0u8
        &&& self.min_x == 255
        &&& self.max_x == 0
        &&& self.min_y == 255
        &&& self.max_y == 0
    }

    /// Create a fresh buffered graphics state for the given geometry.
    pub fn new(size: &DisplaySize) -> (r: Self)
        requires
            size.wf(),
        ensures
            r.spec_is_new(*size),
    {
        proof {
            assert((size.width as int) * (size.height as int) <= 128 * 64) by (nonlinear_arith)
                requires
                    size.width <= 128,
                    size.height <= 64,
            ;
        }
        let len: usize = (size.width as usize) * (size.height as usize) / 8;
        let mut buffer: Vec<u8> = Vec::new();
        let mut i: usize = 0;
        while i < len
            invariant
                i <= len,
                buffer@.len() == i,
                forall|j: int| 0 <= j < i ==> buffer@[j] == 0u8,
            decreases len - i,
        {
            buffer.push(0u8);
            i = i + 1;
        }
        BufferedGraphicsMode { buffer, min_x: 255, max_x: 0, min_y: 255, max_y: 0 }
    }
}

/// The framebuffer byte that holds the pixel at rotated coordinates
/// `(x, y)`: the axes swap at 90 and 270 degrees, and eight vertically
/// adjacent pixels share one byte.
pub open spec fn spec_pixel_index(
    size: DisplaySize,
    rotation: DisplayRotation,
    x: int,
    y: int,
) -> int {
    if rotation.spec_swaps_axes() {
        (x / 8) * size.width + y
    } else {
        (y / 8) * size.width + x
    }
}

/// The bit within its byte of the pixel at rotated coordinates `(x, y)`.
pub open spec fn spec_pixel_bit(rotation: DisplayRotation, x: int, y: int) -> u8 {
    if rotation.spec_swaps_axes() {
        (x % 8) as u8
    } else {
        (y % 8) as u8
    }
}

/// The byte `b` with bit `bit` forced to `value` and every other bit kept.
pub open spec fn spec_with_bit(b: u8, bit: u8, value: bool) -> u8 {
    if value {
        b | (1u8 << bit)
    } else {
        b & !(1u8 << bit)
    }
}

/// Whether bit `bit` is set in `b`.
pub open spec fn spec_bit_set(b: u8, bit: u8) -> bool {
    b & (1u8 << bit) != 0
}

/// Forcing a bit on and then off restores a framebuffer in which that bit
/// was clear; the flush in between never writes to the framebuffer.
pub proof fn lemma_pixel_round_trip(buffer: Seq<u8>, idx: int, bit: u8)
    requires
        0 <= idx < buffer.len(),
        bit < 8,
        !spec_bit_set(buffer[idx], bit),
    ensures
        buffer.update(
            idx,
            spec_with_bit(
                buffer.update(idx, spec_with_bit(buffer[idx], bit, true))[idx],
                bit,
                false,
            ),
        ) == buffer,
{
    let b = buffer[idx];
    assert(b & (1u8 << bit) == 0 ==> ((b | (1u8 << bit)) & !(1u8 << bit)) == b) by (bit_vector);
    assert(buffer.update(idx, spec_with_bit(buffer[idx], bit, true))[idx] == spec_with_bit(
        b,
        bit,
        true,
    ));
    assert(buffer.update(
        idx,
        spec_with_bit(
            buffer.update(idx, spec_with_bit(buffer[idx], bit, true))[idx],
            bit,
            false,
        ),
    ) =~= buffer);
}

/// The rotation-aware column offset: when segment remapping is flipped (at
/// 90 and 180 degrees) the panel window is addressed from the opposite edge
/// of the driver's column space.
pub open spec fn spec_offset_x(size: DisplaySize, rotation: DisplayRotation) -> u8 {
    if rotation is Rotate0 || rotation is Rotate270 {
        size.offset_x
    } else {
        (size.driver_cols - size.width - size.offset_x) as u8
    }
}

impl<DI: WriteOnlyDataCommand> Ssd1306<DI, BufferedGraphicsMode> {
    /// The upper corner of the region the next flush covers: the dirty
    /// maxima, rounded up to a whole 8-pixel band along the page axis, with
    /// the other axis one past the last changed pixel, both clamped to the
    /// display bounds.
    pub open spec fn spec_flush_max(self) -> (u8, u8) {
        let (w, h) = self.spec_dimensions();
        if self.rotation.spec_swaps_axes() {
            (
                if (self.mode.max_x | 7) < w {
                    (self.mode.max_x | 7) as u8
                } else {
                    w
                },
                if self.mode.max_y + 1 < h {
                    (self.mode.max_y + 1) as u8
                } else {
                    h
                },
            )
        } else {
            (
                if self.mode.max_x + 1 < w {
                    (self.mode.max_x + 1) as u8
                } else {
                    w
                },
                if (self.mode.max_y | 7) < h {
                    (self.mode.max_y | 7) as u8
                } else {
                    h
                },
            )
        }
    }

    /// The transactions of a flush of a dirty display: a draw-area command
    /// pair for exactly the dirty rectangle rounded to page bands and moved
    /// by the panel offsets, then the bytes of each covered page band, one
    /// data write per band.
    pub open spec fn spec_flush_ops(self) -> Seq<BusOpModel> {
        let offx = spec_offset_x(self.size, self.rotation);
        let offy = self.size.offset_y;
        let (dmx, dmy) = self.spec_flush_max();
        let minx = self.mode.min_x;
        let miny = self.mode.min_y;
        if !self.rotation.spec_swaps_axes() {
            spec_draw_area_ops(
                self.interface,
                self.addr_mode,
                ((minx + offx) as u8, (miny + offy) as u8),
                ((dmx + offx) as u8, (dmy + offy) as u8),
            ) + spec_band_ops(
                self.interface,
                self.mode.buffer@,
                self.size.width as int,
                minx as int,
                dmx as int,
                miny as int / 8,
                (dmy - miny) as int / 8 + 1,
            )
        } else {
            spec_draw_area_ops(
                self.interface,
                self.addr_mode,
                ((miny + offx) as u8, (minx + offy) as u8),
                ((dmy + offx) as u8, (dmx + offy) as u8),
            ) + spec_band_ops(
                self.interface,
                self.mode.buffer@,
                self.size.width as int,
                miny as int,
                dmy as int,
                minx as int / 8,
                (dmx - minx) as int / 8 + 1,
            )
        }
    }

    /// Whether any pixel changed since the last flush.
    pub open spec fn spec_dirty(self) -> bool {
        self.mode.min_x <= self.mode.max_x && self.mode.min_y <= self.mode.max_y
    }

    /// A display with no change recorded since the last flush; it carries
    /// the dirty-bound sentinels.
    pub open spec fn spec_clean(self) -> bool {
        &&& self.mode.min_x == 255
        &&& self.mode.max_x == 0
        &&& self.mode.min_y == 255
        &&& self.mode.max_y == 0
    }

    /// Well-formed buffered display: sound geometry, a framebuffer of the
    /// right length, and either the clean sentinels or dirty bounds inside
    /// the rotated dimensions.
    pub open spec fn gfx_wf(self) -> bool {
        &&& self.wf()
        &&& self.mode.buffer@.len() == BufferedGraphicsMode::spec_buffer_len(self.size)
        &&& self.spec_dirty() ==> self.mode.max_x < self.spec_dimensions().0
            && self.mode.max_y < self.spec_dimensions().1
        &&& !self.spec_dirty() ==> self.spec_clean()
    }

    /// Initialize and clear the display in graphics mode, in horizontal
    /// addressing mode.  The full visible rectangle is left dirty, so the
    /// next flush repaints the whole screen.
    pub fn init(&mut self) -> (r: Result<Vec<BusOp>, DisplayError>)
        requires
            old(self).gfx_wf(),
        ensures
            final(self).gfx_wf(),
            final(self).interface == old(self).interface,
            final(self).size == old(self).size,
            final(self).rotation == old(self).rotation,
            final(self).addr_mode == AddrMode::Horizontal,
            final(self).mode.buffer@.len() == old(self).mode.buffer@.len(),
            forall|i: int|
                0 <= i < final(self).mode.buffer@.len() ==> final(self).mode.buffer@[i] == 0u8,
            final(self).mode.min_x == 0,
            final(self).mode.max_x == old(self).spec_dimensions().0 - 1,
            final(self).mode.min_y == 0,
            final(self).mode.max_y == old(self).spec_dimensions().1 - 1,
            final(self).spec_dirty(),
            r matches Ok(ops) && ops.deep_view() == spec_init_ops(
                old(self).interface,
                old(self).size,
                old(self).rotation,
                AddrMode::Horizontal,
            ),
    {
        self.init_buffered()
    }

    /// The body of graphics-mode initialization, shared with the mode
    /// configuration entry points.
    pub(crate) fn init_buffered(&mut self) -> (r: Result<Vec<BusOp>, DisplayError>)
        requires
            old(self).gfx_wf(),
        ensures
            final(self).gfx_wf(),
            final(self).interface == old(self).interface,
            final(self).size == old(self).size,
            final(self).rotation == old(self).rotation,
            final(self).addr_mode == AddrMode::Horizontal,
            final(self).mode.buffer@.len() == old(self).mode.buffer@.len(),
            forall|i: int|
                0 <= i < final(self).mode.buffer@.len() ==> final(self).mode.buffer@[i] == 0u8,
            final(self).mode.min_x == 0,
            final(self).mode.max_x == old(self).spec_dimensions().0 - 1,
            final(self).mode.min_y == 0,
            final(self).mode.max_y == old(self).spec_dimensions().1 - 1,
            final(self).spec_dirty(),
            r matches Ok(ops) && ops.deep_view() == spec_init_ops(
                old(self).interface,
                old(self).size,
                old(self).rotation,
                AddrMode::Horizontal,
            ),
    {
        self.clear();
        self.init_with_addr_mode(AddrMode::Horizontal)
    }

    /// Clear the framebuffer and mark the full visible rectangle dirty, so
    /// that the next flush repaints the whole screen.  Nothing reaches the
    /// bus until `flush` is called.
    pub fn clear(&mut self)
        requires
            old(self).gfx_wf(),
        ensures
            final(self).gfx_wf(),
            final(self).interface == old(self).interface,
            final(self).size == old(self).size,
            final(self).rotation == old(self).rotation,
            final(self).addr_mode == old(self).addr_mode,
            final(self).mode.buffer@.len() == old(self).mode.buffer@.len(),
            forall|i: int|
                0 <= i < final(self).mode.buffer@.len() ==> final(self).mode.buffer@[i] == 0u8,
            final(self).mode.min_x == 0,
            final(self).mode.max_x == old(self).spec_dimensions().0 - 1,
            final(self).mode.min_y == 0,
            final(self).mode.max_y == old(self).spec_dimensions().1 - 1,
            final(self).spec_dirty(),
    {
        let len = self.mode.buffer.len();
        let mut i: usize = 0;
        while i < len
            invariant
                i <= len,
                self.mode.buffer@.len() == len,
                forall|j: int| 0 <= j < i ==> self.mode.buffer@[j] == 0u8,
                self.interface == old(self).interface,
                self.size == old(self).size,
                self.rotation == old(self).rotation,
                self.addr_mode == old(self).addr_mode,
                self.mode.min_x == old(self).mode.min_x,
                self.mode.max_x == old(self).mode.max_x,
                self.mode.min_y == old(self).mode.min_y,
                self.mode.max_y == old(self).mode.max_y,
                old(self).gfx_wf(),
                len == old(self).mode.buffer@.len(),
            decreases len - i,
        {
            self.mode.buffer.set(i, 0u8);
            i = i + 1;
        }
        let (width, height) = self.dimensions();
        self.mode.min_x = 0;
        self.mode.max_x = width - 1;
        self.mode.min_y = 0;
        self.mode.max_y = height - 1;
    }

    /// Turn a pixel on or off at the rotated coordinates `(x, y)`.
    /// Coordinates outside the display bounds are silently ignored.
    pub fn set_pixel(&mut self, x: u32, y: u32, value: bool)
        requires
            old(self).gfx_wf(),
        ensures
            final(self).gfx_wf(),
            final(self).interface == old(self).interface,
            final(self).size == old(self).size,
            final(self).rotation == old(self).rotation,
            final(self).addr_mode == old(self).addr_mode,
            !(x < old(self).spec_dimensions().0 && y < old(self).spec_dimensions().1)
                ==> *final(self) == *old(self),
            x < old(self).spec_dimensions().0 && y < old(self).spec_dimensions().1 ==> {
                let idx = spec_pixel_index(old(self).size, old(self).rotation, x as int, y as int);
                let bit = spec_pixel_bit(old(self).rotation, x as int, y as int);
                &&& final(self).mode.buffer@ == old(self).mode.buffer@.update(
                    idx,
                    spec_with_bit(old(self).mode.buffer@[idx], bit, value),
                )
                &&& final(self).mode.min_x == if x < old(self).mode.min_x {
                    x as int
                } else {
                    old(self).mode.min_x as int
                }
                &&& final(self).mode.max_x == if x > old(self).mode.max_x {
                    x as int
                } else {
                    old(self).mode.max_x as int
                }
                &&& final(self).mode.min_y == if y < old(self).mode.min_y {
                    y as int
                } else {
                    old(self).mode.min_y as int
                }
                &&& final(self).mode.max_y == if y > old(self).mode.max_y {
                    y as int
                } else {
                    old(self).mode.max_y as int
                }
                &&& final(self).spec_dirty()
            },
    {
        let (width, height) = self.dimensions();
        if !(x < width as u32 && y < height as u32) {
            return ;
        }
        let xs = x as usize;
        let ys = y as usize;
        let stride = self.size.width as usize;
        let buf_len = self.mode.buffer.len();
        let idx: usize = if self.rotation.swaps_axes() {
            proof {
                assert((xs / 8) * stride + ys < buf_len) by (nonlinear_arith)
                    requires
                        stride == self.size.width,
                        buf_len == self.size.width * self.size.height / 8,
                        self.size.height % 8 == 0,
                        self.size.width % 8 == 0,
                        8 <= self.size.width,
                        8 <= self.size.height,
                        xs < self.size.height,
                        ys < self.size.width,
                ;
            }
            (xs / 8) * stride + ys
        } else {
            proof {
                assert((ys / 8) * stride + xs < buf_len) by (nonlinear_arith)
                    requires
                        stride == self.size.width,
                        buf_len == self.size.width * self.size.height / 8,
                        self.size.height % 8 == 0,
                        self.size.width % 8 == 0,
                        8 <= self.size.width,
                        8 <= self.size.height,
                        ys < self.size.height,
                        xs < self.size.width,
                ;
            }
            (ys / 8) * stride + xs
        };
        let bit: u8 = if self.rotation.swaps_axes() {
            (x % 8) as u8
        } else {
            (y % 8) as u8
        };
        let mask: u8 = 1u8 << bit;
        let byte = self.mode.buffer[idx];
        let updated: u8 = if value {
            byte | mask
        } else {
            byte & !mask
        };
        self.mode.buffer.set(idx, updated);
        let x8 = x as u8;
        let y8 = y as u8;
        if x8 < self.mode.min_x {
            self.mode.min_x = x8;
        }
        if x8 > self.mode.max_x {
            self.mode.max_x = x8;
        }
        if y8 < self.mode.min_y {
            self.mode.min_y = y8;
        }
        if y8 > self.mode.max_y {
            self.mode.max_y = y8;
        }
    }

    /// Write the changed region out to the display.
    ///
    /// A flush with no pixel changed since the last one compiles to zero bus
    /// transactions; otherwise it covers exactly the dirty rectangle rounded
    /// to whole page bands, and leaves the display clean with the
    /// framebuffer untouched.
    pub fn flush(&mut self) -> (r: Result<Vec<BusOp>, DisplayError>)
        requires
            old(self).gfx_wf(),
        ensures
            final(self).gfx_wf(),
            final(self).interface == old(self).interface,
            final(self).size == old(self).size,
            final(self).rotation == old(self).rotation,
            final(self).addr_mode == old(self).addr_mode,
            final(self).mode.buffer@ == old(self).mode.buffer@,
            final(self).spec_clean(),
            !old(self).spec_dirty() ==> (r matches Ok(ops) && ops.deep_view()
                == Seq::<BusOpModel>::empty() && *final(self) == *old(self)),
            old(self).spec_dirty() ==> (r matches Ok(ops) && ops.deep_view() == old(
                self,
            ).spec_flush_ops()),
    {
        if self.mode.max_x < self.mode.min_x || self.mode.max_y < self.mode.min_y {
            let ops: Vec<BusOp> = Vec::new();
            proof {
                assert(ops.deep_view() =~= Seq::<BusOpModel>::empty());
            }
            return Ok(ops);
        }
        let (width, height) = self.dimensions();
        let disp_min_x = self.mode.min_x;
        let disp_min_y = self.mode.min_y;
        proof {
            let mx = self.mode.max_x;
            let my = self.mode.max_y;
            let hh = self.size.height;
            assert(mx <= (mx | 7) && (mx | 7) <= 255) by (bit_vector);
            assert(my <= (my | 7) && (my | 7) <= 255) by (bit_vector);
            assert(my < hh && hh % 8 == 0 ==> (my | 7) < hh) by (bit_vector);
            assert(mx < hh && hh % 8 == 0 ==> (mx | 7) < hh) by (bit_vector);
        }
        let (disp_max_x, disp_max_y) = match self.rotation {
            DisplayRotation::Rotate0 | DisplayRotation::Rotate180 => (
                if self.mode.max_x + 1 < width {
                    self.mode.max_x + 1
                } else {
                    width
                },
                if (self.mode.max_y | 7) < height {
                    self.mode.max_y | 7
                } else {
                    height
                },
            ),
            DisplayRotation::Rotate90 | DisplayRotation::Rotate270 => (
                if (self.mode.max_x | 7) < width {
                    self.mode.max_x | 7
                } else {
                    width
                },
                if self.mode.max_y + 1 < height {
                    self.mode.max_y + 1
                } else {
                    height
                },
            ),
        };
        let ghost pre = *self;
        self.mode.min_x = 255;
        self.mode.max_x = 0;
        self.mode.min_y = 255;
        self.mode.max_y = 0;
        let offset_x = match self.rotation {
            DisplayRotation::Rotate0 | DisplayRotation::Rotate270 => self.size.offset_x,
            DisplayRotation::Rotate180 | DisplayRotation::Rotate90 => self.size.driver_cols
                - self.size.width - self.size.offset_x,
        };
        let offset_y = self.size.offset_y;
        match self.rotation {
            DisplayRotation::Rotate0 | DisplayRotation::Rotate180 => {
                proof {
                    lemma_page_span(disp_min_y as int, disp_max_y as int);
                    assert((disp_min_y as int / 8 + (disp_max_y - disp_min_y) as int / 8 + 1)
                        * self.size.width <= self.mode.buffer@.len()) by (nonlinear_arith)
                        requires
                            disp_min_y as int / 8 + (disp_max_y - disp_min_y) as int / 8 + 1
                                <= disp_max_y as int / 8 + 1,
                            disp_max_y < self.size.height,
                            self.size.height % 8 == 0,
                            8 <= self.size.height,
                            self.mode.buffer@.len() == self.size.width * self.size.height / 8,
                            self.size.width >= 0,
                    ;
                }
                let mut area = self.set_draw_area(
                    (disp_min_x + offset_x, disp_min_y + offset_y),
                    (disp_max_x + offset_x, disp_max_y + offset_y),
                )?;
                let mut bands = Self::flush_buffer_chunks(
                    &self.interface,
                    self.mode.buffer.as_slice(),
                    width as usize,
                    (disp_min_x, disp_min_y),
                    (disp_max_x, disp_max_y),
                )?;
                let ghost area_pre = area.deep_view();
                let ghost bands_pre = bands.deep_view();
                area.append(&mut bands);
                proof {
                    assert(area.deep_view() =~= area_pre + bands_pre);
                }
                Ok(area)
            },
            DisplayRotation::Rotate90 | DisplayRotation::Rotate270 => {
                proof {
                    lemma_page_span(disp_min_x as int, disp_max_x as int);
                    assert((disp_min_x as int / 8 + (disp_max_x - disp_min_x) as int / 8 + 1)
                        * self.size.width <= self.mode.buffer@.len()) by (nonlinear_arith)
                        requires
                            disp_min_x as int / 8 + (disp_max_x - disp_min_x) as int / 8 + 1
                                <= disp_max_x as int / 8 + 1,
                            disp_max_x < self.size.height,
                            self.size.height % 8 == 0,
                            8 <= self.size.height,
                            self.mode.buffer@.len() == self.size.width * self.size.height / 8,
                            self.size.width >= 0,
                    ;
                }
                let mut area = self.set_draw_area(
                    (disp_min_y + offset_x, disp_min_x + offset_y),
                    (disp_max_y + offset_x, disp_max_x + offset_y),
                )?;
                let mut bands = Self::flush_buffer_chunks(
                    &self.interface,
                    self.mode.buffer.as_slice(),
                    height as usize,
                    (disp_min_y, disp_min_x),
                    (disp_max_y, disp_max_x),
                )?;
                let ghost area_pre = area.deep_view();
                let ghost bands_pre = bands.deep_view();
                area.append(&mut bands);
                proof {
                    assert(area.deep_view() =~= area_pre + bands_pre);
                }
                Ok(area)
            },
        }
    }
}

impl<DI: WriteOnlyDataCommand> Ssd1306<DI, BufferedGraphicsMode> {
    /// A display whose full visible rectangle is dirty — the state `clear`
    /// leaves behind — flushes exactly the whole panel window: a draw-area
    /// command pair for all of `[0, width) x [0, height)` moved by the panel
    /// offsets, then every one of the `height / 8` page bands in full,
    /// whatever the rotation.
    pub proof fn lemma_clear_flush_full(self)
        requires
            self.gfx_wf(),
            self.mode.min_x == 0,
            self.mode.min_y == 0,
            self.mode.max_x == self.spec_dimensions().0 - 1,
            self.mode.max_y == self.spec_dimensions().1 - 1,
        ensures
            self.spec_flush_ops() == spec_draw_area_ops(
                self.interface,
                self.addr_mode,
                (spec_offset_x(self.size, self.rotation), self.size.offset_y),
                (
                    (self.size.width + spec_offset_x(self.size, self.rotation)) as u8,
                    ((self.size.height - 1) + self.size.offset_y) as u8,
                ),
            ) + spec_band_ops(
                self.interface,
                self.mode.buffer@,
                self.size.width as int,
                0,
                self.size.width as int,
                0,
                self.size.height as int / 8,
            ),
    {
        let w = self.size.width;
        let h = self.size.height;
        assert(h % 8 == 0 && 8 <= h ==> ((h - 1) as u8 | 7) == h - 1) by (bit_vector);
        assert(w % 8 == 0 && 8 <= w ==> ((w - 1) as u8 | 7) == w - 1) by (bit_vector);
        vstd::arithmetic::div_mod::lemma_fundamental_div_mod(h as int, 8);
        vstd::arithmetic::div_mod::lemma_fundamental_div_mod_converse_div(
            h - 1,
            8,
            h as int / 8 - 1,
            7,
        );
        vstd::arithmetic::div_mod::lemma_fundamental_div_mod(w as int, 8);
        vstd::arithmetic::div_mod::lemma_fundamental_div_mod_converse_div(
            w - 1,
            8,
            w as int / 8 - 1,
            7,
        );
    }
}

/// For `0 <= a <= b`, the pages from `a`'s up to `b`'s are at most
/// `b / 8 - a / 8 + 1` many: the last covered page does not pass `b`'s.
pub proof fn lemma_page_span(a: int, b: int)
    requires
        0 <= a <= b,
    ensures
        a / 8 + (b - a) / 8 <= b / 8,
{
    vstd::arithmetic::div_mod::lemma_fundamental_div_mod(a, 8);
    assert(b - a <= b - 8 * (a / 8));
    vstd::arithmetic::div_mod::lemma_div_is_ordered(b - a, b - 8 * (a / 8), 8);
    vstd::arithmetic::div_mod::lemma_hoist_over_denominator(b, -(a / 8), 8nat);
    assert(b / 8 + (-(a / 8)) == (b + (-(a / 8)) * 8) / 8);
    assert(b + (-(a / 8)) * 8 == b - 8 * (a / 8));
}

} // verus!
