//! Driver for the SSD1306 monochrome OLED display controller.
//!
//! The driver never touches hardware itself: every operation turns into an
//! exact sequence of bus transactions ([`bus::BusOp`]) for an I2C or SPI
//! transport.  The integrator performs the returned transactions, in order,
//! on the real (possibly asynchronous) bus, stopping at the first failure;
//! this keeps every decision the driver makes verifiable while the bus I/O
//! stays outside.
//!
//! A display is driven through [`Ssd1306`], created over a transport that
//! implements [`WriteOnlyDataCommand`] and converted once into one of three
//! modes: the basic mode, the buffered graphics mode with a framebuffer and
//! dirty-rectangle tracking, or the bufferless terminal mode.

pub mod brightness;
pub mod buffered_graphics;
pub mod bus;
pub mod command;
pub mod i2c_interface;
pub mod mode;
pub mod prelude;
pub mod rotation;
pub mod size;
pub mod spi_interface;
pub mod terminal;

use crate::brightness::Brightness;
use crate::bus::{push_range, BusOp, BusOpModel};
use crate::command::{AddrMode, Command, VcomhLevel};
use crate::mode::BasicMode;
use crate::rotation::DisplayRotation;
use crate::size::DisplaySize;
use crate::terminal::TerminalMode;
use crate::buffered_graphics::BufferedGraphicsMode;
use vstd::prelude::*;

verus! {

/// Everything that can go wrong when talking to a display.
#[derive(Clone, Copy, Debug, PartialEq, Eq, Structural)]
pub enum DisplayError {
    /// Invalid data format selected for the interface.
    InvalidFormatError,
    /// Unable to write to the bus.
    BusWriteError,
    /// Unable to drive the data/command switching signal.
    DCError,
    /// Unable to drive the chip-select signal.
    CSError,
    /// The requested data format is not implemented by this interface.
    DataFormatNotImplemented,
    /// Unable to drive the reset signal.
    RSError,
    /// Attempted to write outside the display's bounds.
    OutOfBoundsError,
}

/// A payload for one transport operation, in one of seven shapes.
///
/// The `Iter` shapes stand for payloads that arrived from a lazy,
/// single-pass source and have been drained into a buffer; transports chunk
/// them exactly as they chunk the slice shapes.
pub enum DataFormat {
    /// Unsigned bytes.
    U8(Vec<u8>),
    /// 16-bit words, sent in the machine's native byte order.
    U16(Vec<u16>),
    /// 16-bit words, sent in big-endian byte order.
    U16BE(Vec<u16>),
    /// 16-bit words, sent in little-endian byte order.
    U16LE(Vec<u16>),
    /// Bytes drained from an iterator.
    U8Iter(Vec<u8>),
    /// 16-bit words drained from an iterator, sent in big-endian byte order.
    U16BEIter(Vec<u16>),
    /// 16-bit words drained from an iterator, sent in little-endian byte
    /// order.
    U16LEIter(Vec<u16>),
}

/// A write-only transport with separate command and data channels.
///
/// A transport does not perform bus writes: it compiles a payload into the
/// exact bus transactions the write consists of.  Its contract pins the
/// transactions down through `cmd_ops` and `data_ops` for byte payloads, and
/// through the `cmd_sent_ok` / `data_sent_ok` relations for the other
/// payload shapes (whose bytes may depend on the machine's byte order).
pub trait WriteOnlyDataCommand: Sized {
    /// The bus transactions that carry a byte command payload.
    spec fn cmd_ops(&self, payload: Seq<u8>) -> Seq<BusOpModel>;

    /// The bus transactions that carry a byte data payload.
    spec fn data_ops(&self, payload: Seq<u8>) -> Seq<BusOpModel>;

    /// Whether the transport implements this payload shape for commands.
    spec fn cmd_format_ok(&self, fmt: DataFormat) -> bool;

    /// Whether the transport implements this payload shape for data.
    spec fn data_format_ok(&self, fmt: DataFormat) -> bool;

    /// The transport's size cap on one command payload.
    spec fn cmd_cap_ok(&self, fmt: DataFormat) -> bool;

    /// Exactly which transactions a command write of this payload produces.
    spec fn cmd_sent_ok(&self, fmt: DataFormat, ops: Seq<BusOpModel>) -> bool;

    /// Exactly which transactions a data write of this payload produces.
    spec fn data_sent_ok(&self, fmt: DataFormat, ops: Seq<BusOpModel>) -> bool;

    /// Byte command payloads of at most seven bytes are within every
    /// transport's cap.
    proof fn cmd_cap_small(&self, fmt: DataFormat)
        requires
            fmt matches DataFormat::U8(payload) && payload@.len() <= 7,
        ensures
            self.cmd_cap_ok(fmt),
    ;

    /// Compile a command write into bus transactions.
    fn send_commands(&self, fmt: &DataFormat) -> (r: Result<Vec<BusOp>, DisplayError>)
        requires
            self.cmd_cap_ok(*fmt),
        ensures
            (match r {
                Ok(ops) => self.cmd_format_ok(*fmt) && self.cmd_sent_ok(*fmt, ops.deep_view()),
                Err(e) => !self.cmd_format_ok(*fmt) && e == DisplayError::DataFormatNotImplemented,
            }),
            (*fmt) matches DataFormat::U8(payload) ==> (r matches Ok(ops) && ops.deep_view()
                == self.cmd_ops(payload@)),
    ;

    /// Compile a data write into bus transactions.
    fn send_data(&self, fmt: &DataFormat) -> (r: Result<Vec<BusOp>, DisplayError>)
        ensures
            (match r {
                Ok(ops) => self.data_format_ok(*fmt) && self.data_sent_ok(*fmt, ops.deep_view()),
                Err(e) => !self.data_format_ok(*fmt) && e == DisplayError::DataFormatNotImplemented,
            }),
            (*fmt) matches DataFormat::U8(payload) ==> (r matches Ok(ops) && ops.deep_view()
                == self.data_ops(payload@)),
    ;
}

/// SSD1306 driver.
///
/// Some methods are only available in a specific [`mode`].
pub struct Ssd1306<DI, MODE> {
    /// The transport the driver compiles its writes for.
    pub interface: DI,
    /// Mode-specific state.
    pub mode: MODE,
    /// The panel geometry.
    pub size: DisplaySize,
    /// The addressing mode last sent to the controller.
    pub addr_mode: AddrMode,
    /// The current rotation.
    pub rotation: DisplayRotation,
}

impl<DI: WriteOnlyDataCommand> Ssd1306<DI, BasicMode> {
    /// Create a basic SSD1306 driver.
    ///
    /// Use the `into_*_mode` methods to enable more functionality.
    pub fn new(interface: DI, size: DisplaySize, rotation: DisplayRotation) -> (r: Self)
        ensures
            r.interface == interface,
            r.size == size,
            r.rotation == rotation,
            r.addr_mode == AddrMode::Page,
            r.mode == BasicMode,
    {
        Ssd1306 {
            interface,
            size,
            addr_mode: AddrMode::Page,
            mode: BasicMode,
            rotation,
        }
    }
}

impl<DI: WriteOnlyDataCommand, MODE> Ssd1306<DI, MODE> {
    /// Well-formed driver state.
    pub open spec fn wf(self) -> bool {
        self.size.wf()
    }

    /// Convert the display into another mode.
    fn into_mode<MODE2>(self, mode: MODE2) -> (r: Ssd1306<DI, MODE2>)
        ensures
            r.interface == self.interface,
            r.size == self.size,
            r.rotation == self.rotation,
            r.addr_mode == self.addr_mode,
            r.mode == mode,
    {
        Ssd1306 {
            mode,
            addr_mode: self.addr_mode,
            interface: self.interface,
            size: self.size,
            rotation: self.rotation,
        }
    }

    /// Convert the display into a buffered graphics mode with a framebuffer
    /// and dirty-rectangle tracking.
    pub fn into_buffered_graphics_mode(self) -> (r: Ssd1306<DI, BufferedGraphicsMode>)
        requires
            self.wf(),
        ensures
            r.interface == self.interface,
            r.size == self.size,
            r.rotation == self.rotation,
            r.addr_mode == self.addr_mode,
            r.mode.spec_is_new(self.size),
    {
        let size = self.size;
        let mode = BufferedGraphicsMode::new(&size);
        self.into_mode(mode)
    }

    /// Convert the display into a text-only, terminal-like mode.
    pub fn into_terminal_mode(self) -> (r: Ssd1306<DI, TerminalMode>)
        ensures
            r.interface == self.interface,
            r.size == self.size,
            r.rotation == self.rotation,
            r.addr_mode == self.addr_mode,
            r.mode == (TerminalMode { cursor: None }),
    {
        self.into_mode(TerminalMode::new())
    }

    /// Get the display dimensions, taking the current rotation into account.
    pub fn dimensions(&self) -> (r: (u8, u8))
        ensures
            r == self.spec_dimensions(),
    {
        match self.rotation {
            DisplayRotation::Rotate0 | DisplayRotation::Rotate180 => (
                self.size.width,
                self.size.height,
            ),
            DisplayRotation::Rotate90 | DisplayRotation::Rotate270 => (
                self.size.height,
                self.size.width,
            ),
        }
    }

    /// The display dimensions under the current rotation: the panel's width
    /// and height, swapped at 90 and 270 degrees.
    pub open spec fn spec_dimensions(self) -> (u8, u8) {
        if self.rotation.spec_swaps_axes() {
            (self.size.height, self.size.width)
        } else {
            (self.size.width, self.size.height)
        }
    }

    /// Get the display rotation.
    pub fn rotation(&self) -> (r: DisplayRotation)
        ensures
            r == self.rotation,
    {
        self.rotation
    }
}

/// The (segment-remap, COM-direction) flag pair that realizes a rotation.
pub open spec fn spec_rotation_flags(rotation: DisplayRotation) -> (bool, bool) {
    match rotation {
        DisplayRotation::Rotate0 => (true, true),
        DisplayRotation::Rotate90 => (false, true),
        DisplayRotation::Rotate180 => (false, false),
        DisplayRotation::Rotate270 => (true, false),
    }
}

/// The flag pair applied when mirroring is enabled on top of a rotation.
pub open spec fn spec_mirror_flags(rotation: DisplayRotation) -> (bool, bool) {
    match rotation {
        DisplayRotation::Rotate0 => (false, true),
        DisplayRotation::Rotate90 => (false, false),
        DisplayRotation::Rotate180 => (true, false),
        DisplayRotation::Rotate270 => (true, true),
    }
}

/// The bus transactions that carry one command on the given transport.
pub open spec fn spec_command_ops<DI: WriteOnlyDataCommand>(di: DI, cmd: Command) -> Seq<
    BusOpModel,
> {
    di.cmd_ops(cmd.spec_bytes())
}

/// The transactions of a rotation change: its segment-remap and
/// COM-direction command pair.
pub open spec fn spec_rotation_ops<DI: WriteOnlyDataCommand>(
    di: DI,
    rotation: DisplayRotation,
) -> Seq<BusOpModel> {
    spec_command_ops(di, Command::SegmentRemap(spec_rotation_flags(rotation).0))
        + spec_command_ops(di, Command::ReverseComDir(spec_rotation_flags(rotation).1))
}

/// The transactions of a mirror change: the derived flag pair when enabled,
/// the plain rotation pair when disabled.
pub open spec fn spec_mirror_ops<DI: WriteOnlyDataCommand>(
    di: DI,
    rotation: DisplayRotation,
    mirror: bool,
) -> Seq<BusOpModel> {
    if mirror {
        spec_command_ops(di, Command::SegmentRemap(spec_mirror_flags(rotation).0))
            + spec_command_ops(di, Command::ReverseComDir(spec_mirror_flags(rotation).1))
    } else {
        spec_rotation_ops(di, rotation)
    }
}

/// The transactions of a brightness change: pre-charge period, then
/// contrast.
pub open spec fn spec_brightness_ops<DI: WriteOnlyDataCommand>(
    di: DI,
    brightness: Brightness,
) -> Seq<BusOpModel> {
    spec_command_ops(di, Command::PreChargePeriod(1, brightness.spec_precharge()))
        + spec_command_ops(di, Command::Contrast(brightness.spec_contrast()))
}

/// `x - 1`, saturating at zero.
pub open spec fn spec_sat_dec(x: u8) -> u8 {
    if x == 0 {
        0
    } else {
        (x - 1) as u8
    }
}

/// The transactions of a draw-area change: a column-address command for
/// `[start.0, end.0 - 1]` and, outside page addressing mode, a page-address
/// command for the pages containing `start.1` through `end.1 - 1`.
pub open spec fn spec_draw_area_ops<DI: WriteOnlyDataCommand>(
    di: DI,
    addr_mode: AddrMode,
    start: (u8, u8),
    end: (u8, u8),
) -> Seq<BusOpModel> {
    let col_ops = spec_command_ops(di, Command::ColumnAddress(start.0, spec_sat_dec(end.0)));
    if addr_mode is Page {
        col_ops
    } else {
        col_ops + spec_command_ops(
            di,
            Command::PageAddress((start.1 / 8) as u8, (spec_sat_dec(end.1) / 8) as u8),
        )
    }
}

/// The fixed initialization sequence: display off, clock divider, multiplex
/// ratio, display offset, start line, charge pump, addressing mode, COM pin
/// configuration, the panel's optional internal reference, the current
/// rotation, the default brightness, VCOMH level, all-on off, invert off,
/// scroll off, display on.
pub open spec fn spec_init_ops<DI: WriteOnlyDataCommand>(
    di: DI,
    size: DisplaySize,
    rotation: DisplayRotation,
    mode: AddrMode,
) -> Seq<BusOpModel> {
    spec_command_ops(di, Command::DisplayOn(false)) + spec_command_ops(
        di,
        Command::DisplayClockDiv(0x8, 0x0),
    ) + spec_command_ops(di, Command::Multiplex((size.height - 1) as u8)) + spec_command_ops(
        di,
        Command::DisplayOffset(0),
    ) + spec_command_ops(di, Command::StartLine(0)) + spec_command_ops(
        di,
        Command::ChargePump(true),
    ) + spec_command_ops(di, Command::AddressMode(mode)) + spec_command_ops(
        di,
        size.spec_com_pin_command(),
    ) + (if size.internal_iref {
        spec_command_ops(di, Command::InternalIref(true, true))
    } else {
        Seq::<BusOpModel>::empty()
    }) + spec_rotation_ops(di, rotation) + spec_brightness_ops(di, Brightness::spec_default())
        + spec_command_ops(di, Command::VcomhDeselect(VcomhLevel::Auto)) + spec_command_ops(
        di,
        Command::AllOn(false),
    ) + spec_command_ops(di, Command::Invert(false)) + spec_command_ops(
        di,
        Command::EnableScroll(false),
    ) + spec_command_ops(di, Command::DisplayOn(true))
}

/// The transactions of the shared banding primitive: for `count` pages
/// starting at `page`, the bytes `buffer[p * stride + x0 .. p * stride + x1]`
/// of each page `p`, each page band as one data write.
pub open spec fn spec_band_ops<DI: WriteOnlyDataCommand>(
    di: DI,
    buffer: Seq<u8>,
    stride: int,
    x0: int,
    x1: int,
    page: int,
    count: int,
) -> Seq<BusOpModel>
    decreases count,
{
    if count <= 0 {
        seq![]
    } else {
        di.data_ops(buffer.subrange(page * stride + x0, page * stride + x1)) + spec_band_ops(
            di,
            buffer,
            stride,
            x0,
            x1,
            page + 1,
            count - 1,
        )
    }
}

impl<DI: WriteOnlyDataCommand, MODE> Ssd1306<DI, MODE> {
    /// Compile one command into its transactions.
    fn send_command(di: &DI, cmd: Command) -> (r: Result<Vec<BusOp>, DisplayError>)
        ensures
            r matches Ok(ops) && ops.deep_view() == spec_command_ops(*di, cmd),
    {
        let bytes = cmd.bytes();
        let fmt = DataFormat::U8(bytes);
        proof {
            cmd.lemma_bytes_len();
            di.cmd_cap_small(fmt);
        }
        di.send_commands(&fmt)
    }

    /// Compile one command and append its transactions.
    fn push_command(di: &DI, ops: &mut Vec<BusOp>, cmd: Command) -> (r: Result<(), DisplayError>)
        ensures
            r is Ok,
            final(ops).deep_view() == old(ops).deep_view() + spec_command_ops(*di, cmd),
    {
        let mut v = Self::send_command(di, cmd)?;
        let ghost pre = ops.deep_view();
        let ghost vpre = v.deep_view();
        ops.append(&mut v);
        proof {
            assert(ops.deep_view() =~= pre + vpre);
        }
        Ok(())
    }

    /// Initialize the display in the given addressing mode, issuing the
    /// fixed initialization command sequence.
    pub fn init_with_addr_mode(&mut self, mode: AddrMode) -> (r: Result<Vec<BusOp>, DisplayError>)
        requires
            old(self).wf(),
        ensures
            final(self).wf(),
            final(self).interface == old(self).interface,
            final(self).size == old(self).size,
            final(self).rotation == old(self).rotation,
            final(self).mode == old(self).mode,
            final(self).addr_mode == mode,
            r matches Ok(ops) && ops.deep_view() == spec_init_ops(
                old(self).interface,
                old(self).size,
                old(self).rotation,
                mode,
            ),
    {
        let rotation = self.rotation;
        let mut ops: Vec<BusOp> = Vec::new();
        Self::push_command(&self.interface, &mut ops, Command::DisplayOn(false))?;
        Self::push_command(&self.interface, &mut ops, Command::DisplayClockDiv(0x8, 0x0))?;
        Self::push_command(&self.interface, &mut ops, Command::Multiplex(self.size.height - 1))?;
        Self::push_command(&self.interface, &mut ops, Command::DisplayOffset(0))?;
        Self::push_command(&self.interface, &mut ops, Command::StartLine(0))?;
        Self::push_command(&self.interface, &mut ops, Command::ChargePump(true))?;
        Self::push_command(&self.interface, &mut ops, Command::AddressMode(mode))?;
        Self::push_command(
            &self.interface,
            &mut ops,
            Command::ComPinConfig(self.size.com_pin_alt, self.size.com_pin_lr),
        )?;
        if self.size.internal_iref {
            Self::push_command(&self.interface, &mut ops, Command::InternalIref(true, true))?;
        }
        let mut rot_ops = self.set_rotation(rotation)?;
        let ghost pre1 = ops.deep_view();
        let ghost rot_pre = rot_ops.deep_view();
        ops.append(&mut rot_ops);
        proof {
            assert(ops.deep_view() =~= pre1 + rot_pre);
        }
        let mut bright_ops = self.set_brightness(Brightness::default())?;
        let ghost pre2 = ops.deep_view();
        let ghost bright_pre = bright_ops.deep_view();
        ops.append(&mut bright_ops);
        proof {
            assert(ops.deep_view() =~= pre2 + bright_pre);
        }
        Self::push_command(
            &self.interface,
            &mut ops,
            Command::VcomhDeselect(VcomhLevel::Auto),
        )?;
        Self::push_command(&self.interface, &mut ops, Command::AllOn(false))?;
        Self::push_command(&self.interface, &mut ops, Command::Invert(false))?;
        Self::push_command(&self.interface, &mut ops, Command::EnableScroll(false))?;
        Self::push_command(&self.interface, &mut ops, Command::DisplayOn(true))?;
        self.addr_mode = mode;
        proof {
            assert(ops.deep_view() =~= spec_init_ops(
                old(self).interface,
                old(self).size,
                old(self).rotation,
                mode,
            ));
        }
        Ok(ops)
    }

    /// Change the addressing mode.
    pub fn set_addr_mode(&mut self, mode: AddrMode) -> (r: Result<Vec<BusOp>, DisplayError>)
        ensures
            *final(self) == (Ssd1306 { addr_mode: mode, ..*old(self) }),
            r matches Ok(ops) && ops.deep_view() == spec_command_ops(
                old(self).interface,
                Command::AddressMode(mode),
            ),
    {
        let ops = Self::send_command(&self.interface, Command::AddressMode(mode))?;
        self.addr_mode = mode;
        Ok(ops)
    }

    /// Set the display rotation, issuing its segment-remap and COM-direction
    /// command pair.
    pub fn set_rotation(&mut self, rotation: DisplayRotation) -> (r: Result<
        Vec<BusOp>,
        DisplayError,
    >)
        ensures
            *final(self) == (Ssd1306 { rotation, ..*old(self) }),
            r matches Ok(ops) && ops.deep_view() == spec_rotation_ops(
                old(self).interface,
                rotation,
            ),
    {
        self.apply_rotation(rotation)
    }

    /// The body of a rotation change, shared with the mode configuration
    /// entry points.
    pub(crate) fn apply_rotation(&mut self, rotation: DisplayRotation) -> (r: Result<
        Vec<BusOp>,
        DisplayError,
    >)
        ensures
            *final(self) == (Ssd1306 { rotation, ..*old(self) }),
            r matches Ok(ops) && ops.deep_view() == spec_rotation_ops(
                old(self).interface,
                rotation,
            ),
    {
        self.rotation = rotation;
        let mut ops: Vec<BusOp> = Vec::new();
        match rotation {
            DisplayRotation::Rotate0 => {
                Self::push_command(&self.interface, &mut ops, Command::SegmentRemap(true))?;
                Self::push_command(&self.interface, &mut ops, Command::ReverseComDir(true))?;
            },
            DisplayRotation::Rotate90 => {
                Self::push_command(&self.interface, &mut ops, Command::SegmentRemap(false))?;
                Self::push_command(&self.interface, &mut ops, Command::ReverseComDir(true))?;
            },
            DisplayRotation::Rotate180 => {
                Self::push_command(&self.interface, &mut ops, Command::SegmentRemap(false))?;
                Self::push_command(&self.interface, &mut ops, Command::ReverseComDir(false))?;
            },
            DisplayRotation::Rotate270 => {
                Self::push_command(&self.interface, &mut ops, Command::SegmentRemap(true))?;
                Self::push_command(&self.interface, &mut ops, Command::ReverseComDir(false))?;
            },
        }
        Ok(ops)
    }

    /// Enable or disable mirroring: a derived flag pair when enabled, the
    /// plain rotation pair when disabled.
    pub fn set_mirror(&mut self, mirror: bool) -> (r: Result<Vec<BusOp>, DisplayError>)
        ensures
            *final(self) == *old(self),
            r matches Ok(ops) && ops.deep_view() == spec_mirror_ops(
                old(self).interface,
                old(self).rotation,
                mirror,
            ),
    {
        let mut ops: Vec<BusOp> = Vec::new();
        if mirror {
            match self.rotation {
                DisplayRotation::Rotate0 => {
                    Self::push_command(&self.interface, &mut ops, Command::SegmentRemap(false))?;
                    Self::push_command(&self.interface, &mut ops, Command::ReverseComDir(true))?;
                },
                DisplayRotation::Rotate90 => {
                    Self::push_command(&self.interface, &mut ops, Command::SegmentRemap(false))?;
                    Self::push_command(&self.interface, &mut ops, Command::ReverseComDir(false))?;
                },
                DisplayRotation::Rotate180 => {
                    Self::push_command(&self.interface, &mut ops, Command::SegmentRemap(true))?;
                    Self::push_command(&self.interface, &mut ops, Command::ReverseComDir(false))?;
                },
                DisplayRotation::Rotate270 => {
                    Self::push_command(&self.interface, &mut ops, Command::SegmentRemap(true))?;
                    Self::push_command(&self.interface, &mut ops, Command::ReverseComDir(true))?;
                },
            }
            Ok(ops)
        } else {
            let rotation = self.rotation;
            self.set_rotation(rotation)
        }
    }

    /// Change the display brightness.
    pub fn set_brightness(&mut self, brightness: Brightness) -> (r: Result<
        Vec<BusOp>,
        DisplayError,
    >)
        requires
            brightness.wf(),
        ensures
            *final(self) == *old(self),
            r matches Ok(ops) && ops.deep_view() == spec_brightness_ops(
                old(self).interface,
                brightness,
            ),
    {
        let mut ops: Vec<BusOp> = Vec::new();
        Self::push_command(
            &self.interface,
            &mut ops,
            Command::PreChargePeriod(1, brightness.precharge()),
        )?;
        Self::push_command(&self.interface, &mut ops, Command::Contrast(brightness.contrast()))?;
        Ok(ops)
    }

    /// Turn the display on or off.  The display retains its memory while
    /// off.
    pub fn set_display_on(&mut self, on: bool) -> (r: Result<Vec<BusOp>, DisplayError>)
        ensures
            *final(self) == *old(self),
            r matches Ok(ops) && ops.deep_view() == spec_command_ops(
                old(self).interface,
                Command::DisplayOn(on),
            ),
    {
        Self::send_command(&self.interface, Command::DisplayOn(on))
    }

    /// Set the rectangle of the framebuffer that subsequent data writes fill
    /// in controller order.  `start` is inclusive, `end` exclusive.
    pub fn set_draw_area(&mut self, start: (u8, u8), end: (u8, u8)) -> (r: Result<
        Vec<BusOp>,
        DisplayError,
    >)
        ensures
            *final(self) == *old(self),
            r matches Ok(ops) && ops.deep_view() == spec_draw_area_ops(
                old(self).interface,
                old(self).addr_mode,
                start,
                end,
            ),
    {
        let mut ops: Vec<BusOp> = Vec::new();
        let end_col = if end.0 == 0 {
            0
        } else {
            end.0 - 1
        };
        Self::push_command(&self.interface, &mut ops, Command::ColumnAddress(start.0, end_col))?;
        if self.addr_mode != AddrMode::Page {
            let end_row = if end.1 == 0 {
                0
            } else {
                end.1 - 1
            };
            Self::push_command(
                &self.interface,
                &mut ops,
                Command::PageAddress(start.1 / 8, end_row / 8),
            )?;
        }
        Ok(ops)
    }

    /// Set the column the next data write starts at.
    pub fn set_column(&mut self, column: u8) -> (r: Result<Vec<BusOp>, DisplayError>)
        ensures
            *final(self) == *old(self),
            r matches Ok(ops) && ops.deep_view() == spec_command_ops(
                old(self).interface,
                Command::ColStart(column),
            ),
    {
        Self::send_command(&self.interface, Command::ColStart(column))
    }

    /// Set the page the next data write starts at.  The parameter is in
    /// pixels; the page is the 8-pixel band containing that row.
    pub fn set_row(&mut self, row: u8) -> (r: Result<Vec<BusOp>, DisplayError>)
        ensures
            *final(self) == *old(self),
            r matches Ok(ops) && ops.deep_view() == spec_command_ops(
                old(self).interface,
                Command::PageStart(row / 8),
            ),
    {
        Self::send_command(&self.interface, Command::PageStart(row / 8))
    }

    /// Send a raw buffer to the display, drawn at the current position.
    pub fn draw(&mut self, buffer: &[u8]) -> (r: Result<Vec<BusOp>, DisplayError>)
        ensures
            *final(self) == *old(self),
            r matches Ok(ops) && ops.deep_view() == old(self).interface.data_ops(buffer@),
    {
        let v = vstd::slice::slice_to_vec(buffer);
        let fmt = DataFormat::U8(v);
        self.interface.send_data(&fmt)
    }

    /// Send the pages of a bounding box inside a page-major buffer, one data
    /// write per page band.  `upper_left.0` is the first column,
    /// `lower_right.0` the column past the box, `upper_left.1` the first
    /// pixel row and `lower_right.1` a pixel row inside the last band.
    fn flush_buffer_chunks(
        di: &DI,
        buffer: &[u8],
        disp_width: usize,
        upper_left: (u8, u8),
        lower_right: (u8, u8),
    ) -> (r: Result<Vec<BusOp>, DisplayError>)
        requires
            upper_left.0 <= lower_right.0,
            lower_right.0 <= disp_width,
            upper_left.1 <= lower_right.1,
            (upper_left.1 / 8 + (lower_right.1 - upper_left.1) / 8 + 1) * disp_width
                <= buffer@.len(),
        ensures
            r matches Ok(ops) && ops.deep_view() == spec_band_ops(
                *di,
                buffer@,
                disp_width as int,
                upper_left.0 as int,
                lower_right.0 as int,
                upper_left.1 as int / 8,
                (lower_right.1 - upper_left.1) as int / 8 + 1,
            ),
    {
        let num_pages: usize = ((lower_right.1 - upper_left.1) / 8) as usize + 1;
        let starting_page: usize = (upper_left.1 / 8) as usize;
        let x0 = upper_left.0 as usize;
        let x1 = lower_right.0 as usize;
        let ghost gbuf = buffer@;
        let ghost gw = disp_width as int;
        let ghost gx0 = x0 as int;
        let ghost gx1 = x1 as int;
        let ghost sp = starting_page as int;
        let ghost np = num_pages as int;
        let buf_len: usize = buffer.len();
        let mut ops: Vec<BusOp> = Vec::new();
        let mut k: usize = 0;
        proof {
            assert(ops.deep_view() =~= Seq::<BusOpModel>::empty());
        }
        while k < num_pages
            invariant
                k <= num_pages,
                gbuf.len() == buf_len,
                num_pages == np,
                starting_page == sp,
                disp_width == gw,
                x0 == gx0,
                x1 == gx1,
                gbuf == buffer@,
                x0 <= x1 <= gw,
                0 <= sp <= 31,
                1 <= np <= 32,
                (sp + np) * gw <= gbuf.len(),
                spec_band_ops(*di, gbuf, gw, gx0, gx1, sp, np) =~= ops.deep_view()
                    + spec_band_ops(*di, gbuf, gw, gx0, gx1, sp + k, np - k),
            decreases num_pages - k,
        {
            proof {
                assert((sp + k + 1) * gw <= (sp + np) * gw) by (nonlinear_arith)
                    requires
                        k < np,
                        gw >= 0,
                ;
                assert((sp + k) * gw + gw == (sp + k + 1) * gw) by (nonlinear_arith);
                assert((sp + k) * gw >= 0) by (nonlinear_arith)
                    requires
                        sp >= 0,
                        k >= 0,
                        gw >= 0,
                ;
            }
            let p: usize = starting_page + k;
            let base: usize = p * disp_width;
            let mut band: Vec<u8> = Vec::new();
            push_range(&mut band, buffer, base + x0, base + x1);
            proof {
                assert(band@ =~= gbuf.subrange((sp + k) * gw + gx0, (sp + k) * gw + gx1));
            }
            let fmt = DataFormat::U8(band);
            let mut v = match di.send_data(&fmt) {
                Ok(v) => v,
                Err(e) => {
                    return Err(e);
                },
            };
            let ghost pre = ops.deep_view();
            let ghost vpre = v.deep_view();
            ops.append(&mut v);
            proof {
                assert(ops.deep_view() =~= pre + vpre);
                assert(spec_band_ops(*di, gbuf, gw, gx0, gx1, sp + k, np - k) =~= vpre
                    + spec_band_ops(*di, gbuf, gw, gx0, gx1, sp + k + 1, np - (k + 1)));
            }
            k = k + 1;
        }
        Ok(ops)
    }

    /// Send data for the bounding box `upper_left ..= lower_right` of a
    /// page-major buffer of the given width, one data write per page band.
    pub fn bounded_draw(
        &mut self,
        buffer: &[u8],
        disp_width: usize,
        upper_left: (u8, u8),
        lower_right: (u8, u8),
    ) -> (r: Result<Vec<BusOp>, DisplayError>)
        requires
            upper_left.0 <= lower_right.0,
            lower_right.0 <= disp_width,
            upper_left.1 <= lower_right.1,
            (upper_left.1 / 8 + (lower_right.1 - upper_left.1) / 8 + 1) * disp_width
                <= buffer@.len(),
        ensures
            *final(self) == *old(self),
            r matches Ok(ops) && ops.deep_view() == spec_band_ops(
                old(self).interface,
                buffer@,
                disp_width as int,
                upper_left.0 as int,
                lower_right.0 as int,
                upper_left.1 as int / 8,
                (lower_right.1 - upper_left.1) as int / 8 + 1,
            ),
    {
        Self::flush_buffer_chunks(&self.interface, buffer, disp_width, upper_left, lower_right)
    }
}

} // verus!
