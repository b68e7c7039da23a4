//! Crate prelude: the items most integrations need.

pub use crate::brightness::Brightness;
pub use crate::i2c_interface::I2CDisplayInterface;
pub use crate::mode::DisplayConfig;
pub use crate::rotation::DisplayRotation;
pub use crate::size::DisplaySize;
pub use crate::spi_interface::SPIInterface;
pub use crate::terminal::TerminalDisplaySize;
pub use crate::WriteOnlyDataCommand;
