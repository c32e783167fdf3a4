//! An I²C slave (target) engine driven over two GPIO lines.
//!
//! A remote master owns the clock line (SCL) and opens and closes every
//! transaction on the data line (SDA). This library recognises bus events,
//! samples bits in step with the master's clock, asserts acknowledgements
//! and transmits reply bytes, using only edge-triggered GPIO events.

pub mod bits;
pub mod errors;
pub mod gpio;
pub mod line;
pub mod sim;
pub mod slave;

pub use bits::I2CSlaveOp;
pub use errors::{AckError, I2cGpioError, I2cGpioErrorKind, LineErrorInfo};
pub use gpio::I2cGpioLine;
pub use line::{LineIo, LineMode, LineView};
pub use sim::SimLine;
pub use slave::I2cGpioSlave;
