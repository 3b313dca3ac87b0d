//! Driver core for the MAX44009 ambient light sensor.
//!
//! The crate holds everything the driver decides: the bus address, the layout of
//! the configuration register, the cached copy of that register with the rule
//! that guards the manual-only settings, and the decoding of what the sensor
//! sends back. It performs no bus traffic itself. Each operation comes as a pair:
//! a function that describes the bus transaction to run, and a function that
//! takes what the bus reported and gives the operation's result.
//!
//! Setting the integration time, with `bus` standing for whatever runs the
//! transactions:
//!
//! ```text
//! let write = device.integration_time_write(IntegrationTime::_100ms)?;
//! let outcome = bus.write(write.address, &write.bytes());
//! device.set_integration_time(IntegrationTime::_100ms, outcome)?;
//! ```

pub mod configuration;
pub mod device;
pub mod reading;
pub mod register;
pub mod types;

pub use crate::device::{DeviceView, Max44009, Write, WriteRead};
pub use crate::reading::{lux_count, millilux, MILLILUX_PER_COUNT};
pub use crate::register::{BitFlags, Register};
pub use crate::types::{
    ConfigurationMode, CurrentDivisionRatio, Error, IntegrationTime, MeasurementMode, SlaveAddr,
    DEVICE_BASE_ADDRESS,
};
