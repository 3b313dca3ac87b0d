//! Public types.

use vstd::prelude::*;

verus! {

/// Bus address of the sensor while its address pin A0 is tied low.
pub const DEVICE_BASE_ADDRESS: u8 = 0b100_1010;

/// All possible errors in this crate.
///
/// `E` is the error type of the bus, which is handed on as it came.
#[derive(Debug)]
pub enum Error<E> {
    /// I2C bus error.
    I2C(E),
    /// A manual-configuration-mode-only was attempted while in automatic
    /// configuration mode.
    OperationNotAvailable,
}

impl<E: Clone> Clone for Error<E> {
    /// A bus error is cloned as its own `clone` does it; the other variant is
    /// kept.
    fn clone(&self) -> (copy: Self)
        ensures
            match *self {
                Error::I2C(e) => copy matches Error::I2C(c) && cloned::<E>(e, c),
                Error::OperationNotAvailable => copy is OperationNotAvailable,
            },
    {
        match self {
            Error::I2C(e) => Error::I2C(e.clone()),
            Error::OperationNotAvailable => Error::OperationNotAvailable,
        }
    }
}

/// Measurement mode.
#[derive(Clone, Copy, Debug, PartialEq, Eq, Structural)]
pub enum MeasurementMode {
    /// Once every 800ms mode (default).
    ///
    /// Measures lux intensity every 800ms regardless of the integration time.
    /// Sensor operates on lowest possible supply current.
    OnceEvery800ms,
    /// Continuous mode.
    ///
    /// Continuously measures lux intensity. As soon as a reading finishes,
    /// the next one begins. The actual cadence depends on the integration
    /// time selected.
    Continuous,
}

/// Configuration mode.
#[derive(Clone, Copy, Debug, PartialEq, Eq, Structural)]
pub enum ConfigurationMode {
    /// Automatic mode (default).
    ///
    /// On-chip algorithm selects the integration time (100ms - 800ms) and
    /// the current division ratio.
    Automatic,
    /// Manual mode.
    ///
    /// The user can select the integration time and the current division
    /// ratio manually.
    Manual,
}

/// Integration time.
#[allow(non_camel_case_types)]
#[derive(Clone, Copy, Debug, PartialEq, Eq, Structural)]
pub enum IntegrationTime {
    /// 6.25ms. (Only in manual mode)
    _6_25ms,
    /// 12.5ms. (Only in manual mode)
    _12_5ms,
    /// 25ms. (Only in manual mode)
    _25ms,
    /// 50ms. (Only in manual mode)
    _50ms,
    /// 100ms. (Preferred mode for high-brightness applications)
    _100ms,
    /// 200ms.
    _200ms,
    /// 400ms.
    _400ms,
    /// 800ms. (Preferred mode for boosting low-light sensitivity)
    _800ms,
}

/// Current division ratio.
#[derive(Clone, Copy, Debug, PartialEq, Eq, Structural)]
pub enum CurrentDivisionRatio {
    /// No current division (default).
    ///
    /// All the photodiode current goes to the ADC.
    One,
    /// 1/8 current division ratio.
    ///
    /// Only 1/8 of the photodiode current goes to the ADC. This mode is used in
    /// high-brightness situations.
    OneEighth,
}

/// Possible slave addresses.
#[derive(Clone, Copy, Debug, PartialEq, Eq, Structural)]
pub enum SlaveAddr {
    /// Default slave address.
    Default,
    /// Alternative slave address providing bit value for A0.
    Alternative(bool),
}

impl Default for SlaveAddr {
    /// Default slave address.
    fn default() -> (addr: Self)
        ensures
            addr == SlaveAddr::Default,
    {
        SlaveAddr::Default
    }
}

impl SlaveAddr {
    /// The value that the selector puts on the least significant address bit.
    pub open spec fn a0(self) -> u8 {
        match self {
            SlaveAddr::Default => 0u8,
            SlaveAddr::Alternative(a0) => if a0 { 1u8 } else { 0u8 },
        }
    }

    /// The bus address that the selector makes of the base address `default`.
    pub open spec fn spec_addr(self, default: u8) -> u8 {
        default | self.a0()
    }

    /// Combines the base address `default` with the selected A0 bit.
    ///
    /// Only the least significant bit can change, and only from clear to set.
    #[verifier::when_used_as_spec(spec_addr)]
    pub fn addr(self, default: u8) -> (address: u8)
        ensures
            address == self.spec_addr(default),
            self == SlaveAddr::Default || self == SlaveAddr::Alternative(false) ==> address
                == default,
            self == SlaveAddr::Alternative(true) ==> address == default | 1,
            address & 0xFE == default & 0xFE,
            address & 1 == default & 1 | self.a0(),
    {
        let a0: u8 = match self {
            SlaveAddr::Default => 0,
            SlaveAddr::Alternative(bit) => if bit { 1 } else { 0 },
        };
        assert(default | 0 == default) by (bit_vector);
        assert((default | a0) & 0xFE == default & 0xFE) by (bit_vector)
            requires
                a0 <= 1,
        ;
        assert((default | a0) & 1 == default & 1 | a0) by (bit_vector)
            requires
                a0 <= 1,
        ;
        default | a0
    }
}

} // verus!
