//! Operations that change the sensor: the interrupt enable and the four fields
//! of the configuration register.
//!
//! Each operation has two halves. The first, whose name ends in `_write`,
//! gives the register write to put on the bus; where the operation is not
//! available, it gives the error instead, and nothing goes on the bus. The
//! second bears the name of the operation: it takes what the bus reported for
//! that write, gives the operation's result, and brings the cached
//! configuration up to date. The cache changes if and only if the write is
//! reported as done.

use vstd::prelude::*;
use crate::device::{bus_result, from_bus, DeviceView, Max44009, Write};
use crate::register::{BitFlags, Register};
use crate::types::{
    ConfigurationMode,
    CurrentDivisionRatio,
    Error,
    IntegrationTime,
    MeasurementMode,
};

verus! {

impl Max44009 {
    /// The write that enables the interrupt: 1 to the interrupt enable
    /// register.
    pub fn enable_interrupt_write(&self) -> (write: Write)
        ensures
            write == (Write {
                address: self@.address,
                register: Register::INT_ENABLE,
                value: 1,
            }),
    {
        self.write_to(Register::INT_ENABLE, 1)
    }

    /// Enable interrupt.
    ///
    /// The INT pin will be pulled low if the interrupt condition is triggered.
    /// `outcome` is what the bus reported for `enable_interrupt_write`. The
    /// cached configuration does not hold the interrupt enable and stays as it
    /// is.
    pub fn enable_interrupt<E>(&self, outcome: Result<(), E>) -> (result: Result<(), Error<E>>)
        ensures
            result == bus_result(outcome),
    {
        from_bus(outcome)
    }

    /// The write that disables the interrupt: 0 to the interrupt enable
    /// register.
    pub fn disable_interrupt_write(&self) -> (write: Write)
        ensures
            write == (Write {
                address: self@.address,
                register: Register::INT_ENABLE,
                value: 0,
            }),
    {
        self.write_to(Register::INT_ENABLE, 0)
    }

    /// Disable interrupt.
    ///
    /// `outcome` is what the bus reported for `disable_interrupt_write`.
    pub fn disable_interrupt<E>(&self, outcome: Result<(), E>) -> (result: Result<(), Error<E>>)
        ensures
            result == bus_result(outcome),
    {
        from_bus(outcome)
    }

    /// The write that sets the measurement mode: the cached configuration with
    /// the measurement mode replaced, to the configuration register.
    pub fn measurement_mode_write(&self, mode: MeasurementMode) -> (write: Write)
        ensures
            write == (Write {
                address: self@.address,
                register: Register::CONFIGURATION,
                value: mode.spec_encode(self@.config),
            }),
    {
        self.write_to(Register::CONFIGURATION, mode.encode(self.config()))
    }

    /// Set the measurement mode.
    ///
    /// `outcome` is what the bus reported for `measurement_mode_write`.
    pub fn set_measurement_mode<E>(&mut self, mode: MeasurementMode, outcome: Result<(), E>) -> (result:
        Result<(), Error<E>>)
        ensures
            result == bus_result(outcome),
            final(self)@ == old(self)@.after_write(
                mode.spec_encode(old(self)@.config),
                outcome is Ok,
            ),
            outcome is Err ==> final(self)@ == old(self)@,
    {
        let config = mode.encode(self.config());
        self.write_config(config, outcome)
    }

    /// The write that sets the configuration mode: the cached configuration
    /// with the configuration mode replaced, to the configuration register.
    pub fn configuration_mode_write(&self, mode: ConfigurationMode) -> (write: Write)
        ensures
            write == (Write {
                address: self@.address,
                register: Register::CONFIGURATION,
                value: mode.spec_encode(self@.config),
            }),
    {
        self.write_to(Register::CONFIGURATION, mode.encode(self.config()))
    }

    /// Set configuration mode.
    ///
    /// `outcome` is what the bus reported for `configuration_mode_write`. After
    /// a write that was done the device is in the mode asked for.
    pub fn set_configuration_mode<E>(
        &mut self,
        mode: ConfigurationMode,
        outcome: Result<(), E>,
    ) -> (result: Result<(), Error<E>>)
        ensures
            result == bus_result(outcome),
            final(self)@ == old(self)@.after_write(
                mode.spec_encode(old(self)@.config),
                outcome is Ok,
            ),
            outcome is Ok ==> (final(self)@.is_manual() <==> mode == ConfigurationMode::Manual),
            outcome is Err ==> final(self)@ == old(self)@,
    {
        let config = mode.encode(self.config());
        proof {
            crate::register::lemma_configuration_mode_round_trip(self@.config, mode);
        }
        self.write_config(config, outcome)
    }

    /// The write that sets the integration time: the cached configuration with
    /// the integration time replaced, to the configuration register.
    ///
    /// In automatic configuration mode there is no such write, and the result
    /// is `OperationNotAvailable`.
    pub fn integration_time_write<E>(&self, it: IntegrationTime) -> (write: Result<
        Write,
        Error<E>,
    >)
        ensures
            self@.is_manual() ==> write == Ok::<Write, Error<E>>(
                Write {
                    address: self@.address,
                    register: Register::CONFIGURATION,
                    value: it.spec_encode(self@.config),
                },
            ),
            !self@.is_manual() ==> write == Err::<Write, Error<E>>(Error::OperationNotAvailable),
    {
        match self.assert_is_in_manual_mode::<E>() {
            Ok(()) => Ok(self.write_to(Register::CONFIGURATION, it.encode(self.config()))),
            Err(e) => Err(e),
        }
    }

    /// Set integration time. (Only in manual configuration mode).
    ///
    /// `outcome` is what the bus reported for `integration_time_write`. In
    /// automatic configuration mode the result is `OperationNotAvailable`,
    /// whatever `outcome` holds, and nothing changes.
    pub fn set_integration_time<E>(&mut self, it: IntegrationTime, outcome: Result<(), E>) -> (result:
        Result<(), Error<E>>)
        ensures
            old(self)@.is_manual() ==> result == bus_result(outcome) && final(self)@ == old(
                self,
            )@.after_write(it.spec_encode(old(self)@.config), outcome is Ok),
            !old(self)@.is_manual() ==> result == Err::<(), Error<E>>(
                Error::OperationNotAvailable,
            ) && final(self)@ == old(self)@,
            outcome is Err ==> final(self)@ == old(self)@,
            final(self)@.is_manual() == old(self)@.is_manual(),
    {
        match self.assert_is_in_manual_mode::<E>() {
            Ok(()) => {
                let config = it.encode(self.config());
                proof {
                    crate::register::lemma_fields_are_independent(
                        self@.config,
                        MeasurementMode::Continuous,
                        ConfigurationMode::Manual,
                        CurrentDivisionRatio::One,
                        it,
                    );
                }
                self.write_config(config, outcome)
            },
            Err(e) => Err(e),
        }
    }

    /// The write that sets the current division ratio: the cached
    /// configuration with the ratio replaced, to the configuration register.
    ///
    /// In automatic configuration mode there is no such write, and the result
    /// is `OperationNotAvailable`.
    pub fn current_division_ratio_write<E>(&self, cdr: CurrentDivisionRatio) -> (write: Result<
        Write,
        Error<E>,
    >)
        ensures
            self@.is_manual() ==> write == Ok::<Write, Error<E>>(
                Write {
                    address: self@.address,
                    register: Register::CONFIGURATION,
                    value: cdr.spec_encode(self@.config),
                },
            ),
            !self@.is_manual() ==> write == Err::<Write, Error<E>>(Error::OperationNotAvailable),
    {
        match self.assert_is_in_manual_mode::<E>() {
            Ok(()) => Ok(self.write_to(Register::CONFIGURATION, cdr.encode(self.config()))),
            Err(e) => Err(e),
        }
    }

    /// Set current division ratio. (Only in manual configuration mode).
    ///
    /// `outcome` is what the bus reported for `current_division_ratio_write`.
    /// In automatic configuration mode the result is `OperationNotAvailable`,
    /// whatever `outcome` holds, and nothing changes.
    pub fn set_current_division_ratio<E>(
        &mut self,
        cdr: CurrentDivisionRatio,
        outcome: Result<(), E>,
    ) -> (result: Result<(), Error<E>>)
        ensures
            old(self)@.is_manual() ==> result == bus_result(outcome) && final(self)@ == old(
                self,
            )@.after_write(cdr.spec_encode(old(self)@.config), outcome is Ok),
            !old(self)@.is_manual() ==> result == Err::<(), Error<E>>(
                Error::OperationNotAvailable,
            ) && final(self)@ == old(self)@,
            outcome is Err ==> final(self)@ == old(self)@,
            final(self)@.is_manual() == old(self)@.is_manual(),
    {
        match self.assert_is_in_manual_mode::<E>() {
            Ok(()) => {
                let config = cdr.encode(self.config());
                proof {
                    crate::register::lemma_fields_are_independent(
                        self@.config,
                        MeasurementMode::Continuous,
                        ConfigurationMode::Manual,
                        cdr,
                        IntegrationTime::_800ms,
                    );
                }
                self.write_config(config, outcome)
            },
            Err(e) => Err(e),
        }
    }

    /// Finishes a write of `config` to the configuration register: if the bus
    /// reported success, `config` becomes the cached configuration; if not,
    /// the cache stays and the bus error is handed on.
    fn write_config<E>(&mut self, config: u8, outcome: Result<(), E>) -> (result: Result<
        (),
        Error<E>,
    >)
        ensures
            result == bus_result(outcome),
            final(self)@ == old(self)@.after_write(config, outcome is Ok),
    {
        match outcome {
            Ok(()) => {
                self.store_config(config);
                Ok(())
            },
            Err(e) => Err(Error::I2C(e)),
        }
    }

    /// Tells whether the manual-only operations are available: `Ok` if the
    /// cached configuration is in manual configuration mode,
    /// `OperationNotAvailable` if it is in automatic mode.
    pub fn assert_is_in_manual_mode<E>(&self) -> (result: Result<(), Error<E>>)
        ensures
            self@.is_manual() ==> result == Ok::<(), Error<E>>(()),
            !self@.is_manual() ==> result == Err::<(), Error<E>>(Error::OperationNotAvailable),
    {
        if (self.config() & BitFlags::MANUAL) == 0 {
            return Err(Error::OperationNotAvailable);
        }
        Ok(())
    }
}

/// Setting the configuration mode to automatic twice in a row: the second call
/// leaves the cached configuration as the first call left it.
///
/// `first_done` and `second_done` tell whether the bus reported the write of
/// the first and of the second call as done. The one case left out is that of
/// a device in manual mode whose first write fails and whose second write is
/// done: there the first call changes nothing and the second one does.
pub proof fn lemma_set_automatic_twice(device: DeviceView, first_done: bool, second_done: bool)
    requires
        first_done || !second_done || !device.is_manual(),
    ensures
        ({
            let once = device.after_write(
                ConfigurationMode::Automatic.spec_encode(device.config),
                first_done,
            );
            let twice = once.after_write(
                ConfigurationMode::Automatic.spec_encode(once.config),
                second_done,
            );
            twice == once
        }),
{
    let automatic = ConfigurationMode::Automatic;
    let once = device.after_write(automatic.spec_encode(device.config), first_done);
    crate::register::lemma_configuration_mode_round_trip(device.config, automatic);
    crate::register::lemma_encoding_decoded_fields_keeps_byte(once.config);
}

} // verus!
