//! The device handle and the bus transactions that its operations ask for.

use vstd::prelude::*;
use crate::types::{ConfigurationMode, Error, SlaveAddr, DEVICE_BASE_ADDRESS};

verus! {

/// What a device handle stands for: the bus address it talks to and its copy
/// of the configuration register.
pub struct DeviceView {
    /// Bus address of the sensor.
    pub address: u8,
    /// The configuration byte that was last written with success, or zero, the
    /// value after power-on, if none was.
    pub config: u8,
}

/// The byte that the last write reported as done has put into the
/// configuration register, or `initial` if none was done. `writes` lists the
/// attempted writes, oldest first, each with its byte and with whether the bus
/// reported it as done.
pub open spec fn last_written(initial: u8, writes: Seq<(u8, bool)>) -> u8
    decreases writes.len(),
{
    if writes.len() == 0 {
        initial
    } else if writes.last().1 {
        writes.last().0
    } else {
        last_written(initial, writes.drop_last())
    }
}

impl DeviceView {
    /// Whether the cached configuration is in manual configuration mode.
    pub open spec fn is_manual(self) -> bool {
        ConfigurationMode::spec_decode(self.config) == ConfigurationMode::Manual
    }

    /// The device after a write of `config` to the configuration register was
    /// attempted: the cache takes the new byte if the bus reported success, and
    /// stays as it was if not.
    pub open spec fn after_write(self, config: u8, succeeded: bool) -> DeviceView {
        if succeeded {
            DeviceView { address: self.address, config }
        } else {
            self
        }
    }

    /// The device after the attempted writes of `writes`, oldest first.
    pub open spec fn after_writes(self, writes: Seq<(u8, bool)>) -> DeviceView
        decreases writes.len(),
    {
        if writes.len() == 0 {
            self
        } else {
            self.after_writes(writes.drop_last()).after_write(writes.last().0, writes.last().1)
        }
    }
}

/// Whatever writes are attempted and however they end, the cached
/// configuration is the byte of the last write that was reported as done, or
/// the byte the cache began with if none was; and the address stays.
pub proof fn lemma_cache_mirrors_last_write(device: DeviceView, writes: Seq<(u8, bool)>)
    ensures
        device.after_writes(writes).config == last_written(device.config, writes),
        device.after_writes(writes).address == device.address,
    decreases writes.len(),
{
    if writes.len() > 0 {
        lemma_cache_mirrors_last_write(device, writes.drop_last());
    }
}

/// A write of one register: the bus is to send `register` and `value`, in this
/// order, to the device at `address`.
#[derive(Clone, Copy, Debug, PartialEq, Eq, Structural)]
pub struct Write {
    /// Bus address to write to.
    pub address: u8,
    /// Register to write.
    pub register: u8,
    /// Value to put into the register.
    pub value: u8,
}

impl Write {
    /// The bytes to send, as a sequence.
    pub open spec fn spec_bytes(self) -> Seq<u8> {
        seq![self.register, self.value]
    }

    /// The bytes to send: the register address, then the value.
    pub fn bytes(&self) -> (bytes: [u8; 2])
        ensures
            bytes@ == self.spec_bytes(),
    {
        let bytes = [self.register, self.value];
        assert(bytes@ =~= self.spec_bytes());
        bytes
    }
}

/// A read of `len` consecutive registers: the bus is to send `register` to the
/// device at `address` and then, in the same transaction, read `len` bytes.
#[derive(Clone, Copy, Debug, PartialEq, Eq, Structural)]
pub struct WriteRead {
    /// Bus address to talk to.
    pub address: u8,
    /// First register to read.
    pub register: u8,
    /// Number of bytes to read.
    pub len: usize,
}

impl WriteRead {
    /// The bytes to send before reading, as a sequence.
    pub open spec fn spec_bytes(self) -> Seq<u8> {
        seq![self.register]
    }

    /// The bytes to send before reading: the register address.
    pub fn bytes(&self) -> (bytes: [u8; 1])
        ensures
            bytes@ == self.spec_bytes(),
    {
        let bytes = [self.register];
        assert(bytes@ =~= self.spec_bytes());
        bytes
    }
}

/// What an operation returns for what the bus reported: the value in case of
/// success, and the bus error, wrapped and otherwise untouched, in case of
/// failure.
pub open spec fn bus_result<T, E>(outcome: Result<T, E>) -> Result<T, Error<E>> {
    match outcome {
        Ok(value) => Ok(value),
        Err(e) => Err(Error::I2C(e)),
    }
}

/// Wraps the error of a bus transaction and hands a success on unchanged.
pub fn from_bus<T, E>(outcome: Result<T, E>) -> (result: Result<T, Error<E>>)
    ensures
        result == bus_result(outcome),
{
    match outcome {
        Ok(value) => Ok(value),
        Err(e) => Err(Error::I2C(e)),
    }
}

/// MAX44009 ambient light sensor driver.
///
/// The handle holds the bus address of the sensor and a copy of its
/// configuration register. The copy changes only when a write of the register
/// is reported as done.
#[derive(Debug)]
pub struct Max44009 {
    /// The bus address of the sensor.
    address: u8,
    /// Configuration register status.
    config: u8,
}

impl View for Max44009 {
    type V = DeviceView;

    closed spec fn view(&self) -> DeviceView {
        DeviceView { address: self.address, config: self.config }
    }
}

impl Max44009 {
    /// The address is one of the two that the sensor can have.
    #[verifier::type_invariant]
    spec fn has_sensor_address(self) -> bool {
        self.address == DEVICE_BASE_ADDRESS || self.address == DEVICE_BASE_ADDRESS | 1
    }

    /// Creates the handle of a sensor at the given address, with the
    /// configuration that the sensor has after power-on.
    pub fn new(address: SlaveAddr) -> (device: Self)
        ensures
            device@ == (DeviceView {
                address: address.spec_addr(DEVICE_BASE_ADDRESS),
                config: 0,
            }),
            !device@.is_manual(),
    {
        assert(0u8 & 0b0100_0000 == 0) by (bit_vector);
        Max44009 { address: address.addr(DEVICE_BASE_ADDRESS), config: 0 }
    }

    /// The bus address of the sensor: the base address, with or without the
    /// bit of the address pin, and so an address of seven bits.
    pub fn address(&self) -> (address: u8)
        ensures
            address == self@.address,
            address == 0b100_1010 || address == 0b100_1011,
    {
        proof {
            use_type_invariant(self);
            assert(0b100_1010u8 | 1 == 0b100_1011) by (bit_vector);
        }
        self.address
    }

    /// The cached configuration byte.
    pub fn config(&self) -> (config: u8)
        ensures
            config == self@.config,
    {
        self.config
    }

    /// Takes `config` as the byte that the configuration register now holds.
    pub(crate) fn store_config(&mut self, config: u8)
        ensures
            final(self)@ == (DeviceView { address: old(self)@.address, config }),
    {
        proof {
            use_type_invariant(&*self);
        }
        self.config = config;
    }

    /// A write of `value` to `register` of this sensor.
    pub(crate) fn write_to(&self, register: u8, value: u8) -> (write: Write)
        ensures
            write == (Write { address: self@.address, register, value }),
    {
        Write { address: self.address, register, value }
    }

    /// A read of `len` registers of this sensor, from `register` on.
    pub(crate) fn read_from(&self, register: u8, len: usize) -> (read: WriteRead)
        ensures
            read == (WriteRead { address: self@.address, register, len }),
    {
        WriteRead { address: self.address, register, len }
    }
}

} // verus!
