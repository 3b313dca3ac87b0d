//! Operations that read the sensor: the interrupt status, the light reading
//! and two fields of the configuration register.
//!
//! Each operation has two halves. The first, whose name ends in `_read`,
//! gives the register read to put on the bus. The second bears the name of
//! the operation: it takes what the bus reported, the bytes read or the bus
//! error, and gives the operation's result. None of them touches the cached
//! configuration: the fields are decoded from what the sensor sent.

use vstd::prelude::*;
use vstd::arithmetic::power2::{lemma2_to64, pow2};
use crate::device::{bus_result, Max44009, WriteRead};
use crate::register::Register;
use crate::types::{CurrentDivisionRatio, Error, IntegrationTime};

verus! {

/// Thousandths of a lux that one count of the light reading stands for.
pub const MILLILUX_PER_COUNT: u32 = 45;

/// The mantissa of a light reading: the low four bits of the high byte,
/// followed by the low four bits of the low byte.
pub open spec fn lux_mantissa(msb: u8, lsb: u8) -> nat {
    ((msb % 16) * 16 + lsb % 16) as nat
}

/// The exponent of a light reading: the high four bits of the high byte.
pub open spec fn lux_exponent(msb: u8) -> nat {
    (msb / 16) as nat
}

/// The light reading in counts: the mantissa times two to the exponent.
pub open spec fn spec_lux_count(msb: u8, lsb: u8) -> nat {
    pow2(lux_exponent(msb)) * lux_mantissa(msb, lsb)
}

/// The light reading in thousandths of a lux: 45 for each count.
pub open spec fn spec_millilux(msb: u8, lsb: u8) -> nat {
    MILLILUX_PER_COUNT as nat * spec_lux_count(msb, lsb)
}

/// Mantissa and exponent as the bits of the two bytes, and their ranges: the
/// mantissa has eight bits, the exponent four.
pub proof fn lemma_lux_fields_as_bits(msb: u8, lsb: u8)
    ensures
        lux_mantissa(msb, lsb) == (msb & 0x0F) << 4 | (lsb & 0x0F),
        lux_exponent(msb) == (msb & 0xF0) >> 4,
        lux_mantissa(msb, lsb) <= 255,
        lux_exponent(msb) <= 15,
{
    assert(((msb & 0x0F) << 4 | (lsb & 0x0F)) == (msb % 16) * 16 + lsb % 16) by (bit_vector);
    assert((msb & 0xF0) >> 4 == msb / 16) by (bit_vector);
}

/// The largest light reading, in counts: mantissa 255 and exponent 15.
pub open spec fn max_lux_count() -> nat {
    255 * 32768
}

/// No light reading is larger than the largest one.
pub proof fn lemma_lux_count_bound(msb: u8, lsb: u8)
    ensures
        spec_lux_count(msb, lsb) <= max_lux_count(),
{
    let e = lux_exponent(msb);
    let m = lux_mantissa(msb, lsb);
    lemma2_to64();
    assert(pow2(e) <= 32768) by {
        assert(e == 0 || e == 1 || e == 2 || e == 3 || e == 4 || e == 5 || e == 6 || e == 7 || e
            == 8 || e == 9 || e == 10 || e == 11 || e == 12 || e == 13 || e == 14 || e == 15);
    }
    assert(pow2(e) * m <= 32768 * 255) by (nonlinear_arith)
        requires
            pow2(e) <= 32768,
            m <= 255,
    ;
}

/// Decodes a light reading from the two bytes of the sensor, in counts of
/// 0.045 lux.
pub fn lux_count(msb: u8, lsb: u8) -> (count: u32)
    ensures
        count == spec_lux_count(msb, lsb),
        count <= max_lux_count(),
{
    let mantissa: u8 = (msb & 0x0F) << 4 | (lsb & 0x0F);
    let exp: u32 = ((msb & 0xF0) >> 4) as u32;
    proof {
        lemma_lux_fields_as_bits(msb, lsb);
        lemma_lux_count_bound(msb, lsb);
        lemma2_to64();
        assert(pow2(exp as nat) <= 32768) by {
            assert(exp == 0 || exp == 1 || exp == 2 || exp == 3 || exp == 4 || exp == 5 || exp == 6
                || exp == 7 || exp == 8 || exp == 9 || exp == 10 || exp == 11 || exp == 12 || exp
                == 13 || exp == 14 || exp == 15);
        }
        vstd::bits::lemma_u32_shl_is_mul(1, exp);
        assert(1u32 << exp == pow2(exp as nat));
    }
    (1u32 << exp) * (mantissa as u32)
}

/// Decodes a light reading from the two bytes of the sensor, in thousandths
/// of a lux.
pub fn millilux(msb: u8, lsb: u8) -> (millilux: u32)
    ensures
        millilux == spec_millilux(msb, lsb),
        millilux == 45 * spec_lux_count(msb, lsb),
{
    MILLILUX_PER_COUNT * lux_count(msb, lsb)
}

impl Max44009 {
    /// The read of the interrupt status register.
    pub fn interrupt_status_read(&self) -> (read: WriteRead)
        ensures
            read == (WriteRead { address: self@.address, register: Register::INT_STATUS, len: 1 }),
    {
        self.read_from(Register::INT_STATUS, 1)
    }

    /// Reads whether an interrupt has happened.
    ///
    /// `reply` is what the bus reported for `interrupt_status_read`. An
    /// interrupt has happened if and only if the byte read is not zero.
    pub fn has_interrupt_happened<E>(&self, reply: Result<[u8; 1], E>) -> (result: Result<
        bool,
        Error<E>,
    >)
        ensures
            match reply {
                Ok(data) => result == Ok::<bool, Error<E>>(data@[0] != 0),
                Err(e) => result == Err::<bool, Error<E>>(Error::I2C(e)),
            },
    {
        match reply {
            Ok(data) => Ok(data[0] != 0),
            Err(e) => Err(Error::I2C(e)),
        }
    }

    /// The read of the two bytes of the light reading, high byte first.
    pub fn lux_read(&self) -> (read: WriteRead)
        ensures
            read == (WriteRead { address: self@.address, register: Register::LUX_HIGH, len: 2 }),
    {
        self.read_from(Register::LUX_HIGH, 2)
    }

    /// Read the lux intensity, in counts of 0.045 lux.
    ///
    /// `reply` is what the bus reported for `lux_read`.
    pub fn read_lux<E>(&self, reply: Result<[u8; 2], E>) -> (result: Result<u32, Error<E>>)
        ensures
            match reply {
                Ok(data) => result matches Ok(count) && count == spec_lux_count(
                    data@[0],
                    data@[1],
                ),
                Err(e) => result == Err::<u32, Error<E>>(Error::I2C(e)),
            },
    {
        match reply {
            Ok(data) => Ok(lux_count(data[0], data[1])),
            Err(e) => Err(Error::I2C(e)),
        }
    }

    /// The read of the configuration register.
    pub fn configuration_read(&self) -> (read: WriteRead)
        ensures
            read == (WriteRead {
                address: self@.address,
                register: Register::CONFIGURATION,
                len: 1,
            }),
    {
        self.read_from(Register::CONFIGURATION, 1)
    }

    /// Read the integration time.
    ///
    /// `reply` is what the bus reported for `configuration_read`. The time is
    /// the one that the sensor holds, not the cached one.
    pub fn read_integration_time<E>(&self, reply: Result<[u8; 1], E>) -> (result: Result<
        IntegrationTime,
        Error<E>,
    >)
        ensures
            match reply {
                Ok(config) => result == Ok::<IntegrationTime, Error<E>>(
                    IntegrationTime::spec_decode(config@[0]),
                ),
                Err(e) => result == Err::<IntegrationTime, Error<E>>(Error::I2C(e)),
            },
    {
        match reply {
            Ok(config) => Ok(IntegrationTime::decode(config[0])),
            Err(e) => Err(Error::I2C(e)),
        }
    }

    /// Read the current division ratio.
    ///
    /// `reply` is what the bus reported for `configuration_read`. The ratio is
    /// the one that the sensor holds, not the cached one.
    pub fn read_current_division_ratio<E>(&self, reply: Result<[u8; 1], E>) -> (result: Result<
        CurrentDivisionRatio,
        Error<E>,
    >)
        ensures
            match reply {
                Ok(config) => result == Ok::<CurrentDivisionRatio, Error<E>>(
                    CurrentDivisionRatio::spec_decode(config@[0]),
                ),
                Err(e) => result == Err::<CurrentDivisionRatio, Error<E>>(Error::I2C(e)),
            },
    {
        match reply {
            Ok(config) => Ok(CurrentDivisionRatio::decode(config[0])),
            Err(e) => Err(Error::I2C(e)),
        }
    }
}

} // verus!
