//! Register map of the sensor and the layout of its configuration register.
//!
//! The configuration register holds four fields: the measurement mode (one
//! bit), the configuration mode (one bit), the current division ratio (one
//! bit) and the integration time (three bits). Each field type can be put into
//! a register byte (`encode`) and read out of one (`decode`). Putting a field
//! in replaces the bits of that field and keeps all the others.

use vstd::prelude::*;
use crate::types::{ConfigurationMode, CurrentDivisionRatio, IntegrationTime, MeasurementMode};

verus! {

/// Addresses of the sensor's registers.
pub struct Register;

impl Register {
    /// Interrupt status: non-zero while an interrupt is pending.
    pub const INT_STATUS: u8 = 0x00;
    /// Interrupt enable: 1 enables the interrupt pin, 0 disables it.
    pub const INT_ENABLE: u8 = 0x01;
    /// Configuration.
    pub const CONFIGURATION: u8 = 0x02;
    /// High byte of the reading; the low byte follows it.
    pub const LUX_HIGH: u8 = 0x03;
}

/// Masks of the fields of the configuration register.
pub struct BitFlags;

impl BitFlags {
    /// Set while the sensor measures continuously.
    pub const CONTINUOUS: u8 = 0b1000_0000;
    /// Set while integration time and current division ratio are chosen by hand.
    pub const MANUAL: u8 = 0b0100_0000;
    /// Set while only an eighth of the photodiode current is measured.
    pub const CDR: u8 = 0b0000_1000;
    /// The three bits that hold the code of the integration time.
    pub const INTEGRATION_TIME: u8 = 0b0000_0111;
}

/// `byte` with the bits under `mask` taken from `field` and all others kept.
pub open spec fn replace_field(byte: u8, mask: u8, field: u8) -> u8 {
    byte & !mask | field & mask
}

/// What replacing a field does, bit by bit: the bits under the mask are those
/// of the new field, the bits outside it are those of the old byte, and so are
/// the bits under any other mask that shares no bit with it.
pub proof fn lemma_replace_field(byte: u8, mask: u8, field: u8, other: u8)
    by (bit_vector)
    ensures
        replace_field(byte, mask, field) & mask == field & mask,
        replace_field(byte, mask, field) & !mask == byte & !mask,
        mask & other == 0 ==> replace_field(byte, mask, field) & other == byte & other,
        replace_field(byte, mask, byte & mask) == byte,
{
}

/// Replacing a field by all zeros clears its bits, replacing it by all ones
/// sets them.
proof fn lemma_replace_by_flag(byte: u8, mask: u8)
    by (bit_vector)
    ensures
        replace_field(byte, mask, 0) == byte & !mask,
        replace_field(byte, mask, mask) == byte | mask,
        mask & mask == mask,
        0u8 & mask == 0,
{
}

impl MeasurementMode {
    /// The mode as it stands in its bit of the configuration register.
    pub open spec fn bits(self) -> u8 {
        match self {
            MeasurementMode::OnceEvery800ms => 0,
            MeasurementMode::Continuous => BitFlags::CONTINUOUS,
        }
    }

    /// `config` with the measurement mode replaced by `self`.
    pub open spec fn spec_encode(self, config: u8) -> u8 {
        replace_field(config, BitFlags::CONTINUOUS, self.bits())
    }

    /// The measurement mode that `config` holds.
    pub open spec fn spec_decode(config: u8) -> Self {
        if config & BitFlags::CONTINUOUS == 0 {
            MeasurementMode::OnceEvery800ms
        } else {
            MeasurementMode::Continuous
        }
    }

    /// Puts the mode into its bit of `config` and keeps every other bit.
    #[verifier::when_used_as_spec(spec_encode)]
    pub fn encode(self, config: u8) -> (encoded: u8)
        ensures
            encoded == self.spec_encode(config),
            encoded & BitFlags::CONTINUOUS == self.bits(),
            encoded & !BitFlags::CONTINUOUS == config & !BitFlags::CONTINUOUS,
    {
        proof {
            lemma_replace_by_flag(config, BitFlags::CONTINUOUS);
            lemma_replace_field(config, BitFlags::CONTINUOUS, self.bits(), 0);
        }
        match self {
            MeasurementMode::OnceEvery800ms => config & !BitFlags::CONTINUOUS,
            MeasurementMode::Continuous => config | BitFlags::CONTINUOUS,
        }
    }

    /// Reads the mode from its bit of `config`.
    #[verifier::when_used_as_spec(spec_decode)]
    pub fn decode(config: u8) -> (mode: Self)
        ensures
            mode == Self::spec_decode(config),
            mode.bits() == config & BitFlags::CONTINUOUS,
    {
        assert(config & BitFlags::CONTINUOUS == 0 || config & BitFlags::CONTINUOUS
            == BitFlags::CONTINUOUS) by (bit_vector);
        if (config & BitFlags::CONTINUOUS) == 0 {
            MeasurementMode::OnceEvery800ms
        } else {
            MeasurementMode::Continuous
        }
    }
}

impl ConfigurationMode {
    /// The mode as it stands in its bit of the configuration register.
    pub open spec fn bits(self) -> u8 {
        match self {
            ConfigurationMode::Automatic => 0,
            ConfigurationMode::Manual => BitFlags::MANUAL,
        }
    }

    /// `config` with the configuration mode replaced by `self`.
    pub open spec fn spec_encode(self, config: u8) -> u8 {
        replace_field(config, BitFlags::MANUAL, self.bits())
    }

    /// The configuration mode that `config` holds.
    pub open spec fn spec_decode(config: u8) -> Self {
        if config & BitFlags::MANUAL == 0 {
            ConfigurationMode::Automatic
        } else {
            ConfigurationMode::Manual
        }
    }

    /// Puts the mode into its bit of `config` and keeps every other bit.
    #[verifier::when_used_as_spec(spec_encode)]
    pub fn encode(self, config: u8) -> (encoded: u8)
        ensures
            encoded == self.spec_encode(config),
            encoded & BitFlags::MANUAL == self.bits(),
            encoded & !BitFlags::MANUAL == config & !BitFlags::MANUAL,
    {
        proof {
            lemma_replace_by_flag(config, BitFlags::MANUAL);
            lemma_replace_field(config, BitFlags::MANUAL, self.bits(), 0);
        }
        match self {
            ConfigurationMode::Automatic => config & !BitFlags::MANUAL,
            ConfigurationMode::Manual => config | BitFlags::MANUAL,
        }
    }

    /// Reads the mode from its bit of `config`.
    #[verifier::when_used_as_spec(spec_decode)]
    pub fn decode(config: u8) -> (mode: Self)
        ensures
            mode == Self::spec_decode(config),
            mode.bits() == config & BitFlags::MANUAL,
    {
        assert(config & BitFlags::MANUAL == 0 || config & BitFlags::MANUAL == BitFlags::MANUAL)
            by (bit_vector);
        if (config & BitFlags::MANUAL) == 0 {
            ConfigurationMode::Automatic
        } else {
            ConfigurationMode::Manual
        }
    }
}

impl CurrentDivisionRatio {
    /// The ratio as it stands in its bit of the configuration register.
    pub open spec fn bits(self) -> u8 {
        match self {
            CurrentDivisionRatio::One => 0,
            CurrentDivisionRatio::OneEighth => BitFlags::CDR,
        }
    }

    /// `config` with the current division ratio replaced by `self`.
    pub open spec fn spec_encode(self, config: u8) -> u8 {
        replace_field(config, BitFlags::CDR, self.bits())
    }

    /// The current division ratio that `config` holds.
    pub open spec fn spec_decode(config: u8) -> Self {
        if config & BitFlags::CDR == 0 {
            CurrentDivisionRatio::One
        } else {
            CurrentDivisionRatio::OneEighth
        }
    }

    /// Puts the ratio into its bit of `config` and keeps every other bit.
    #[verifier::when_used_as_spec(spec_encode)]
    pub fn encode(self, config: u8) -> (encoded: u8)
        ensures
            encoded == self.spec_encode(config),
            encoded & BitFlags::CDR == self.bits(),
            encoded & !BitFlags::CDR == config & !BitFlags::CDR,
    {
        proof {
            lemma_replace_by_flag(config, BitFlags::CDR);
            lemma_replace_field(config, BitFlags::CDR, self.bits(), 0);
        }
        match self {
            CurrentDivisionRatio::One => config & !BitFlags::CDR,
            CurrentDivisionRatio::OneEighth => config | BitFlags::CDR,
        }
    }

    /// Reads the ratio from its bit of `config`.
    #[verifier::when_used_as_spec(spec_decode)]
    pub fn decode(config: u8) -> (cdr: Self)
        ensures
            cdr == Self::spec_decode(config),
            cdr.bits() == config & BitFlags::CDR,
    {
        assert(config & BitFlags::CDR == 0 || config & BitFlags::CDR == BitFlags::CDR)
            by (bit_vector);
        if (config & BitFlags::CDR) == 0 {
            CurrentDivisionRatio::One
        } else {
            CurrentDivisionRatio::OneEighth
        }
    }
}

impl IntegrationTime {
    /// The three-bit code of the integration time: 0 for 800ms, and one more
    /// for each halving, up to 7 for 6.25ms.
    pub open spec fn spec_code(self) -> u8 {
        match self {
            IntegrationTime::_800ms => 0,
            IntegrationTime::_400ms => 1,
            IntegrationTime::_200ms => 2,
            IntegrationTime::_100ms => 3,
            IntegrationTime::_50ms => 4,
            IntegrationTime::_25ms => 5,
            IntegrationTime::_12_5ms => 6,
            IntegrationTime::_6_25ms => 7,
        }
    }

    /// The integration time whose code is `code`, for a code of three bits.
    pub open spec fn spec_from_code(code: u8) -> Self
        recommends
            code <= 7,
    {
        if code == 0 {
            IntegrationTime::_800ms
        } else if code == 1 {
            IntegrationTime::_400ms
        } else if code == 2 {
            IntegrationTime::_200ms
        } else if code == 3 {
            IntegrationTime::_100ms
        } else if code == 4 {
            IntegrationTime::_50ms
        } else if code == 5 {
            IntegrationTime::_25ms
        } else if code == 6 {
            IntegrationTime::_12_5ms
        } else {
            IntegrationTime::_6_25ms
        }
    }

    /// `config` with the integration time replaced by `self`.
    pub open spec fn spec_encode(self, config: u8) -> u8 {
        replace_field(config, BitFlags::INTEGRATION_TIME, self.spec_code())
    }

    /// The integration time that `config` holds.
    pub open spec fn spec_decode(config: u8) -> Self {
        Self::spec_from_code(config & BitFlags::INTEGRATION_TIME)
    }

    /// The three-bit code of the integration time.
    #[verifier::when_used_as_spec(spec_code)]
    pub fn code(self) -> (code: u8)
        ensures
            code == self.spec_code(),
            code <= 7,
            Self::spec_from_code(code) == self,
    {
        match self {
            IntegrationTime::_800ms => 0x00,
            IntegrationTime::_400ms => 0x01,
            IntegrationTime::_200ms => 0x02,
            IntegrationTime::_100ms => 0x03,
            IntegrationTime::_50ms => 0x04,
            IntegrationTime::_25ms => 0x05,
            IntegrationTime::_12_5ms => 0x06,
            IntegrationTime::_6_25ms => 0x07,
        }
    }

    /// The integration time that a three-bit code stands for.
    ///
    /// A code of more than three bits stands for nothing and is not accepted.
    #[verifier::when_used_as_spec(spec_from_code)]
    pub fn from_code(code: u8) -> (it: Self)
        requires
            code <= 7,
        ensures
            it == Self::spec_from_code(code),
            it.spec_code() == code,
    {
        match code {
            0 => IntegrationTime::_800ms,
            1 => IntegrationTime::_400ms,
            2 => IntegrationTime::_200ms,
            3 => IntegrationTime::_100ms,
            4 => IntegrationTime::_50ms,
            5 => IntegrationTime::_25ms,
            6 => IntegrationTime::_12_5ms,
            7 => IntegrationTime::_6_25ms,
            _ => unreached(),
        }
    }

    /// Puts the code of the integration time into the low three bits of
    /// `config` and keeps every other bit.
    #[verifier::when_used_as_spec(spec_encode)]
    pub fn encode(self, config: u8) -> (encoded: u8)
        ensures
            encoded == self.spec_encode(config),
            encoded & BitFlags::INTEGRATION_TIME == self.spec_code(),
            encoded & !BitFlags::INTEGRATION_TIME == config & !BitFlags::INTEGRATION_TIME,
    {
        let code = self.code();
        proof {
            lemma_replace_field(config, BitFlags::INTEGRATION_TIME, code, 0);
            assert(code & BitFlags::INTEGRATION_TIME == code && replace_field(
                config,
                BitFlags::INTEGRATION_TIME,
                code,
            ) == config & 0b1111_1000 | code) by (bit_vector)
                requires
                    code <= 7,
            ;
        }
        config & 0b1111_1000 | code
    }

    /// Reads the integration time from the low three bits of `config`.
    #[verifier::when_used_as_spec(spec_decode)]
    pub fn decode(config: u8) -> (it: Self)
        ensures
            it == Self::spec_decode(config),
            it.spec_code() == config & BitFlags::INTEGRATION_TIME,
            it.spec_code() == config % 8,
    {
        assert(config & BitFlags::INTEGRATION_TIME <= 7 && config & BitFlags::INTEGRATION_TIME
            == config % 8) by (bit_vector);
        Self::from_code(config & 0b0000_0111)
    }
}

/// Decoding the measurement mode from a byte into which a mode was encoded
/// gives that mode back, whatever the byte held before.
pub proof fn lemma_measurement_mode_round_trip(config: u8, mode: MeasurementMode)
    ensures
        MeasurementMode::spec_decode(mode.spec_encode(config)) == mode,
{
    lemma_replace_field(config, BitFlags::CONTINUOUS, mode.bits(), 0);
    lemma_replace_by_flag(config, BitFlags::CONTINUOUS);
}

/// Decoding the configuration mode from a byte into which a mode was encoded
/// gives that mode back, whatever the byte held before.
pub proof fn lemma_configuration_mode_round_trip(config: u8, mode: ConfigurationMode)
    ensures
        ConfigurationMode::spec_decode(mode.spec_encode(config)) == mode,
{
    lemma_replace_field(config, BitFlags::MANUAL, mode.bits(), 0);
    lemma_replace_by_flag(config, BitFlags::MANUAL);
}

/// Decoding the current division ratio from a byte into which a ratio was
/// encoded gives that ratio back, whatever the byte held before.
pub proof fn lemma_current_division_ratio_round_trip(config: u8, cdr: CurrentDivisionRatio)
    ensures
        CurrentDivisionRatio::spec_decode(cdr.spec_encode(config)) == cdr,
{
    lemma_replace_field(config, BitFlags::CDR, cdr.bits(), 0);
    lemma_replace_by_flag(config, BitFlags::CDR);
}

/// Decoding the integration time from a byte into which a time was encoded
/// gives that time back, whatever the byte held before.
pub proof fn lemma_integration_time_round_trip(config: u8, it: IntegrationTime)
    ensures
        IntegrationTime::spec_decode(it.spec_encode(config)) == it,
{
    let code = it.spec_code();
    lemma_replace_field(config, BitFlags::INTEGRATION_TIME, code, 0);
    assert(code & BitFlags::INTEGRATION_TIME == code) by (bit_vector)
        requires
            code <= 7,
    ;
}

/// Encoding into a byte the fields that were decoded from it gives the same
/// byte: the four fields hold nothing that decoding loses.
pub proof fn lemma_encoding_decoded_fields_keeps_byte(config: u8)
    ensures
        MeasurementMode::spec_decode(config).spec_encode(config) == config,
        ConfigurationMode::spec_decode(config).spec_encode(config) == config,
        CurrentDivisionRatio::spec_decode(config).spec_encode(config) == config,
        IntegrationTime::spec_decode(config).spec_encode(config) == config,
{
    lemma_replace_field(config, BitFlags::CONTINUOUS, 0, 0);
    lemma_replace_field(config, BitFlags::MANUAL, 0, 0);
    lemma_replace_field(config, BitFlags::CDR, 0, 0);
    lemma_replace_field(config, BitFlags::INTEGRATION_TIME, 0, 0);
    assert(config & BitFlags::CONTINUOUS == 0 || config & BitFlags::CONTINUOUS
        == BitFlags::CONTINUOUS) by (bit_vector);
    assert(config & BitFlags::MANUAL == 0 || config & BitFlags::MANUAL == BitFlags::MANUAL)
        by (bit_vector);
    assert(config & BitFlags::CDR == 0 || config & BitFlags::CDR == BitFlags::CDR)
        by (bit_vector);
    assert(config & BitFlags::INTEGRATION_TIME <= 7) by (bit_vector);
}

/// Encoding one field leaves what the other three fields decode to as it was.
pub proof fn lemma_fields_are_independent(
    config: u8,
    measurement: MeasurementMode,
    configuration: ConfigurationMode,
    cdr: CurrentDivisionRatio,
    it: IntegrationTime,
)
    ensures
        ConfigurationMode::spec_decode(measurement.spec_encode(config))
            == ConfigurationMode::spec_decode(config),
        CurrentDivisionRatio::spec_decode(measurement.spec_encode(config))
            == CurrentDivisionRatio::spec_decode(config),
        IntegrationTime::spec_decode(measurement.spec_encode(config))
            == IntegrationTime::spec_decode(config),
        MeasurementMode::spec_decode(configuration.spec_encode(config))
            == MeasurementMode::spec_decode(config),
        CurrentDivisionRatio::spec_decode(configuration.spec_encode(config))
            == CurrentDivisionRatio::spec_decode(config),
        IntegrationTime::spec_decode(configuration.spec_encode(config))
            == IntegrationTime::spec_decode(config),
        MeasurementMode::spec_decode(cdr.spec_encode(config)) == MeasurementMode::spec_decode(
            config,
        ),
        ConfigurationMode::spec_decode(cdr.spec_encode(config)) == ConfigurationMode::spec_decode(
            config,
        ),
        IntegrationTime::spec_decode(cdr.spec_encode(config)) == IntegrationTime::spec_decode(
            config,
        ),
        MeasurementMode::spec_decode(it.spec_encode(config)) == MeasurementMode::spec_decode(
            config,
        ),
        ConfigurationMode::spec_decode(it.spec_encode(config)) == ConfigurationMode::spec_decode(
            config,
        ),
        CurrentDivisionRatio::spec_decode(it.spec_encode(config))
            == CurrentDivisionRatio::spec_decode(config),
{
    lemma_replace_field(config, BitFlags::CONTINUOUS, measurement.bits(), BitFlags::MANUAL);
    lemma_replace_field(config, BitFlags::CONTINUOUS, measurement.bits(), BitFlags::CDR);
    lemma_replace_field(
        config,
        BitFlags::CONTINUOUS,
        measurement.bits(),
        BitFlags::INTEGRATION_TIME,
    );
    lemma_replace_field(config, BitFlags::MANUAL, configuration.bits(), BitFlags::CONTINUOUS);
    lemma_replace_field(config, BitFlags::MANUAL, configuration.bits(), BitFlags::CDR);
    lemma_replace_field(
        config,
        BitFlags::MANUAL,
        configuration.bits(),
        BitFlags::INTEGRATION_TIME,
    );
    lemma_replace_field(config, BitFlags::CDR, cdr.bits(), BitFlags::CONTINUOUS);
    lemma_replace_field(config, BitFlags::CDR, cdr.bits(), BitFlags::MANUAL);
    lemma_replace_field(config, BitFlags::CDR, cdr.bits(), BitFlags::INTEGRATION_TIME);
    lemma_replace_field(
        config,
        BitFlags::INTEGRATION_TIME,
        it.spec_code(),
        BitFlags::CONTINUOUS,
    );
    lemma_replace_field(config, BitFlags::INTEGRATION_TIME, it.spec_code(), BitFlags::MANUAL);
    lemma_replace_field(config, BitFlags::INTEGRATION_TIME, it.spec_code(), BitFlags::CDR);
    assert(BitFlags::CONTINUOUS & BitFlags::MANUAL == 0 && BitFlags::CONTINUOUS & BitFlags::CDR
        == 0 && BitFlags::CONTINUOUS & BitFlags::INTEGRATION_TIME == 0 && BitFlags::MANUAL
        & BitFlags::CONTINUOUS == 0 && BitFlags::MANUAL & BitFlags::CDR == 0 && BitFlags::MANUAL
        & BitFlags::INTEGRATION_TIME == 0 && BitFlags::CDR & BitFlags::CONTINUOUS == 0
        && BitFlags::CDR & BitFlags::MANUAL == 0 && BitFlags::CDR & BitFlags::INTEGRATION_TIME
        == 0 && BitFlags::INTEGRATION_TIME & BitFlags::CONTINUOUS == 0
        && BitFlags::INTEGRATION_TIME & BitFlags::MANUAL == 0 && BitFlags::INTEGRATION_TIME
        & BitFlags::CDR == 0) by (bit_vector);
}

} // verus!
