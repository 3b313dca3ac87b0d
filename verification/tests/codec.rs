use max44009::{
    BitFlags, ConfigurationMode, CurrentDivisionRatio, IntegrationTime, MeasurementMode, Register,
};

const INTEGRATION_TIMES: [IntegrationTime; 8] = [
    IntegrationTime::_800ms,
    IntegrationTime::_400ms,
    IntegrationTime::_200ms,
    IntegrationTime::_100ms,
    IntegrationTime::_50ms,
    IntegrationTime::_25ms,
    IntegrationTime::_12_5ms,
    IntegrationTime::_6_25ms,
];

#[test]
fn register_map_matches_the_sensor() {
    assert_eq!(0x00, Register::INT_STATUS);
    assert_eq!(0x01, Register::INT_ENABLE);
    assert_eq!(0x02, Register::CONFIGURATION);
    assert_eq!(0x03, Register::LUX_HIGH);
    assert_eq!(0b1000_0000, BitFlags::CONTINUOUS);
    assert_eq!(0b0100_0000, BitFlags::MANUAL);
    assert_eq!(0b0000_1000, BitFlags::CDR);
    assert_eq!(0b0000_0111, BitFlags::INTEGRATION_TIME);
}

#[test]
fn measurement_mode_sets_and_clears_its_bit() {
    assert_eq!(0b1000_0000, MeasurementMode::Continuous.encode(0));
    assert_eq!(0b1100_1011, MeasurementMode::Continuous.encode(0b0100_1011));
    assert_eq!(0b0100_1011, MeasurementMode::OnceEvery800ms.encode(0b1100_1011));
    assert_eq!(0b0111_1111, MeasurementMode::OnceEvery800ms.encode(0xFF));
    assert_eq!(0, MeasurementMode::OnceEvery800ms.encode(0));
}

#[test]
fn configuration_mode_sets_and_clears_its_bit() {
    assert_eq!(0b0100_0000, ConfigurationMode::Manual.encode(0));
    assert_eq!(0b1100_1011, ConfigurationMode::Manual.encode(0b1000_1011));
    assert_eq!(0b1000_1011, ConfigurationMode::Automatic.encode(0b1100_1011));
    assert_eq!(0b1011_1111, ConfigurationMode::Automatic.encode(0xFF));
    assert_eq!(0, ConfigurationMode::Automatic.encode(0));
}

#[test]
fn current_division_ratio_sets_and_clears_its_bit() {
    assert_eq!(0b0000_1000, CurrentDivisionRatio::OneEighth.encode(0));
    assert_eq!(0b1100_1011, CurrentDivisionRatio::OneEighth.encode(0b1100_0011));
    assert_eq!(0b1100_0011, CurrentDivisionRatio::One.encode(0b1100_1011));
    assert_eq!(0b1111_0111, CurrentDivisionRatio::One.encode(0xFF));
    assert_eq!(0, CurrentDivisionRatio::One.encode(0));
}

#[test]
fn integration_time_codes_are_as_listed() {
    assert_eq!(0, IntegrationTime::_800ms.code());
    assert_eq!(1, IntegrationTime::_400ms.code());
    assert_eq!(2, IntegrationTime::_200ms.code());
    assert_eq!(3, IntegrationTime::_100ms.code());
    assert_eq!(4, IntegrationTime::_50ms.code());
    assert_eq!(5, IntegrationTime::_25ms.code());
    assert_eq!(6, IntegrationTime::_12_5ms.code());
    assert_eq!(7, IntegrationTime::_6_25ms.code());
}

#[test]
fn integration_time_from_code_inverts_code() {
    for (code, it) in INTEGRATION_TIMES.iter().enumerate() {
        assert_eq!(*it, IntegrationTime::from_code(code as u8));
        assert_eq!(code as u8, IntegrationTime::from_code(code as u8).code());
    }
}

#[test]
fn integration_time_replaces_the_low_three_bits() {
    assert_eq!(0b0100_0011, IntegrationTime::_100ms.encode(0b0100_0000));
    assert_eq!(0b1111_1000, IntegrationTime::_800ms.encode(0xFF));
    assert_eq!(0b1111_1111, IntegrationTime::_6_25ms.encode(0xFF));
    assert_eq!(0b0000_0111, IntegrationTime::_6_25ms.encode(0));
    assert_eq!(0b1100_1101, IntegrationTime::_25ms.encode(0b1100_1010));
    assert_eq!(0b0100_1110, IntegrationTime::_12_5ms.encode(0b0100_1001));
}

#[test]
fn integration_time_decodes_every_code() {
    assert_eq!(IntegrationTime::_800ms, IntegrationTime::decode(0b1111_1000));
    assert_eq!(IntegrationTime::_400ms, IntegrationTime::decode(0b0000_0001));
    assert_eq!(IntegrationTime::_200ms, IntegrationTime::decode(0b0100_0010));
    assert_eq!(IntegrationTime::_100ms, IntegrationTime::decode(0b0100_1011));
    assert_eq!(IntegrationTime::_50ms, IntegrationTime::decode(0b1000_0100));
    assert_eq!(IntegrationTime::_25ms, IntegrationTime::decode(0b0000_1101));
    assert_eq!(IntegrationTime::_12_5ms, IntegrationTime::decode(0b1111_0110));
    assert_eq!(IntegrationTime::_6_25ms, IntegrationTime::decode(0b1111_1111));
}

#[test]
fn single_bit_fields_decode_from_their_bit_alone() {
    assert_eq!(MeasurementMode::OnceEvery800ms, MeasurementMode::decode(0b0111_1111));
    assert_eq!(MeasurementMode::Continuous, MeasurementMode::decode(0b1000_0000));
    assert_eq!(ConfigurationMode::Automatic, ConfigurationMode::decode(0b1011_1111));
    assert_eq!(ConfigurationMode::Manual, ConfigurationMode::decode(0b0100_0000));
    assert_eq!(CurrentDivisionRatio::One, CurrentDivisionRatio::decode(0b1111_0111));
    assert_eq!(CurrentDivisionRatio::OneEighth, CurrentDivisionRatio::decode(0b0000_1000));
}

#[test]
fn every_variant_round_trips_through_every_byte() {
    for config in 0..=255u8 {
        for mode in [MeasurementMode::OnceEvery800ms, MeasurementMode::Continuous] {
            assert_eq!(mode, MeasurementMode::decode(mode.encode(config)));
        }
        for mode in [ConfigurationMode::Automatic, ConfigurationMode::Manual] {
            assert_eq!(mode, ConfigurationMode::decode(mode.encode(config)));
        }
        for cdr in [CurrentDivisionRatio::One, CurrentDivisionRatio::OneEighth] {
            assert_eq!(cdr, CurrentDivisionRatio::decode(cdr.encode(config)));
        }
        for it in INTEGRATION_TIMES {
            assert_eq!(it, IntegrationTime::decode(it.encode(config)));
        }
    }
}

#[test]
fn encoding_the_decoded_field_keeps_the_byte() {
    for config in 0..=255u8 {
        assert_eq!(config, MeasurementMode::decode(config).encode(config));
        assert_eq!(config, ConfigurationMode::decode(config).encode(config));
        assert_eq!(config, CurrentDivisionRatio::decode(config).encode(config));
        assert_eq!(config, IntegrationTime::decode(config).encode(config));
    }
}

#[test]
fn encoding_one_field_keeps_the_others() {
    for config in 0..=255u8 {
        for it in INTEGRATION_TIMES {
            let encoded = it.encode(config);
            assert_eq!(config & 0b1111_1000, encoded & 0b1111_1000);
            assert_eq!(MeasurementMode::decode(config), MeasurementMode::decode(encoded));
            assert_eq!(ConfigurationMode::decode(config), ConfigurationMode::decode(encoded));
            assert_eq!(CurrentDivisionRatio::decode(config), CurrentDivisionRatio::decode(encoded));
        }
        for mode in [MeasurementMode::OnceEvery800ms, MeasurementMode::Continuous] {
            let encoded = mode.encode(config);
            assert_eq!(config & 0b0111_1111, encoded & 0b0111_1111);
            assert_eq!(IntegrationTime::decode(config), IntegrationTime::decode(encoded));
        }
        for mode in [ConfigurationMode::Automatic, ConfigurationMode::Manual] {
            let encoded = mode.encode(config);
            assert_eq!(config & 0b1011_1111, encoded & 0b1011_1111);
            assert_eq!(IntegrationTime::decode(config), IntegrationTime::decode(encoded));
        }
        for cdr in [CurrentDivisionRatio::One, CurrentDivisionRatio::OneEighth] {
            let encoded = cdr.encode(config);
            assert_eq!(config & 0b1111_0111, encoded & 0b1111_0111);
            assert_eq!(IntegrationTime::decode(config), IntegrationTime::decode(encoded));
        }
    }
}
