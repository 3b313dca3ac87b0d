use max44009::{
    CurrentDivisionRatio, Error, IntegrationTime, Max44009, SlaveAddr, WriteRead,
};

#[test]
fn reads_name_their_register_and_length() {
    let device = Max44009::new(SlaveAddr::Alternative(true));
    let status = device.interrupt_status_read();
    assert_eq!(WriteRead { address: 0b100_1011, register: 0x00, len: 1 }, status);
    assert_eq!([0x00], status.bytes());
    let configuration = device.configuration_read();
    assert_eq!(WriteRead { address: 0b100_1011, register: 0x02, len: 1 }, configuration);
    assert_eq!([0x02], configuration.bytes());
    let lux = device.lux_read();
    assert_eq!(WriteRead { address: 0b100_1011, register: 0x03, len: 2 }, lux);
    assert_eq!([0x03], lux.bytes());
}

#[test]
fn interrupt_has_happened_if_the_status_is_not_zero() {
    let device = Max44009::new(SlaveAddr::default());
    assert!(matches!(device.has_interrupt_happened::<u8>(Ok([0])), Ok(false)));
    assert!(matches!(device.has_interrupt_happened::<u8>(Ok([1])), Ok(true)));
    assert!(matches!(device.has_interrupt_happened::<u8>(Ok([0x80])), Ok(true)));
    assert!(matches!(device.has_interrupt_happened::<u8>(Ok([0xFF])), Ok(true)));
    assert!(matches!(
        device.has_interrupt_happened(Err(11u8)),
        Err(Error::I2C(11))
    ));
}

#[test]
fn integration_time_is_read_from_the_reply() {
    let device = Max44009::new(SlaveAddr::default());
    let expected = [
        IntegrationTime::_800ms,
        IntegrationTime::_400ms,
        IntegrationTime::_200ms,
        IntegrationTime::_100ms,
        IntegrationTime::_50ms,
        IntegrationTime::_25ms,
        IntegrationTime::_12_5ms,
        IntegrationTime::_6_25ms,
    ];
    for config in 0..=255u8 {
        let it = device.read_integration_time::<u8>(Ok([config]));
        match it {
            Ok(it) => assert_eq!(expected[(config & 0b111) as usize], it),
            Err(_) => panic!("a reply that was read gave an error"),
        }
    }
    assert!(matches!(
        device.read_integration_time(Err(12u8)),
        Err(Error::I2C(12))
    ));
    assert_eq!(0, device.config());
}

#[test]
fn current_division_ratio_is_read_from_the_reply() {
    let device = Max44009::new(SlaveAddr::default());
    assert!(matches!(
        device.read_current_division_ratio::<u8>(Ok([0b0000_0000])),
        Ok(CurrentDivisionRatio::One)
    ));
    assert!(matches!(
        device.read_current_division_ratio::<u8>(Ok([0b1111_0111])),
        Ok(CurrentDivisionRatio::One)
    ));
    assert!(matches!(
        device.read_current_division_ratio::<u8>(Ok([0b0000_1000])),
        Ok(CurrentDivisionRatio::OneEighth)
    ));
    assert!(matches!(
        device.read_current_division_ratio::<u8>(Ok([0b1111_1111])),
        Ok(CurrentDivisionRatio::OneEighth)
    ));
    assert!(matches!(
        device.read_current_division_ratio(Err(13u8)),
        Err(Error::I2C(13))
    ));
}

#[test]
fn reads_reflect_the_sensor_and_not_the_cache() {
    let device = Max44009::new(SlaveAddr::default());
    assert_eq!(0, device.config());
    assert!(matches!(
        device.read_integration_time::<u8>(Ok([0b0100_0101])),
        Ok(IntegrationTime::_25ms)
    ));
    assert_eq!(0, device.config());
}
