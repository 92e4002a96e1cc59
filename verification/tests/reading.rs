use veml6040::mock::{BusTransaction, MockBus, MockError};
use veml6040::{
    decode_all_channels, decode_channel, Error, Veml6040, BLUE_REGISTER, CONFIG_REGISTER,
    DEVICE_ADDRESS, GREEN_REGISTER, RED_REGISTER, WHITE_REGISTER,
};

fn read_expectation(register: u8) -> BusTransaction {
    BusTransaction::WriteRead {
        address: DEVICE_ADDRESS,
        bytes: vec![register],
        response: vec![0xCD, 0xAB],
    }
}

fn setup(expected: Vec<BusTransaction>) -> Veml6040<MockBus> {
    Veml6040::new(MockBus::new(expected))
}

fn finish(dev: Veml6040<MockBus>) {
    let bus = dev.destroy();
    assert!(bus.is_done());
}

#[test]
fn can_read_red_channel() {
    let mut dev = setup(vec![read_expectation(RED_REGISTER)]);
    let data = dev.read_red_channel().unwrap();
    assert_eq!(0xABCD, data);
    finish(dev);
}

#[test]
fn can_read_green_channel() {
    let mut dev = setup(vec![read_expectation(GREEN_REGISTER)]);
    let data = dev.read_green_channel().unwrap();
    assert_eq!(0xABCD, data);
    finish(dev);
}

#[test]
fn can_read_blue_channel() {
    let mut dev = setup(vec![read_expectation(BLUE_REGISTER)]);
    let data = dev.read_blue_channel().unwrap();
    assert_eq!(0xABCD, data);
    finish(dev);
}

#[test]
fn can_read_white_channel() {
    let mut dev = setup(vec![read_expectation(WHITE_REGISTER)]);
    let data = dev.read_white_channel().unwrap();
    assert_eq!(0xABCD, data);
    finish(dev);
}

#[test]
fn can_read_all_channels() {
    let mut dev = setup(vec![BusTransaction::WriteRead {
        address: DEVICE_ADDRESS,
        bytes: vec![RED_REGISTER],
        response: vec![0x23, 0x01, 0x67, 0x45, 0xAB, 0x89, 0xEF, 0xCD],
    }]);
    let measurement = dev.read_all_channels().unwrap();
    assert_eq!(0x0123, measurement.red);
    assert_eq!(0x4567, measurement.green);
    assert_eq!(0x89AB, measurement.blue);
    assert_eq!(0xCDEF, measurement.white);
    finish(dev);
}

#[test]
fn decode_channel_is_little_endian() {
    assert_eq!(0xABCD, decode_channel(0xCD, 0xAB));
    assert_eq!(0x0000, decode_channel(0x00, 0x00));
    assert_eq!(0xFF00, decode_channel(0x00, 0xFF));
    assert_eq!(0x00FF, decode_channel(0xFF, 0x00));
}

#[test]
fn decode_all_channels_keeps_register_order() {
    let data = vec![0x23, 0x01, 0x67, 0x45, 0xAB, 0x89, 0xEF, 0xCD];
    let measurement = decode_all_channels(&data);
    assert_eq!(0x0123, measurement.red);
    assert_eq!(0x4567, measurement.green);
    assert_eq!(0x89AB, measurement.blue);
    assert_eq!(0xCDEF, measurement.white);
}

#[test]
fn read_failure_returns_error_and_keeps_shadow() {
    // The failed read touches nothing: the following disable still computes
    // its image from the reset shadow 0x00.
    let mut dev = setup(vec![
        BusTransaction::WriteReadFault {
            address: DEVICE_ADDRESS,
            bytes: vec![RED_REGISTER],
        },
        BusTransaction::Write {
            address: DEVICE_ADDRESS,
            bytes: vec![CONFIG_REGISTER, 0x01, 0],
        },
    ]);
    let r = dev.read_red_channel();
    assert!(matches!(r, Err(Error::I2C(MockError::Fault))));
    dev.disable().unwrap();
    finish(dev);
}

#[test]
fn short_scripted_response_reports_mismatch() {
    let mut dev = setup(vec![BusTransaction::WriteRead {
        address: DEVICE_ADDRESS,
        bytes: vec![RED_REGISTER],
        response: vec![0xCD, 0xAB, 0x00],
    }]);
    let r = dev.read_red_channel();
    assert!(matches!(r, Err(Error::I2C(MockError::Mismatch))));
    finish(dev);
}

#[test]
fn exhausted_script_reports_mismatch() {
    let mut dev = setup(vec![]);
    let r = dev.read_white_channel();
    assert!(matches!(r, Err(Error::I2C(MockError::Mismatch))));
    finish(dev);
}
