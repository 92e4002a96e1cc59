use veml6040::mock::{BusTransaction, MockBus, MockError};
use veml6040::{
    Error, IntegrationTime, MeasurementMode, Veml6040, CONFIG_REGISTER, DEVICE_ADDRESS,
};

fn write_expectation(config: u8) -> BusTransaction {
    BusTransaction::Write {
        address: DEVICE_ADDRESS,
        bytes: vec![CONFIG_REGISTER, config, 0],
    }
}

fn write_fault_expectation(config: u8) -> BusTransaction {
    BusTransaction::WriteFault {
        address: DEVICE_ADDRESS,
        bytes: vec![CONFIG_REGISTER, config, 0],
    }
}

fn setup(expected: Vec<BusTransaction>) -> Veml6040<MockBus> {
    Veml6040::new(MockBus::new(expected))
}

fn finish(dev: Veml6040<MockBus>) {
    let bus = dev.destroy();
    assert!(bus.is_done());
}

#[test]
fn can_enable() {
    let mut dev = setup(vec![write_expectation(0)]);
    dev.enable().unwrap();
    finish(dev);
}

#[test]
fn can_disable() {
    let mut dev = setup(vec![write_expectation(1)]);
    dev.disable().unwrap();
    finish(dev);
}

#[test]
fn can_set_mm_auto() {
    let mut dev = setup(vec![write_expectation(0)]);
    dev.set_measurement_mode(MeasurementMode::Auto).unwrap();
    finish(dev);
}

#[test]
fn can_set_mm_manual() {
    let mut dev = setup(vec![write_expectation(2)]);
    dev.set_measurement_mode(MeasurementMode::Manual).unwrap();
    finish(dev);
}

#[test]
fn can_trigger_measurement() {
    let mut dev = setup(vec![write_expectation(4)]);
    dev.trigger_measurement().unwrap();
    finish(dev);
}

#[test]
fn can_set_it_40() {
    let mut dev = setup(vec![write_expectation(0)]);
    dev.set_integration_time(IntegrationTime::_40ms).unwrap();
    finish(dev);
}

#[test]
fn can_set_it_80() {
    let mut dev = setup(vec![write_expectation(1 << 4)]);
    dev.set_integration_time(IntegrationTime::_80ms).unwrap();
    finish(dev);
}

#[test]
fn can_set_it_160() {
    let mut dev = setup(vec![write_expectation(2 << 4)]);
    dev.set_integration_time(IntegrationTime::_160ms).unwrap();
    finish(dev);
}

#[test]
fn can_set_it_320() {
    let mut dev = setup(vec![write_expectation(3 << 4)]);
    dev.set_integration_time(IntegrationTime::_320ms).unwrap();
    finish(dev);
}

#[test]
fn can_set_it_640() {
    let mut dev = setup(vec![write_expectation(4 << 4)]);
    dev.set_integration_time(IntegrationTime::_640ms).unwrap();
    finish(dev);
}

#[test]
fn can_set_it_1280() {
    let mut dev = setup(vec![write_expectation(5 << 4)]);
    dev.set_integration_time(IntegrationTime::_1280ms).unwrap();
    finish(dev);
}

#[test]
fn enable_then_disable_yields_shutdown_image() {
    let mut dev = setup(vec![write_expectation(0x00), write_expectation(0x01)]);
    dev.enable().unwrap();
    dev.disable().unwrap();
    finish(dev);
}

#[test]
fn disable_then_enable_yields_cleared_image() {
    let mut dev = setup(vec![write_expectation(0x01), write_expectation(0x00)]);
    dev.disable().unwrap();
    dev.enable().unwrap();
    finish(dev);
}

#[test]
fn set_measurement_mode_is_idempotent() {
    let mut dev = setup(vec![
        write_expectation(0x02),
        write_expectation(0x02),
        write_expectation(0x00),
        write_expectation(0x00),
    ]);
    dev.set_measurement_mode(MeasurementMode::Manual).unwrap();
    dev.set_measurement_mode(MeasurementMode::Manual).unwrap();
    dev.set_measurement_mode(MeasurementMode::Auto).unwrap();
    dev.set_measurement_mode(MeasurementMode::Auto).unwrap();
    finish(dev);
}

#[test]
fn set_integration_time_preserves_other_fields() {
    let mut dev = setup(vec![
        write_expectation(0x01),
        write_expectation(0x03),
        write_expectation(0x53),
        write_expectation(0x13),
    ]);
    dev.disable().unwrap();
    dev.set_measurement_mode(MeasurementMode::Manual).unwrap();
    dev.set_integration_time(IntegrationTime::_1280ms).unwrap();
    dev.set_integration_time(IntegrationTime::_80ms).unwrap();
    finish(dev);
}

#[test]
fn trigger_does_not_persist_the_trigger_bit() {
    // The trigger writes shadow | 0x04, but the next operation computes its
    // image from the retained shadow 0x01, not from 0x05.
    let mut dev = setup(vec![
        write_expectation(0x01),
        write_expectation(0x05),
        write_expectation(0x03),
    ]);
    dev.disable().unwrap();
    dev.trigger_measurement().unwrap();
    dev.set_measurement_mode(MeasurementMode::Manual).unwrap();
    finish(dev);
}

#[test]
fn write_failure_keeps_shadow() {
    // The failed enable would have written 0x00; the following trigger
    // proves the shadow still holds 0x01.
    let mut dev = setup(vec![
        write_expectation(0x01),
        write_fault_expectation(0x00),
        write_expectation(0x05),
    ]);
    dev.disable().unwrap();
    let r = dev.enable();
    assert!(matches!(r, Err(Error::I2C(MockError::Fault))));
    dev.trigger_measurement().unwrap();
    finish(dev);
}

#[test]
fn unexpected_write_reports_mismatch() {
    let mut dev = setup(vec![write_expectation(0x77)]);
    let r = dev.enable();
    assert!(matches!(r, Err(Error::I2C(MockError::Mismatch))));
    finish(dev);
}
