use veml6040::mock::{BusTransaction, MockBus, MockError};
use veml6040::{
    Error, I2cBus, LoggedBus, RawI2c, Veml6040, CONFIG_REGISTER, DEVICE_ADDRESS, RED_REGISTER,
};

/// A raw bus for the tests: replays a mock script without tracking its own
/// history, the way an adapter over a hardware bus would.
struct RawReplay {
    mock: MockBus,
}

impl RawI2c for RawReplay {
    type Error = MockError;

    fn write(&mut self, address: u8, bytes: &[u8]) -> Result<(), MockError> {
        I2cBus::write(&mut self.mock, address, bytes)
    }

    fn write_read(
        &mut self,
        address: u8,
        bytes: &[u8],
        read_len: usize,
    ) -> Result<Vec<u8>, MockError> {
        I2cBus::write_read(&mut self.mock, address, bytes, read_len)
    }
}

fn setup(expected: Vec<BusTransaction>) -> Veml6040<LoggedBus<RawReplay>> {
    let raw = RawReplay {
        mock: MockBus::new(expected),
    };
    Veml6040::new(LoggedBus::new(raw))
}

fn finish(dev: Veml6040<LoggedBus<RawReplay>>) {
    let raw = dev.destroy().release();
    assert!(raw.mock.is_done());
}

#[test]
fn logged_bus_passes_writes_through() {
    let mut dev = setup(vec![
        BusTransaction::Write {
            address: DEVICE_ADDRESS,
            bytes: vec![CONFIG_REGISTER, 0x01, 0],
        },
        BusTransaction::Write {
            address: DEVICE_ADDRESS,
            bytes: vec![CONFIG_REGISTER, 0x00, 0],
        },
    ]);
    dev.disable().unwrap();
    dev.enable().unwrap();
    finish(dev);
}

#[test]
fn logged_bus_passes_reads_and_errors_through() {
    let mut dev = setup(vec![
        BusTransaction::WriteRead {
            address: DEVICE_ADDRESS,
            bytes: vec![RED_REGISTER],
            response: vec![0xCD, 0xAB],
        },
        BusTransaction::WriteReadFault {
            address: DEVICE_ADDRESS,
            bytes: vec![RED_REGISTER],
        },
    ]);
    assert_eq!(0xABCD, dev.read_red_channel().unwrap());
    let r = dev.read_red_channel();
    assert!(matches!(r, Err(Error::I2C(MockError::Fault))));
    finish(dev);
}
