//! The device handle: configuration operations and channel reads.

use crate::bus::{BusOp, I2cBus};
use crate::image::{
    channel_value, disabled_image, enabled_image, it_image, mode_image, trigger_image, AF_BIT,
    IntegrationTime, MeasurementMode, BLUE_REGISTER, CONFIG_REGISTER, DEVICE_ADDRESS,
    GREEN_REGISTER, IT_MASK, RED_REGISTER, SHUTDOWN_BIT, TRIGGER_BIT, WHITE_REGISTER,
};
use vstd::prelude::*;

verus! {

/// All possible errors in this crate.
#[derive(Debug)]
pub enum Error<E> {
    /// I2C bus error.
    I2C(E),
}

/// Result of a measurement of all four channels in one burst read.
pub struct AllChannelMeasurement {
    /// Red channel measurement.
    pub red: u16,
    /// Green channel measurement.
    pub green: u16,
    /// Blue channel measurement.
    pub blue: u16,
    /// White channel measurement.
    pub white: u16,
}

/// The bus transaction every configuration operation issues: a 3-byte write
/// of the register address, the configuration byte, and the reserved zero
/// byte, to the device address.
pub open spec fn config_write_op(config: u8) -> BusOp {
    BusOp::Write { address: DEVICE_ADDRESS, bytes: seq![CONFIG_REGISTER, config, 0u8] }
}

/// Holds when `new_history` extends `old_history` by exactly one successful
/// 2-byte read at `register` (a 1-byte register-address write answered by 2
/// bytes), and `value` is its little-endian decode.
pub open spec fn channel_read_appended(
    old_history: Seq<BusOp>,
    new_history: Seq<BusOp>,
    register: u8,
    value: u16,
) -> bool {
    &&& new_history.len() == old_history.len() + 1
    &&& new_history.drop_last() == old_history
    &&& match new_history.last() {
        BusOp::WriteRead { address, bytes, response } => {
            &&& address == DEVICE_ADDRESS
            &&& bytes == seq![register]
            &&& response.len() == 2
            &&& value == channel_value(response[0], response[1])
        },
        BusOp::Write { .. } => false,
    }
}

/// Holds when `new_history` extends `old_history` by exactly one successful
/// 8-byte burst read starting at the red channel register, and `m` holds its
/// four little-endian decodes in red, green, blue, white order.
pub open spec fn burst_read_appended(
    old_history: Seq<BusOp>,
    new_history: Seq<BusOp>,
    m: AllChannelMeasurement,
) -> bool {
    &&& new_history.len() == old_history.len() + 1
    &&& new_history.drop_last() == old_history
    &&& match new_history.last() {
        BusOp::WriteRead { address, bytes, response } => {
            &&& address == DEVICE_ADDRESS
            &&& bytes == seq![RED_REGISTER]
            &&& response.len() == 8
            &&& m.red == channel_value(response[0], response[1])
            &&& m.green == channel_value(response[2], response[3])
            &&& m.blue == channel_value(response[4], response[5])
            &&& m.white == channel_value(response[6], response[7])
        },
        BusOp::Write { .. } => false,
    }
}

/// VEML6040 device driver.
///
/// It owns the bus exclusively and keeps an 8-bit shadow of the device's
/// configuration register: the last image confirmed written, updated only
/// when a register write succeeds.
#[derive(Debug, Default)]
pub struct Veml6040<I2C> {
    /// The concrete I2C bus implementation.
    i2c: I2C,
    /// Shadow of the configuration register.
    config: u8,
}

impl<I2C> Veml6040<I2C> {
    /// The configuration register shadow.
    pub closed spec fn spec_shadow(&self) -> u8 {
        self.config
    }

    /// The owned bus.
    pub closed spec fn spec_bus(&self) -> I2C {
        self.i2c
    }

    /// Create a new instance of the VEML6040 device. The shadow starts at
    /// the power-on-reset image, all bits clear.
    pub fn new(i2c: I2C) -> (device: Self)
        ensures
            device.spec_shadow() == 0,
            device.spec_bus() == i2c,
    {
        Veml6040 { i2c, config: 0 }
    }

    /// Destroy the driver instance and give the bus back.
    pub fn destroy(self) -> (r: I2C)
        ensures
            r == self.spec_bus(),
    {
        self.i2c
    }
}

impl<I2C: I2cBus> Veml6040<I2C> {
    /// Enable the sensor: clear the shutdown bit and write the full image.
    ///
    /// The call succeeds exactly when the bus write does. On success the
    /// 3-byte configuration write of the enabled image went over the bus and
    /// the image became the new shadow; on a bus failure nothing went over
    /// the bus and the shadow keeps its pre-call value.
    pub fn enable(&mut self) -> (r: Result<(), Error<I2C::Error>>)
        ensures
            r is Ok ==> final(self).spec_shadow() == enabled_image(old(self).spec_shadow())
                && final(self).spec_bus().history() == old(self).spec_bus().history().push(
                config_write_op(enabled_image(old(self).spec_shadow())),
            ),
            r is Err ==> final(self).spec_shadow() == old(self).spec_shadow() && final(self).spec_bus().history() == old(self).spec_bus().history(),
    {
        let config = self.config;
        self.write_config(config & !SHUTDOWN_BIT)
    }

    /// Disable the sensor (shutdown): set the shutdown bit and write the
    /// full image.
    ///
    /// The call succeeds exactly when the bus write does. On success the
    /// 3-byte configuration write of the disabled image went over the bus
    /// and the image became the new shadow; on a bus failure nothing went
    /// over the bus and the shadow keeps its pre-call value.
    pub fn disable(&mut self) -> (r: Result<(), Error<I2C::Error>>)
        ensures
            r is Ok ==> final(self).spec_shadow() == disabled_image(old(self).spec_shadow())
                && final(self).spec_bus().history() == old(self).spec_bus().history().push(
                config_write_op(disabled_image(old(self).spec_shadow())),
            ),
            r is Err ==> final(self).spec_shadow() == old(self).spec_shadow() && final(self).spec_bus().history() == old(self).spec_bus().history(),
    {
        let config = self.config;
        self.write_config(config | SHUTDOWN_BIT)
    }

    /// Set the integration time: replace bits 4-6 of the shadow by the 3-bit
    /// code of the requested duration and write the full image.
    ///
    /// The call succeeds exactly when the bus write does. On success the
    /// 3-byte configuration write of the new image went over the bus and the
    /// image became the new shadow; on a bus failure nothing went over the
    /// bus and the shadow keeps its pre-call value.
    pub fn set_integration_time(&mut self, it: IntegrationTime) -> (r: Result<
        (),
        Error<I2C::Error>,
    >)
        ensures
            r is Ok ==> final(self).spec_shadow() == it_image(old(self).spec_shadow(), it)
                && final(self).spec_bus().history() == old(self).spec_bus().history().push(
                config_write_op(it_image(old(self).spec_shadow(), it)),
            ),
            r is Err ==> final(self).spec_shadow() == old(self).spec_shadow() && final(self).spec_bus().history() == old(self).spec_bus().history(),
    {
        let config = self.config & !IT_MASK;
        match it {
            IntegrationTime::_40ms => self.write_config(config | 0x00),
            IntegrationTime::_80ms => self.write_config(config | 0x10),
            IntegrationTime::_160ms => self.write_config(config | 0x20),
            IntegrationTime::_320ms => self.write_config(config | 0x30),
            IntegrationTime::_640ms => self.write_config(config | 0x40),
            IntegrationTime::_1280ms => self.write_config(config | 0x50),
        }
    }

    /// Set the measurement mode: clear the AF bit for `Auto`, set it for
    /// `Manual`, and write the full image.
    ///
    /// The call succeeds exactly when the bus write does. On success the
    /// 3-byte configuration write of the new image went over the bus and the
    /// image became the new shadow; on a bus failure nothing went over the
    /// bus and the shadow keeps its pre-call value.
    pub fn set_measurement_mode(&mut self, mode: MeasurementMode) -> (r: Result<
        (),
        Error<I2C::Error>,
    >)
        ensures
            r is Ok ==> final(self).spec_shadow() == mode_image(old(self).spec_shadow(), mode)
                && final(self).spec_bus().history() == old(self).spec_bus().history().push(
                config_write_op(mode_image(old(self).spec_shadow(), mode)),
            ),
            r is Err ==> final(self).spec_shadow() == old(self).spec_shadow() && final(self).spec_bus().history() == old(self).spec_bus().history(),
    {
        let config = self.config;
        match mode {
            MeasurementMode::Auto => self.write_config(config & !AF_BIT),
            MeasurementMode::Manual => self.write_config(config | AF_BIT),
        }
    }

    /// Trigger a measurement when in `Manual` measurement mode.
    ///
    /// The call succeeds exactly when the bus write does. On success the
    /// transient image `trigger_image(shadow)` — the shadow with the trigger
    /// bit added — went over the bus in the usual 3-byte configuration
    /// write, but the shadow is never updated: the trigger bit is write-only
    /// hardware behavior, not persisted state. The contract holds no mode
    /// precondition: calling this in `Auto` mode issues the same write and
    /// the device simply ignores it.
    pub fn trigger_measurement(&mut self) -> (r: Result<(), Error<I2C::Error>>)
        ensures
            final(self).spec_shadow() == old(self).spec_shadow(),
            r is Ok ==> final(self).spec_bus().history() == old(self).spec_bus().history().push(
                config_write_op(trigger_image(old(self).spec_shadow())),
            ),
            r is Err ==> final(self).spec_bus().history() == old(self).spec_bus().history(),
    {
        // The trigger bit is not stored, to avoid unintended triggers later.
        let mut payload: Vec<u8> = Vec::new();
        payload.push(CONFIG_REGISTER);
        payload.push(self.config | TRIGGER_BIT);
        payload.push(0);
        proof {
            assert(payload@ =~= seq![
                CONFIG_REGISTER,
                trigger_image(old(self).spec_shadow()),
                0u8,
            ]);
        }
        match self.i2c.write(DEVICE_ADDRESS, payload.as_slice()) {
            Ok(_) => Ok(()),
            Err(e) => Err(Error::I2C(e)),
        }
    }

    /// The shared write primitive: send the 3-byte configuration write
    /// `[register address, config, 0]` and persist `config` as the new
    /// shadow only if the bus reports success.
    fn write_config(&mut self, config: u8) -> (r: Result<(), Error<I2C::Error>>)
        ensures
            r is Ok ==> final(self).spec_shadow() == config && final(self).spec_bus().history()
                == old(self).spec_bus().history().push(config_write_op(config)),
            r is Err ==> final(self).spec_shadow() == old(self).spec_shadow() && final(self).spec_bus().history() == old(self).spec_bus().history(),
    {
        let mut payload: Vec<u8> = Vec::new();
        payload.push(CONFIG_REGISTER);
        payload.push(config);
        payload.push(0);
        proof {
            assert(payload@ =~= seq![CONFIG_REGISTER, config, 0u8]);
        }
        match self.i2c.write(DEVICE_ADDRESS, payload.as_slice()) {
            Ok(_) => {
                self.config = config;
                Ok(())
            },
            Err(e) => Err(Error::I2C(e)),
        }
    }

    /// Read the red channel measurement data.
    ///
    /// The call succeeds exactly when the bus transaction does. On success a
    /// 2-byte read at the red channel register went over the bus and the
    /// result is its little-endian decode; the shadow is never touched.
    pub fn read_red_channel(&mut self) -> (r: Result<u16, Error<I2C::Error>>)
        ensures
            final(self).spec_shadow() == old(self).spec_shadow(),
            r is Ok ==> channel_read_appended(
                old(self).spec_bus().history(),
                final(self).spec_bus().history(),
                RED_REGISTER,
                r->Ok_0,
            ),
            r is Err ==> final(self).spec_bus().history() == old(self).spec_bus().history(),
    {
        self.read_channel(RED_REGISTER)
    }

    /// Read the green channel measurement data.
    ///
    /// The call succeeds exactly when the bus transaction does. On success a
    /// 2-byte read at the green channel register went over the bus and the
    /// result is its little-endian decode; the shadow is never touched.
    pub fn read_green_channel(&mut self) -> (r: Result<u16, Error<I2C::Error>>)
        ensures
            final(self).spec_shadow() == old(self).spec_shadow(),
            r is Ok ==> channel_read_appended(
                old(self).spec_bus().history(),
                final(self).spec_bus().history(),
                GREEN_REGISTER,
                r->Ok_0,
            ),
            r is Err ==> final(self).spec_bus().history() == old(self).spec_bus().history(),
    {
        self.read_channel(GREEN_REGISTER)
    }

    /// Read the blue channel measurement data.
    ///
    /// The call succeeds exactly when the bus transaction does. On success a
    /// 2-byte read at the blue channel register went over the bus and the
    /// result is its little-endian decode; the shadow is never touched.
    pub fn read_blue_channel(&mut self) -> (r: Result<u16, Error<I2C::Error>>)
        ensures
            final(self).spec_shadow() == old(self).spec_shadow(),
            r is Ok ==> channel_read_appended(
                old(self).spec_bus().history(),
                final(self).spec_bus().history(),
                BLUE_REGISTER,
                r->Ok_0,
            ),
            r is Err ==> final(self).spec_bus().history() == old(self).spec_bus().history(),
    {
        self.read_channel(BLUE_REGISTER)
    }

    /// Read the white channel measurement data.
    ///
    /// The call succeeds exactly when the bus transaction does. On success a
    /// 2-byte read at the white channel register went over the bus and the
    /// result is its little-endian decode; the shadow is never touched.
    pub fn read_white_channel(&mut self) -> (r: Result<u16, Error<I2C::Error>>)
        ensures
            final(self).spec_shadow() == old(self).spec_shadow(),
            r is Ok ==> channel_read_appended(
                old(self).spec_bus().history(),
                final(self).spec_bus().history(),
                WHITE_REGISTER,
                r->Ok_0,
            ),
            r is Err ==> final(self).spec_bus().history() == old(self).spec_bus().history(),
    {
        self.read_channel(WHITE_REGISTER)
    }

    /// Read the measurement data of all four channels at once.
    ///
    /// The call succeeds exactly when the bus transaction does. On success a
    /// single 8-byte burst read starting at the red channel register went
    /// over the bus, decoded as four little-endian pairs in red, green,
    /// blue, white order; the shadow is never touched. It is one
    /// transaction, not four single-channel reads, because the device
    /// guarantees register-set coherence only within one burst.
    pub fn read_all_channels(&mut self) -> (r: Result<AllChannelMeasurement, Error<I2C::Error>>)
        ensures
            final(self).spec_shadow() == old(self).spec_shadow(),
            r is Ok ==> burst_read_appended(
                old(self).spec_bus().history(),
                final(self).spec_bus().history(),
                r->Ok_0,
            ),
            r is Err ==> final(self).spec_bus().history() == old(self).spec_bus().history(),
    {
        let mut command: Vec<u8> = Vec::new();
        command.push(RED_REGISTER);
        proof {
            assert(command@ =~= seq![RED_REGISTER]);
        }
        match self.i2c.write_read(DEVICE_ADDRESS, command.as_slice(), 8) {
            Ok(data) => {
                let m = decode_all_channels(&data);
                proof {
                    let op = (BusOp::WriteRead {
                        address: DEVICE_ADDRESS,
                        bytes: command@,
                        response: data@,
                    });
                    let old_history = old(self).spec_bus().history();
                    assert(old_history.push(op).drop_last() =~= old_history);
                    assert(old_history.push(op).last() == op);
                }
                Ok(m)
            },
            Err(e) => Err(Error::I2C(e)),
        }
    }

    /// Issue a 2-byte read at `register` and decode it, little-endian.
    fn read_channel(&mut self, register: u8) -> (r: Result<u16, Error<I2C::Error>>)
        ensures
            final(self).spec_shadow() == old(self).spec_shadow(),
            r is Ok ==> channel_read_appended(
                old(self).spec_bus().history(),
                final(self).spec_bus().history(),
                register,
                r->Ok_0,
            ),
            r is Err ==> final(self).spec_bus().history() == old(self).spec_bus().history(),
    {
        let mut command: Vec<u8> = Vec::new();
        command.push(register);
        proof {
            assert(command@ =~= seq![register]);
        }
        match self.i2c.write_read(DEVICE_ADDRESS, command.as_slice(), 2) {
            Ok(data) => {
                let value = decode_channel(data[0], data[1]);
                proof {
                    let op = (BusOp::WriteRead {
                        address: DEVICE_ADDRESS,
                        bytes: command@,
                        response: data@,
                    });
                    let old_history = old(self).spec_bus().history();
                    assert(old_history.push(op).drop_last() =~= old_history);
                    assert(old_history.push(op).last() == op);
                }
                Ok(value)
            },
            Err(e) => Err(Error::I2C(e)),
        }
    }
}

/// Decode one channel sample from its two wire bytes, low byte first.
pub fn decode_channel(low: u8, high: u8) -> (value: u16)
    ensures
        value == channel_value(low, high),
        value == 256 * (high as int) + (low as int),
{
    proof {
        assert((((high as u16) << 8) | (low as u16)) == 256 * (high as int) + (low as int))
            by (bit_vector);
    }
    ((high as u16) << 8) | (low as u16)
}

/// Decode an 8-byte burst read into the four channel samples, in red,
/// green, blue, white register order, each pair low byte first.
pub fn decode_all_channels(data: &Vec<u8>) -> (m: AllChannelMeasurement)
    requires
        data@.len() == 8,
    ensures
        m.red == channel_value(data@[0], data@[1]),
        m.green == channel_value(data@[2], data@[3]),
        m.blue == channel_value(data@[4], data@[5]),
        m.white == channel_value(data@[6], data@[7]),
{
    AllChannelMeasurement {
        red: decode_channel(data[0], data[1]),
        green: decode_channel(data[2], data[3]),
        blue: decode_channel(data[4], data[5]),
        white: decode_channel(data[6], data[7]),
    }
}

} // verus!
