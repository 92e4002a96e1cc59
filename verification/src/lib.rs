//! Platform-agnostic driver for the VEML6040 RGBW color light sensor.
//!
//! The sensor is controlled over I2C through a single 8-bit configuration
//! register and read through four 16-bit color channels (red, green, blue,
//! white). This crate keeps a local shadow of the configuration register,
//! turns intent-level operations (enable, disable, set the integration time,
//! set the measurement mode, trigger a measurement) into 3-byte register
//! writes, and decodes little-endian 2-byte channel samples.
//!
//! The bus is injected at construction as any implementation of the
//! [`I2cBus`] capability trait, so the same driver logic runs against real
//! hardware or against the record-and-replay [`mock::MockBus`].

mod bus;
mod device;
mod image;
mod laws;
pub mod mock;

pub use bus::{BusOp, I2cBus, LoggedBus, RawI2c};
pub use device::{
    burst_read_appended, channel_read_appended, config_write_op, decode_all_channels,
    decode_channel, AllChannelMeasurement, Error, Veml6040,
};
pub use laws::{
    lemma_it_image, lemma_mode_image, lemma_op_preserves_reserved, lemma_power_image,
    lemma_shadow_trigger_bit_always_clear, lemma_trigger_image, op_shadow, shadow_after, ConfigOp,
};
pub use image::{
    channel_value, disabled_image, enabled_image, it_code, it_image, mode_image, shadow_reserved,
    trigger_image, IntegrationTime, MeasurementMode, AF_BIT, BLUE_REGISTER, CONFIG_REGISTER,
    DEVICE_ADDRESS, GREEN_REGISTER, IT_MASK, RED_REGISTER, RESERVED_BITS, SHUTDOWN_BIT,
    TRIGGER_BIT, WHITE_REGISTER,
};
