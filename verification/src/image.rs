//! The configuration register image and the channel sample encoding.
//!
//! The device has a single writable 8-bit configuration register packing five
//! independent bit-fields: the shutdown bit (bit 0), the measurement mode bit
//! (bit 1), the write-only trigger bit (bit 2), a 3-bit integration time code
//! (bits 4-6), and two reserved bits (bits 3 and 7) that must stay 0. The
//! spec functions here are the field-to-mask table: they say, for each
//! intent-level operation, which register image it derives from the current
//! shadow. Channel samples travel as two bytes, low byte first.

use vstd::prelude::*;

verus! {

/// 7-bit I2C address of the sensor.
pub const DEVICE_ADDRESS: u8 = 0x10;

/// Address of the configuration register.
pub const CONFIG_REGISTER: u8 = 0x00;

/// Address of the red channel data register.
pub const RED_REGISTER: u8 = 0x08;

/// Address of the green channel data register.
pub const GREEN_REGISTER: u8 = 0x09;

/// Address of the blue channel data register.
pub const BLUE_REGISTER: u8 = 0x0A;

/// Address of the white channel data register.
pub const WHITE_REGISTER: u8 = 0x0B;

/// Shutdown field: 0 = active, 1 = shutdown.
pub const SHUTDOWN_BIT: u8 = 0b0000_0001;

/// Measurement mode field (AF): 0 = auto, 1 = manual.
pub const AF_BIT: u8 = 0b0000_0010;

/// One-shot trigger bit: written transiently, never kept in the shadow.
pub const TRIGGER_BIT: u8 = 0b0000_0100;

/// The three integration time bits (bits 4-6).
pub const IT_MASK: u8 = 0b0111_0000;

/// The reserved bits 3 and 7, unused by the device and kept at 0.
pub const RESERVED_BITS: u8 = 0b1000_1000;

/// Possible measurement modes.
#[derive(Debug, Clone, PartialEq)]
pub enum MeasurementMode {
    /// Automatic mode: measurements are made continuously, at a cadence set
    /// by the integration time.
    Auto,
    /// Manual mode: measurements happen only on an explicit trigger. This is
    /// also called "force mode" or "ActiveForce" mode.
    Manual,
}

/// Integration time: the sensor exposure duration per sample.
#[derive(Debug, Clone, PartialEq)]
pub enum IntegrationTime {
    /// 40 ms
    _40ms,
    /// 80 ms
    _80ms,
    /// 160 ms
    _160ms,
    /// 320 ms
    _320ms,
    /// 640 ms
    _640ms,
    /// 1280 ms
    _1280ms,
}

/// The register image written by `enable`: the shutdown bit cleared.
pub open spec fn enabled_image(config: u8) -> u8 {
    config & !SHUTDOWN_BIT
}

/// The register image written by `disable`: the shutdown bit set.
pub open spec fn disabled_image(config: u8) -> u8 {
    config | SHUTDOWN_BIT
}

/// The register image written by `set_measurement_mode`: the AF bit cleared
/// for `Auto`, set for `Manual`.
pub open spec fn mode_image(config: u8, mode: MeasurementMode) -> u8 {
    match mode {
        MeasurementMode::Auto => config & !AF_BIT,
        MeasurementMode::Manual => config | AF_BIT,
    }
}

/// The 3-bit integration time code, already shifted into bits 4-6.
/// Codes 0b110 and 0b111 are reserved by the device and never produced.
pub open spec fn it_code(it: IntegrationTime) -> u8 {
    match it {
        IntegrationTime::_40ms => 0x00,
        IntegrationTime::_80ms => 0x10,
        IntegrationTime::_160ms => 0x20,
        IntegrationTime::_320ms => 0x30,
        IntegrationTime::_640ms => 0x40,
        IntegrationTime::_1280ms => 0x50,
    }
}

/// The register image written by `set_integration_time`: bits 4-6 replaced
/// by the requested code, every other bit kept.
pub open spec fn it_image(config: u8, it: IntegrationTime) -> u8 {
    (config & !IT_MASK) | it_code(it)
}

/// The transient register image written by `trigger_measurement`. It is
/// derived from the shadow but never assigned back to it.
pub open spec fn trigger_image(config: u8) -> u8 {
    config | TRIGGER_BIT
}

/// A well-formed shadow: the trigger bit and the two reserved bits (3 and 7)
/// are clear. The power-on-reset shadow 0x00 satisfies this, and every
/// persisted image preserves it (see the lemmas in `laws`).
pub open spec fn shadow_reserved(config: u8) -> bool {
    config & (TRIGGER_BIT | RESERVED_BITS) == 0
}

/// A channel sample decoded from its two wire bytes, low byte first.
pub open spec fn channel_value(low: u8, high: u8) -> u16 {
    ((high as u16) << 8) | (low as u16)
}

} // verus!
