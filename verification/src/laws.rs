//! Laws of the configuration register model.
//!
//! The driver's operations promise, one call at a time, that a successful
//! call puts exactly the 3-byte configuration write of the new image on the
//! bus and leaves the shadow at that image, and that a failed call completes
//! no transaction and leaves the shadow untouched. The lemmas here state
//! what follows for whole histories of calls and for the individual
//! bit-fields of the images.

use crate::image::{
    disabled_image, enabled_image, it_code, it_image, mode_image, shadow_reserved, trigger_image,
    IntegrationTime, MeasurementMode, AF_BIT, IT_MASK, SHUTDOWN_BIT, TRIGGER_BIT,
};
use vstd::prelude::*;

verus! {

/// One intent-level configuration operation, as it affects the shadow.
pub enum ConfigOp {
    /// `enable()`
    Enable,
    /// `disable()`
    Disable,
    /// `set_measurement_mode(mode)`
    SetMeasurementMode(MeasurementMode),
    /// `set_integration_time(it)`
    SetIntegrationTime(IntegrationTime),
    /// `trigger_measurement()`: writes a transient image, persists nothing.
    Trigger,
}

/// The shadow after one successful operation on the prior shadow `config`.
pub open spec fn op_shadow(config: u8, op: ConfigOp) -> u8 {
    match op {
        ConfigOp::Enable => enabled_image(config),
        ConfigOp::Disable => disabled_image(config),
        ConfigOp::SetMeasurementMode(mode) => mode_image(config, mode),
        ConfigOp::SetIntegrationTime(it) => it_image(config, it),
        ConfigOp::Trigger => config,
    }
}

/// The shadow after a sequence of successful operations, starting from the
/// power-on-reset shadow 0x00. A failed call leaves the shadow unchanged
/// (by the operations' own contracts), so it simply does not appear here.
pub open spec fn shadow_after(ops: Seq<ConfigOp>) -> u8
    decreases ops.len(),
{
    if ops.len() == 0 {
        0
    } else {
        op_shadow(shadow_after(ops.drop_last()), ops.last())
    }
}

/// Every persisted image keeps the trigger bit and the reserved bits (3 and
/// 7) clear: they are never part of the shadow an operation starts from, so
/// no operation can set them.
pub proof fn lemma_op_preserves_reserved(config: u8, op: ConfigOp)
    requires
        shadow_reserved(config),
    ensures
        shadow_reserved(op_shadow(config, op)),
{
    match op {
        ConfigOp::Enable => {
            assert(shadow_reserved(config & !SHUTDOWN_BIT)) by (bit_vector)
                requires
                    shadow_reserved(config),
            ;
        },
        ConfigOp::Disable => {
            assert(shadow_reserved(config | SHUTDOWN_BIT)) by (bit_vector)
                requires
                    shadow_reserved(config),
            ;
        },
        ConfigOp::SetMeasurementMode(mode) => {
            match mode {
                MeasurementMode::Auto => {
                    assert(shadow_reserved(config & !AF_BIT)) by (bit_vector)
                        requires
                            shadow_reserved(config),
                    ;
                },
                MeasurementMode::Manual => {
                    assert(shadow_reserved(config | AF_BIT)) by (bit_vector)
                        requires
                            shadow_reserved(config),
                    ;
                },
            }
        },
        ConfigOp::SetIntegrationTime(it) => {
            let code = it_code(it);
            assert(code == 0x00 || code == 0x10 || code == 0x20 || code == 0x30 || code == 0x40
                || code == 0x50);
            assert(shadow_reserved((config & !IT_MASK) | code)) by (bit_vector)
                requires
                    shadow_reserved(config),
                    code == 0x00 || code == 0x10 || code == 0x20 || code == 0x30 || code == 0x40
                        || code == 0x50,
            ;
        },
        ConfigOp::Trigger => {},
    }
}

/// After any sequence of successful configuration operations, starting from
/// the power-on-reset shadow, the persisted shadow keeps the trigger bit 0
/// (and the reserved bits 3 and 7 as well): the trigger is never persisted.
pub proof fn lemma_shadow_trigger_bit_always_clear(ops: Seq<ConfigOp>)
    ensures
        shadow_reserved(shadow_after(ops)),
        shadow_after(ops) & TRIGGER_BIT == 0,
    decreases ops.len(),
{
    if ops.len() == 0 {
        assert(shadow_reserved(0u8)) by (bit_vector);
        assert(0u8 & TRIGGER_BIT == 0) by (bit_vector);
    } else {
        lemma_shadow_trigger_bit_always_clear(ops.drop_last());
        lemma_op_preserves_reserved(shadow_after(ops.drop_last()), ops.last());
        let s = shadow_after(ops);
        assert(s & TRIGGER_BIT == 0) by (bit_vector)
            requires
                shadow_reserved(s),
        ;
    }
}

/// `set_measurement_mode` drives exactly bit 1: `Auto` clears it, `Manual`
/// sets it, every other bit is kept, and repeating the operation changes
/// nothing further.
pub proof fn lemma_mode_image(config: u8, mode: MeasurementMode)
    ensures
        mode is Auto ==> mode_image(config, mode) & AF_BIT == 0,
        mode is Manual ==> mode_image(config, mode) & AF_BIT == AF_BIT,
        mode_image(config, mode) & !AF_BIT == config & !AF_BIT,
        mode_image(mode_image(config, mode), mode) == mode_image(config, mode),
{
    match mode {
        MeasurementMode::Auto => {
            assert((config & !AF_BIT) & AF_BIT == 0 && (config & !AF_BIT) & !AF_BIT == config
                & !AF_BIT && ((config & !AF_BIT) & !AF_BIT) == config & !AF_BIT) by (bit_vector);
        },
        MeasurementMode::Manual => {
            assert((config | AF_BIT) & AF_BIT == AF_BIT && (config | AF_BIT) & !AF_BIT == config
                & !AF_BIT && ((config | AF_BIT) | AF_BIT) == config | AF_BIT) by (bit_vector);
        },
    }
}

/// `set_integration_time` drives exactly bits 4-6: the image holds the
/// requested 3-bit code there, keeps bits 0-3 and 7 of the prior shadow,
/// and repeating the operation changes nothing further.
pub proof fn lemma_it_image(config: u8, it: IntegrationTime)
    ensures
        it_image(config, it) & IT_MASK == it_code(it),
        it_image(config, it) & !IT_MASK == config & !IT_MASK,
        it_image(it_image(config, it), it) == it_image(config, it),
        config == 0 ==> it_image(config, it) == it_code(it),
{
    let code = it_code(it);
    assert(code == 0x00 || code == 0x10 || code == 0x20 || code == 0x30 || code == 0x40 || code
        == 0x50);
    assert(((config & !IT_MASK) | code) & IT_MASK == code && ((config & !IT_MASK) | code)
        & !IT_MASK == config & !IT_MASK && ((((config & !IT_MASK) | code) & !IT_MASK) | code) == (
    (config & !IT_MASK) | code) && (config == 0 ==> ((config & !IT_MASK) | code) == code)) by (bit_vector)
        requires
            code == 0x00 || code == 0x10 || code == 0x20 || code == 0x30 || code == 0x40 || code
                == 0x50,
    ;
}

/// `enable` and `disable` drive exactly bit 0: `enable` clears it, `disable`
/// sets it, every other bit is kept, each is idempotent, and one followed by
/// the other lands on the same image as the second alone.
pub proof fn lemma_power_image(config: u8)
    ensures
        enabled_image(config) & SHUTDOWN_BIT == 0,
        disabled_image(config) & SHUTDOWN_BIT == SHUTDOWN_BIT,
        enabled_image(config) & !SHUTDOWN_BIT == config & !SHUTDOWN_BIT,
        disabled_image(config) & !SHUTDOWN_BIT == config & !SHUTDOWN_BIT,
        enabled_image(enabled_image(config)) == enabled_image(config),
        disabled_image(disabled_image(config)) == disabled_image(config),
        disabled_image(enabled_image(config)) == disabled_image(config),
        enabled_image(disabled_image(config)) == enabled_image(config),
{
    assert((config & !SHUTDOWN_BIT) & SHUTDOWN_BIT == 0 && (config | SHUTDOWN_BIT) & SHUTDOWN_BIT
        == SHUTDOWN_BIT && (config & !SHUTDOWN_BIT) & !SHUTDOWN_BIT == config & !SHUTDOWN_BIT && (
    config | SHUTDOWN_BIT) & !SHUTDOWN_BIT == config & !SHUTDOWN_BIT && ((config & !SHUTDOWN_BIT)
        & !SHUTDOWN_BIT) == config & !SHUTDOWN_BIT && ((config | SHUTDOWN_BIT) | SHUTDOWN_BIT) == (
    config | SHUTDOWN_BIT) && ((config & !SHUTDOWN_BIT) | SHUTDOWN_BIT) == (config | SHUTDOWN_BIT)
        && ((config | SHUTDOWN_BIT) & !SHUTDOWN_BIT) == (config & !SHUTDOWN_BIT)) by (bit_vector);
}

/// The transient trigger image is the shadow with only the trigger bit
/// added: every persisted field rides along unchanged.
pub proof fn lemma_trigger_image(config: u8)
    ensures
        trigger_image(config) & TRIGGER_BIT == TRIGGER_BIT,
        trigger_image(config) & !TRIGGER_BIT == config & !TRIGGER_BIT,
{
    assert((config | TRIGGER_BIT) & TRIGGER_BIT == TRIGGER_BIT && (config | TRIGGER_BIT)
        & !TRIGGER_BIT == config & !TRIGGER_BIT) by (bit_vector);
}

} // verus!
