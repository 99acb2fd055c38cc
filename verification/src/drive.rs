//! Plain values for what the firmware writes to the drive hardware.

use vstd::prelude::*;

verus! {

/// Logic level commanded on a digital output pin.
#[derive(Clone, Copy, Debug, PartialEq, Eq, Structural)]
pub enum Level {
    Low,
    High,
}

/// Settings of one RP2040 PWM slice, one field for each setting of the HAL's
/// PWM configuration.
#[derive(Clone, Copy, Debug, PartialEq, Eq, Structural)]
pub struct PwmConfig {
    /// Invert the output of channel A.
    pub invert_a: bool,
    /// Invert the output of channel B.
    pub invert_b: bool,
    /// Phase-correct (centred) pulse generation.
    pub phase_correct: bool,
    /// The slice runs.
    pub enable: bool,
    /// Clock divider as unsigned fixed point with 4 fractional bits, raw bits.
    pub divider_bits: u16,
    /// Channel A is high while the counter is below this value.
    pub compare_a: u16,
    /// Channel B is high while the counter is below this value.
    pub compare_b: u16,
    /// Value at which the counter wraps.
    pub top: u16,
}

/// Counter wrap value of the PWM slice that drives a motor.
pub const DRIVE_PWM_TOP: u16 = 0x8000;

/// Fixed compare value that `set_motor_speed` writes to channel A.
pub const FIXED_MOTOR_COMPARE: u16 = 10000;

/// An H-bridge is shorted when both of its direction inputs are high.
pub open spec fn bridge_safe(dir_1: Level, dir_2: Level) -> bool {
    !(dir_1 == Level::High && dir_2 == Level::High)
}

/// The configuration that drives a motor: the given base configuration with the
/// counter wrapping at `DRIVE_PWM_TOP`.
pub open spec fn drive_config(base: PwmConfig) -> PwmConfig {
    PwmConfig { top: DRIVE_PWM_TOP, ..base }
}

/// `base` with channel A's compare value replaced.
pub open spec fn with_compare_a(base: PwmConfig, compare: u16) -> PwmConfig {
    PwmConfig { compare_a: compare, ..base }
}

/// Builds the drive configuration from a base configuration.
pub fn make_drive_config(base: PwmConfig) -> (config: PwmConfig)
    ensures
        config == drive_config(base),
        config.top == 0x8000,
        config.invert_a == base.invert_a,
        config.invert_b == base.invert_b,
        config.phase_correct == base.phase_correct,
        config.enable == base.enable,
        config.divider_bits == base.divider_bits,
        config.compare_a == base.compare_a,
        config.compare_b == base.compare_b,
{
    let mut config = base;
    config.top = DRIVE_PWM_TOP;
    config
}

/// Only the case where both direction inputs are high shorts the bridge.
pub proof fn lemma_bridge_safe_table()
    ensures
        !bridge_safe(Level::High, Level::High),
        bridge_safe(Level::High, Level::Low),
        bridge_safe(Level::Low, Level::High),
        bridge_safe(Level::Low, Level::Low),
{
}

/// Setting a compare value changes channel A's compare value and nothing else:
/// inversion, phase mode, enable flag, divider, channel B and the wrap value all
/// stay as they were.
pub proof fn lemma_compare_update_touches_only_channel_a(base: PwmConfig, compare: u16)
    ensures ({
        let c = with_compare_a(base, compare);
        &&& c.compare_a == compare
        &&& c.invert_a == base.invert_a
        &&& c.invert_b == base.invert_b
        &&& c.phase_correct == base.phase_correct
        &&& c.enable == base.enable
        &&& c.divider_bits == base.divider_bits
        &&& c.compare_b == base.compare_b
        &&& c.top == base.top
    }),
{
}

/// The drive configuration wraps the counter at 0x8000 and keeps every other
/// setting of the base configuration.
pub proof fn lemma_drive_config_touches_only_top(base: PwmConfig)
    ensures ({
        let c = drive_config(base);
        &&& c.top == 0x8000
        &&& c.compare_a == base.compare_a
        &&& c.invert_a == base.invert_a
        &&& c.invert_b == base.invert_b
        &&& c.phase_correct == base.phase_correct
        &&& c.enable == base.enable
        &&& c.divider_bits == base.divider_bits
        &&& c.compare_b == base.compare_b
    }),
{
}

} // verus!
