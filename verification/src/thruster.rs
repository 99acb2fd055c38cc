//! The thruster of the first drive board: an H-bridge with one PWM channel.
//!
//! The thrust setpoints of this thruster are floating point and stay with the
//! firmware; this part holds what is written to the bridge.

use vstd::prelude::*;
use crate::drive::{Level, PwmConfig, bridge_safe, drive_config, with_compare_a, make_drive_config, FIXED_MOTOR_COMPARE};

verus! {

/// What the firmware commands to the thruster's bridge and PWM slice.
pub struct Thruster {
    /// Level of the first direction input of the bridge.
    pub dir_1: Level,
    /// Level of the second direction input of the bridge.
    pub dir_2: Level,
    /// Configuration of the PWM slice that feeds the bridge.
    pub config: PwmConfig,
}

impl Thruster {
    /// Both direction inputs low and the PWM slice configured from `base` (the
    /// HAL's default configuration) with its counter wrapping at `DRIVE_PWM_TOP`.
    pub fn new(base: PwmConfig) -> (thruster: Thruster)
        ensures
            thruster.dir_1 == Level::Low,
            thruster.dir_2 == Level::Low,
            thruster.config == drive_config(base),
            thruster.config.top == 0x8000,
            thruster.config.invert_a == base.invert_a,
            thruster.config.invert_b == base.invert_b,
            thruster.config.phase_correct == base.phase_correct,
            thruster.config.enable == base.enable,
            thruster.config.divider_bits == base.divider_bits,
            thruster.config.compare_a == base.compare_a,
            thruster.config.compare_b == base.compare_b,
            bridge_safe(thruster.dir_1, thruster.dir_2),
    {
        Thruster { dir_1: Level::Low, dir_2: Level::Low, config: make_drive_config(base) }
    }

    /// Drives forward: first input high, second low.
    pub fn set_forward_drive(&mut self)
        ensures
            final(self).dir_1 == Level::High,
            final(self).dir_2 == Level::Low,
            final(self).config == old(self).config,
            bridge_safe(final(self).dir_1, final(self).dir_2),
    {
        self.dir_1 = Level::High;
        self.dir_2 = Level::Low;
    }

    /// Drives in reverse: first input low, second high.
    pub fn set_reverse_drive(&mut self)
        ensures
            final(self).dir_1 == Level::Low,
            final(self).dir_2 == Level::High,
            final(self).config == old(self).config,
            bridge_safe(final(self).dir_1, final(self).dir_2),
    {
        self.dir_1 = Level::Low;
        self.dir_2 = Level::High;
    }

    /// Sets channel A's compare value to the fixed `FIXED_MOTOR_COMPARE`.
    pub fn set_motor_speed(&mut self)
        ensures
            final(self).config == with_compare_a(old(self).config, FIXED_MOTOR_COMPARE),
            final(self).config.compare_a == 10000,
            final(self).config.invert_a == old(self).config.invert_a,
            final(self).config.invert_b == old(self).config.invert_b,
            final(self).config.phase_correct == old(self).config.phase_correct,
            final(self).config.enable == old(self).config.enable,
            final(self).config.divider_bits == old(self).config.divider_bits,
            final(self).config.compare_b == old(self).config.compare_b,
            final(self).config.top == old(self).config.top,
            final(self).dir_1 == old(self).dir_1,
            final(self).dir_2 == old(self).dir_2,
    {
        self.config.compare_a = FIXED_MOTOR_COMPARE;
    }
}

} // verus!
