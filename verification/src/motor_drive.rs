//! A brushed motor behind an H-bridge: two direction inputs and one PWM channel.

use vstd::prelude::*;
use crate::drive::{Level, PwmConfig, bridge_safe, drive_config, with_compare_a, make_drive_config, FIXED_MOTOR_COMPARE};

verus! {

/// What the firmware commands to one motor driver.
pub struct MotorDrive {
    /// Level of the first direction input of the bridge.
    pub dir_1: Level,
    /// Level of the second direction input of the bridge.
    pub dir_2: Level,
    /// Requested speed.
    pub target_speed: u8,
    /// Configuration of the PWM slice that feeds the bridge.
    pub config: PwmConfig,
}

impl MotorDrive {
    /// A stopped motor: both direction inputs low, speed 0, and the PWM slice
    /// configured from `base` (the HAL's default configuration) with its counter
    /// wrapping at `DRIVE_PWM_TOP`.
    pub fn new(base: PwmConfig) -> (drive: MotorDrive)
        ensures
            drive.dir_1 == Level::Low,
            drive.dir_2 == Level::Low,
            drive.target_speed == 0,
            drive.config == drive_config(base),
            drive.config.top == 0x8000,
            drive.config.invert_a == base.invert_a,
            drive.config.invert_b == base.invert_b,
            drive.config.phase_correct == base.phase_correct,
            drive.config.enable == base.enable,
            drive.config.divider_bits == base.divider_bits,
            drive.config.compare_a == base.compare_a,
            drive.config.compare_b == base.compare_b,
            bridge_safe(drive.dir_1, drive.dir_2),
    {
        MotorDrive {
            dir_1: Level::Low,
            dir_2: Level::Low,
            target_speed: 0,
            config: make_drive_config(base),
        }
    }

    /// Drives forward: first input high, second low.
    pub fn set_forward_drive(&mut self)
        ensures
            final(self).dir_1 == Level::High,
            final(self).dir_2 == Level::Low,
            final(self).target_speed == old(self).target_speed,
            final(self).config == old(self).config,
            bridge_safe(final(self).dir_1, final(self).dir_2),
    {
        self.dir_1 = Level::High;
        self.dir_2 = Level::Low;
    }

    /// Drives in reverse: first input low, second high.
    pub fn set_reverse_drive(&mut self)
        ensures
            final(self).dir_1 == Level::Low,
            final(self).dir_2 == Level::High,
            final(self).target_speed == old(self).target_speed,
            final(self).config == old(self).config,
            bridge_safe(final(self).dir_1, final(self).dir_2),
    {
        self.dir_1 = Level::Low;
        self.dir_2 = Level::High;
    }

    /// Records the requested speed.
    pub fn set_target_speed(&mut self, target: u8)
        ensures
            final(self).target_speed == target,
            final(self).dir_1 == old(self).dir_1,
            final(self).dir_2 == old(self).dir_2,
            final(self).config == old(self).config,
    {
        self.target_speed = target;
    }

    /// Requests speed 0; the direction inputs are left as they are.
    pub fn stop(&mut self)
        ensures
            final(self).target_speed == 0,
            final(self).dir_1 == old(self).dir_1,
            final(self).dir_2 == old(self).dir_2,
            final(self).config == old(self).config,
    {
        self.set_target_speed(0);
    }

    /// Sets channel A's compare value to the fixed `FIXED_MOTOR_COMPARE`; the
    /// firmware then writes the configuration to the PWM slice.
    pub fn set_motor_speed(&mut self)
        ensures
            final(self).config == with_compare_a(old(self).config, FIXED_MOTOR_COMPARE),
            final(self).config.compare_a == 10000,
            final(self).config.invert_a == old(self).config.invert_a,
            final(self).config.invert_b == old(self).config.invert_b,
            final(self).config.phase_correct == old(self).config.phase_correct,
            final(self).config.enable == old(self).config.enable,
            final(self).config.divider_bits == old(self).config.divider_bits,
            final(self).config.compare_b == old(self).config.compare_b,
            final(self).config.top == old(self).config.top,
            final(self).dir_1 == old(self).dir_1,
            final(self).dir_2 == old(self).dir_2,
            final(self).target_speed == old(self).target_speed,
    {
        self.config.compare_a = FIXED_MOTOR_COMPARE;
    }
}

} // verus!
