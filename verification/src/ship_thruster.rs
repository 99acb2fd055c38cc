//! The thruster of the boat: direction and duty cycle written to its H-bridge.
//!
//! The drive value itself (a half-precision float smoothed towards its target)
//! is computed by the firmware; it hands this part the sign of the drive and
//! the duty cycle derived from it.

use vstd::prelude::*;
use crate::drive::{Level, PwmConfig, bridge_safe, drive_config, with_compare_a, make_drive_config};

verus! {

/// What the firmware commands to the thruster's bridge and PWM slice.
pub struct Thruster {
    /// Level of the first direction input of the bridge.
    pub dir_1: Level,
    /// Level of the second direction input of the bridge.
    pub dir_2: Level,
    /// Configuration of the PWM slice that feeds the bridge.
    pub config: PwmConfig,
}

/// The direction inputs for a drive of the given sign: forward (first input
/// high) for a positive drive, reverse otherwise.
pub open spec fn direction_levels(drive_positive: bool) -> (Level, Level) {
    if drive_positive {
        (Level::High, Level::Low)
    } else {
        (Level::Low, Level::High)
    }
}

/// The tick length in microseconds as the 32-bit count the smoothing step takes.
pub fn tick_micros(delta_t_micros: u64) -> (micros: u32)
    requires
        delta_t_micros <= u32::MAX,
    ensures
        micros == delta_t_micros,
{
    delta_t_micros as u32
}

/// A positive drive points the bridge forward (first input high, second low);
/// a zero or negative drive points it in reverse. Either way the bridge is not
/// shorted.
pub proof fn lemma_direction_follows_sign(drive_positive: bool)
    ensures
        direction_levels(true) == (Level::High, Level::Low),
        direction_levels(false) == (Level::Low, Level::High),
        direction_levels(drive_positive).0 != direction_levels(drive_positive).1,
        bridge_safe(direction_levels(drive_positive).0, direction_levels(drive_positive).1),
{
}

impl Thruster {
    /// Both direction inputs low and the PWM slice configured from `base` (the
    /// HAL's default configuration) with its counter wrapping at `DRIVE_PWM_TOP`.
    pub fn new(base: PwmConfig) -> (thruster: Thruster)
        ensures
            thruster.dir_1 == Level::Low,
            thruster.dir_2 == Level::Low,
            thruster.config == drive_config(base),
            thruster.config.top == 0x8000,
            thruster.config.invert_a == base.invert_a,
            thruster.config.invert_b == base.invert_b,
            thruster.config.phase_correct == base.phase_correct,
            thruster.config.enable == base.enable,
            thruster.config.divider_bits == base.divider_bits,
            thruster.config.compare_a == base.compare_a,
            thruster.config.compare_b == base.compare_b,
            bridge_safe(thruster.dir_1, thruster.dir_2),
    {
        Thruster { dir_1: Level::Low, dir_2: Level::Low, config: make_drive_config(base) }
    }

    /// Drives forward: first input high, second low.
    pub fn set_forward_drive(&mut self)
        ensures
            (final(self).dir_1, final(self).dir_2) == direction_levels(true),
            final(self).dir_1 == Level::High,
            final(self).dir_2 == Level::Low,
            final(self).config == old(self).config,
            bridge_safe(final(self).dir_1, final(self).dir_2),
    {
        self.dir_1 = Level::High;
        self.dir_2 = Level::Low;
    }

    /// Drives in reverse: first input low, second high.
    pub fn set_reverse_drive(&mut self)
        ensures
            (final(self).dir_1, final(self).dir_2) == direction_levels(false),
            final(self).dir_1 == Level::Low,
            final(self).dir_2 == Level::High,
            final(self).config == old(self).config,
            bridge_safe(final(self).dir_1, final(self).dir_2),
    {
        self.dir_1 = Level::Low;
        self.dir_2 = Level::High;
    }

    /// Points the bridge in the direction of the drive: forward when the drive
    /// is positive, reverse when it is zero or negative.
    pub fn update_drive_direction(&mut self, drive_positive: bool)
        ensures
            (final(self).dir_1, final(self).dir_2) == direction_levels(drive_positive),
            final(self).dir_1 == (if drive_positive { Level::High } else { Level::Low }),
            final(self).dir_2 == (if drive_positive { Level::Low } else { Level::High }),
            final(self).config == old(self).config,
            bridge_safe(final(self).dir_1, final(self).dir_2),
    {
        if drive_positive {
            self.set_forward_drive();
        } else {
            self.set_reverse_drive();
        }
    }

    /// Applies a drive: the bridge points in its direction and channel A's
    /// compare value becomes `duty`, the drive's magnitude scaled to the 16-bit
    /// range. The firmware then writes the configuration to the PWM slice.
    pub fn set_motor_speed_according_to_drive(&mut self, drive_positive: bool, duty: u16)
        ensures
            (final(self).dir_1, final(self).dir_2) == direction_levels(drive_positive),
            final(self).dir_1 == (if drive_positive { Level::High } else { Level::Low }),
            final(self).dir_2 == (if drive_positive { Level::Low } else { Level::High }),
            final(self).config == with_compare_a(old(self).config, duty),
            final(self).config.compare_a == duty,
            final(self).config.invert_a == old(self).config.invert_a,
            final(self).config.invert_b == old(self).config.invert_b,
            final(self).config.phase_correct == old(self).config.phase_correct,
            final(self).config.enable == old(self).config.enable,
            final(self).config.divider_bits == old(self).config.divider_bits,
            final(self).config.compare_b == old(self).config.compare_b,
            final(self).config.top == old(self).config.top,
            bridge_safe(final(self).dir_1, final(self).dir_2),
    {
        self.update_drive_direction(drive_positive);
        self.config.compare_a = duty;
    }
}

} // verus!
