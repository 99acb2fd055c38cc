//! The manoeuvre that the locomotion system runs: ahead, stop, astern, stop,
//! each held for two seconds, over and over.

use vstd::prelude::*;

verus! {

/// Time the locomotion system waits before each new setting, in milliseconds.
pub const LOCOMOTION_STEP_MILLIS: u64 = 2000;

/// Number of settings in one round of the manoeuvre.
pub const PATTERN_LEN: u8 = 4;

/// Thrust setting signalled to the thruster task. The firmware turns it into a
/// drive target: ahead is 0.4, stop is 0.0, astern is -0.4.
#[derive(Clone, Copy, Debug, PartialEq, Eq, Structural)]
pub enum ThrustSetting {
    Ahead,
    Stop,
    Astern,
}

/// The setting at a position of the round: ahead, stop, astern, stop.
pub open spec fn setting_at(phase: int) -> ThrustSetting {
    let p = phase % (PATTERN_LEN as int);
    if p == 0 {
        ThrustSetting::Ahead
    } else if p == 2 {
        ThrustSetting::Astern
    } else {
        ThrustSetting::Stop
    }
}

/// Position in the round of the setting that comes next.
pub struct LocomotionPattern {
    phase: u8,
}

impl LocomotionPattern {
    #[verifier::type_invariant]
    spec fn inv(self) -> bool {
        self.phase < PATTERN_LEN
    }

    /// Position of the next setting in the round, below `PATTERN_LEN`.
    pub closed spec fn position(self) -> int {
        self.phase as int
    }

    /// A pattern at the start of its round.
    pub fn new() -> (pattern: LocomotionPattern)
        ensures
            pattern.position() == 0,
    {
        LocomotionPattern { phase: 0 }
    }

    /// Position of the next setting.
    pub fn phase(&self) -> (phase: u8)
        ensures
            phase == self.position(),
            phase < PATTERN_LEN,
    {
        proof {
            use_type_invariant(self);
        }
        self.phase
    }

    /// The next setting of the round; the pattern moves on by one, wrapping
    /// after the fourth.
    pub fn next_setting(&mut self) -> (setting: ThrustSetting)
        ensures
            setting == setting_at(old(self).position()),
            old(self).position() == 0 ==> setting == ThrustSetting::Ahead,
            old(self).position() == 2 ==> setting == ThrustSetting::Astern,
            (old(self).position() == 1 || old(self).position() == 3) ==> setting == ThrustSetting::Stop,
            final(self).position() == (if old(self).position() == 3 { 0 } else { old(self).position() + 1 }),
            final(self).position() == (old(self).position() + 1) % (PATTERN_LEN as int),
            0 <= final(self).position() < PATTERN_LEN,
    {
        proof {
            use_type_invariant(&*self);
        }
        let setting = if self.phase == 0 {
            ThrustSetting::Ahead
        } else if self.phase == 2 {
            ThrustSetting::Astern
        } else {
            ThrustSetting::Stop
        };
        self.phase = if self.phase + 1 == PATTERN_LEN { 0 } else { self.phase + 1 };
        setting
    }
}

/// One round of the manoeuvre is ahead, stop, astern, stop.
pub proof fn lemma_pattern_round()
    ensures
        setting_at(0) == ThrustSetting::Ahead,
        setting_at(1) == ThrustSetting::Stop,
        setting_at(2) == ThrustSetting::Astern,
        setting_at(3) == ThrustSetting::Stop,
{
}

/// The manoeuvre repeats every four settings.
pub proof fn lemma_pattern_period(phase: int)
    requires
        phase >= 0,
    ensures
        setting_at(phase + PATTERN_LEN as int) == setting_at(phase),
{
    assert((phase + 4) % 4 == phase % 4);
}

/// Every ahead and every astern setting is followed by a stop, and the two
/// directions alternate: ahead is followed two settings later by astern and
/// astern by ahead.
pub proof fn lemma_pattern_stops_between_directions(phase: int)
    requires
        phase >= 0,
    ensures
        setting_at(phase) != ThrustSetting::Stop ==> setting_at(phase + 1) == ThrustSetting::Stop,
        setting_at(phase) == ThrustSetting::Ahead ==> setting_at(phase + 2) == ThrustSetting::Astern,
        setting_at(phase) == ThrustSetting::Astern ==> setting_at(phase + 2) == ThrustSetting::Ahead,
{
    let p = phase % 4;
    assert((phase + 1) % 4 == (p + 1) % 4);
    assert((phase + 2) % 4 == (p + 2) % 4);
}

} // verus!
