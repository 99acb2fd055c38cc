use blucher::locomotion::{LocomotionPattern, ThrustSetting, LOCOMOTION_STEP_MILLIS, PATTERN_LEN};

#[test]
fn pattern_round() {
    let mut pattern = LocomotionPattern::new();
    assert_eq!(pattern.phase(), 0);
    assert_eq!(pattern.next_setting(), ThrustSetting::Ahead);
    assert_eq!(pattern.next_setting(), ThrustSetting::Stop);
    assert_eq!(pattern.next_setting(), ThrustSetting::Astern);
    assert_eq!(pattern.next_setting(), ThrustSetting::Stop);
    assert_eq!(pattern.phase(), 0);
    assert_eq!(LOCOMOTION_STEP_MILLIS, 2000);
}

#[test]
fn pattern_repeats_every_four() {
    let mut pattern = LocomotionPattern::new();
    let mut seen = Vec::new();
    for _ in 0..12 {
        seen.push(pattern.next_setting());
        assert!(pattern.phase() < PATTERN_LEN);
    }
    for i in 0..8 {
        assert_eq!(seen[i], seen[i + 4]);
    }
    for i in 0..11 {
        if seen[i] != ThrustSetting::Stop {
            assert_eq!(seen[i + 1], ThrustSetting::Stop);
        }
    }
}
