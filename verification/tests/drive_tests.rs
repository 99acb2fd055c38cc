use blucher::drive::{Level, PwmConfig, DRIVE_PWM_TOP, FIXED_MOTOR_COMPARE, make_drive_config};
use blucher::motor_drive::MotorDrive;
use blucher::ship_thruster;
use blucher::thruster::Thruster;

fn hal_default() -> PwmConfig {
    PwmConfig {
        invert_a: false,
        invert_b: false,
        phase_correct: false,
        enable: true,
        divider_bits: 0x10,
        compare_a: 0,
        compare_b: 0,
        top: 0xffff,
    }
}

fn bridge_safe(dir_1: Level, dir_2: Level) -> bool {
    !(dir_1 == Level::High && dir_2 == Level::High)
}

#[test]
fn drive_config_sets_top_only() {
    let base = hal_default();
    let config = make_drive_config(base);
    assert_eq!(config.top, 0x8000);
    assert_eq!(config.top, DRIVE_PWM_TOP);
    assert_eq!(config, PwmConfig { top: 0x8000, ..base });
}

#[test]
fn motor_drive_new_is_stopped() {
    let drive = MotorDrive::new(hal_default());
    assert_eq!(drive.dir_1, Level::Low);
    assert_eq!(drive.dir_2, Level::Low);
    assert_eq!(drive.target_speed, 0);
    assert_eq!(drive.config.top, 0x8000);
    assert_eq!(drive.config.compare_a, 0);
    assert_eq!(drive.config.divider_bits, 0x10);
    assert!(drive.config.enable);
}

#[test]
fn motor_drive_directions() {
    let mut drive = MotorDrive::new(hal_default());
    drive.set_forward_drive();
    assert_eq!((drive.dir_1, drive.dir_2), (Level::High, Level::Low));
    drive.set_reverse_drive();
    assert_eq!((drive.dir_1, drive.dir_2), (Level::Low, Level::High));
    drive.set_forward_drive();
    drive.set_forward_drive();
    assert_eq!((drive.dir_1, drive.dir_2), (Level::High, Level::Low));
}

#[test]
fn motor_drive_bridge_never_shorted() {
    let mut drive = MotorDrive::new(hal_default());
    assert!(bridge_safe(drive.dir_1, drive.dir_2));
    for step in 0..12u8 {
        match step % 4 {
            0 => drive.set_forward_drive(),
            1 => drive.set_target_speed(step),
            2 => drive.set_reverse_drive(),
            _ => drive.stop(),
        }
        assert!(bridge_safe(drive.dir_1, drive.dir_2));
    }
}

#[test]
fn motor_drive_speed_and_stop() {
    let mut drive = MotorDrive::new(hal_default());
    drive.set_reverse_drive();
    drive.set_target_speed(200);
    assert_eq!(drive.target_speed, 200);
    assert_eq!((drive.dir_1, drive.dir_2), (Level::Low, Level::High));
    drive.stop();
    assert_eq!(drive.target_speed, 0);
    assert_eq!((drive.dir_1, drive.dir_2), (Level::Low, Level::High));
    drive.set_target_speed(255);
    assert_eq!(drive.target_speed, 255);
}

#[test]
fn motor_drive_fixed_speed_compare() {
    let mut drive = MotorDrive::new(hal_default());
    drive.set_motor_speed();
    assert_eq!(drive.config.compare_a, 10000);
    assert_eq!(drive.config.compare_a, FIXED_MOTOR_COMPARE);
    assert_eq!(drive.config.top, 0x8000);
    assert_eq!(drive.config.compare_b, 0);
}

#[test]
fn core_thruster_pins_and_compare() {
    let mut thruster = Thruster::new(hal_default());
    assert_eq!((thruster.dir_1, thruster.dir_2), (Level::Low, Level::Low));
    thruster.set_forward_drive();
    assert_eq!((thruster.dir_1, thruster.dir_2), (Level::High, Level::Low));
    thruster.set_reverse_drive();
    assert_eq!((thruster.dir_1, thruster.dir_2), (Level::Low, Level::High));
    thruster.set_motor_speed();
    assert_eq!(thruster.config.compare_a, 10000);
    assert_eq!((thruster.dir_1, thruster.dir_2), (Level::Low, Level::High));
}

#[test]
fn ship_thruster_follows_drive_sign() {
    let mut thruster = ship_thruster::Thruster::new(hal_default());
    assert_eq!((thruster.dir_1, thruster.dir_2), (Level::Low, Level::Low));
    thruster.update_drive_direction(true);
    assert_eq!((thruster.dir_1, thruster.dir_2), (Level::High, Level::Low));
    thruster.update_drive_direction(false);
    assert_eq!((thruster.dir_1, thruster.dir_2), (Level::Low, Level::High));
}

#[test]
fn ship_thruster_applies_duty() {
    let mut thruster = ship_thruster::Thruster::new(hal_default());
    thruster.set_motor_speed_according_to_drive(true, 26214);
    assert_eq!((thruster.dir_1, thruster.dir_2), (Level::High, Level::Low));
    assert_eq!(thruster.config.compare_a, 26214);
    assert_eq!(thruster.config.top, 0x8000);
    thruster.set_motor_speed_according_to_drive(false, 65535);
    assert_eq!((thruster.dir_1, thruster.dir_2), (Level::Low, Level::High));
    assert_eq!(thruster.config.compare_a, 65535);
    thruster.set_motor_speed_according_to_drive(false, 0);
    assert_eq!((thruster.dir_1, thruster.dir_2), (Level::Low, Level::High));
    assert_eq!(thruster.config.compare_a, 0);
}

#[test]
fn ship_thruster_tick_micros() {
    assert_eq!(ship_thruster::tick_micros(0), 0);
    assert_eq!(ship_thruster::tick_micros(50_000), 50_000);
    assert_eq!(ship_thruster::tick_micros(u32::MAX as u64), u32::MAX);
}
