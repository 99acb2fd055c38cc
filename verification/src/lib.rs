//! Drive, thruster and link control logic of the Blucher boat.
//!
//! The hardware (GPIO pins, PWM slices, the radio and the clock) is driven by
//! the firmware around this library; the library holds what the firmware
//! commands and decides what it does next.

pub mod drive;
pub mod motor_drive;
pub mod thruster;
pub mod ship_thruster;
pub mod thruster_task;
pub mod locomotion;
pub mod link;
