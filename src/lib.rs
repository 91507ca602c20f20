//! Core logic of a small flight controller: radio packet decoding, angle
//! arithmetic, sensor register protocols, arming state machines and the
//! scheduling rules of the control pipeline.

pub mod ahrs;
pub mod black_box;
pub mod bno055;
pub mod collector;
pub mod config;
pub mod control_loop;
pub mod i2c;
pub mod imu;
pub mod mpl3115a2;
pub mod navigation;
pub mod pwm;
pub mod quadcopter;
pub mod sbus;
pub mod tank;
