//! Flight-control core of a small quadcopter: pilot command decoding,
//! attitude estimation, the control law with its motor mixer, the operating
//! mode state machine, and the shared snapshot between the acquisition and
//! control tasks.
//!
//! All quantities are fixed-point integers: stick values and motor speeds in
//! per-mille of full scale, angles in millidegrees, angular rates in
//! millidegrees per second, accelerations in milli-g, and time in timer
//! ticks of one microsecond.
pub mod arith;
pub mod calibration;
pub mod controller;
pub mod estimator;
pub mod flight;
pub mod imu;
pub mod mixer;
pub mod peak;
pub mod radio;
pub mod shared;
pub mod vector3;
