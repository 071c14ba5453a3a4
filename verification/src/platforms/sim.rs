//! The simulated deployment target.

pub mod imu;
