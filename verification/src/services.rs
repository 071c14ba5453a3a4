//! Request adapters, the operation ledger and the frame recorder.

pub mod actuator;
pub mod imu;
pub mod inference;
pub mod kclip_logger;
pub mod krec_logger;
pub mod led_matrix;
pub mod operations;
pub mod policy;
pub mod process_manager;
pub mod sound;
pub mod speech;
