//! Conversations with the servo bus.

pub mod feetech;
