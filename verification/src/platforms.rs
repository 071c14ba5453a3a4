//! The deployment targets and their backends.

pub mod kbot;
pub mod sim;
pub mod stub;
pub mod zeroth_01;
