//! Orchestration and bookkeeping core of a robot-control daemon.

pub mod config;
pub mod daemon;
pub mod error;
pub mod file_logging;
pub mod hal;
pub mod ids;
pub mod platform;
pub mod platforms;
pub mod scalar;
pub mod services;
pub mod state;
pub mod telemetry;
pub mod telemetry_types;
pub mod text;
pub mod wire;
