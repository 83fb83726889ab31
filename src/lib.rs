//! Control plane of a motorised treat dispenser: the shared device state and its
//! dispense, cancellation, cooldown and calibration transitions; the power monitor's
//! overcurrent interlock; the load cell's trimmed-mean calibration and weight conversion;
//! and the motors' step planning. Waiting, hardware access and transport live outside.

pub mod cancellation;
pub mod error;
pub mod rounding;
pub mod weight_monitor;
pub mod sensors;
pub mod power_monitor;
pub mod motor;
pub mod config;
pub mod application_state;
pub mod utils;
pub mod auth;
