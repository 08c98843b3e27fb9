//! Control bridge between a streaming range sensor and a haptic actuator.
//!
//! Every intensity in this crate is a fixed-point number counted in
//! millionths of full scale, so that the whole signal path is exact
//! integer arithmetic.

pub mod ble;
pub mod config;
pub mod mapper;
pub mod mapper_laws;
pub mod session;
pub mod session_laws;
pub mod toy;
pub mod units;
