//! A resident resource monitor's decision core.
//!
//! Each cycle a driver hands the library one snapshot of host memory and CPU
//! figures. The library classifies it against warn and error thresholds,
//! advances a persistent hysteresis status and returns the severity-tagged
//! reports that the driver then delivers.
pub mod engine;
pub mod laws;
pub mod message;
pub mod status;
