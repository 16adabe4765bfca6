//! Autonomous ground-vehicle navigation: a per-tick decision engine that fuses
//! position, heading and obstacle-range data into motor commands, sequenced
//! over an ordered list of waypoints, with a single-slot shared snapshot that
//! publishes the latest navigation state to slow observers.
//!
//! Geographic coordinates are carried as integer microdegrees and angles as
//! integer microdegrees of arc, so that the control rules are exact.

use vstd::prelude::*;

pub mod avc;
pub mod compass;
pub mod geo;
pub mod gps;
pub mod interfaces;
pub mod lidar;
pub mod motors;
pub mod octasonic;
pub mod qik;
pub mod shared;
pub mod state;
pub mod switch;
pub mod video;

verus! {

/// Device paths for the peripherals, fixed at start-up.
#[derive(Debug, Clone, Copy)]
pub struct Config {
    pub gps_device: &'static str,
    pub imu_device: &'static str,
    pub qik_device: &'static str,
}

} // verus!
