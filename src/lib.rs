//! Device controller for a battery-powered sensing and indicator node.
//!
//! The library holds the decisions of the node: how the backlight level is
//! encoded onto its control lines and decoded back, how a button interrupt is
//! handed to the deferred worker, what the charge probe means, and how a sensor
//! reading is decoded and forwarded. The hardware itself is driven by the
//! caller, which performs the line writes these functions return and hands back
//! what the lines and the platform reported.
use vstd::prelude::*;

pub mod backlight;
pub mod battery;
pub mod button;
pub mod hal;
pub mod listen_sensor;

verus! {

} // verus!
