//! Verified core of a driver layer for the RA4M2 microcontroller.
//!
//! The crate holds the decisions that the drivers make, stated over plain
//! values: which register word configures a pin, which step a two-wire bus
//! transaction takes next, and what time a count of counter wraps stands for.
//! Touching the registers themselves is left to the caller.

pub mod gpio;
pub mod gpio4;
pub mod i2c;
pub mod icu;
pub mod pfsel;
pub mod power;
pub mod sealed;
pub mod sysc;
pub mod time_driver;
