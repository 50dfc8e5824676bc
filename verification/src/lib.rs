//! Streaming estimator for the frequency and peak-to-peak amplitude of an AC
//! signal, fed one timestamped voltage sample at a time.
//!
//! All quantities are carried as plain integers so that every transition of
//! the estimator can be stated and proved exactly:
//! - timestamps are microseconds on a monotonic clock, as `u64`;
//! - voltages are microvolts, as `i64` inside [`Volt`];
//! - frequencies are millihertz, as `u64` inside [`Hertz`].

use vstd::prelude::*;

pub mod ac_driver;
pub mod freq_driver;
pub mod mcp3008;

verus! {

/// A voltage, in microvolts.
#[derive(Clone, Copy, PartialEq, Eq, Structural, Debug)]
pub struct Volt(pub i64);

/// A frequency, in millihertz.
#[derive(Clone, Copy, PartialEq, Eq, Structural, Debug)]
pub struct Hertz(pub u64);

} // verus!
