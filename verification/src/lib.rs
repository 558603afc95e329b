//! Thrust-test bench core: synchronized load-cell acquisition over an HX711
//! family of 24-bit delta-sigma ADC front-ends, zero-calibration statistics,
//! the ESC telemetry frame codec, and the throttle-ramp control state machine.
//!
//! Physical quantities are carried as exact integers: a load-cell reading is
//! the signed numerator of a fraction over 2^23, telemetry fields keep the
//! wire's own integer units (centivolts, centiamps, electrical rpm). The
//! conversions to floating point for display and persistence live outside
//! the verified core.

pub mod reading;
pub mod acquisition;
pub mod calibration;
pub mod control;
pub mod hx711;
pub mod telemetry;
