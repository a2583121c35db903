//! State-of-charge estimation and thermal control for a battery pack.
//!
//! Every physical quantity is a fixed-point integer:
//! voltage in millivolts, current in milliamperes (negative while
//! discharging), time in milliseconds, capacity in milliampere-hours,
//! temperature in thousandths of a degree Celsius, and state of charge in
//! millionths of a percent (so a full pack holds `FULL_SOC`).

pub mod fixed;
pub mod soc_calculator;
pub mod estimation;
pub mod thermal;
