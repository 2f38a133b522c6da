//! Core of a solar telemetry display device: a seven-segment RGB digit
//! engine, the command-driven control loop that sequences it, and the
//! decision logic of the gateway telemetry client.
//!
//! All hardware and network I/O lives outside this crate; the library
//! computes frames, decisions and readings from plain values.

pub mod control;
pub mod error;
pub mod rgbdigit;
pub mod rgbdigit_display;
pub mod solar_status;
pub mod tesla_powerwall;
