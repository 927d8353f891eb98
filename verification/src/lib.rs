//! Per-zone RGB keyboard backlight control for laptops whose firmware exposes
//! a vendor command interface through the platform's management
//! instrumentation.
//!
//! The crate covers the command-buffer protocol: building the outbound
//! request in the byte layout the firmware expects, validating and decoding
//! the response, and mapping zone colors into and out of fixed offsets in the
//! payload blob. Dispatching a request over an actual management session is
//! platform I/O and is left to the embedding application.

pub mod color;
pub mod command;
pub mod error;
pub mod light_control;
pub mod numeric;
pub mod session;
