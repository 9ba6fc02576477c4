//! Verified core of a wall-mounted time clock: a push-button that toggles
//! "clocked in / clocked out", an eight-pixel LED strip that shows status and
//! an energy meter, and a network client that reports each toggle.
//!
//! Every decision the device takes is a function of this crate with a
//! contract; waiting for pins, timers and sockets is left to the caller.

pub mod bounded;
pub mod channel;
pub mod color;
pub mod config;
pub mod tasks;
pub mod ws2812;
