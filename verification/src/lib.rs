//! Brightness control for a three-channel (red, green, blue) LED that is
//! dimmed by software pulse-width modulation.
//!
//! A knob reading is quantized into one of [`LEVELS`] brightness steps
//! ([`knob`]), the input controller turns button state and knob readings
//! into writes of the shared brightness vector and refresh rate ([`ui`]), and
//! the PWM engine turns a brightness vector into the sequence of pin and timer
//! actions of one refresh cycle ([`rgb`]).
//!
//! The crate holds decisions only. Sampling the converter, driving pins,
//! sleeping and locking the shared cells are left to the caller, which hands
//! plain values in and carries the returned actions out.

use vstd::prelude::*;

pub mod knob;
pub mod rgb;
pub mod ui;

verus! {

/// Number of brightness steps of one channel; a level lies in `0..LEVELS`.
pub const LEVELS: u32 = 16;

/// Number of output channels.
pub const CHANNELS: usize = 3;

/// Index of the red channel in a brightness vector.
pub const RED: usize = 0;

/// Index of the green channel in a brightness vector.
pub const GREEN: usize = 1;

/// Index of the blue channel in a brightness vector.
pub const BLUE: usize = 2;

/// Largest raw sample that the converter delivers; larger readings saturate.
pub const MAX_RAW: i32 = 0x7fff;

/// Raw counts per unit of the normalized knob reading.
pub const RAW_SCALE: i32 = 10_000;

/// Refresh rate, in cycles per second, before the knob has been read.
pub const DEFAULT_FRAME_RATE: u64 = 50;

/// Pause between two polls of the buttons, in milliseconds.
pub const POLL_INTERVAL_MS: u64 = 50;

/// Microseconds in one second.
pub const MICROS_PER_SECOND: u64 = 1_000_000;

} // verus!
