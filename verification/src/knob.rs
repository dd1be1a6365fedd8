//! The quantizer: from a raw knob sample to a brightness level.
//!
//! The sample is clamped into `0..=MAX_RAW`, divided by [`RAW_SCALE`] to a
//! fraction, sent through `(LEVELS + 2) * fraction - 2`, clamped into
//! `0..=LEVELS - 1` and rounded down. The offset of two steps makes both ends
//! of the knob's travel saturate well before the electrical extremes. All of
//! it is carried out exactly, on integers: the fraction is never formed, the
//! transform is kept as a numerator over [`RAW_SCALE`].

use vstd::prelude::*;
use crate::{LEVELS, MAX_RAW, RAW_SCALE};

verus! {

/// A raw sample clamped into `0..=MAX_RAW`.
pub open spec fn clamp_raw(raw: int) -> int {
    if raw < 0 {
        0
    } else if raw > MAX_RAW {
        MAX_RAW as int
    } else {
        raw
    }
}

/// `RAW_SCALE` times the affine transform of the clamped sample:
/// `(LEVELS + 2) * clamp_raw(raw) - 2 * RAW_SCALE`.
pub open spec fn scaled_level(raw: int) -> int {
    (LEVELS + 2) * clamp_raw(raw) - 2 * RAW_SCALE
}

/// The brightness level that a raw sample stands for: the transform clamped
/// into `0..=LEVELS - 1`, then rounded down.
pub open spec fn quantized(raw: int) -> int {
    let scaled = scaled_level(raw);
    if scaled <= 0 {
        0
    } else if scaled >= (LEVELS - 1) * RAW_SCALE {
        LEVELS - 1
    } else {
        scaled / (RAW_SCALE as int)
    }
}

/// Quantizes one raw sample. Readings below zero or above [`MAX_RAW`] are
/// clamped, never refused.
pub fn quantize(raw: i32) -> (level: u32)
    ensures
        level == quantized(raw as int),
        level < LEVELS,
{
    let clamped: i32 = if raw < 0 {
        0
    } else if raw > MAX_RAW {
        MAX_RAW
    } else {
        raw
    };
    let scaled: i32 = (LEVELS as i32 + 2) * clamped - 2 * RAW_SCALE;
    if scaled <= 0 {
        0
    } else if scaled >= (LEVELS as i32 - 1) * RAW_SCALE {
        LEVELS - 1
    } else {
        (scaled / RAW_SCALE) as u32
    }
}

/// Every sample quantizes to a level in `0..LEVELS`.
pub proof fn lemma_quantized_in_range(raw: int)
    ensures
        0 <= quantized(raw) < LEVELS,
{
}

/// The quantizer is monotonic: a larger sample never gives a smaller level.
pub proof fn lemma_quantized_monotonic(r1: int, r2: int)
    requires
        r1 <= r2,
    ensures
        quantized(r1) <= quantized(r2),
{
}

/// Both ends saturate: a sample of zero (or below) gives level zero, a sample
/// of `MAX_RAW` (or above) gives the top level.
pub proof fn lemma_quantized_saturates(raw: int)
    ensures
        raw <= 0 ==> quantized(raw) == 0,
        raw >= MAX_RAW ==> quantized(raw) == LEVELS - 1,
        quantized(0) == 0,
        quantized(MAX_RAW as int) == LEVELS - 1,
{
}

} // verus!
