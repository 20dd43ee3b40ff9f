//! Magnetometer acquisition modes, as type-level markers of the device handle.

use vstd::prelude::*;

verus! {

/// Marker type for magnetometer in one-shot (single) mode.
#[derive(Debug)]
pub struct MagOneShot;

/// Marker type for magnetometer in continuous mode.
#[derive(Debug)]
pub struct MagContinuous;

} // verus!
