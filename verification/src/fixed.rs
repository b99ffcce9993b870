//! The scale of measured quantities.
//!
//! Every gravity, temperature, pressure, richness, coordinate and zoom factor
//! is a whole number of millionths, held in an `i64`: `UNIT` stands for one.

use vstd::prelude::*;

verus! {

/// The number that stands for one.
pub const UNIT: i64 = 1_000_000;

} // verus!
