//! How a star and a deposit are marked: by the concentration of a deposit,
//! which is its richness as a share of the richest deposit of its kind.

use vstd::prelude::*;

verus! {

/// A band of concentration.
#[derive(PartialEq, Eq, Structural, Clone, Copy, Debug)]
pub enum Band {
    /// Two thirds of the richest, or more.
    High,
    /// One third of the richest, or more.
    Medium,
    Low,
}

/// How a star is marked on the map.
#[derive(PartialEq, Eq, Structural, Clone, Copy, Debug)]
pub enum Marker {
    /// Nothing was found at the star.
    Pinpoint,
    /// The star hosts a fitting planet, and no resource is sought.
    Fitting,
    /// The resource sought was found at the star, in this concentration.
    Rated(Band),
}

/// Whether the share of `factor` in `max_factor` is at least so many
/// hundredths. A share in nothing is beyond every bound if it is a share of
/// something, and below every bound if not.
pub open spec fn reaches(factor: i64, max_factor: i64, hundredths: int) -> bool {
    if max_factor > 0 {
        factor * 100 >= hundredths * max_factor
    } else if max_factor == 0 {
        factor > 0
    } else {
        factor * 100 <= hundredths * max_factor
    }
}

/// The band of a concentration: high from 0.66, medium from 0.33.
pub open spec fn band_of(factor: i64, max_factor: i64) -> Band {
    if reaches(factor, max_factor, 66) {
        Band::High
    } else if reaches(factor, max_factor, 33) {
        Band::Medium
    } else {
        Band::Low
    }
}

/// The marker of a star, given what the last pass found at it, the richest
/// deposit of the resource sought if one is sought, and whether the
/// environment is filtered.
pub open spec fn marker_of(res_factor: i64, sought_max: Option<i64>, env_filter: bool) -> Marker {
    if res_factor > 0 {
        match sought_max {
            Some(max) => Marker::Rated(band_of(res_factor, max)),
            None => if env_filter {
                Marker::Fitting
            } else {
                Marker::Pinpoint
            },
        }
    } else {
        Marker::Pinpoint
    }
}

/// Whether a share is at least so many hundredths.
fn share_reaches(factor: i64, max_factor: i64, hundredths: i64) -> (r: bool)
    requires
        0 <= hundredths <= 100,
    ensures
        r == reaches(factor, max_factor, hundredths as int),
{
    let part = factor as i128 * 100;
    assert(-0x1_0000_0000_0000_0000_0000 < hundredths * max_factor < 0x1_0000_0000_0000_0000_0000)
        by (nonlinear_arith)
        requires
            0 <= hundredths <= 100,
            -0x8000_0000_0000_0000 <= max_factor < 0x8000_0000_0000_0000,
    ;
    let bound = hundredths as i128 * max_factor as i128;
    if max_factor > 0 {
        part >= bound
    } else if max_factor == 0 {
        factor > 0
    } else {
        part <= bound
    }
}

/// The band of the concentration of a deposit.
pub fn concentration_band(factor: i64, max_factor: i64) -> (band: Band)
    ensures
        band == band_of(factor, max_factor),
{
    if share_reaches(factor, max_factor, 66) {
        Band::High
    } else if share_reaches(factor, max_factor, 33) {
        Band::Medium
    } else {
        Band::Low
    }
}

/// The marker of a star.
pub fn star_marker(res_factor: i64, sought_max: Option<i64>, env_filter: bool) -> (marker: Marker)
    ensures
        marker == marker_of(res_factor, sought_max, env_filter),
{
    if res_factor > 0 {
        match sought_max {
            Some(max) => Marker::Rated(concentration_band(res_factor, max)),
            None => if env_filter {
                Marker::Fitting
            } else {
                Marker::Pinpoint
            },
        }
    } else {
        Marker::Pinpoint
    }
}

} // verus!
