//! The map on which the stars are drawn: its size, where its origin lies,
//! how far it is zoomed, and how a point of the screen is carried to it.
//!
//! A point is drawn by adding the offset to it and multiplying by the zoom
//! factor; a pointer is carried back by dividing by the zoom factor and
//! taking the offset away. Both must be done with the same zoom factor and
//! offset, or what is picked is not what is seen under the pointer.

use crate::fixed::UNIT;
use vstd::arithmetic::div_mod::{
    lemma_div_is_ordered, lemma_div_multiples_vanish, lemma_fundamental_div_mod,
    lemma_fundamental_div_mod_converse, lemma_mod_bound,
};
use vstd::prelude::*;

verus! {

/// The size of the map and the offset of its origin.
#[derive(PartialEq, Eq, Structural, Clone, Copy, Debug)]
pub struct MapFrame {
    pub width: i64,
    pub height: i64,
    pub offset_x: i64,
    pub offset_y: i64,
    pub show_cx: bool,
    pub show_path: bool,
}

/// The coordinate of the map that a coordinate of the pointer falls on:
/// the pointer's distance from the origin of the canvas, divided by the zoom
/// factor and rounded down, less the offset. It has a meaning only for a
/// zoom factor above zero.
pub open spec fn world_of(pointer: int, origin: int, scale: int, offset: int) -> int {
    ((pointer - origin) * UNIT) / scale - offset
}

/// The coordinate of the screen at which a coordinate of the map is drawn:
/// the coordinate with the offset added, multiplied by the zoom factor and
/// rounded down, counted from the origin of the canvas.
pub open spec fn screen_of(world: int, origin: int, scale: int, offset: int) -> int {
    ((world + offset) * scale) / (UNIT as int) + origin
}

/// A number as a coordinate, if it is in the range of coordinates.
pub open spec fn coordinate(v: int) -> Option<i64> {
    if i64::MIN <= v <= i64::MAX {
        Some(v as i64)
    } else {
        None
    }
}

/// The coordinate of the map that a coordinate of the pointer falls on, if
/// the zoom factor is above zero and the coordinate is in range.
pub open spec fn world_coordinate_of(pointer: i64, origin: i64, scale: i64, offset: i64) -> Option<
    i64,
> {
    if scale > 0 {
        coordinate(world_of(pointer as int, origin as int, scale as int, offset as int))
    } else {
        None
    }
}

/// The coordinate of the screen at which a coordinate of the map is drawn,
/// if the zoom factor is above zero and the coordinate is in range.
pub open spec fn screen_coordinate_of(world: i64, origin: i64, scale: i64, offset: i64) -> Option<
    i64,
> {
    if scale > 0 {
        coordinate(screen_of(world as int, origin as int, scale as int, offset as int))
    } else {
        None
    }
}

/// A pointer that is carried to the map and drawn again comes to lie where
/// it was, or short of it by no more than the whole part of the zoom factor
/// and one millionth.
pub proof fn lemma_pointer_comes_back(pointer: int, origin: int, scale: int, offset: int)
    requires
        scale > 0,
    ensures
        pointer - scale / (UNIT as int) - 1 <= screen_of(
            world_of(pointer, origin, scale, offset),
            origin,
            scale,
            offset,
        ) <= pointer,
{
    let unit = UNIT as int;
    let d = pointer - origin;
    let n = d * unit;
    let e = n / scale;
    let k = scale / unit;
    lemma_fundamental_div_mod(n, scale);
    lemma_mod_bound(n, scale);
    lemma_fundamental_div_mod(scale, unit);
    lemma_mod_bound(scale, unit);
    assert(e * scale <= n) by (nonlinear_arith)
        requires
            n == scale * e + n % scale,
            0 <= n % scale,
    ;
    assert(e * scale >= (d - k - 1) * unit) by (nonlinear_arith)
        requires
            n == scale * e + n % scale,
            n % scale < scale,
            scale == unit * k + scale % unit,
            scale % unit < unit,
            n == d * unit,
    ;
    lemma_div_is_ordered(e * scale, n, unit);
    lemma_div_is_ordered((d - k - 1) * unit, e * scale, unit);
    lemma_div_multiples_vanish(d, unit);
    lemma_div_multiples_vanish(d - k - 1, unit);
    assert(n == unit * d) by (nonlinear_arith)
        requires
            n == d * unit,
    ;
    assert((d - k - 1) * unit == unit * (d - k - 1)) by (nonlinear_arith);
}

/// A point of the map that is drawn and carried back from where it was
/// drawn comes to lie where it was, or short of it by no more than the whole
/// part of one over the zoom factor and one millionth.
pub proof fn lemma_point_comes_back(world: int, origin: int, scale: int, offset: int)
    requires
        scale > 0,
    ensures
        world - (UNIT as int) / scale - 1 <= world_of(
            screen_of(world, origin, scale, offset),
            origin,
            scale,
            offset,
        ) <= world,
{
    let unit = UNIT as int;
    let a = world + offset;
    let m = a * scale;
    let b = m / unit;
    let k = unit / scale;
    lemma_fundamental_div_mod(m, unit);
    lemma_mod_bound(m, unit);
    lemma_fundamental_div_mod(unit, scale);
    lemma_mod_bound(unit, scale);
    assert(b * unit <= m) by (nonlinear_arith)
        requires
            m == unit * b + m % unit,
            0 <= m % unit,
    ;
    assert(b * unit >= (a - k - 1) * scale) by (nonlinear_arith)
        requires
            m == unit * b + m % unit,
            m % unit < unit,
            unit == scale * k + unit % scale,
            unit % scale < scale,
            m == a * scale,
    ;
    lemma_div_is_ordered(b * unit, m, scale);
    lemma_div_is_ordered((a - k - 1) * scale, b * unit, scale);
    lemma_div_multiples_vanish(a, scale);
    lemma_div_multiples_vanish(a - k - 1, scale);
    assert(m == scale * a) by (nonlinear_arith)
        requires
            m == a * scale,
    ;
    assert((a - k - 1) * scale == scale * (a - k - 1)) by (nonlinear_arith);
}

/// The greatest size of a number that `floor_div` takes: what the product of
/// a sum of two coordinates and a third is at most.
const WIDEST: i128 = 0x7FFF_FFFF_FFFF_FFFF_0000_0000_0000_0000;

/// The whole part of a quotient, rounded down.
fn floor_div(n: i128, d: i64) -> (q: i128)
    requires
        d > 0,
        -WIDEST <= n <= WIDEST,
    ensures
        q == (n as int) / (d as int),
        -WIDEST <= q <= WIDEST,
{
    let wide = d as i128;
    if n >= 0 {
        let q = n / wide;
        proof {
            lemma_fundamental_div_mod(n as int, d as int);
            lemma_mod_bound(n as int, d as int);
            assert(q * d <= n) by (nonlinear_arith)
                requires
                    n == d * q + (n as int % d as int),
                    0 <= n as int % d as int,
            ;
            assert(q <= n) by (nonlinear_arith)
                requires
                    q * d <= n,
                    d >= 1,
                    q >= 0,
            ;
        }
        q
    } else {
        let m = -n + (wide - 1);
        let up = m / wide;
        proof {
            let r = m as int % d as int;
            lemma_fundamental_div_mod(m as int, d as int);
            lemma_mod_bound(m as int, d as int);
            assert(n as int == (-up) * d + (d - 1 - r)) by (nonlinear_arith)
                requires
                    m == d * up + r,
                    m == -n + (d - 1),
            ;
            lemma_fundamental_div_mod_converse(n as int, d as int, -up as int, d - 1 - r);
            assert(up * d <= -n + d - 1) by (nonlinear_arith)
                requires
                    m == d * up + r,
                    m == -n + (d - 1),
                    0 <= r,
            ;
            assert(up <= -n) by (nonlinear_arith)
                requires
                    up * d <= -n + d - 1,
                    d >= 1,
                    up >= 0,
                    n < 0,
            ;
        }
        -up
    }
}

/// A number as a coordinate, if it is in the range of coordinates.
fn to_coordinate(v: i128) -> (c: Option<i64>)
    ensures
        c == coordinate(v as int),
{
    if v < i64::MIN as i128 || v > i64::MAX as i128 {
        None
    } else {
        Some(v as i64)
    }
}

/// Carries one coordinate of the pointer to the map. None where the zoom
/// factor is not above zero, or where the result is out of the range of
/// coordinates.
pub fn world_coordinate(pointer: i64, origin: i64, scale: i64, offset: i64) -> (w: Option<i64>)
    ensures
        w == world_coordinate_of(pointer, origin, scale, offset),
{
    if scale <= 0 {
        return None;
    }
    let shift = pointer as i128 - origin as i128;
    assert(-0x1_0000_0000_0000_0000_0000_0000 < shift * UNIT < 0x1_0000_0000_0000_0000_0000_0000)
        by (nonlinear_arith)
        requires
            -0x1_0000_0000_0000_0000 < shift < 0x1_0000_0000_0000_0000,
            UNIT == 1_000_000,
    ;
    let scaled = shift * (UNIT as i128);
    to_coordinate(floor_div(scaled, scale) - offset as i128)
}

/// Finds where one coordinate of the map is drawn on the screen. None where
/// the zoom factor is not above zero, or where the result is out of the
/// range of coordinates.
pub fn screen_coordinate(world: i64, origin: i64, scale: i64, offset: i64) -> (p: Option<i64>)
    ensures
        p == screen_coordinate_of(world, origin, scale, offset),
{
    if scale <= 0 {
        return None;
    }
    let shifted = world as i128 + offset as i128;
    assert(-0x7FFF_FFFF_FFFF_FFFF_0000_0000_0000_0000 <= shifted * scale
        <= 0x7FFF_FFFF_FFFF_FFFF_0000_0000_0000_0000) by (nonlinear_arith)
        requires
            -0x1_0000_0000_0000_0000 <= shifted <= 0x1_0000_0000_0000_0000,
            0 < scale <= 0x7FFF_FFFF_FFFF_FFFF,
    ;
    let scaled = shifted * (scale as i128);
    to_coordinate(floor_div(scaled, UNIT) + origin as i128)
}

impl MapFrame {
    /// A map of 1700 by 1700, its origin 1400 to the right and 1700 down,
    /// showing the exchanges and no routes.
    pub fn new() -> (m: Self)
        ensures
            m == (MapFrame {
                width: 1_700_000_000,
                height: 1_700_000_000,
                offset_x: 1_400_000_000,
                offset_y: 1_700_000_000,
                show_cx: true,
                show_path: false,
            }),
    {
        MapFrame {
            width: 1_700_000_000,
            height: 1_700_000_000,
            offset_x: 1_400_000_000,
            offset_y: 1_700_000_000,
            show_cx: true,
            show_path: false,
        }
    }

    /// Carries a pointer to the map, given the zoom factor and where the
    /// canvas begins on the screen. None where either coordinate has no
    /// place on the map.
    pub fn to_world(
        &self,
        scale: i64,
        pointer_x: i64,
        pointer_y: i64,
        origin_x: i64,
        origin_y: i64,
    ) -> (at: Option<(i64, i64)>)
        ensures
            at == match (
                world_coordinate_of(pointer_x, origin_x, scale, self.offset_x),
                world_coordinate_of(pointer_y, origin_y, scale, self.offset_y),
            ) {
                (Some(x), Some(y)) => Some((x, y)),
                _ => None,
            },
    {
        match world_coordinate(pointer_x, origin_x, scale, self.offset_x) {
            Some(x) => match world_coordinate(pointer_y, origin_y, scale, self.offset_y) {
                Some(y) => Some((x, y)),
                None => None,
            },
            None => None,
        }
    }
}

/// The zoom factors on offer: each with its name and whether it is the one
/// a session starts with.
pub type ScaleOptions = Vec<(String, (i64, bool))>;

/// What of the map the user can set.
#[derive(PartialEq, Eq, Debug)]
pub struct MapFeatures {
    pub scale_options: ScaleOptions,
    pub selected_scale: i64,
    pub show_cx: bool,
    pub show_routes: bool,
}

/// The features of a map as plain values.
pub struct MapFeaturesView {
    pub scale_options: Seq<(Seq<char>, (i64, bool))>,
    pub selected_scale: i64,
    pub show_cx: bool,
    pub show_routes: bool,
}

/// The plain values of a list of zoom factors.
pub open spec fn scale_options_view(s: Seq<(String, (i64, bool))>) -> Seq<
    (Seq<char>, (i64, bool)),
> {
    s.map_values(|o: (String, (i64, bool))| (o.0@, o.1))
}

impl View for MapFeatures {
    type V = MapFeaturesView;

    open spec fn view(&self) -> MapFeaturesView {
        MapFeaturesView {
            scale_options: scale_options_view(self.scale_options@),
            selected_scale: self.selected_scale,
            show_cx: self.show_cx,
            show_routes: self.show_routes,
        }
    }
}

/// The features that a session starts with: three zoom factors, the middle
/// one chosen, the exchanges shown and the routes not.
pub open spec fn initial_features() -> MapFeaturesView {
    MapFeaturesView {
        scale_options: seq![
            ("Small"@, (300_000i64, false)),
            ("Medium"@, (350_000i64, true)),
            ("Large"@, (400_000i64, false)),
        ],
        selected_scale: 350_000,
        show_cx: true,
        show_routes: false,
    }
}

impl Clone for MapFeatures {
    fn clone(&self) -> (m: Self)
        ensures
            m@ == self@,
    {
        let mut scale_options: ScaleOptions = Vec::new();
        let n = self.scale_options.len();
        let mut i: usize = 0;
        while i < n
            invariant
                0 <= i <= n,
                n == self.scale_options.len(),
                scale_options.len() == i,
                forall|j: int|
                    0 <= j < i ==> (#[trigger] scale_options@[j]).0@ == self.scale_options@[j].0@
                        && scale_options@[j].1 == self.scale_options@[j].1,
            decreases n - i,
        {
            scale_options.push((self.scale_options[i].0.clone(), self.scale_options[i].1));
            i += 1;
        }
        proof {
            assert(scale_options_view(scale_options@) =~= scale_options_view(self.scale_options@));
        }
        MapFeatures {
            scale_options,
            selected_scale: self.selected_scale,
            show_cx: self.show_cx,
            show_routes: self.show_routes,
        }
    }
}

impl MapFeatures {
    /// The features that a session starts with.
    pub fn new() -> (m: Self)
        ensures
            m@ == initial_features(),
    {
        let mut scale_options: ScaleOptions = Vec::new();
        scale_options.push(("Small".to_owned(), (300_000, false)));
        scale_options.push(("Medium".to_owned(), (350_000, true)));
        scale_options.push(("Large".to_owned(), (400_000, false)));
        proof {
            assert(scale_options_view(scale_options@) =~= initial_features().scale_options);
        }
        MapFeatures { scale_options, selected_scale: 350_000, show_cx: true, show_routes: false }
    }

    /// Sets the zoom factor.
    pub fn set_selected_scale(&mut self, selected: i64)
        ensures
            final(self)@ == (MapFeaturesView { selected_scale: selected, ..old(self)@ }),
    {
        self.selected_scale = selected;
    }
}

} // verus!
