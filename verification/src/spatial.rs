//! Which star lies nearest to a point of the map.

use crate::entities::{Star, StarView, star_view_of, star_views};
use crate::lookup::as_index;
use crate::universe::Universe;
use vstd::prelude::*;

verus! {

/// The square of the distance between two points, in the plane of `x` and
/// `y`.
pub open spec fn squared_distance(ax: i64, ay: i64, bx: i64, by: i64) -> int {
    (ax - bx) * (ax - bx) + (ay - by) * (ay - by)
}

/// The square of the distance from a star to a point.
pub open spec fn distance_to(s: StarView, x: i64, y: i64) -> int {
    squared_distance(s.x, s.y, x, y)
}

/// The position, among the first `n` stars, of the one nearest to a point;
/// of several equally near, the first.
pub open spec fn nearest_among(stars: Seq<StarView>, x: i64, y: i64, n: int) -> int
    decreases n,
{
    if n <= 1 {
        0
    } else {
        let best = nearest_among(stars, x, y, n - 1);
        if distance_to(stars[n - 1], x, y) < distance_to(stars[best], x, y) {
            n - 1
        } else {
            best
        }
    }
}

/// Whether star `k` is nearest to a point: no star is nearer, and every
/// star before it is farther.
pub open spec fn is_nearest(stars: Seq<StarView>, x: i64, y: i64, k: int) -> bool {
    &&& 0 <= k < stars.len()
    &&& forall|j: int|
        0 <= j < stars.len() ==> distance_to(stars[k], x, y) <= distance_to(
            #[trigger] stars[j],
            x,
            y,
        )
    &&& forall|j: int|
        0 <= j < k ==> distance_to(stars[k], x, y) < distance_to(#[trigger] stars[j], x, y)
}

/// Among the first `n` stars, the one that `nearest_among` gives is as near
/// as any, and nearer than every one before it.
pub proof fn lemma_nearest_among(stars: Seq<StarView>, x: i64, y: i64, n: int)
    requires
        1 <= n <= stars.len(),
    ensures
        0 <= nearest_among(stars, x, y, n) < n,
        forall|j: int|
            0 <= j < n ==> distance_to(stars[nearest_among(stars, x, y, n)], x, y) <= distance_to(
                #[trigger] stars[j],
                x,
                y,
            ),
        forall|j: int|
            0 <= j < nearest_among(stars, x, y, n) ==> distance_to(
                stars[nearest_among(stars, x, y, n)],
                x,
                y,
            ) < distance_to(#[trigger] stars[j], x, y),
    decreases n,
{
    if n > 1 {
        lemma_nearest_among(stars, x, y, n - 1);
    }
}

/// Where there are stars, the one that `nearest_among` gives of all of them
/// is the nearest.
pub proof fn lemma_nearest_is_nearest(stars: Seq<StarView>, x: i64, y: i64)
    requires
        stars.len() > 0,
    ensures
        is_nearest(stars, x, y, nearest_among(stars, x, y, stars.len() as int)),
{
    lemma_nearest_among(stars, x, y, stars.len() as int);
}

/// Two to the power of 128.
pub open spec fn carry_weight() -> int {
    0x1_0000_0000_0000_0000_0000_0000_0000_0000int
}

/// A squared distance. The square of a distance between two points with
/// 64-bit coordinates can take 129 bits: `carry` is the foremost of them.
#[derive(PartialEq, Eq, Structural, Clone, Copy, Debug)]
pub struct SquaredDistance {
    pub carry: bool,
    pub low: u128,
}

impl SquaredDistance {
    /// The number that the distance stands for.
    pub open spec fn value(self) -> int {
        (if self.carry {
            carry_weight()
        } else {
            0
        }) + self.low
    }

    /// Whether this distance is shorter than another.
    pub fn less_than(&self, other: &SquaredDistance) -> (shorter: bool)
        ensures
            shorter == (self.value() < other.value()),
    {
        if self.carry == other.carry {
            self.low < other.low
        } else {
            other.carry
        }
    }
}

/// How far apart two coordinates are.
pub fn gap(a: i64, b: i64) -> (d: u64)
    ensures
        d == if a >= b {
            a - b
        } else {
            b - a
        },
{
    if a >= b {
        (a as i128 - b as i128) as u64
    } else {
        (b as i128 - a as i128) as u64
    }
}

/// The square of a gap.
pub fn square(d: u64) -> (s: u128)
    ensures
        s == d * d,
        s <= 0xFFFF_FFFF_FFFF_FFFE_0000_0000_0000_0001,
{
    assert(d * d <= 0xFFFF_FFFF_FFFF_FFFF * 0xFFFF_FFFF_FFFF_FFFF) by (nonlinear_arith)
        requires
            0 <= d <= 0xFFFF_FFFF_FFFF_FFFF,
    ;
    (d as u128) * (d as u128)
}

/// The square of the distance between two points.
pub fn distance_squared(ax: i64, ay: i64, bx: i64, by: i64) -> (d: SquaredDistance)
    ensures
        d.value() == squared_distance(ax, ay, bx, by),
{
    let dx = gap(ax, bx);
    let dy = gap(ay, by);
    let sx = square(dx);
    let sy = square(dy);
    proof {
        assert((ax - bx) * (ax - bx) == dx * dx) by (nonlinear_arith)
            requires
                dx == ax - bx || dx == bx - ax,
        ;
        assert((ay - by) * (ay - by) == dy * dy) by (nonlinear_arith)
            requires
                dy == ay - by || dy == by - ay,
        ;
    }
    match sx.checked_add(sy) {
        Some(sum) => SquaredDistance { carry: false, low: sum },
        None => SquaredDistance { carry: true, low: sx - (u128::MAX - sy) - 1 },
    }
}

impl Universe {
    /// The position of the star nearest to a point; of several equally near,
    /// the first. None only where no star is on record.
    pub fn nearest_star_index(&self, x: i64, y: i64) -> (r: Option<usize>)
        ensures
            as_index(r) == if self@.stars.len() == 0 {
                None
            } else {
                Some(nearest_among(self@.stars, x, y, self@.stars.len() as int))
            },
            r matches Some(k) ==> k < self.stars.len() && is_nearest(self@.stars, x, y, k as int),
    {
        let n = self.stars.len();
        if n == 0 {
            return None;
        }
        proof {
            lemma_nearest_is_nearest(self@.stars, x, y);
        }
        let ghost stars = star_views(self.stars@);
        let mut best: usize = 0;
        let mut shortest = distance_squared(self.stars[0].x, self.stars[0].y, x, y);
        let mut i: usize = 1;
        while i < n
            invariant
                1 <= i <= n,
                n == self.stars.len(),
                stars == star_views(self.stars@),
                best == nearest_among(stars, x, y, i as int),
                0 <= best < i,
                shortest.value() == distance_to(stars[best as int], x, y),
            decreases n - i,
        {
            let d = distance_squared(self.stars[i].x, self.stars[i].y, x, y);
            if d.less_than(&shortest) {
                best = i;
                shortest = d;
            }
            i += 1;
        }
        Some(best)
    }

    /// The star nearest to a point; of several equally near, the first. None
    /// only where no star is on record.
    pub fn nearest_star(&self, x: i64, y: i64) -> (r: Option<Star>)
        ensures
            star_view_of(r) == if self@.stars.len() == 0 {
                None
            } else {
                Some(self@.stars[nearest_among(self@.stars, x, y, self@.stars.len() as int)])
            },
    {
        match self.nearest_star_index(x, y) {
            Some(k) => {
                Some(self.stars[k].clone())
            },
            None => None,
        }
    }
}

} // verus!
