//! Points, directions and placements in the plane, all in fixed point.

use vstd::prelude::*;
use crate::fixed::{clamp_i64, floor_div, int_sqrt, isqrt, lemma_isqrt_bounds, saturate, ONE, SECOND};

verus! {

/// A vector in the plane.
#[derive(Clone, Copy, Debug, PartialEq, Eq, Structural)]
pub struct Vec2 {
    pub x: i64,
    pub y: i64,
}

/// A position: planar coordinates and the drawing layer `z`, which takes no part
/// in distances.
#[derive(Clone, Copy, Debug, PartialEq, Eq, Structural)]
pub struct Vec3 {
    pub x: i64,
    pub y: i64,
    pub z: i64,
}

/// An orientation, given as the direction into which the local up axis is turned.
/// Components are millionths; `(0, ONE)` leaves vectors as they are.
#[derive(Clone, Copy, Debug, PartialEq, Eq, Structural)]
pub struct Facing {
    pub x: i32,
    pub y: i32,
}

/// Where an entity is and which way it is turned.
#[derive(Clone, Copy, Debug, PartialEq, Eq, Structural)]
pub struct Transform {
    pub translation: Vec3,
    pub rotation: Facing,
}

/// Extra binary digits carried through the square root in `direction`.
pub const PRECISION: i128 = 1_048_576;

/// The largest component of a vector that `direction` accepts.
pub const REACH: i64 = 0x100_0000_0000;

/// The largest length that `direction` can scale to.
pub const LENGTH_LIMIT: i64 = 0x1000_0000_0000;

/// The square of the planar distance between two positions.
pub open spec fn distance_squared(a: Vec3, b: Vec3) -> int {
    (a.x - b.x) * (a.x - b.x) + (a.y - b.y) * (a.y - b.y)
}

/// Whether two positions are strictly closer to each other than `reach`.
pub open spec fn closer_than(a: Vec3, b: Vec3, reach: int) -> bool {
    reach > 0 && distance_squared(a, b) < reach * reach
}

/// The vector `(dx, dy)` rescaled to `length`, each component rounded down;
/// the zero vector has no direction and stays zero.
pub open spec fn direction(dx: int, dy: int, length: int) -> (int, int) {
    let n = dx * dx + dy * dy;
    let len = isqrt((n * PRECISION * PRECISION) as nat) as int;
    if n == 0 {
        (0, 0)
    } else {
        ((dx * length * PRECISION) / len, (dy * length * PRECISION) / len)
    }
}

/// A velocity given in an entity's own frame, turned into the world frame.
pub open spec fn rotated(v: Vec2, f: Facing) -> (int, int) {
    (
        clamp_i64((v.x * f.y + v.y * f.x) / (ONE as int)),
        clamp_i64((v.y * f.y - v.x * f.x) / (ONE as int)),
    )
}

/// One coordinate after travelling at `speed` (thousandths per second) for `delta`
/// nanoseconds.
pub open spec fn travelled(from: int, speed: int, delta: int) -> int {
    clamp_i64(from + (speed * delta) / (SECOND as int))
}

impl Facing {
    /// The orientation that turns nothing.
    pub open spec fn spec_identity() -> Facing {
        Facing { x: 0, y: 1_000_000 }
    }

    /// The orientation that turns nothing.
    #[verifier::when_used_as_spec(spec_identity)]
    pub fn identity() -> (f: Facing)
        ensures
            f == Facing::spec_identity(),
    {
        Facing { x: 0, y: 1_000_000 }
    }
}

impl Transform {
    /// A placement at `translation`, not turned.
    pub fn from_translation(translation: Vec3) -> (t: Transform)
        ensures
            t == (Transform { translation, rotation: Facing::spec_identity() }),
    {
        Transform { translation, rotation: Facing::identity() }
    }

    /// This placement after moving for `delta` nanoseconds at `velocity`, which is
    /// given in the entity's own frame.
    pub open spec fn moved(self, velocity: Vec2, delta: int) -> Transform {
        let r = rotated(velocity, self.rotation);
        Transform {
            translation: Vec3 {
                x: travelled(self.translation.x as int, r.0, delta) as i64,
                y: travelled(self.translation.y as int, r.1, delta) as i64,
                z: self.translation.z,
            },
            rotation: self.rotation,
        }
    }

    /// Advances the position by `velocity`, turned by the rotation, times `delta`.
    pub fn advance(&mut self, velocity: Vec2, delta: u64)
        ensures
            *final(self) == old(self).moved(velocity, delta as int),
    {
        let (rx, ry) = rotate(velocity, self.rotation);
        self.translation.x = travel(self.translation.x, rx, delta);
        self.translation.y = travel(self.translation.y, ry, delta);
    }
}

/// Turns a velocity from an entity's own frame into the world frame.
pub fn rotate(v: Vec2, f: Facing) -> (r: (i64, i64))
    ensures
        (r.0 as int, r.1 as int) == rotated(v, f),
{
    let vx = v.x as i128;
    let vy = v.y as i128;
    let fx = f.x as i128;
    let fy = f.y as i128;
    proof {
        lemma_product_bound(vx as int, fy as int);
        lemma_product_bound(vy as int, fx as int);
        lemma_product_bound(vy as int, fy as int);
        lemma_product_bound(vx as int, fx as int);
    }
    let x = floor_div(vx * fy + vy * fx, ONE as i128);
    let y = floor_div(vy * fy - vx * fx, ONE as i128);
    (saturate(x), saturate(y))
}

/// Moves one coordinate for `delta` nanoseconds at `speed`.
pub fn travel(from: i64, speed: i64, delta: u64) -> (to: i64)
    ensures
        to == travelled(from as int, speed as int, delta as int),
{
    let s = speed as i128;
    let d = delta as i128;
    assert(-0x8000_0000_0000_0000_0000_0000_0000_0000 < s * d
        < 0x8000_0000_0000_0000_0000_0000_0000_0000) by (nonlinear_arith)
        requires
            -0x8000_0000_0000_0000 <= s <= 0x7FFF_FFFF_FFFF_FFFF,
            0 <= d <= 0xFFFF_FFFF_FFFF_FFFF,
    ;
    let step = floor_div(s * d, SECOND as i128);
    assert(-0x8000_0000_0000_0000_0000_0000_0000_0000 < step
        < 0x8000_0000_0000_0000_0000_0000_0000_0000 - 0x8000_0000_0000_0000) by (nonlinear_arith)
        requires
            step == (s * d) / 1_000_000_000,
            -0x8000_0000_0000_0000_0000_0000_0000_0000 < s * d
                < 0x8000_0000_0000_0000_0000_0000_0000_0000,
    ;
    saturate(from as i128 + step)
}

/// Rescales the vector `(dx, dy)` to `length`, keeping its direction.
pub fn scaled(dx: i64, dy: i64, length: i64) -> (v: Vec2)
    requires
        -REACH <= dx <= REACH,
        -REACH <= dy <= REACH,
        0 <= length <= LENGTH_LIMIT,
    ensures
        (v.x as int, v.y as int) == direction(dx as int, dy as int, length as int),
        -length <= v.x <= length,
        -length <= v.y <= length,
{
    let x = dx as i128;
    let y = dy as i128;
    let l = length as i128;
    proof {
        lemma_square_range(x as int, REACH as int);
        lemma_square_range(y as int, REACH as int);
    }
    let n: i128 = x * x + y * y;
    if n == 0 {
        return Vec2 { x: 0, y: 0 };
    }
    let wide: u128 = (n * PRECISION * PRECISION) as u128;
    let len = int_sqrt(wide) as i128;
    proof {
        assert(len >= 1) by (nonlinear_arith)
            requires
                wide >= 1,
                wide < (len + 1) * (len + 1),
                len >= 0,
        ;
        lemma_component_below_length(x as int, y as int, len as int);
        lemma_component_below_length(y as int, x as int, len as int);
        lemma_scaled_range(x as int, l as int, len as int);
        lemma_scaled_range(y as int, l as int, len as int);
    }
    let vx = floor_div(x * l * PRECISION, len);
    let vy = floor_div(y * l * PRECISION, len);
    Vec2 { x: vx as i64, y: vy as i64 }
}

/// A rescaled vector points the way the vector did, component by component, and
/// no component of it is longer than the length asked for.
pub proof fn law_direction_is_kept(dx: int, dy: int, length: int)
    requires
        length >= 0,
    ensures
        dx >= 0 ==> 0 <= direction(dx, dy, length).0 <= length,
        dx <= 0 ==> -length <= direction(dx, dy, length).0 <= 0,
        dy >= 0 ==> 0 <= direction(dx, dy, length).1 <= length,
        dy <= 0 ==> -length <= direction(dx, dy, length).1 <= 0,
{
    let n = dx * dx + dy * dy;
    assert(n >= 0) by (nonlinear_arith)
        requires
            n == dx * dx + dy * dy,
    ;
    if n != 0 {
        let wide = n * PRECISION * PRECISION;
        lemma_isqrt_bounds(wide as nat);
        let len = isqrt(wide as nat) as int;
        assert(len >= 1) by (nonlinear_arith)
            requires
                wide >= 1,
                wide < (len + 1) * (len + 1),
                len >= 0,
        ;
        lemma_component_below_length(dx, dy, len);
        lemma_component_below_length(dy, dx, len);
        lemma_quotient_range(dx * PRECISION, length, len);
        lemma_quotient_range(dy * PRECISION, length, len);
        assert(dx * length * PRECISION == (dx * PRECISION) * length) by (nonlinear_arith);
        assert(dy * length * PRECISION == (dy * PRECISION) * length) by (nonlinear_arith);
    }
}

/// A number within `len` of zero, times `length` and divided by `len`, is within
/// `length` of zero, on the side on which the number is.
proof fn lemma_quotient_range(c: int, length: int, len: int)
    by (nonlinear_arith)
    requires
        len >= 1,
        length >= 0,
        -len <= c <= len,
    ensures
        -length <= (c * length) / len <= length,
        c >= 0 ==> (c * length) / len >= 0,
        c <= 0 ==> (c * length) / len <= 0,
{
    assert(-len * length <= c * length <= len * length);
    if c >= 0 {
        assert(c * length >= 0);
    }
    if c <= 0 {
        assert(c * length <= 0);
    }
}

/// A bounded number has a bounded square.
proof fn lemma_square_range(a: int, bound: int)
    by (nonlinear_arith)
    requires
        -bound <= a <= bound,
    ensures
        0 <= a * a <= bound * bound,
{
}

/// A component, carried to the precision of the root, does not exceed the root of
/// the whole.
proof fn lemma_component_below_length(a: int, b: int, len: int)
    by (nonlinear_arith)
    requires
        len >= 0,
        (a * a + b * b) * 1_048_576 * 1_048_576 < (len + 1) * (len + 1),
    ensures
        -len <= a * 1_048_576 <= len,
{
    let c = a * 1_048_576;
    assert(c * c == a * a * 1_048_576 * 1_048_576);
    assert(c * c < (len + 1) * (len + 1));
    if c > len {
        assert(c * c >= (len + 1) * (len + 1));
    }
    if c < -len {
        assert((-c) * (-c) >= (len + 1) * (len + 1));
    }
}

/// A component scaled to `length` and divided by the root stays within `length`.
proof fn lemma_scaled_range(a: int, length: int, len: int)
    by (nonlinear_arith)
    requires
        len >= 1,
        length >= 0,
        -len <= a * 1_048_576 <= len,
        -0x100_0000_0000 <= a <= 0x100_0000_0000,
        length <= 0x1000_0000_0000,
    ensures
        -length <= (a * length * 1_048_576) / len <= length,
        -0x1_0000_0000_0000_0000_0000_0000 <= a * length <= 0x1_0000_0000_0000_0000_0000_0000,
{
    let c = a * 1_048_576;
    assert(a * length * 1_048_576 == c * length);
    assert(-len * length <= c * length <= len * length);
}

proof fn lemma_product_bound(a: int, b: int)
    by (nonlinear_arith)
    requires
        -0x8000_0000_0000_0000 <= a <= 0x7FFF_FFFF_FFFF_FFFF,
        -0x8000_0000 <= b <= 0x7FFF_FFFF,
    ensures
        -0x4000_0000_0000_0000_0000_0000 <= a * b <= 0x4000_0000_0000_0000_0000_0000,
{
}

/// Whether the planar distance from `a` to `b` is strictly below `r1 + r2`.
pub fn within(a: &Vec3, b: &Vec3, r1: i64, r2: i64) -> (hit: bool)
    ensures
        hit == closer_than(*a, *b, r1 + r2),
{
    let reach: i128 = r1 as i128 + r2 as i128;
    if reach <= 0 {
        return false;
    }
    let reach: u128 = reach as u128;
    proof {
        lemma_square_monotone(reach as int, 0xFFFF_FFFF_FFFF_FFFF);
    }
    match square_of_distance(a, b) {
        Some(sum) => sum < reach * reach,
        None => false,
    }
}

/// Whether the planar distance from `a` to `b` is strictly above `reach`.
pub open spec fn farther_than(a: Vec3, b: Vec3, reach: int) -> bool {
    reach < 0 || distance_squared(a, b) > reach * reach
}

/// Whether the planar distance from `a` to `b` is strictly above `reach`.
pub fn beyond(a: &Vec3, b: &Vec3, reach: i64) -> (out: bool)
    ensures
        out == farther_than(*a, *b, reach as int),
{
    if reach < 0 {
        return true;
    }
    let reach: u128 = reach as u128;
    proof {
        lemma_square_monotone(reach as int, 0xFFFF_FFFF_FFFF_FFFF);
    }
    match square_of_distance(a, b) {
        Some(sum) => sum > reach * reach,
        None => true,
    }
}

/// The square of the planar distance, unless it is too large for 128 bits.
fn square_of_distance(a: &Vec3, b: &Vec3) -> (sum: Option<u128>)
    ensures
        match sum {
            Some(s) => s == distance_squared(*a, *b),
            None => distance_squared(*a, *b) > u128::MAX,
        },
{
    let dx = gap(a.x, b.x);
    let dy = gap(a.y, b.y);
    proof {
        lemma_square_monotone(dx as int, 0xFFFF_FFFF_FFFF_FFFF);
        lemma_square_monotone(dy as int, 0xFFFF_FFFF_FFFF_FFFF);
    }
    (dx * dx).checked_add(dy * dy)
}

/// How far apart two coordinates are.
pub open spec fn gap_of(p: i64, q: i64) -> nat {
    if p >= q {
        (p - q) as nat
    } else {
        (q - p) as nat
    }
}

/// The absolute difference of two coordinates.
/// Computes how far apart two coordinates are.
fn gap(p: i64, q: i64) -> (d: u128)
    ensures
        d <= 0xFFFF_FFFF_FFFF_FFFF,
        d * d == (p - q) * (p - q),
        d == gap_of(p, q),
{
    let d: i128 = p as i128 - q as i128;
    if d < 0 {
        assert((-d) * (-d) == d * d) by (nonlinear_arith);
        (-d) as u128
    } else {
        d as u128
    }
}

proof fn lemma_square_monotone(a: int, b: int)
    by (nonlinear_arith)
    requires
        0 <= a <= b,
    ensures
        a * a <= b * b,
{
}

} // verus!
