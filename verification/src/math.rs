//! Fixed-point 2D vectors: arithmetic, rotation, scaling, length, and
//! per-axis wraparound clipping into a rectangular field.

use vstd::prelude::*;
use crate::fixed::SCALE;
use crate::fixed::abs_int;
use crate::fixed::sat_i64;
use crate::fixed::spec_add;
use crate::fixed::spec_sub;
use crate::fixed::spec_fmul;
use crate::fixed::spec_sin;
use crate::fixed::spec_cos;
use crate::fixed::sat_add;
use crate::fixed::sat_sub;
use crate::fixed::fmul;
use crate::fixed::isqrt;
use crate::fixed::wrap_mod;

verus! {

/// A 2D vector of fixed-point scalars (micro-units).
#[derive(Clone, Copy, Debug, PartialEq, Eq, Structural)]
pub struct Vec2D {
    pub x: i64,
    pub y: i64,
}

/// Componentwise saturating sum.
pub open spec fn spec_vadd(a: Vec2D, b: Vec2D) -> Vec2D {
    Vec2D { x: spec_add(a.x, b.x), y: spec_add(a.y, b.y) }
}

/// Componentwise saturating difference.
pub open spec fn spec_vsub(a: Vec2D, b: Vec2D) -> Vec2D {
    Vec2D { x: spec_sub(a.x, b.x), y: spec_sub(a.y, b.y) }
}

/// Fixed-point dot product, saturated.
pub open spec fn spec_dot(a: Vec2D, b: Vec2D) -> i64 {
    spec_add(spec_fmul(a.x, b.x), spec_fmul(a.y, b.y))
}

/// Componentwise fixed-point scaling.
pub open spec fn spec_scale(a: Vec2D, f: i64) -> Vec2D {
    Vec2D { x: spec_fmul(a.x, f), y: spec_fmul(a.y, f) }
}

/// Rotation by a microradian angle (counter-clockwise for positive
/// angles in the y-down convention).
pub open spec fn spec_rotate(a: Vec2D, angle: i64) -> Vec2D {
    let sin = spec_sin(angle);
    let cos = spec_cos(angle);
    Vec2D {
        x: spec_sub(spec_fmul(a.x, cos), spec_fmul(a.y, sin)),
        y: spec_add(spec_fmul(a.y, cos), spec_fmul(a.x, sin)),
    }
}

/// The integer square root: the unique `r >= 0` with
/// `r * r <= n < (r + 1) * (r + 1)`.
pub open spec fn spec_isqrt(n: int) -> int {
    choose|r: int| 0 <= r && #[trigger] (r * r) <= n && n < (r + 1) * (r + 1)
}

/// A nonnegative `r` whose square brackets `n` is the integer square
/// root of `n`.
pub proof fn lemma_isqrt_is(n: int, r: int)
    requires
        0 <= r,
        r * r <= n,
        n < (r + 1) * (r + 1),
    ensures
        spec_isqrt(n) == r,
{
    assert(0 <= r && r * r <= n && n < (r + 1) * (r + 1));
    let c = spec_isqrt(n);
    assert(0 <= c && c * c <= n && n < (c + 1) * (c + 1));
    assert(c == r) by (nonlinear_arith)
        requires
            0 <= r,
            r * r <= n,
            n < (r + 1) * (r + 1),
            0 <= c,
            c * c <= n,
            n < (c + 1) * (c + 1),
    ;
}

/// Squared length of a vector, exact (no scaling, no saturation).
pub open spec fn spec_len2(a: Vec2D) -> int {
    a.x * a.x + a.y * a.y
}

/// Fixed-point length: the integer square root of the exact squared
/// length, saturated. Because components carry a factor of `SCALE`, the
/// root carries it too.
pub open spec fn spec_len(a: Vec2D) -> i64 {
    sat_i64(spec_isqrt(spec_len2(a)))
}

/// Per-axis Euclidean wraparound into `[0, w)`.
pub open spec fn spec_wrap(x: i64, w: i64) -> i64 {
    ((x as int) % (w as int)) as i64
}

/// Wrap both axes of a position into the field rectangle.
pub open spec fn spec_clip(a: Vec2D, field: Vec2D) -> Vec2D {
    Vec2D { x: spec_wrap(a.x, field.x), y: spec_wrap(a.y, field.y) }
}

/// Wraparound leaves each axis inside the field, and a wrapped vector
/// wraps to itself.
pub proof fn lemma_clip_idempotent(a: Vec2D, field: Vec2D)
    requires
        field.x > 0,
        field.y > 0,
    ensures
        0 <= spec_clip(a, field).x < field.x,
        0 <= spec_clip(a, field).y < field.y,
        spec_clip(spec_clip(a, field), field) == spec_clip(a, field),
{
    let c = spec_clip(a, field);
    vstd::arithmetic::div_mod::lemma_mod_division_less_than_divisor(a.x as int, field.x as int);
    vstd::arithmetic::div_mod::lemma_mod_division_less_than_divisor(a.y as int, field.y as int);
    vstd::arithmetic::div_mod::lemma_small_mod(c.x as nat, field.x as nat);
    vstd::arithmetic::div_mod::lemma_small_mod(c.y as nat, field.y as nat);
}

impl Vec2D {
    /// The origin.
    pub fn zero() -> (r: Vec2D)
        ensures
            r == (Vec2D { x: 0i64, y: 0i64 }),
    {
        Vec2D { x: 0, y: 0 }
    }

    /// The unit vector along the x axis (1.0 in micro-units).
    pub fn one() -> (r: Vec2D)
        ensures
            r == (Vec2D { x: SCALE as i64, y: 0i64 }),
    {
        Vec2D { x: SCALE, y: 0 }
    }

    /// Componentwise saturating sum.
    pub fn add(self, other: Vec2D) -> (r: Vec2D)
        ensures
            r == spec_vadd(self, other),
    {
        Vec2D { x: sat_add(self.x, other.x), y: sat_add(self.y, other.y) }
    }

    /// Componentwise saturating difference.
    pub fn sub(self, other: Vec2D) -> (r: Vec2D)
        ensures
            r == spec_vsub(self, other),
    {
        Vec2D { x: sat_sub(self.x, other.x), y: sat_sub(self.y, other.y) }
    }

    /// Fixed-point dot product.
    pub fn dot(&self, other: &Vec2D) -> (r: i64)
        ensures
            r == spec_dot(*self, *other),
    {
        sat_add(fmul(self.x, other.x), fmul(self.y, other.y))
    }

    /// Fixed-point length of the vector.
    pub fn len(&self) -> (r: i64)
        ensures
            r == spec_len(*self),
            r >= 0,
    {
        let ax = if self.x >= 0 {
            self.x as u128
        } else if self.x == i64::MIN {
            9_223_372_036_854_775_808u128
        } else {
            (-self.x) as u128
        };
        let ay = if self.y >= 0 {
            self.y as u128
        } else if self.y == i64::MIN {
            9_223_372_036_854_775_808u128
        } else {
            (-self.y) as u128
        };
        proof {
            assert((ax as int) * (ax as int) == (self.x as int) * (self.x as int)
                && (ax as int) * (ax as int) <= 9_223_372_036_854_775_808int
                    * 9_223_372_036_854_775_808int) by (nonlinear_arith)
                requires
                    ax == abs_int(self.x as int),
                    ax <= 9_223_372_036_854_775_808int,
            ;
            assert((ay as int) * (ay as int) == (self.y as int) * (self.y as int)
                && (ay as int) * (ay as int) <= 9_223_372_036_854_775_808int
                    * 9_223_372_036_854_775_808int) by (nonlinear_arith)
                requires
                    ay == abs_int(self.y as int),
                    ay <= 9_223_372_036_854_775_808int,
            ;
        }
        let n = ax * ax + ay * ay;
        let root = isqrt(n);
        proof {
            lemma_isqrt_is(n as int, root as int);
        }
        if root > i64::MAX as u64 {
            i64::MAX
        } else {
            root as i64
        }
    }

    /// Rotation by a microradian angle.
    pub fn rotate(&self, angle: i64) -> (r: Vec2D)
        ensures
            r == spec_rotate(*self, angle),
    {
        let sin = crate::fixed::sin_fp(angle);
        let cos = crate::fixed::cos_fp(angle);
        Vec2D {
            x: sat_sub(fmul(self.x, cos), fmul(self.y, sin)),
            y: sat_add(fmul(self.y, cos), fmul(self.x, sin)),
        }
    }

    /// Componentwise fixed-point scaling.
    pub fn scale(&self, factor: i64) -> (r: Vec2D)
        ensures
            r == spec_scale(*self, factor),
    {
        Vec2D { x: fmul(self.x, factor), y: fmul(self.y, factor) }
    }

    /// Wrap this position into the field rectangle.
    pub fn clip(&mut self, field: &Vec2D)
        requires
            field.x > 0,
            field.y > 0,
        ensures
            *final(self) == spec_clip(*old(self), *field),
            0 <= final(self).x < field.x,
            0 <= final(self).y < field.y,
    {
        self.x = wrap_mod(self.x, field.x);
        self.y = wrap_mod(self.y, field.y);
    }
}

} // verus!
