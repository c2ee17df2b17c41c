//! Circle-point and circle-triangle intersection tests.
//!
//! The closest point on a triangle is found with the Voronoi-region
//! walk over vertex, edge and face regions, driven by signs of dot and
//! cross products of the corner difference vectors. Those products are
//! taken on the raw micro-unit components (no rescaling), exactly where
//! they fit in an `i128` and saturating where they would not; a region
//! whose interpolation denominator degenerates to zero falls back to
//! the first corner, so the test is total even for collinear corners.

use vstd::prelude::*;
use crate::fixed::sat_i128;
use crate::fixed::sat_i64;
use crate::fixed::tdiv;
use crate::fixed::add_i128;
use crate::fixed::sub_i128;
use crate::fixed::mul_i128;
use crate::fixed::div_i128;
use crate::math::Vec2D;

verus! {

/// Saturating dot product of two difference vectors.
pub open spec fn spec_dotd(ax: int, ay: int, bx: int, by: int) -> int {
    sat_i128(sat_i128(ax * bx) as int + sat_i128(ay * by) as int) as int
}

/// Saturating cross product (z component) of two difference vectors.
pub open spec fn spec_crossd(ax: int, ay: int, bx: int, by: int) -> int {
    sat_i128(sat_i128(ax * by) as int - sat_i128(ay * bx) as int) as int
}

fn dotd(ax: i128, ay: i128, bx: i128, by: i128) -> (r: i128)
    ensures
        r as int == spec_dotd(ax as int, ay as int, bx as int, by as int),
{
    add_i128(mul_i128(ax, bx), mul_i128(ay, by))
}

fn crossd(ax: i128, ay: i128, bx: i128, by: i128) -> (r: i128)
    ensures
        r as int == spec_crossd(ax as int, ay as int, bx as int, by as int),
{
    sub_i128(mul_i128(ax, by), mul_i128(ay, bx))
}

/// A corner plus a fraction `num / den` of an edge, per component:
/// `corner + edge * num / den`, truncating, saturated into the
/// coordinate range; the corner itself when `den` is zero.
pub open spec fn spec_along(corner: i64, edge: int, num: int, den: int) -> i64 {
    sat_i64(corner + sat_i128(tdiv(sat_i128(edge * num) as int, den)) as int)
}

fn along(corner: i64, edge: i128, num: i128, den: i128) -> (r: i64)
    ensures
        r == spec_along(corner, edge as int, num as int, den as int),
{
    let q = div_i128(mul_i128(edge, num), den);
    let s = add_i128(corner as i128, q);
    if s > i64::MAX as i128 {
        i64::MAX
    } else if s < i64::MIN as i128 {
        i64::MIN
    } else {
        s as i64
    }
}

/// A barycentric combination of the three corner components weighted by
/// `wa`, `wb`, `wc` over the common denominator `den`, truncating,
/// saturated; the first corner when `den` is zero.
pub open spec fn spec_bary(
    ca: i64,
    cb: i64,
    cc: i64,
    wa: int,
    wb: int,
    wc: int,
    den: int,
) -> i64 {
    let num = sat_i128(
        sat_i128(sat_i128(ca * wa) as int + sat_i128(cb * wb) as int) as int + sat_i128(cc * wc)
            as int,
    ) as int;
    sat_i64(tdiv(num, den))
}

fn bary(ca: i64, cb: i64, cc: i64, wa: i128, wb: i128, wc: i128, den: i128) -> (r: i64)
    ensures
        r == spec_bary(ca, cb, cc, wa as int, wb as int, wc as int, den as int),
{
    let num = add_i128(
        add_i128(mul_i128(ca as i128, wa), mul_i128(cb as i128, wb)),
        mul_i128(cc as i128, wc),
    );
    let q = div_i128(num, den);
    if q > i64::MAX as i128 {
        i64::MAX
    } else if q < i64::MIN as i128 {
        i64::MIN
    } else {
        q as i64
    }
}

/// The closest point of triangle `abc` to `p`, by Voronoi regions.
pub open spec fn spec_closest_triangle_point(p: Vec2D, a: Vec2D, b: Vec2D, c: Vec2D) -> Vec2D {
    let abx = b.x - a.x;
    let aby = b.y - a.y;
    let acx = c.x - a.x;
    let acy = c.y - a.y;
    let bcx = c.x - b.x;
    let bcy = c.y - b.y;
    let snom = spec_dotd(p.x - a.x, p.y - a.y, abx, aby);
    let sdenom = spec_dotd(p.x - b.x, p.y - b.y, a.x - b.x, a.y - b.y);
    let tnom = spec_dotd(p.x - a.x, p.y - a.y, acx, acy);
    let tdenom = spec_dotd(p.x - c.x, p.y - c.y, a.x - c.x, a.y - c.y);
    if snom <= 0 && tnom <= 0 {
        a
    } else {
        let unom = spec_dotd(p.x - b.x, p.y - b.y, bcx, bcy);
        let udenom = spec_dotd(p.x - c.x, p.y - c.y, b.x - c.x, b.y - c.y);
        if sdenom <= 0 && unom <= 0 {
            b
        } else if tdenom <= 0 && udenom <= 0 {
            b
        } else {
            let n = spec_crossd(abx, aby, acx, acy);
            let vc = sat_i128(n * spec_crossd(a.x - p.x, a.y - p.y, b.x - p.x, b.y - p.y)) as int;
            if vc < 0 && snom >= 0 && sdenom >= 0 {
                let den = sat_i128(snom + sdenom) as int;
                if den <= 0 {
                    a
                } else {
                    Vec2D {
                        x: spec_along(a.x, abx, snom, den),
                        y: spec_along(a.y, aby, snom, den),
                    }
                }
            } else {
                let va = sat_i128(
                    n * spec_dotd(b.x - p.x, b.y - p.y, c.x - p.x, c.y - p.y),
                ) as int;
                if va <= 0 && unom >= 0 && udenom >= 0 {
                    let den = sat_i128(unom + udenom) as int;
                    if den <= 0 {
                        a
                    } else {
                        Vec2D {
                            x: spec_along(b.x, bcx, unom, den),
                            y: spec_along(b.y, bcy, unom, den),
                        }
                    }
                } else {
                    let vb = sat_i128(
                        n * spec_crossd(c.x - p.x, c.y - p.y, a.x - p.x, a.y - p.y),
                    ) as int;
                    if vb <= 0 && tnom >= 0 && tdenom >= 0 {
                        let den = sat_i128(tnom + tdenom) as int;
                        if den <= 0 {
                            a
                        } else {
                            Vec2D {
                                x: spec_along(a.x, acx, tnom, den),
                                y: spec_along(a.y, acy, tnom, den),
                            }
                        }
                    } else {
                        let den = sat_i128(sat_i128(va + vb) as int + vc) as int;
                        if den <= 0 {
                            a
                        } else {
                            Vec2D {
                                x: spec_bary(a.x, b.x, c.x, va, vb, vc, den),
                                y: spec_bary(a.y, b.y, c.y, va, vb, vc, den),
                            }
                        }
                    }
                }
            }
        }
    }
}

fn closest_triangle_point(p: Vec2D, a: Vec2D, b: Vec2D, c: Vec2D) -> (r: Vec2D)
    ensures
        r == spec_closest_triangle_point(p, a, b, c),
{
    let abx = (b.x as i128) - (a.x as i128);
    let aby = (b.y as i128) - (a.y as i128);
    let acx = (c.x as i128) - (a.x as i128);
    let acy = (c.y as i128) - (a.y as i128);
    let bcx = (c.x as i128) - (b.x as i128);
    let bcy = (c.y as i128) - (b.y as i128);
    let pax = (p.x as i128) - (a.x as i128);
    let pay = (p.y as i128) - (a.y as i128);
    let pbx = (p.x as i128) - (b.x as i128);
    let pby = (p.y as i128) - (b.y as i128);
    let pcx = (p.x as i128) - (c.x as i128);
    let pcy = (p.y as i128) - (c.y as i128);
    let snom = dotd(pax, pay, abx, aby);
    let sdenom = dotd(pbx, pby, -abx, -aby);
    let tnom = dotd(pax, pay, acx, acy);
    let tdenom = dotd(pcx, pcy, -acx, -acy);
    if snom <= 0 && tnom <= 0 {
        return a;
    }
    let unom = dotd(pbx, pby, bcx, bcy);
    let udenom = dotd(pcx, pcy, -bcx, -bcy);
    if sdenom <= 0 && unom <= 0 {
        return b;
    }
    if tdenom <= 0 && udenom <= 0 {
        return b;
    }
    let n = crossd(abx, aby, acx, acy);
    let vc = mul_i128(n, crossd(-pax, -pay, -pbx, -pby));
    if vc < 0 && snom >= 0 && sdenom >= 0 {
        let den = add_i128(snom, sdenom);
        if den <= 0 {
            return a;
        }
        return Vec2D { x: along(a.x, abx, snom, den), y: along(a.y, aby, snom, den) };
    }
    let va = mul_i128(n, dotd(-pbx, -pby, -pcx, -pcy));
    if va <= 0 && unom >= 0 && udenom >= 0 {
        let den = add_i128(unom, udenom);
        if den <= 0 {
            return a;
        }
        return Vec2D { x: along(b.x, bcx, unom, den), y: along(b.y, bcy, unom, den) };
    }
    let vb = mul_i128(n, crossd(-pcx, -pcy, -pax, -pay));
    if vb <= 0 && tnom >= 0 && tdenom >= 0 {
        let den = add_i128(tnom, tdenom);
        if den <= 0 {
            return a;
        }
        return Vec2D { x: along(a.x, acx, tnom, den), y: along(a.y, acy, tnom, den) };
    }
    let den = add_i128(add_i128(va, vb), vc);
    if den <= 0 {
        return a;
    }
    Vec2D { x: bary(a.x, b.x, c.x, va, vb, vc, den), y: bary(a.y, b.y, c.y, va, vb, vc, den) }
}

/// Whether `point` lies inside the circle at `center` of the given
/// radius: the exact squared distance, saturated, compared against the
/// exact squared radius.
pub open spec fn spec_circle_point(center: Vec2D, radius: i64, point: Vec2D) -> bool {
    let dx = center.x - point.x;
    let dy = center.y - point.y;
    let d2 = sat_i128(sat_i128(dx * dx) as int + sat_i128(dy * dy) as int) as int;
    d2 <= radius * radius
}

/// Circle-point intersection test.
pub fn test_circle_point(center: Vec2D, radius: i64, point: Vec2D) -> (r: bool)
    ensures
        r == spec_circle_point(center, radius, point),
{
    let dx = (center.x as i128) - (point.x as i128);
    let dy = (center.y as i128) - (point.y as i128);
    let d2 = add_i128(mul_i128(dx, dx), mul_i128(dy, dy));
    proof {
        crate::fixed::lemma_i64_prod_in_i128(radius as int, radius as int);
    }
    let rr = (radius as i128) * (radius as i128);
    d2 <= rr
}

/// Whether the circle at `center` touches triangle `abc`.
pub open spec fn spec_circle_triangle(
    center: Vec2D,
    radius: i64,
    a: Vec2D,
    b: Vec2D,
    c: Vec2D,
) -> bool {
    spec_circle_point(center, radius, spec_closest_triangle_point(center, a, b, c))
}

/// Circle-triangle intersection test.
pub fn test_circle_triangle(center: Vec2D, radius: i64, a: Vec2D, b: Vec2D, c: Vec2D) -> (r: bool)
    ensures
        r == spec_circle_triangle(center, radius, a, b, c),
{
    let cp = closest_triangle_point(center, a, b, c);
    test_circle_point(center, radius, cp)
}

} // verus!
