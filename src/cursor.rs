use vstd::prelude::*;
use crate::vector::{Vec3, dot, dot_diff, dot_exec, dot_diff_exec};

verus! {

/// Radius of the cursor marker: a fifth of a world unit.
pub const MARKER_RADIUS: i32 = 200_000;

/// The marker is lifted off the ground by `up / MARKER_LIFT`, a hundredth of
/// the up vector, so that it does not flicker against the ground surface.
pub const MARKER_LIFT: i32 = 100;

/// Largest size of a distance's numerator and denominator.
pub const DISTANCE_NUM_BOUND: i128 = 0x4_0000_0000_0000_0000;

/// A half-line from `origin` along `direction`.
#[derive(Clone, Copy, Debug, PartialEq, Eq, Structural)]
pub struct Ray3 {
    pub origin: Vec3,
    pub direction: Vec3,
}

/// A distance along a ray as the fraction `num / den`, counted in lengths of
/// the ray's direction vector.
#[derive(Clone, Copy, Debug, PartialEq, Eq, Structural)]
pub struct Distance {
    pub num: i128,
    pub den: i128,
}

/// The ground: an infinite plane through `origin` with normal `up`.
#[derive(Clone, Copy, Debug, PartialEq, Eq, Structural)]
pub struct GroundPlane {
    pub origin: Vec3,
    pub up: Vec3,
}

/// A request to draw a circle for the current frame only.
#[derive(Clone, Copy, Debug, PartialEq, Eq, Structural)]
pub struct CircleDraw {
    pub center: Vec3,
    /// The circle's face normal.
    pub normal: Vec3,
    pub radius: i32,
}

impl Distance {
    /// A positive denominator, and both parts within the bounds that
    /// `intersect_plane` keeps.
    pub open spec fn wf(&self) -> bool {
        &&& 0 < self.den <= DISTANCE_NUM_BOUND
        &&& -DISTANCE_NUM_BOUND <= self.num <= DISTANCE_NUM_BOUND
    }
}

/// How fast the ray approaches the plane: zero when it runs parallel to it.
pub open spec fn plane_denominator(ray: Ray3, normal: Vec3) -> int {
    dot(normal, ray.direction)
}

/// Height of the plane above the ray's origin, measured along the normal.
pub open spec fn plane_numerator(ray: Ray3, plane_origin: Vec3, normal: Vec3) -> int {
    dot_diff(plane_origin, ray.origin, normal)
}

/// The ray meets the plane ahead of its origin: the denominator is not zero
/// and the distance `numerator / denominator` is positive.
pub open spec fn hits(ray: Ray3, plane_origin: Vec3, normal: Vec3) -> bool {
    let n = plane_numerator(ray, plane_origin, normal);
    let d = plane_denominator(ray, normal);
    (n > 0 && d > 0) || (n < 0 && d < 0)
}

/// The distance to the plane, written with a positive denominator.
pub open spec fn hit_distance(ray: Ray3, plane_origin: Vec3, normal: Vec3) -> Distance {
    let n = plane_numerator(ray, plane_origin, normal);
    let d = plane_denominator(ray, normal);
    if d > 0 {
        Distance { num: n as i128, den: d as i128 }
    } else {
        Distance { num: (0 - n) as i128, den: (0 - d) as i128 }
    }
}

/// One coordinate of `origin + direction * t`, rounded down to the grid.
pub open spec fn point_coord(o: i32, d: i32, t: Distance) -> int {
    (o * t.den + d * t.num) / (t.den as int)
}

pub open spec fn fits_i32(v: int) -> bool {
    i32::MIN <= v <= i32::MAX
}

/// One coordinate of the marker's center: the point on the plane lifted by
/// a hundredth of the up vector.
pub open spec fn marker_coord(o: i32, d: i32, u: i32, t: Distance) -> int {
    point_coord(o, d, t) + (u as int) / (MARKER_LIFT as int)
}

/// The marker's center, when each of its coordinates is on the grid.
pub open spec fn marker_center(ray: Ray3, ground: GroundPlane, t: Distance) -> Option<Vec3> {
    let o = ray.origin;
    let d = ray.direction;
    let u = ground.up;
    if fits_i32(point_coord(o.x, d.x, t)) && fits_i32(point_coord(o.y, d.y, t))
        && fits_i32(point_coord(o.z, d.z, t)) && fits_i32(marker_coord(o.x, d.x, u.x, t))
        && fits_i32(marker_coord(o.y, d.y, u.y, t)) && fits_i32(marker_coord(o.z, d.z, u.z, t)) {
        Some(
            Vec3 {
                x: marker_coord(o.x, d.x, u.x, t) as i32,
                y: marker_coord(o.y, d.y, u.y, t) as i32,
                z: marker_coord(o.z, d.z, u.z, t) as i32,
            },
        )
    } else {
        None
    }
}

/// What the cursor probe draws for a pointer ray, if anything.
pub open spec fn probe(ray: Option<Ray3>, ground: GroundPlane) -> Option<CircleDraw> {
    match ray {
        None => None,
        Some(r) => {
            if !hits(r, ground.origin, ground.up) {
                None
            } else {
                match marker_center(r, ground, hit_distance(r, ground.origin, ground.up)) {
                    None => None,
                    Some(c) => Some(CircleDraw { center: c, normal: ground.up, radius: MARKER_RADIUS }),
                }
            }
        },
    }
}

/// Distance along `ray` to the plane through `plane_origin` with normal
/// `normal`; `None` when the ray runs parallel to the plane, starts on it or
/// points away from it.
pub fn intersect_plane(ray: &Ray3, plane_origin: &Vec3, normal: &Vec3) -> (r: Option<Distance>)
    ensures
        r == (if hits(*ray, *plane_origin, *normal) {
            Some(hit_distance(*ray, *plane_origin, *normal))
        } else {
            None
        }),
        plane_denominator(*ray, *normal) == 0 ==> r is None,
        r matches Some(t) ==> t.wf() && t.num > 0,
{
    let den = dot_exec(normal, &ray.direction);
    let num = dot_diff_exec(plane_origin, &ray.origin, normal);
    if (num > 0 && den > 0) || (num < 0 && den < 0) {
        if den > 0 {
            Some(Distance { num, den })
        } else {
            Some(Distance { num: -num, den: -den })
        }
    } else {
        None
    }
}

/// `origin + direction * t` along `ray`, rounded down to the grid, or
/// `None` when a coordinate falls outside it.
pub fn get_point(ray: &Ray3, t: &Distance) -> (r: Option<Vec3>)
    requires
        t.wf(),
    ensures
        r == (if fits_i32(point_coord(ray.origin.x, ray.direction.x, *t)) && fits_i32(
            point_coord(ray.origin.y, ray.direction.y, *t),
        ) && fits_i32(point_coord(ray.origin.z, ray.direction.z, *t)) {
            Some(
                Vec3 {
                    x: point_coord(ray.origin.x, ray.direction.x, *t) as i32,
                    y: point_coord(ray.origin.y, ray.direction.y, *t) as i32,
                    z: point_coord(ray.origin.z, ray.direction.z, *t) as i32,
                },
            )
        } else {
            None
        }),
{
    let x = point_coord_exec(ray.origin.x, ray.direction.x, t);
    let y = point_coord_exec(ray.origin.y, ray.direction.y, t);
    let z = point_coord_exec(ray.origin.z, ray.direction.z, t);
    match (x, y, z) {
        (Some(x), Some(y), Some(z)) => Some(Vec3 { x, y, z }),
        _ => None,
    }
}

fn point_coord_exec(o: i32, d: i32, t: &Distance) -> (r: Option<i32>)
    requires
        t.wf(),
    ensures
        r == (if fits_i32(point_coord(o, d, *t)) {
            Some(point_coord(o, d, *t) as i32)
        } else {
            None
        }),
{
    proof {
        lemma_scaled_sum_bound(o as int, d as int, t.den as int, t.num as int);
    }
    let s: i128 = o as i128 * t.den + d as i128 * t.num;
    match s.checked_div_euclid(t.den) {
        Some(q) => {
            if q < i32::MIN as i128 || q > i32::MAX as i128 {
                None
            } else {
                Some(q as i32)
            }
        },
        None => None,
    }
}

proof fn lemma_scaled_sum_bound(o: int, d: int, den: int, num: int)
    requires
        i32::MIN <= o <= i32::MAX,
        i32::MIN <= d <= i32::MAX,
        0 < den <= DISTANCE_NUM_BOUND,
        -DISTANCE_NUM_BOUND <= num <= DISTANCE_NUM_BOUND,
    ensures
        -0x10_0000_0000_0000_0000_0000_0000 <= o * den <= 0x10_0000_0000_0000_0000_0000_0000,
        -0x10_0000_0000_0000_0000_0000_0000 <= d * num <= 0x10_0000_0000_0000_0000_0000_0000,
{
    assert(-0x10_0000_0000_0000_0000_0000_0000 <= o * den <= 0x10_0000_0000_0000_0000_0000_0000) by (nonlinear_arith)
        requires
            -0x8000_0000 <= o <= 0x8000_0000,
            0 < den <= 0x4_0000_0000_0000_0000,
    ;
    assert(-0x10_0000_0000_0000_0000_0000_0000 <= d * num <= 0x10_0000_0000_0000_0000_0000_0000) by (nonlinear_arith)
        requires
            -0x8000_0000 <= d <= 0x8000_0000,
            -0x4_0000_0000_0000_0000 <= num <= 0x4_0000_0000_0000_0000,
    ;
}

/// The cursor probe of one frame. `ray` is the world-space ray through the
/// pointer, `None` when there is no pointer over the viewport or the ray
/// cannot be formed. Returns the marker to draw where the ray meets the
/// ground, lifted slightly off it and facing along the ground's up vector;
/// `None` when there is no pointer, the ray misses the ground, or the marker
/// would fall off the fixed-point grid.
pub fn draw_cursor(ray: Option<Ray3>, ground: &GroundPlane) -> (r: Option<CircleDraw>)
    ensures
        r == probe(ray, *ground),
        ray is None ==> r is None,
        ray matches Some(v) ==> (plane_denominator(v, ground.up) == 0 ==> r is None),
{
    let v = match ray {
        None => return None,
        Some(v) => v,
    };
    let t = match intersect_plane(&v, &ground.origin, &ground.up) {
        None => return None,
        Some(t) => t,
    };
    let point = match get_point(&v, &t) {
        None => return None,
        Some(p) => p,
    };
    let x = lift(point.x, ground.up.x);
    let y = lift(point.y, ground.up.y);
    let z = lift(point.z, ground.up.z);
    match (x, y, z) {
        (Some(x), Some(y), Some(z)) => Some(
            CircleDraw { center: Vec3 { x, y, z }, normal: ground.up, radius: MARKER_RADIUS },
        ),
        _ => None,
    }
}

/// `p + u / MARKER_LIFT` (the quotient rounded down), if it fits.
fn lift(p: i32, u: i32) -> (r: Option<i32>)
    ensures
        r == (if fits_i32(p + (u as int) / (MARKER_LIFT as int)) {
            Some((p + (u as int) / (MARKER_LIFT as int)) as i32)
        } else {
            None
        }),
{
    match u.checked_div_euclid(MARKER_LIFT) {
        Some(q) => {
            let s: i64 = p as i64 + q as i64;
            if s < i32::MIN as i64 || s > i32::MAX as i64 {
                None
            } else {
                Some(s as i32)
            }
        },
        None => None,
    }
}

} // verus!
