use vstd::prelude::*;

verus! {

/// Number of fixed-point steps in one world unit of length.
pub const UNIT: i32 = 1_000_000;

/// A point or a direction in world space, each coordinate in `1 / UNIT`
/// world units.
#[derive(Clone, Copy, Debug, PartialEq, Eq, Structural)]
pub struct Vec3 {
    pub x: i32,
    pub y: i32,
    pub z: i32,
}

impl Vec3 {
    /// A direction whose coordinates lie within one world unit, as those of
    /// any unit vector do.
    pub open spec fn is_direction(&self) -> bool {
        -UNIT <= self.x <= UNIT && -UNIT <= self.y <= UNIT && -UNIT <= self.z <= UNIT
    }
}

/// Dot product of two vectors, as a mathematical integer.
pub open spec fn dot(a: Vec3, b: Vec3) -> int {
    a.x * b.x + a.y * b.y + a.z * b.z
}

/// Dot product of `a - b` with `c`.
pub open spec fn dot_diff(a: Vec3, b: Vec3, c: Vec3) -> int {
    (a.x - b.x) * c.x + (a.y - b.y) * c.y + (a.z - b.z) * c.z
}

pub fn dot_exec(a: &Vec3, b: &Vec3) -> (r: i128)
    ensures
        r == dot(*a, *b),
        -0x2_0000_0000_0000_0000 <= r <= 0x2_0000_0000_0000_0000,
{
    proof {
        lemma_product_bound(a.x as int, b.x as int);
        lemma_product_bound(a.y as int, b.y as int);
        lemma_product_bound(a.z as int, b.z as int);
    }
    let x: i128 = a.x as i128 * b.x as i128;
    let y: i128 = a.y as i128 * b.y as i128;
    let z: i128 = a.z as i128 * b.z as i128;
    x + y + z
}

pub fn dot_diff_exec(a: &Vec3, b: &Vec3, c: &Vec3) -> (r: i128)
    ensures
        r == dot_diff(*a, *b, *c),
        -0x2_0000_0000_0000_0000 <= r <= 0x2_0000_0000_0000_0000,
{
    let dx: i128 = a.x as i128 - b.x as i128;
    let dy: i128 = a.y as i128 - b.y as i128;
    let dz: i128 = a.z as i128 - b.z as i128;
    proof {
        lemma_product_bound(dx as int, c.x as int);
        lemma_product_bound(dy as int, c.y as int);
        lemma_product_bound(dz as int, c.z as int);
    }
    dx * c.x as i128 + dy * c.y as i128 + dz * c.z as i128
}

/// A factor of at most `2^32` in size times one of at most `2^31` stays
/// within `2^63`.
pub proof fn lemma_product_bound(a: int, b: int)
    requires
        -0x1_0000_0000 <= a <= 0x1_0000_0000,
        -0x8000_0000 <= b <= 0x8000_0000,
    ensures
        -0x8000_0000_0000_0000 <= a * b <= 0x8000_0000_0000_0000,
{
    assert(-0x8000_0000_0000_0000 <= a * b <= 0x8000_0000_0000_0000) by (nonlinear_arith)
        requires
            -0x1_0000_0000 <= a <= 0x1_0000_0000,
            -0x8000_0000 <= b <= 0x8000_0000,
    ;
}

} // verus!
