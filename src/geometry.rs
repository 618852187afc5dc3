use vstd::prelude::*;

verus! {

/// One world unit in the fixed-point scale of `Vec3`.
pub const UNIT: i64 = 1_000_000;

/// A vector in fixed point: each component counts millionths of a world unit.
#[derive(Clone, Copy, Debug, PartialEq, Eq, Structural)]
pub struct Vec3 {
    pub x: i64,
    pub y: i64,
    pub z: i64,
}

impl Vec3 {
    pub fn new(x: i64, y: i64, z: i64) -> (r: Vec3)
        ensures
            r.x == x && r.y == y && r.z == z,
    {
        Vec3 { x, y, z }
    }

    pub fn zero() -> (r: Vec3)
        ensures
            r.x == 0 && r.y == 0 && r.z == 0,
    {
        Vec3 { x: 0, y: 0, z: 0 }
    }

    /// Every component lies within one unit, as for a unit vector.
    pub open spec fn within_unit(self) -> bool {
        -UNIT <= self.x <= UNIT && -UNIT <= self.y <= UNIT && -UNIT <= self.z <= UNIT
    }
}

/// `r` is the integer square root of `m`.
pub open spec fn is_root(m: int, r: int) -> bool {
    0 <= r && r * r <= m && m < (r + 1) * (r + 1)
}

/// The integer square root of a non-negative `m`: the largest `r` with `r * r <= m`.
pub open spec fn isqrt(m: int) -> int {
    choose|r: int| is_root(m, r)
}

proof fn lemma_square_grows(a: int, b: int)
    requires
        0 <= a <= b,
    ensures
        a * a <= b * b,
{
    assert(a * a <= b * b) by (nonlinear_arith)
        requires
            0 <= a <= b,
    ;
}

/// The integer square root is unique.
pub proof fn lemma_root_unique(m: int, r1: int, r2: int)
    requires
        is_root(m, r1),
        is_root(m, r2),
    ensures
        r1 == r2,
{
    if r1 < r2 {
        lemma_square_grows(r1 + 1, r2);
    } else if r2 < r1 {
        lemma_square_grows(r2 + 1, r1);
    }
}

/// Integer square root of a squared length, found by bisection.
pub fn isqrt_u64(m: u64) -> (r: u64)
    ensures
        r == isqrt(m as int),
        is_root(m as int, r as int),
{
    let mut lo: u64 = 0;
    let mut hi: u64 = 0x1_0000_0000;
    assert(0x1_0000_0000 * 0x1_0000_0000 > u64::MAX) by (nonlinear_arith);
    while lo + 1 < hi
        invariant
            lo < hi <= 0x1_0000_0000,
            lo * lo <= m,
            m < hi * hi,
        decreases hi - lo,
    {
        let mid: u64 = lo + (hi - lo) / 2;
        assert(mid * mid <= 0xffff_ffff * 0xffff_ffff) by (nonlinear_arith)
            requires
                mid <= 0xffff_ffff,
        ;
        if mid * mid <= m {
            lo = mid;
        } else {
            hi = mid;
        }
    }
    proof {
        assert(is_root(m as int, lo as int));
        let c = isqrt(m as int);
        assert(is_root(m as int, c));
        lemma_root_unique(m as int, c, lo as int);
    }
    lo
}

} // verus!
