use vstd::prelude::*;

verus! {

/// A 2D vector in fixed-point world units (one unit of the game's world is
/// 1000 of these).
#[derive(Clone, Copy, Debug, PartialEq, Eq, Structural)]
pub struct Vec2 {
    pub x: i64,
    pub y: i64,
}

/// Largest magnitude allowed for one coordinate, so that sums, products of
/// two coordinates and squared lengths stay inside `i64` / `u128`.
pub const COORD_LIMIT: i64 = 1_000_000_000;

pub open spec fn coord_ok(v: int) -> bool {
    -COORD_LIMIT <= v <= COORD_LIMIT
}

pub open spec fn vec_ok(v: Vec2) -> bool {
    coord_ok(v.x as int) && coord_ok(v.y as int)
}

pub open spec fn dot(a: Vec2, b: Vec2) -> int {
    a.x * b.x + a.y * b.y
}

pub open spec fn len_sq(a: Vec2) -> int {
    dot(a, a)
}

/// Quotient of `a / b` rounded toward zero, for `b > 0`.
pub open spec fn div_trunc(a: int, b: int) -> int {
    if a >= 0 { a / b } else { -((-a) / b) }
}

impl Vec2 {
    pub fn new(x: i64, y: i64) -> (r: Vec2)
        ensures
            r.x == x && r.y == y,
    {
        Vec2 { x, y }
    }

    pub open spec fn zero_spec() -> Vec2 {
        Vec2 { x: 0, y: 0 }
    }

    pub fn zero() -> (r: Vec2)
        ensures
            r == Vec2::zero_spec(),
    {
        Vec2 { x: 0, y: 0 }
    }
}

/// `a / b` rounded toward zero.
pub fn div_trunc_exec(a: i64, b: i64) -> (r: i64)
    requires
        a > i64::MIN,
        b > 0,
    ensures
        r == div_trunc(a as int, b as int),
        a >= 0 ==> 0 <= r && r * b <= a,
        a < 0 ==> r <= 0 && r * b >= a,
{
    if a >= 0 {
        let q = a / b;
        assert(q * b <= a && q >= 0) by (nonlinear_arith)
            requires
                q == a / b,
                a >= 0,
                b > 0,
        ;
        q
    } else {
        let m = -a;
        let q = m / b;
        assert(q * b <= m && q >= 0) by (nonlinear_arith)
            requires
                q == m / b,
                m >= 0,
                b > 0,
        ;
        assert((-q) * b >= a) by (nonlinear_arith)
            requires
                q * b <= m,
                m == -a,
        ;
        -q
    }
}

/// `v * num / den` rounded toward zero, for one coordinate.
pub fn scale_trunc(v: i64, num: i64, den: i64) -> (r: i64)
    requires
        coord_ok(v as int),
        0 <= num <= COORD_LIMIT,
        0 < den,
    ensures
        r == div_trunc(v * num, den as int),
{
    proof {
        assert(-COORD_LIMIT * COORD_LIMIT <= v * num <= COORD_LIMIT * COORD_LIMIT) by (nonlinear_arith)
            requires
                coord_ok(v as int),
                0 <= num <= COORD_LIMIT,
        ;
    }
    let p: i128 = (v as i128) * (num as i128);
    if p >= 0 {
        let q = p / (den as i128);
        proof {
            assert(q <= p) by (nonlinear_arith)
                requires
                    q as int == (p as int) / (den as int),
                    p >= 0,
                    den > 0,
            ;
        }
        q as i64
    } else {
        let m: i128 = -p;
        let q = m / (den as i128);
        proof {
            assert(q <= m) by (nonlinear_arith)
                requires
                    q as int == (m as int) / (den as int),
                    m >= 0,
                    den > 0,
            ;
        }
        -(q as i64)
    }
}

} // verus!

verus! {

/// The visible world rectangle, in the units of `Vec2`.
#[derive(Clone, Copy, Debug, PartialEq, Eq, Structural)]
pub struct WorldBoundaries {
    pub left: i64,
    pub right: i64,
    pub top: i64,
    pub bottom: i64,
}

/// Largest magnitude of a world edge or of an entity's wrap radius: an
/// edge pushed out by a radius stays well inside the coordinate range.
pub const EDGE_LIMIT: i64 = 250_000_000;

pub open spec fn edge_ok(v: int) -> bool {
    -EDGE_LIMIT <= v <= EDGE_LIMIT
}

impl WorldBoundaries {
    pub open spec fn wf(self) -> bool {
        edge_ok(self.left as int) && edge_ok(self.right as int) && edge_ok(self.top as int)
            && edge_ok(self.bottom as int) && self.left <= self.right && self.bottom <= self.top
    }
}

/// Smallest `n` with `n * n >= s`.
pub open spec fn is_ceil_sqrt(n: int, s: int) -> bool {
    n >= 0 && n * n >= s && (n == 0 || (n - 1) * (n - 1) < s)
}

/// Bound on squared lengths handled by `ceil_sqrt`.
pub const SQ_LIMIT: u128 = 0x1_0000_0000_0000_0000_0000_0000;

/// Rounded-up integer square root.
pub fn ceil_sqrt(s: u128) -> (n: u64)
    requires
        s <= SQ_LIMIT,
    ensures
        is_ceil_sqrt(n as int, s as int),
{
    let mut lo: u64 = 0;
    let mut hi: u64 = 0x1_0000_0000_0000;
    assert(0x1_0000_0000_0000u64 as int * 0x1_0000_0000_0000u64 as int == SQ_LIMIT) by (
    nonlinear_arith);
    while lo < hi
        invariant
            lo <= hi <= 0x1_0000_0000_0000u64,
            hi as int * hi as int >= s,
            lo == 0 || (lo - 1) * (lo - 1) < s,
        decreases hi - lo,
    {
        let mid: u64 = lo + (hi - lo) / 2;
        assert(mid as int * mid as int <= 0x1_0000_0000_0000u64 as int * 0x1_0000_0000_0000u64 as int)
            by (nonlinear_arith)
            requires
                mid <= 0x1_0000_0000_0000u64,
        ;
        let sq: u128 = (mid as u128) * (mid as u128);
        if sq >= s {
            hi = mid;
        } else {
            lo = mid + 1;
        }
    }
    lo
}

} // verus!
