use vstd::prelude::*;
use crate::geom::{Vec2, COORD_LIMIT, EDGE_LIMIT, edge_ok, vec_ok};

verus! {

/// The shape used for overlap tests: a circle, or a capsule (the set of
/// points within `radius` of the segment from `center - arm` to
/// `center + arm`).
#[derive(Clone, Copy, Debug, PartialEq, Eq, Structural)]
pub enum Collider {
    Circle { center: Vec2, radius: i64 },
    Capsule { center: Vec2, arm: Vec2, radius: i64 },
}

pub open spec fn dot2(ax: int, ay: int, bx: int, by: int) -> int {
    ax * bx + ay * by
}

/// The squared distance from `p` to the segment `a`..`b` is below `r2`.
pub open spec fn point_segment_within(p: (int, int), a: (int, int), b: (int, int), r2: int) -> bool {
    let (wx, wy) = (p.0 - a.0, p.1 - a.1);
    let (dx, dy) = (b.0 - a.0, b.1 - a.1);
    let t = dot2(wx, wy, dx, dy);
    let dd = dot2(dx, dy, dx, dy);
    if t <= 0 {
        dot2(wx, wy, wx, wy) < r2
    } else if t >= dd {
        dot2(p.0 - b.0, p.1 - b.1, p.0 - b.0, p.1 - b.1) < r2
    } else {
        dot2(wx, wy, wx, wy) * dd - t * t < r2 * dd
    }
}

/// Sign of the turn from `a`->`b` to `a`->`c`.
pub open spec fn orient(a: (int, int), b: (int, int), c: (int, int)) -> int {
    (b.0 - a.0) * (c.1 - a.1) - (b.1 - a.1) * (c.0 - a.0)
}

pub open spec fn opposite_sides(u: int, v: int) -> bool {
    (u > 0 && v < 0) || (u < 0 && v > 0)
}

/// The segments `a1`..`b1` and `a2`..`b2` cross at a point inside both.
pub open spec fn segments_cross(a1: (int, int), b1: (int, int), a2: (int, int), b2: (int, int)) -> bool {
    opposite_sides(orient(a1, b1, a2), orient(a1, b1, b2)) && opposite_sides(
        orient(a2, b2, a1),
        orient(a2, b2, b1),
    )
}

/// The two segments come closer than `r` to each other.
pub open spec fn segments_within(
    a1: (int, int),
    b1: (int, int),
    a2: (int, int),
    b2: (int, int),
    r: int,
) -> bool {
    r > 0 && (segments_cross(a1, b1, a2, b2) || point_segment_within(a1, a2, b2, r * r)
        || point_segment_within(b1, a2, b2, r * r) || point_segment_within(a2, a1, b1, r * r)
        || point_segment_within(b2, a1, b1, r * r))
}

impl Collider {
    pub open spec fn wf(self) -> bool {
        match self {
            Collider::Circle { center, radius } => vec_ok(center) && 0 <= radius <= EDGE_LIMIT,
            Collider::Capsule { center, arm, radius } => vec_ok(center) && edge_ok(arm.x as int)
                && edge_ok(arm.y as int) && 0 <= radius <= EDGE_LIMIT,
        }
    }

    pub open spec fn radius_spec(self) -> int {
        match self {
            Collider::Circle { radius, .. } => radius as int,
            Collider::Capsule { radius, .. } => radius as int,
        }
    }

    pub open spec fn center_spec(self) -> Vec2 {
        match self {
            Collider::Circle { center, .. } => center,
            Collider::Capsule { center, .. } => center,
        }
    }

    /// The two ends of the shape's core segment (the same point for a circle).
    pub open spec fn spine(self) -> ((int, int), (int, int)) {
        match self {
            Collider::Circle { center, .. } => (
                (center.x as int, center.y as int),
                (center.x as int, center.y as int),
            ),
            Collider::Capsule { center, arm, .. } => (
                (center.x - arm.x, center.y - arm.y),
                (center.x + arm.x, center.y + arm.y),
            ),
        }
    }

    /// The two shapes overlap: their core segments come closer than the sum
    /// of their radii.
    pub open spec fn overlaps(self, other: Collider) -> bool {
        segments_within(
            self.spine().0,
            self.spine().1,
            other.spine().0,
            other.spine().1,
            self.radius_spec() + other.radius_spec(),
        )
    }

    pub fn circle(position: Vec2, radius: i64) -> (r: Collider)
        ensures
            r == (Collider::Circle { center: position, radius }),
    {
        Collider::Circle { center: position, radius }
    }

    pub fn capsule(position: Vec2, arm: Vec2, radius: i64) -> (r: Collider)
        ensures
            r == (Collider::Capsule { center: position, arm, radius }),
    {
        Collider::Capsule { center: position, arm, radius }
    }

    /// The same shape centred on `position`.
    pub open spec fn at(self, position: Vec2) -> Collider {
        match self {
            Collider::Circle { radius, .. } => Collider::Circle { center: position, radius },
            Collider::Capsule { arm, radius, .. } => Collider::Capsule {
                center: position,
                arm,
                radius,
            },
        }
    }

    /// Moves the shape so that it is centred on `position`.
    pub fn set_position(&mut self, position: Vec2)
        ensures
            *final(self) == old(self).at(position),
    {
        match *self {
            Collider::Circle { radius, .. } => {
                *self = Collider::Circle { center: position, radius };
            },
            Collider::Capsule { arm, radius, .. } => {
                *self = Collider::Capsule { center: position, arm, radius };
            },
        }
    }

    fn spine_exec(&self) -> (r: ((i64, i64), (i64, i64)))
        requires
            self.wf(),
        ensures
            r.0.0 == self.spine().0.0 && r.0.1 == self.spine().0.1,
            r.1.0 == self.spine().1.0 && r.1.1 == self.spine().1.1,
            end_ok(r.0.0 as int) && end_ok(r.0.1 as int) && end_ok(r.1.0 as int) && end_ok(
                r.1.1 as int,
            ),
            -2 * EDGE_LIMIT <= r.1.0 - r.0.0 <= 2 * EDGE_LIMIT,
            -2 * EDGE_LIMIT <= r.1.1 - r.0.1 <= 2 * EDGE_LIMIT,
    {
        match *self {
            Collider::Circle { center, .. } => ((center.x, center.y), (center.x, center.y)),
            Collider::Capsule { center, arm, .. } => (
                (center.x - arm.x, center.y - arm.y),
                (center.x + arm.x, center.y + arm.y),
            ),
        }
    }

    fn radius(&self) -> (r: i64)
        ensures
            r == self.radius_spec(),
    {
        match *self {
            Collider::Circle { radius, .. } => radius,
            Collider::Capsule { radius, .. } => radius,
        }
    }
}

/// A coordinate of a segment end: a centre moved by at most one arm.
pub open spec fn end_ok(v: int) -> bool {
    -(COORD_LIMIT + EDGE_LIMIT) <= v <= COORD_LIMIT + EDGE_LIMIT
}

/// Bound on the products below: all fit an `i128`.
pub open spec fn prod_ok(v: int) -> bool {
    -0x2000_0000_0000_0000_0000_0000_0000_0000 <= v <= 0x2000_0000_0000_0000_0000_0000_0000_0000
}

proof fn lemma_mul_abs(a: int, b: int, x: int, y: int)
    requires
        -x <= a <= x,
        -y <= b <= y,
    ensures
        -(x * y) <= a * b <= x * y,
{
    assert(-(x * y) <= a * b <= x * y) by (nonlinear_arith)
        requires
            -x <= a <= x,
            -y <= b <= y,
    ;
}

fn wide_mul(a: i128, b: i128) -> (r: i128)
    requires
        prod_ok(a * b),
    ensures
        r == a * b,
{
    a * b
}

/// Exact test of `point_segment_within` on segment ends of one collider and
/// a point of the other.
fn point_segment_within_exec(p: (i64, i64), a: (i64, i64), b: (i64, i64), r: i64) -> (res: bool)
    requires
        end_ok(p.0 as int) && end_ok(p.1 as int),
        end_ok(a.0 as int) && end_ok(a.1 as int),
        end_ok(b.0 as int) && end_ok(b.1 as int),
        -2 * EDGE_LIMIT <= b.0 - a.0 <= 2 * EDGE_LIMIT,
        -2 * EDGE_LIMIT <= b.1 - a.1 <= 2 * EDGE_LIMIT,
        0 <= r <= 2 * EDGE_LIMIT,
    ensures
        res == point_segment_within(
            (p.0 as int, p.1 as int),
            (a.0 as int, a.1 as int),
            (b.0 as int, b.1 as int),
            r * r,
        ),
{
    let wx = p.0 as i128 - a.0 as i128;
    let wy = p.1 as i128 - a.1 as i128;
    let dx = b.0 as i128 - a.0 as i128;
    let dy = b.1 as i128 - a.1 as i128;
    let ux = p.0 as i128 - b.0 as i128;
    let uy = p.1 as i128 - b.1 as i128;
    proof {
        lemma_mul_abs(wx as int, wx as int, 2_500_000_000, 2_500_000_000);
        lemma_mul_abs(wy as int, wy as int, 2_500_000_000, 2_500_000_000);
        lemma_mul_abs(ux as int, ux as int, 2_500_000_000, 2_500_000_000);
        lemma_mul_abs(uy as int, uy as int, 2_500_000_000, 2_500_000_000);
        lemma_mul_abs(wx as int, dx as int, 2_500_000_000, 500_000_000);
        lemma_mul_abs(wy as int, dy as int, 2_500_000_000, 500_000_000);
        lemma_mul_abs(dx as int, dx as int, 500_000_000, 500_000_000);
        lemma_mul_abs(dy as int, dy as int, 500_000_000, 500_000_000);
        lemma_mul_abs(r as int, r as int, 500_000_000, 500_000_000);
    }
    let t = wide_mul(wx, dx) + wide_mul(wy, dy);
    let dd = wide_mul(dx, dx) + wide_mul(dy, dy);
    let r2 = wide_mul(r as i128, r as i128);
    if t <= 0 {
        wide_mul(wx, wx) + wide_mul(wy, wy) < r2
    } else if t >= dd {
        wide_mul(ux, ux) + wide_mul(uy, uy) < r2
    } else {
        let ww = wide_mul(wx, wx) + wide_mul(wy, wy);
        proof {
            lemma_mul_abs(ww as int, dd as int, 12_500_000_000_000_000_000, 500_000_000_000_000_000);
            lemma_mul_abs(t as int, t as int, 2_500_000_000_000_000_000, 2_500_000_000_000_000_000);
            lemma_mul_abs(r2 as int, dd as int, 250_000_000_000_000_000, 500_000_000_000_000_000);
        }
        wide_mul(ww, dd) - wide_mul(t, t) < wide_mul(r2, dd)
    }
}

fn orient_exec(a: (i64, i64), b: (i64, i64), c: (i64, i64)) -> (r: i128)
    requires
        end_ok(a.0 as int) && end_ok(a.1 as int),
        end_ok(b.0 as int) && end_ok(b.1 as int),
        end_ok(c.0 as int) && end_ok(c.1 as int),
    ensures
        r == orient(
            (a.0 as int, a.1 as int),
            (b.0 as int, b.1 as int),
            (c.0 as int, c.1 as int),
        ),
{
    let bx = b.0 as i128 - a.0 as i128;
    let by = b.1 as i128 - a.1 as i128;
    let cx = c.0 as i128 - a.0 as i128;
    let cy = c.1 as i128 - a.1 as i128;
    proof {
        lemma_mul_abs(bx as int, cy as int, 2_500_000_000, 2_500_000_000);
        lemma_mul_abs(by as int, cx as int, 2_500_000_000, 2_500_000_000);
    }
    wide_mul(bx, cy) - wide_mul(by, cx)
}

fn opposite(u: i128, v: i128) -> (r: bool)
    ensures
        r == opposite_sides(u as int, v as int),
{
    (u > 0 && v < 0) || (u < 0 && v > 0)
}

/// Marks an entity that takes part in collision tests, with its shape.
#[derive(Clone, Copy, Debug, PartialEq, Eq, Structural)]
pub struct Collidable {
    pub collider: Collider,
}

impl Collidable {
    /// Whether the two shapes overlap.
    pub fn test_collision_with(&self, other: &Collidable) -> (r: bool)
        requires
            self.collider.wf(),
            other.collider.wf(),
        ensures
            r == self.collider.overlaps(other.collider),
    {
        let (a1, b1) = self.collider.spine_exec();
        let (a2, b2) = other.collider.spine_exec();
        let r = self.collider.radius() + other.collider.radius();
        if r <= 0 {
            return false;
        }
        let cross = opposite(orient_exec(a1, b1, a2), orient_exec(a1, b1, b2)) && opposite(
            orient_exec(a2, b2, a1),
            orient_exec(a2, b2, b1),
        );
        cross || point_segment_within_exec(a1, a2, b2, r) || point_segment_within_exec(
            b1,
            a2,
            b2,
            r,
        ) || point_segment_within_exec(a2, a1, b1, r) || point_segment_within_exec(b2, a1, b1, r)
    }
}

} // verus!
