use vstd::prelude::*;
use crate::geom::{Vec2, div_trunc, div_trunc_exec};

verus! {

pub const EXPLOSION_PART_MIN_ADD_SPEED: u64 = 10_000;
pub const EXPLOSION_PART_MAX_ADD_SPEED: u64 = 25_000;

/// Which debris template a destroyed entity breaks into.
#[derive(Clone, Copy, Debug, PartialEq, Eq, Structural)]
pub enum ExplosionShapeId {
    RocketDebris,
    AsteroidDebris,
    UfoDebris,
}

/// A burst of cosmetic debris at a destroyed entity's last pose.
#[derive(Clone, Copy, Debug, PartialEq, Eq, Structural)]
pub struct SpawnExplosion {
    pub shape_id: ExplosionShapeId,
    pub shape_scale: i64,
    pub position: Vec2,
    pub velocity: Vec2,
    pub heading_angle: u64,
    pub rotational_velocity: i64,
    pub despawn_after_ms: u64,
}

/// The direction (length about 1000) each debris part of a template flies
/// off in, before it is turned to the entity's heading.
pub open spec fn part_directions(shape: ExplosionShapeId) -> Seq<Vec2> {
    match shape {
        ExplosionShapeId::RocketDebris => seq![
            Vec2 { x: 707, y: (-707) as i64 },
            Vec2 { x: (-707) as i64, y: 707 },
        ],
        ExplosionShapeId::AsteroidDebris => seq![
            Vec2 { x: (-707) as i64, y: 707 },
            Vec2 { x: 894, y: 447 },
            Vec2 { x: (-447) as i64, y: (-894) as i64 },
        ],
        ExplosionShapeId::UfoDebris => seq![
            Vec2 { x: 0, y: 1000 },
            Vec2 { x: 0, y: (-1000) as i64 },
        ],
    }
}

pub fn explosion_part_directions(shape: ExplosionShapeId) -> (r: Vec<Vec2>)
    ensures
        r@ == part_directions(shape),
        forall|i: int|
            0 <= i < r@.len() ==> -1000 <= #[trigger] r@[i].x <= 1000 && -1000 <= r@[i].y <= 1000,
{
    let r = match shape {
        ExplosionShapeId::RocketDebris => vec![Vec2 { x: 707, y: -707 }, Vec2 { x: -707, y: 707 }],
        ExplosionShapeId::AsteroidDebris => vec![
            Vec2 { x: -707, y: 707 },
            Vec2 { x: 894, y: 447 },
            Vec2 { x: -447, y: -894 },
        ],
        ExplosionShapeId::UfoDebris => vec![Vec2 { x: 0, y: 1000 }, Vec2 { x: 0, y: -1000 }],
    };
    assert(r@ =~= part_directions(shape));
    r
}

/// `d` turned by the rotation whose direction vector (length about 1000)
/// is `h`.
pub open spec fn rotate(d: Vec2, h: Vec2) -> (int, int) {
    (div_trunc(d.x * h.x - d.y * h.y, 1000), div_trunc(d.x * h.y + d.y * h.x, 1000))
}

pub fn rotate_exec(d: Vec2, h: Vec2) -> (r: Vec2)
    requires
        -1000 <= d.x <= 1000 && -1000 <= d.y <= 1000,
        -1000 <= h.x <= 1000 && -1000 <= h.y <= 1000,
    ensures
        r.x == rotate(d, h).0 && r.y == rotate(d, h).1,
        -2000 <= r.x <= 2000 && -2000 <= r.y <= 2000,
{
    proof {
        assert(-1_000_000 <= d.x * h.x <= 1_000_000 && -1_000_000 <= d.y * h.y <= 1_000_000
            && -1_000_000 <= d.x * h.y <= 1_000_000 && -1_000_000 <= d.y * h.x <= 1_000_000) by (
        nonlinear_arith)
            requires
                -1000 <= d.x <= 1000 && -1000 <= d.y <= 1000,
                -1000 <= h.x <= 1000 && -1000 <= h.y <= 1000,
        ;
    }
    let x = div_trunc_exec(d.x * h.x - d.y * h.y, 1000);
    let y = div_trunc_exec(d.x * h.y + d.y * h.x, 1000);
    Vec2 { x, y }
}

} // verus!
