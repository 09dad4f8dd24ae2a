use vstd::prelude::*;
use crate::geom::{Vec2, div_trunc, len_sq, scale_trunc, coord_ok, vec_ok};
use crate::random::random_in;
use crate::timer::Timer;

verus! {

#[derive(Clone, Copy, Debug, PartialEq, Eq, Structural)]
pub enum AsteroidSize {
    Small,
    Medium,
    Large,
}

/// Which of the precomputed silhouettes an asteroid is drawn with.
#[derive(Clone, Copy, Debug, PartialEq, Eq, Structural)]
pub enum AsteroidShapeId {
    A,
    B,
    C,
    D,
    E,
}

#[derive(Clone, Copy, Debug, PartialEq, Eq, Structural)]
pub struct Asteroid {
    pub size: AsteroidSize,
}

/// Marks an entity that asteroids can hit.
#[derive(Clone, Copy, Debug, PartialEq, Eq, Structural)]
pub struct AsteroidCollidable;

/// Sent once for each asteroid destroyed, with its last state.
#[derive(Clone, Copy, Debug, PartialEq, Eq, Structural)]
pub struct AsteroidDestroyedEvent {
    pub size: AsteroidSize,
    pub position: Vec2,
    pub velocity: Vec2,
}

/// Everything needed to place one asteroid in the world.
#[derive(Clone, Copy, Debug, PartialEq, Eq, Structural)]
pub struct AsteroidSpawn {
    pub size: AsteroidSize,
    pub shape: AsteroidShapeId,
    pub position: Vec2,
    pub velocity: Vec2,
    /// Spin, in angle units per second.
    pub rotation: i64,
    pub invulnerable: Option<Timer>,
}

/// Distance of each fragment from the parent's centre.
pub const CHILD_ASTEROID_SPAWN_DISTANCE: i64 = 2000;
pub const CHILD_ASTEROID_MIN_ADD_SPEED: u64 = 5000;
pub const CHILD_ASTEROID_MAX_ADD_SPEED: u64 = 15000;
/// Fragments keep `4 / 5` of the parent's velocity.
pub const CHUNK_ASTEROID_VELOCITY_NUM: i64 = 4;
pub const CHUNK_ASTEROID_VELOCITY_DEN: i64 = 5;
pub const CHUNK_ASTEROID_INVULNERABLE_MS: u64 = 500;
pub const ASTEROID_MIN_SPEED: i64 = 5000;
pub const ASTEROID_MAX_SPEED: i64 = 50000;
pub const ASTEROID_MIN_SPIN_RATE: u64 = 3277;
pub const ASTEROID_MAX_SPIN_RATE: u64 = 26214;
/// Diameter of the asteroid silhouettes at scale 1.
pub const ASTEROID_DIAMETER: i64 = 10000;

/// Size scale of an asteroid: its radius is this times half the diameter.
pub open spec fn scale_spec(size: AsteroidSize) -> int {
    match size {
        AsteroidSize::Small => 1,
        AsteroidSize::Medium => 2,
        AsteroidSize::Large => 3,
    }
}

pub fn asteroid_scale(size: AsteroidSize) -> (r: i64)
    ensures
        r == scale_spec(size),
{
    match size {
        AsteroidSize::Small => 1,
        AsteroidSize::Medium => 2,
        AsteroidSize::Large => 3,
    }
}

/// Collision and wrap radius of an asteroid of the given size.
pub fn asteroid_radius(size: AsteroidSize) -> (r: i64)
    ensures
        r == scale_spec(size) * ASTEROID_DIAMETER / 2,
{
    asteroid_scale(size) * (ASTEROID_DIAMETER / 2)
}

/// The size of the fragments a destroyed asteroid breaks into, if any.
pub open spec fn child_size_spec(size: AsteroidSize) -> Option<AsteroidSize> {
    match size {
        AsteroidSize::Large => Some(AsteroidSize::Medium),
        AsteroidSize::Medium => Some(AsteroidSize::Small),
        AsteroidSize::Small => None,
    }
}

pub open spec fn fragment_count_spec(size: AsteroidSize) -> nat {
    match size {
        AsteroidSize::Small => 0,
        _ => 2,
    }
}

pub fn child_size(size: AsteroidSize) -> (r: Option<AsteroidSize>)
    ensures
        r == child_size_spec(size),
{
    match size {
        AsteroidSize::Large => Some(AsteroidSize::Medium),
        AsteroidSize::Medium => Some(AsteroidSize::Small),
        AsteroidSize::Small => None,
    }
}

/// Number of fragments a destroyed asteroid of this size breaks into.
pub fn fragment_count(size: AsteroidSize) -> (r: u64)
    ensures
        r == fragment_count_spec(size),
{
    match size {
        AsteroidSize::Small => 0,
        _ => 2,
    }
}

/// Points for destroying an asteroid of this size.
pub open spec fn asteroid_points_spec(size: AsteroidSize) -> int {
    match size {
        AsteroidSize::Small => 10,
        AsteroidSize::Medium => 7,
        AsteroidSize::Large => 5,
    }
}

pub fn get_points_for_asteroid(size: AsteroidSize) -> (r: u32)
    ensures
        r == asteroid_points_spec(size),
{
    match size {
        AsteroidSize::Small => 10,
        AsteroidSize::Medium => 7,
        AsteroidSize::Large => 5,
    }
}

/// Number of entries in the direction table.
pub const DIRECTION_COUNT: u64 = 12;

/// Twelve directions, each an integer vector of length exactly 5.
pub open spec fn direction_spec(i: int) -> Vec2 {
    if i == 0 {
        Vec2 { x: 5, y: 0 }
    } else if i == 1 {
        Vec2 { x: 4, y: 3 }
    } else if i == 2 {
        Vec2 { x: 3, y: 4 }
    } else if i == 3 {
        Vec2 { x: 0, y: 5 }
    } else if i == 4 {
        Vec2 { x: (-3) as i64, y: 4 }
    } else if i == 5 {
        Vec2 { x: (-4) as i64, y: 3 }
    } else if i == 6 {
        Vec2 { x: (-5) as i64, y: 0 }
    } else if i == 7 {
        Vec2 { x: (-4) as i64, y: (-3) as i64 }
    } else if i == 8 {
        Vec2 { x: (-3) as i64, y: (-4) as i64 }
    } else if i == 9 {
        Vec2 { x: 0, y: (-5) as i64 }
    } else if i == 10 {
        Vec2 { x: 3, y: (-4) as i64 }
    } else {
        Vec2 { x: 4, y: (-3) as i64 }
    }
}

/// Every direction of the table has length exactly 5.
pub proof fn lemma_direction_len(i: int)
    requires
        0 <= i < DIRECTION_COUNT,
    ensures
        len_sq(direction_spec(i)) == 25,
{
    if i == 0 {
        assert(direction_spec(i).x == 5 && direction_spec(i).y == 0);
        assert((5) * (5) + (0) * (0) == 25) by (nonlinear_arith);
    } else if i == 1 {
        assert(direction_spec(i).x == 4 && direction_spec(i).y == 3);
        assert((4) * (4) + (3) * (3) == 25) by (nonlinear_arith);
    } else if i == 2 {
        assert(direction_spec(i).x == 3 && direction_spec(i).y == 4);
        assert((3) * (3) + (4) * (4) == 25) by (nonlinear_arith);
    } else if i == 3 {
        assert(direction_spec(i).x == 0 && direction_spec(i).y == 5);
        assert((0) * (0) + (5) * (5) == 25) by (nonlinear_arith);
    } else if i == 4 {
        assert(direction_spec(i).x == -3 && direction_spec(i).y == 4);
        assert((-3) * (-3) + (4) * (4) == 25) by (nonlinear_arith);
    } else if i == 5 {
        assert(direction_spec(i).x == -4 && direction_spec(i).y == 3);
        assert((-4) * (-4) + (3) * (3) == 25) by (nonlinear_arith);
    } else if i == 6 {
        assert(direction_spec(i).x == -5 && direction_spec(i).y == 0);
        assert((-5) * (-5) + (0) * (0) == 25) by (nonlinear_arith);
    } else if i == 7 {
        assert(direction_spec(i).x == -4 && direction_spec(i).y == -3);
        assert((-4) * (-4) + (-3) * (-3) == 25) by (nonlinear_arith);
    } else if i == 8 {
        assert(direction_spec(i).x == -3 && direction_spec(i).y == -4);
        assert((-3) * (-3) + (-4) * (-4) == 25) by (nonlinear_arith);
    } else if i == 9 {
        assert(direction_spec(i).x == 0 && direction_spec(i).y == -5);
        assert((0) * (0) + (-5) * (-5) == 25) by (nonlinear_arith);
    } else if i == 10 {
        assert(direction_spec(i).x == 3 && direction_spec(i).y == -4);
        assert((3) * (3) + (-4) * (-4) == 25) by (nonlinear_arith);
    } else if i == 11 {
        assert(direction_spec(i).x == 4 && direction_spec(i).y == -3);
        assert((4) * (4) + (-3) * (-3) == 25) by (nonlinear_arith);
    }
}

/// A direction of the table; the vector's length is 5.
pub fn direction(i: u64) -> (r: Vec2)
    requires
        i < DIRECTION_COUNT,
    ensures
        r == direction_spec(i as int),
        len_sq(r) == 25,
{
    proof {
        lemma_direction_len(i as int);
    }
    if i == 0 {
        Vec2 { x: 5, y: 0 }
    } else if i == 1 {
        Vec2 { x: 4, y: 3 }
    } else if i == 2 {
        Vec2 { x: 3, y: 4 }
    } else if i == 3 {
        Vec2 { x: 0, y: 5 }
    } else if i == 4 {
        Vec2 { x: -3, y: 4 }
    } else if i == 5 {
        Vec2 { x: -4, y: 3 }
    } else if i == 6 {
        Vec2 { x: -5, y: 0 }
    } else if i == 7 {
        Vec2 { x: -4, y: -3 }
    } else if i == 8 {
        Vec2 { x: -3, y: -4 }
    } else if i == 9 {
        Vec2 { x: 0, y: -5 }
    } else if i == 10 {
        Vec2 { x: 3, y: -4 }
    } else {
        Vec2 { x: 4, y: -3 }
    }
}

pub open spec fn is_direction(d: Vec2) -> bool {
    exists|i: int| 0 <= i < DIRECTION_COUNT && direction_spec(i) == d
}

/// Position and velocity of the two fragments of an asteroid at `position`
/// moving at `velocity`, split along direction `d` with `add_speed` added.
pub open spec fn chunk_spec(d: Vec2, add_speed: int, position: Vec2, velocity: Vec2) -> (
    (Vec2, Vec2),
    (Vec2, Vec2),
) {
    let off = Vec2 { x: (d.x * 400) as i64, y: (d.y * 400) as i64 };
    let push_x = div_trunc(d.x * add_speed, 5);
    let push_y = div_trunc(d.y * add_speed, 5);
    let kept_x = div_trunc(velocity.x * 4, 5);
    let kept_y = div_trunc(velocity.y * 4, 5);
    (
        (
            Vec2 { x: (position.x + off.x) as i64, y: (position.y + off.y) as i64 },
            Vec2 { x: (kept_x + push_x) as i64, y: (kept_y + push_y) as i64 },
        ),
        (
            Vec2 { x: (position.x - off.x) as i64, y: (position.y - off.y) as i64 },
            Vec2 { x: (kept_x - push_x) as i64, y: (kept_y - push_y) as i64 },
        ),
    )
}

/// The two fragments of a destroyed asteroid: placed `spawnDistance` from
/// the parent on either side along `d`, keeping four fifths of its velocity
/// and pushed apart at `add_speed` along `d`.
pub fn chunk_asteroid_state(d: Vec2, add_speed: i64, position: Vec2, velocity: Vec2) -> (r: (
    (Vec2, Vec2),
    (Vec2, Vec2),
))
    requires
        is_direction(d),
        0 <= add_speed <= CHILD_ASTEROID_MAX_ADD_SPEED,
        vec_ok(position),
        vec_ok(velocity),
    ensures
        r == chunk_spec(d, add_speed as int, position, velocity),
{
    let off = Vec2 { x: d.x * 400, y: d.y * 400 };
    let push_x = scale_trunc(d.x, add_speed, 5);
    let push_y = scale_trunc(d.y, add_speed, 5);
    let kept_x = scale_trunc(velocity.x, 4, 5);
    let kept_y = scale_trunc(velocity.y, 4, 5);
    proof {
        assert(-5 <= d.x <= 5 && -5 <= d.y <= 5);
        assert(-15000 <= push_x <= 15000) by (nonlinear_arith)
            requires
                push_x == div_trunc(d.x * add_speed, 5),
                -5 <= d.x <= 5,
                0 <= add_speed <= 15000,
        ;
        assert(-15000 <= push_y <= 15000) by (nonlinear_arith)
            requires
                push_y == div_trunc(d.y * add_speed, 5),
                -5 <= d.y <= 5,
                0 <= add_speed <= 15000,
        ;
        assert(-1_000_000_000 <= kept_x <= 1_000_000_000) by (nonlinear_arith)
            requires
                kept_x == div_trunc(velocity.x * 4, 5),
                coord_ok(velocity.x as int),
        ;
        assert(-1_000_000_000 <= kept_y <= 1_000_000_000) by (nonlinear_arith)
            requires
                kept_y == div_trunc(velocity.y * 4, 5),
                coord_ok(velocity.y as int),
        ;
    }
    (
        (
            Vec2 { x: position.x + off.x, y: position.y + off.y },
            Vec2 { x: kept_x + push_x, y: kept_y + push_y },
        ),
        (
            Vec2 { x: position.x - off.x, y: position.y - off.y },
            Vec2 { x: kept_x - push_x, y: kept_y - push_y },
        ),
    )
}

/// Each fragment sits exactly `spawnDistance` from the parent, and the two
/// sit on opposite sides of it.
pub proof fn lemma_fragments_offset(d: Vec2, add_speed: int, position: Vec2, velocity: Vec2)
    requires
        is_direction(d),
        vec_ok(position),
    ensures
        ({
            let (a, b) = chunk_spec(d, add_speed, position, velocity);
            let oa = Vec2 { x: (a.0.x - position.x) as i64, y: (a.0.y - position.y) as i64 };
            &&& len_sq(oa) == CHILD_ASTEROID_SPAWN_DISTANCE * CHILD_ASTEROID_SPAWN_DISTANCE
            &&& b.0.x - position.x == -(a.0.x - position.x)
            &&& b.0.y - position.y == -(a.0.y - position.y)
        }),
{
    let i = choose|i: int| 0 <= i < DIRECTION_COUNT && direction_spec(i) == d;
    lemma_direction_len(i);
    assert((d.x * 400) * (d.x * 400) + (d.y * 400) * (d.y * 400) == 160000 * (d.x * d.x + d.y
        * d.y)) by (nonlinear_arith);
}

/// A destroyed Large asteroid breaks into two Medium ones, a Medium into two
/// Small ones, and a Small one into none.
pub proof fn lemma_fragmentation(size: AsteroidSize)
    ensures
        size == AsteroidSize::Large ==> fragment_count_spec(size) == 2 && child_size_spec(size)
            == Some(AsteroidSize::Medium),
        size == AsteroidSize::Medium ==> fragment_count_spec(size) == 2 && child_size_spec(size)
            == Some(AsteroidSize::Small),
        size == AsteroidSize::Small ==> fragment_count_spec(size) == 0 && child_size_spec(size)
            is None,
{
}

fn random_direction() -> (r: Vec2)
    ensures
        is_direction(r),
{
    let i = random_in(0, DIRECTION_COUNT - 1);
    let d = direction(i);
    assert(direction_spec(i as int) == d);
    d
}

/// A size drawn from all three.
pub fn random_asteroid_size() -> (r: AsteroidSize) {
    let i = random_in(0, 2);
    if i == 0 {
        AsteroidSize::Large
    } else if i == 1 {
        AsteroidSize::Medium
    } else {
        AsteroidSize::Small
    }
}

/// A silhouette drawn from the five.
pub fn random_asteroid_shape() -> (r: AsteroidShapeId) {
    let i = random_in(0, 4);
    if i == 0 {
        AsteroidShapeId::A
    } else if i == 1 {
        AsteroidShapeId::B
    } else if i == 2 {
        AsteroidShapeId::C
    } else if i == 3 {
        AsteroidShapeId::D
    } else {
        AsteroidShapeId::E
    }
}

/// A spin between the slowest and the fastest allowed.
pub fn random_asteroid_rotation() -> (r: i64)
    ensures
        ASTEROID_MIN_SPIN_RATE <= r <= ASTEROID_MAX_SPIN_RATE,
{
    random_in(ASTEROID_MIN_SPIN_RATE, ASTEROID_MAX_SPIN_RATE) as i64
}

/// The two fragments of a destroyed asteroid, split along a random
/// direction, pushed apart at a random speed, each with a random spin and
/// silhouette.
pub fn random_chunk_asteroid_state(position: Vec2, velocity: Vec2) -> (r: (
    (Vec2, Vec2, i64, AsteroidShapeId),
    (Vec2, Vec2, i64, AsteroidShapeId),
))
    requires
        vec_ok(position),
        vec_ok(velocity),
    ensures
        exists|d: Vec2, s: int|
            is_direction(d) && CHILD_ASTEROID_MIN_ADD_SPEED <= s <= CHILD_ASTEROID_MAX_ADD_SPEED
                && chunk_spec(d, s, position, velocity) == ((r.0.0, r.0.1), (r.1.0, r.1.1)),
        ASTEROID_MIN_SPIN_RATE <= r.0.2 <= ASTEROID_MAX_SPIN_RATE,
        ASTEROID_MIN_SPIN_RATE <= r.1.2 <= ASTEROID_MAX_SPIN_RATE,
{
    let d = random_direction();
    let s = random_in(CHILD_ASTEROID_MIN_ADD_SPEED, CHILD_ASTEROID_MAX_ADD_SPEED) as i64;
    let (a, b) = chunk_asteroid_state(d, s, position, velocity);
    let r1 = random_asteroid_rotation();
    let r2 = random_asteroid_rotation();
    let s1 = random_asteroid_shape();
    let s2 = random_asteroid_shape();
    let r = ((a.0, a.1, r1, s1), (b.0, b.1, r2, s2));
    assert(chunk_spec(d, s as int, position, velocity) == ((r.0.0, r.0.1), (r.1.0, r.1.1)));
    r
}

} // verus!
