use vstd::prelude::*;
use crate::geom::{
    Vec2, WorldBoundaries, COORD_LIMIT, EDGE_LIMIT, coord_ok, vec_ok, dot, len_sq, div_trunc,
    is_ceil_sqrt, scale_trunc, ceil_sqrt,
};

verus! {

/// One full turn of heading, in angle units.
pub const FULL_TURN: u64 = 65536;

/// Longest tick the integrator accepts, in milliseconds.
pub const MAX_DELTA_MS: u64 = 1_000_000;

/// Limit applied after an acceleration has changed a velocity.
#[derive(Clone, Copy, Debug, PartialEq, Eq, Structural)]
pub enum AcceleratingTo {
    /// No limit.
    Infinite,
    /// Decelerating: once the velocity's direction changes (beyond a small
    /// tolerance: it passed through zero) it snaps to exactly zero.
    Zero,
    /// Accelerating up to an absolute speed (a magnitude for vectors, a
    /// symmetric bound for rotation).
    Max(u64),
}

#[derive(Clone, Copy, Debug, PartialEq, Eq)]
pub struct Acceleration<T> {
    pub value: T,
    pub limit: AcceleratingTo,
}

impl<T> Acceleration<T> {
    pub fn new(value: T) -> (r: Self)
        ensures
            r.value == value,
            r.limit == AcceleratingTo::Infinite,
    {
        Acceleration { value, limit: AcceleratingTo::Infinite }
    }

    pub fn with_limit(self, limit: AcceleratingTo) -> (r: Self)
        ensures
            r.value == self.value,
            r.limit == limit,
    {
        Acceleration { value: self.value, limit }
    }
}

/// Kinematic state of an entity. Velocities are per second, times in
/// milliseconds, and the heading is in `[0, FULL_TURN)` angle units.
#[derive(Clone, Copy, Debug, PartialEq, Eq)]
pub struct Movable {
    pub position: Vec2,
    pub velocity: Vec2,
    pub acceleration: Option<Acceleration<Vec2>>,
    pub heading_angle: u64,
    pub rotational_velocity: i64,
    pub rotational_acceleration: Option<Acceleration<i64>>,
}

/// `rate * delta_ms / 1000`, rounded toward zero: what a per-second rate
/// adds up to over `delta_ms` milliseconds.
pub open spec fn per_delta(rate: int, delta_ms: int) -> int {
    div_trunc(rate * delta_ms, 1000)
}

pub open spec fn vec_per_delta(v: Vec2, delta_ms: int) -> (int, int) {
    (per_delta(v.x as int, delta_ms), per_delta(v.y as int, delta_ms))
}

/// The vector `v` scaled down to length at most `max` (its direction kept),
/// where `n` is the rounded-up length of `v`.
pub open spec fn clamp_vec(v: Vec2, max: int, n: int) -> Vec2 {
    Vec2 { x: div_trunc(v.x * max, n) as i64, y: div_trunc(v.y * max, n) as i64 }
}

/// Velocity after the limit policy, given the velocity before the tick
/// (`old_v`) and after the acceleration was added (`new_v`).
pub open spec fn limit_velocity(limit: AcceleratingTo, old_v: Vec2, new_v: Vec2) -> Vec2 {
    match limit {
        AcceleratingTo::Infinite => new_v,
        AcceleratingTo::Max(m) => if len_sq(new_v) > m * m {
            clamp_vec(new_v, m as int, choose|n: int| is_ceil_sqrt(n, len_sq(new_v)))
        } else {
            new_v
        },
        AcceleratingTo::Zero => if same_direction(old_v, new_v) {
            new_v
        } else {
            Vec2 { x: 0, y: 0 }
        },
    }
}

pub open spec fn cross(a: Vec2, b: Vec2) -> int {
    a.x * b.y - a.y * b.x
}

/// `b` points the way `a` does, within a tenth of a radian or so: positive
/// dot product and `|cross| <= dot / 10`.
pub open spec fn same_direction(a: Vec2, b: Vec2) -> bool {
    let c = cross(a, b);
    dot(a, b) > 0 && (if c >= 0 { c } else { -c }) * DIRECTION_TOLERANCE <= dot(a, b)
}

/// Inverse of the direction tolerance of decelerate-to-zero.
pub const DIRECTION_TOLERANCE: i64 = 10;

pub open spec fn limit_rotation(limit: AcceleratingTo, old_v: int, new_v: int) -> int {
    match limit {
        AcceleratingTo::Infinite => new_v,
        AcceleratingTo::Max(m) => if new_v > m {
            m as int
        } else if new_v < -m {
            -m
        } else {
            new_v
        },
        AcceleratingTo::Zero => if (old_v > 0 && new_v < 0) || (old_v < 0 && new_v > 0) {
            0
        } else {
            new_v
        },
    }
}

/// Heading turned by `delta` angle units, wrapped into `[0, FULL_TURN)`.
pub open spec fn turn_heading(heading: int, delta: int) -> int {
    (heading + delta) % (FULL_TURN as int)
}

impl Movable {
    pub open spec fn wf(self) -> bool {
        &&& vec_ok(self.position)
        &&& vec_ok(self.velocity)
        &&& self.heading_angle < FULL_TURN
        &&& coord_ok(self.rotational_velocity as int)
        &&& (self.acceleration matches Some(a) ==> vec_ok(a.value) && a.limit.max_ok())
        &&& (self.rotational_acceleration matches Some(a) ==> coord_ok(a.value as int)
            && a.limit.max_ok())
    }

    /// Velocity after the acceleration is added, before any limit.
    pub open spec fn raw_velocity(self, delta_ms: u64) -> (int, int) {
        match self.acceleration {
            Some(a) => {
                let d = vec_per_delta(a.value, delta_ms as int);
                (self.velocity.x + d.0, self.velocity.y + d.1)
            },
            None => (self.velocity.x as int, self.velocity.y as int),
        }
    }

    pub open spec fn next_velocity(self, delta_ms: u64) -> Vec2 {
        let raw = self.raw_velocity(delta_ms);
        let nv = Vec2 { x: raw.0 as i64, y: raw.1 as i64 };
        match self.acceleration {
            Some(a) => limit_velocity(a.limit, self.velocity, nv),
            None => self.velocity,
        }
    }

    pub open spec fn raw_rotation(self, delta_ms: u64) -> int {
        match self.rotational_acceleration {
            Some(a) => self.rotational_velocity + per_delta(a.value as int, delta_ms as int),
            None => self.rotational_velocity as int,
        }
    }

    pub open spec fn next_rotation(self, delta_ms: u64) -> int {
        match self.rotational_acceleration {
            Some(a) => limit_rotation(
                a.limit,
                self.rotational_velocity as int,
                self.raw_rotation(delta_ms),
            ),
            None => self.rotational_velocity as int,
        }
    }

    pub open spec fn next_position(self, delta_ms: u64) -> (int, int) {
        let d = vec_per_delta(self.next_velocity(delta_ms), delta_ms as int);
        (self.position.x + d.0, self.position.y + d.1)
    }

    /// The tick stays within the coordinate range.
    pub open spec fn step_fits(self, delta_ms: u64) -> bool {
        let raw = self.raw_velocity(delta_ms);
        let p = self.next_position(delta_ms);
        &&& delta_ms <= MAX_DELTA_MS
        &&& coord_ok(raw.0) && coord_ok(raw.1)
        &&& coord_ok(self.raw_rotation(delta_ms))
        &&& coord_ok(p.0) && coord_ok(p.1)
    }

    /// The state after one tick of `delta_ms` milliseconds.
    pub open spec fn advanced(self, delta_ms: u64) -> Movable {
        let v = self.next_velocity(delta_ms);
        let rv = self.next_rotation(delta_ms);
        let p = self.next_position(delta_ms);
        Movable {
            position: Vec2 { x: p.0 as i64, y: p.1 as i64 },
            velocity: v,
            heading_angle: turn_heading(
                self.heading_angle as int,
                per_delta(rv, delta_ms as int),
            ) as u64,
            rotational_velocity: rv as i64,
            ..self
        }
    }
}

impl AcceleratingTo {
    pub open spec fn max_ok(self) -> bool {
        self matches AcceleratingTo::Max(m) ==> m <= COORD_LIMIT
    }
}

} // verus!

verus! {

proof fn lemma_ceil_sqrt_unique(a: int, b: int, s: int)
    requires
        is_ceil_sqrt(a, s),
        is_ceil_sqrt(b, s),
    ensures
        a == b,
{
    if a < b {
        assert((b - 1) * (b - 1) >= a * a) by (nonlinear_arith)
            requires
                0 <= a <= b - 1,
        ;
    }
    if b < a {
        assert((a - 1) * (a - 1) >= b * b) by (nonlinear_arith)
            requires
                0 <= b <= a - 1,
        ;
    }
}

proof fn lemma_trunc_sq(x: int, m: int, n: int)
    requires
        n > 0,
        m >= 0,
    ensures
        div_trunc(x * m, n) * div_trunc(x * m, n) * (n * n) <= x * x * (m * m),
{
    let a = if x >= 0 { x } else { -x };
    let q = (a * m) / n;
    assert(a * m >= 0) by (nonlinear_arith)
        requires
            a >= 0,
            m >= 0,
    ;
    assert(q * n <= a * m && q >= 0) by (nonlinear_arith)
        requires
            q == (a * m) / n,
            a * m >= 0,
            n > 0,
    ;
    if x < 0 {
        assert(x * m == -(a * m)) by (nonlinear_arith)
            requires
                a == -x,
        ;
    }
    let d = div_trunc(x * m, n);
    assert(d == q || d == -q);
    assert(d * d == q * q) by (nonlinear_arith)
        requires
            d == q || d == -q,
    ;
    assert(q * q * (n * n) <= (a * m) * (a * m)) by (nonlinear_arith)
        requires
            0 <= q * n <= a * m,
            q >= 0,
            n > 0,
    ;
    assert((a * m) * (a * m) == x * x * (m * m)) by (nonlinear_arith)
        requires
            a == x || a == -x,
    ;
}

/// Scaling a vector by `max / n`, where `n` is at least its length, gives a
/// vector no longer than `max`.
proof fn lemma_clamp_vec_len(v: Vec2, max: int, n: int)
    requires
        n > 0,
        0 <= max <= COORD_LIMIT,
        n * n >= len_sq(v),
    ensures
        len_sq(clamp_vec(v, max, n)) <= max * max,
        -max <= div_trunc(v.x * max, n) <= max,
        -max <= div_trunc(v.y * max, n) <= max,
{
    let q = div_trunc(v.x * max, n);
    let r = div_trunc(v.y * max, n);
    lemma_trunc_sq(v.x as int, max, n);
    lemma_trunc_sq(v.y as int, max, n);
    assert((q * q + r * r) * (n * n) <= (v.x * v.x + v.y * v.y) * (max * max)) by (
    nonlinear_arith)
        requires
            q * q * (n * n) <= v.x * v.x * (max * max),
            r * r * (n * n) <= v.y * v.y * (max * max),
    ;
    assert((v.x * v.x + v.y * v.y) * (max * max) <= (n * n) * (max * max)) by (nonlinear_arith)
        requires
            n * n >= v.x * v.x + v.y * v.y,
    ;
    assert(q * q + r * r <= max * max) by (nonlinear_arith)
        requires
            (q * q + r * r) * (n * n) <= (n * n) * (max * max),
            n > 0,
    ;
    assert(-max <= q <= max && -max <= r <= max) by (nonlinear_arith)
        requires
            q * q + r * r <= max * max,
            max >= 0,
    ;
    assert(clamp_vec(v, max, n).x == q && clamp_vec(v, max, n).y == r);
}

/// The dot product of two in-range vectors.
pub fn dot_exec(a: Vec2, b: Vec2) -> (r: i128)
    requires
        vec_ok(a),
        vec_ok(b),
    ensures
        r == dot(a, b),
{
    assert(-COORD_LIMIT * COORD_LIMIT <= a.x * b.x <= COORD_LIMIT * COORD_LIMIT) by (
    nonlinear_arith)
        requires
            coord_ok(a.x as int),
            coord_ok(b.x as int),
    ;
    assert(-COORD_LIMIT * COORD_LIMIT <= a.y * b.y <= COORD_LIMIT * COORD_LIMIT) by (
    nonlinear_arith)
        requires
            coord_ok(a.y as int),
            coord_ok(b.y as int),
    ;
    (a.x as i128) * (b.x as i128) + (a.y as i128) * (b.y as i128)
}

fn cross_exec(a: Vec2, b: Vec2) -> (r: i128)
    requires
        vec_ok(a),
        vec_ok(b),
    ensures
        r == cross(a, b),
        -2 * COORD_LIMIT * COORD_LIMIT <= r <= 2 * COORD_LIMIT * COORD_LIMIT,
{
    assert(-COORD_LIMIT * COORD_LIMIT <= a.x * b.y <= COORD_LIMIT * COORD_LIMIT) by (
    nonlinear_arith)
        requires
            coord_ok(a.x as int),
            coord_ok(b.y as int),
    ;
    assert(-COORD_LIMIT * COORD_LIMIT <= a.y * b.x <= COORD_LIMIT * COORD_LIMIT) by (
    nonlinear_arith)
        requires
            coord_ok(a.y as int),
            coord_ok(b.x as int),
    ;
    (a.x as i128) * (b.y as i128) - (a.y as i128) * (b.x as i128)
}

/// Applies a limit policy to a velocity that an acceleration has changed
/// from `old_v` to `new_v`.
pub fn limit_vec(limit: AcceleratingTo, old_v: Vec2, new_v: Vec2) -> (r: Vec2)
    requires
        vec_ok(old_v),
        vec_ok(new_v),
        limit.max_ok(),
    ensures
        r == limit_velocity(limit, old_v, new_v),
        vec_ok(r),
{
    match limit {
        AcceleratingTo::Infinite => new_v,
        AcceleratingTo::Max(m) => {
            let s = dot_exec(new_v, new_v);
            proof {
                assert(m * m <= COORD_LIMIT * COORD_LIMIT) by (nonlinear_arith)
                    requires
                        m <= COORD_LIMIT,
                ;
            }
            if s > (m as i128) * (m as i128) {
                proof {
                    assert(s <= 2 * COORD_LIMIT * COORD_LIMIT) by (nonlinear_arith)
                        requires
                            s == new_v.x * new_v.x + new_v.y * new_v.y,
                            coord_ok(new_v.x as int),
                            coord_ok(new_v.y as int),
                    ;
                }
                let n = ceil_sqrt(s as u128);
                proof {
                    assert(n > 0);
                    assert(n <= 2 * COORD_LIMIT) by (nonlinear_arith)
                        requires
                            is_ceil_sqrt(n as int, s as int),
                            n > 0,
                            s <= 2 * COORD_LIMIT * COORD_LIMIT,
                    ;
                    assert(is_ceil_sqrt(n as int, len_sq(new_v)));
                    let c = choose|k: int| is_ceil_sqrt(k, len_sq(new_v));
                    lemma_ceil_sqrt_unique(c, n as int, s as int);
                    lemma_clamp_vec_len(new_v, m as int, n as int);
                }
                let x = scale_trunc(new_v.x, m as i64, n as i64);
                let y = scale_trunc(new_v.y, m as i64, n as i64);
                Vec2 { x, y }
            } else {
                new_v
            }
        },
        AcceleratingTo::Zero => {
            let d = dot_exec(old_v, new_v);
            let c = cross_exec(old_v, new_v);
            let c_abs = if c >= 0 { c } else { -c };
            assert(0 <= c_abs <= 2 * COORD_LIMIT * COORD_LIMIT);
            let scaled: i128 = c_abs * 10;
            assert(scaled == c_abs * DIRECTION_TOLERANCE);
            if d > 0 && scaled <= d {
                new_v
            } else {
                Vec2 { x: 0, y: 0 }
            }
        },
    }
}

/// Applies a limit policy to a rotational velocity that an acceleration has
/// changed from `old_v` to `new_v`.
pub fn limit_rot(limit: AcceleratingTo, old_v: i64, new_v: i64) -> (r: i64)
    requires
        limit.max_ok(),
        coord_ok(new_v as int),
    ensures
        r == limit_rotation(limit, old_v as int, new_v as int),
        coord_ok(r as int),
{
    match limit {
        AcceleratingTo::Infinite => new_v,
        AcceleratingTo::Max(m) => {
            let m = m as i64;
            if new_v > m {
                m
            } else if new_v < -m {
                -m
            } else {
                new_v
            }
        },
        AcceleratingTo::Zero => {
            if (old_v > 0 && new_v < 0) || (old_v < 0 && new_v > 0) {
                0
            } else {
                new_v
            }
        },
    }
}

fn wrap_heading(heading: u64, delta: i64) -> (r: u64)
    requires
        heading < FULL_TURN,
        -COORD_LIMIT * 1000 <= delta <= COORD_LIMIT * 1000,
    ensures
        r == turn_heading(heading as int, delta as int),
        r < FULL_TURN,
{
    let t: i64 = heading as i64 + delta;
    if t >= 0 {
        (t as u64) % FULL_TURN
    } else {
        let m: u64 = ((-t) as u64) % FULL_TURN;
        proof {
            let a: int = -t;
            let q: int = a / (FULL_TURN as int);
            assert(a == q * 65536 + m);
            assert(t == (-q - 1) * 65536 + (65536 - m));
        }
        if m == 0 {
            0
        } else {
            FULL_TURN - m
        }
    }
}

impl Movable {
    /// Tests whether one tick of `delta_ms` keeps every value in range, so
    /// that `integrate` may be called.
    pub fn can_integrate(&self, delta_ms: u64) -> (r: bool)
        requires
            self.wf(),
        ensures
            r == self.step_fits(delta_ms),
    {
        if delta_ms > MAX_DELTA_MS {
            return false;
        }
        let dt = delta_ms as i64;
        let mut vx: i128 = self.velocity.x as i128;
        let mut vy: i128 = self.velocity.y as i128;
        if let Some(a) = self.acceleration {
            vx = vx + scale_trunc(a.value.x, dt, 1000) as i128;
            vy = vy + scale_trunc(a.value.y, dt, 1000) as i128;
        }
        if vx < -(COORD_LIMIT as i128) || vx > COORD_LIMIT as i128 || vy < -(COORD_LIMIT as i128)
            || vy > COORD_LIMIT as i128 {
            return false;
        }
        let mut rv: i128 = self.rotational_velocity as i128;
        if let Some(a) = self.rotational_acceleration {
            rv = rv + scale_trunc(a.value, dt, 1000) as i128;
        }
        if rv < -(COORD_LIMIT as i128) || rv > COORD_LIMIT as i128 {
            return false;
        }
        let nv = Vec2 { x: vx as i64, y: vy as i64 };
        let v = match self.acceleration {
            Some(a) => limit_vec(a.limit, self.velocity, nv),
            None => self.velocity,
        };
        let px: i128 = self.position.x as i128 + scale_trunc(v.x, dt, 1000) as i128;
        let py: i128 = self.position.y as i128 + scale_trunc(v.y, dt, 1000) as i128;
        !(px < -(COORD_LIMIT as i128) || px > COORD_LIMIT as i128 || py < -(COORD_LIMIT as i128)
            || py > COORD_LIMIT as i128)
    }

    /// Advances the entity by one tick: acceleration with its limit, then
    /// rotation with its limit, then heading, then position.
    pub fn integrate(&mut self, delta_ms: u64)
        requires
            old(self).wf(),
            old(self).step_fits(delta_ms),
        ensures
            final(self).wf(),
            *final(self) == old(self).advanced(delta_ms),
    {
        let dt = delta_ms as i64;
        if let Some(a) = self.acceleration {
            let nv = Vec2 {
                x: self.velocity.x + scale_trunc(a.value.x, dt, 1000),
                y: self.velocity.y + scale_trunc(a.value.y, dt, 1000),
            };
            self.velocity = limit_vec(a.limit, self.velocity, nv);
        }
        if let Some(a) = self.rotational_acceleration {
            let nv = self.rotational_velocity + scale_trunc(a.value, dt, 1000);
            self.rotational_velocity = limit_rot(a.limit, self.rotational_velocity, nv);
        }
        let turn = scale_trunc(self.rotational_velocity, dt, 1000);
        proof {
            assert(-COORD_LIMIT * 1000 <= turn <= COORD_LIMIT * 1000) by (nonlinear_arith)
                requires
                    turn == div_trunc(self.rotational_velocity * dt, 1000),
                    coord_ok(self.rotational_velocity as int),
                    0 <= dt <= MAX_DELTA_MS,
            ;
        }
        self.heading_angle = wrap_heading(self.heading_angle, turn);
        self.position = Vec2 {
            x: self.position.x + scale_trunc(self.velocity.x, dt, 1000),
            y: self.position.y + scale_trunc(self.velocity.y, dt, 1000),
        };
    }
}

} // verus!

verus! {

/// Radius of the circle used to decide whether an entity has left the
/// world rectangle.
#[derive(Clone, Copy, Debug, PartialEq, Eq, Structural)]
pub struct MovableTorusConstraint {
    pub radius: i64,
}

impl MovableTorusConstraint {
    pub open spec fn wf(self) -> bool {
        0 <= self.radius <= EDGE_LIMIT
    }
}

/// One coordinate after the wrap: past the far edge while moving outward,
/// it reappears at the near edge, and the other way round.
pub open spec fn wrap_coord(p: int, v: int, lo: int, hi: int) -> int {
    if p > hi && v > 0 {
        lo
    } else if p < lo && v < 0 {
        hi
    } else {
        p
    }
}

pub open spec fn wrapped_position(p: Vec2, v: Vec2, b: WorldBoundaries, radius: int) -> Vec2 {
    Vec2 {
        x: wrap_coord(p.x as int, v.x as int, b.left - radius, b.right + radius) as i64,
        y: wrap_coord(p.y as int, v.y as int, b.bottom - radius, b.top + radius) as i64,
    }
}

impl Movable {
    pub fn is_moving_down(&self) -> (r: bool)
        ensures
            r == (self.velocity.y < 0),
    {
        self.velocity.y < 0
    }

    pub fn is_moving_up(&self) -> (r: bool)
        ensures
            r == (self.velocity.y > 0),
    {
        self.velocity.y > 0
    }

    pub fn is_moving_left(&self) -> (r: bool)
        ensures
            r == (self.velocity.x < 0),
    {
        self.velocity.x < 0
    }

    pub fn is_moving_right(&self) -> (r: bool)
        ensures
            r == (self.velocity.x > 0),
    {
        self.velocity.x > 0
    }

    /// Teleports the entity to the opposite edge when it is outside the
    /// world rectangle (grown by the radius) and moving further out.
    pub fn apply_torus(&mut self, torus: &MovableTorusConstraint, bounds: &WorldBoundaries)
        requires
            old(self).wf(),
            torus.wf(),
            bounds.wf(),
        ensures
            final(self).wf(),
            *final(self) == (Movable {
                position: wrapped_position(
                    old(self).position,
                    old(self).velocity,
                    *bounds,
                    torus.radius as int,
                ),
                ..*old(self)
            }),
    {
        let right = bounds.right + torus.radius;
        let left = bounds.left - torus.radius;
        let top = bounds.top + torus.radius;
        let bottom = bounds.bottom - torus.radius;
        if self.position.x > right && self.is_moving_right() {
            self.position.x = left;
        }
        if self.position.x < left && self.is_moving_left() {
            self.position.x = right;
        }
        if self.position.y > top && self.is_moving_up() {
            self.position.y = bottom;
        }
        if self.position.y < bottom && self.is_moving_down() {
            self.position.y = top;
        }
    }
}

/// With a clamp-to-max limit, the speed after a tick never exceeds the
/// maximum.
pub proof fn lemma_clamp_limits_speed(m: Movable, delta_ms: u64, max: u64)
    requires
        m.wf(),
        m.step_fits(delta_ms),
        m.acceleration matches Some(a) && a.limit == AcceleratingTo::Max(max),
    ensures
        len_sq(m.advanced(delta_ms).velocity) <= max * max,
{
    let raw = m.raw_velocity(delta_ms);
    let nv = Vec2 { x: raw.0 as i64, y: raw.1 as i64 };
    if len_sq(nv) > max * max {
        let n = choose|n: int| is_ceil_sqrt(n, len_sq(nv));
        lemma_ceil_sqrt_exists(len_sq(nv));
        assert(n > 0) by (nonlinear_arith)
            requires
                is_ceil_sqrt(n, len_sq(nv)),
                len_sq(nv) > max * max,
                max * max >= 0,
        ;
        lemma_clamp_vec_len(nv, max as int, n);
    }
}

proof fn lemma_ceil_sqrt_exists(s: int)
    requires
        0 <= s,
    ensures
        exists|n: int| is_ceil_sqrt(n, s),
    decreases s,
{
    if s == 0 {
        assert(is_ceil_sqrt(0, 0));
    } else {
        let t = s - 1;
        lemma_ceil_sqrt_exists(t);
        let n = choose|n: int| is_ceil_sqrt(n, t);
        if n * n >= s {
            assert(is_ceil_sqrt(n, s));
        } else {
            assert((n + 1) * (n + 1) >= s && n * n < s) by (nonlinear_arith)
                requires
                    n >= 0,
                    n * n >= s - 1,
                    n * n < s,
            ;
            assert(is_ceil_sqrt(n + 1, s));
        }
    }
}

/// With a decelerate-to-zero limit the velocity never passes through zero
/// into the opposite direction: after a tick it is either exactly zero or
/// still points the way it pointed before. Once zero, it stays zero.
pub proof fn lemma_decelerate_never_overshoots(m: Movable, delta_ms: u64)
    requires
        m.wf(),
        m.step_fits(delta_ms),
        m.acceleration matches Some(a) && a.limit == AcceleratingTo::Zero,
    ensures
        m.advanced(delta_ms).velocity == Vec2::zero_spec() || dot(
            m.velocity,
            m.advanced(delta_ms).velocity,
        ) > 0,
        m.velocity == Vec2::zero_spec() ==> m.advanced(delta_ms).velocity == Vec2::zero_spec(),
{
}

/// With a decelerate-to-zero limit on rotation, a rotational acceleration
/// that opposes the spin shrinks it strictly toward zero on every tick where
/// it changes it, and never flips its sign: repeated ticks reach exactly
/// zero.
pub proof fn lemma_rotation_decelerates_to_zero(m: Movable, delta_ms: u64)
    requires
        m.wf(),
        m.step_fits(delta_ms),
        m.rotational_acceleration matches Some(a) && a.limit == AcceleratingTo::Zero && (
        m.rotational_velocity > 0 && a.value < 0 || m.rotational_velocity < 0 && a.value > 0),
        per_delta(m.rotational_acceleration.unwrap().value as int, delta_ms as int) != 0,
    ensures
        m.advanced(delta_ms).rotational_velocity == 0 || (m.rotational_velocity > 0
            && 0 < m.advanced(delta_ms).rotational_velocity < m.rotational_velocity) || (
        m.rotational_velocity < 0 && m.rotational_velocity < m.advanced(
            delta_ms,
        ).rotational_velocity < 0),
{
    let a = m.rotational_acceleration.unwrap();
    let d = per_delta(a.value as int, delta_ms as int);
    assert(a.value < 0 ==> d <= 0) by (nonlinear_arith)
        requires
            d == div_trunc(a.value * delta_ms, 1000),
    ;
    assert(a.value > 0 ==> d >= 0) by (nonlinear_arith)
        requires
            d == div_trunc(a.value * delta_ms, 1000),
    ;
}

/// An entity just past the right edge of the grown rectangle and moving
/// right reappears exactly at the grown left edge; moving left, it stays.
pub proof fn lemma_wrap_right_edge(p: Vec2, v: Vec2, b: WorldBoundaries, radius: int)
    requires
        b.wf(),
        0 <= radius <= EDGE_LIMIT,
        p.x == b.right + radius + 1,
    ensures
        v.x > 0 ==> wrapped_position(p, v, b, radius).x == b.left - radius,
        v.x < 0 ==> wrapped_position(p, v, b, radius).x == p.x,
{
}

} // verus!

verus! {

/// Angle units per step of the direction table (64 steps per turn).
pub const HEADING_STEP: u64 = 1024;

/// `1000 * cos(i * TAU / 64)`, rounded, for `0 <= i <= 16`.
pub open spec fn cos_q(i: int) -> int {
    if i == 0 {
        1000
    } else if i == 1 {
        995
    } else if i == 2 {
        981
    } else if i == 3 {
        957
    } else if i == 4 {
        924
    } else if i == 5 {
        882
    } else if i == 6 {
        831
    } else if i == 7 {
        773
    } else if i == 8 {
        707
    } else if i == 9 {
        634
    } else if i == 10 {
        556
    } else if i == 11 {
        471
    } else if i == 12 {
        383
    } else if i == 13 {
        290
    } else if i == 14 {
        195
    } else if i == 15 {
        98
    } else {
        0
    }
}

/// Unit vector (scaled by 1000) of table step `k`, `0 <= k < 64`.
pub open spec fn unit_spec(k: int) -> Vec2 {
    let q = k / 16;
    let r = k % 16;
    if q == 0 {
        Vec2 { x: cos_q(r) as i64, y: cos_q(16 - r) as i64 }
    } else if q == 1 {
        Vec2 { x: (-cos_q(16 - r)) as i64, y: cos_q(r) as i64 }
    } else if q == 2 {
        Vec2 { x: (-cos_q(r)) as i64, y: (-cos_q(16 - r)) as i64 }
    } else {
        Vec2 { x: cos_q(16 - r) as i64, y: (-cos_q(r)) as i64 }
    }
}

fn cos_q_exec(i: u64) -> (r: i64)
    requires
        i <= 16,
    ensures
        r == cos_q(i as int),
{
    if i == 0 {
        1000
    } else if i == 1 {
        995
    } else if i == 2 {
        981
    } else if i == 3 {
        957
    } else if i == 4 {
        924
    } else if i == 5 {
        882
    } else if i == 6 {
        831
    } else if i == 7 {
        773
    } else if i == 8 {
        707
    } else if i == 9 {
        634
    } else if i == 10 {
        556
    } else if i == 11 {
        471
    } else if i == 12 {
        383
    } else if i == 13 {
        290
    } else if i == 14 {
        195
    } else if i == 15 {
        98
    } else {
        0
    }
}

/// `v` rescaled to length `len` (rounded toward zero), its direction kept.
pub open spec fn rescaled(v: Vec2, len: int) -> Vec2 {
    clamp_vec(v, len, choose|n: int| is_ceil_sqrt(n, len_sq(v)))
}

/// The vector `v`, a non-zero vector, scaled to length at most `len`
/// (exactly its direction, rounded toward zero).
pub fn scale_to_length(v: Vec2, len: i64) -> (r: Vec2)
    requires
        vec_ok(v),
        len_sq(v) > 0,
        0 <= len <= COORD_LIMIT,
    ensures
        r == rescaled(v, len as int),
        len_sq(r) <= len * len,
        -len <= r.x <= len && -len <= r.y <= len,
        vec_ok(r),
{
    let s = dot_exec(v, v);
    proof {
        assert(s <= 2 * COORD_LIMIT * COORD_LIMIT) by (nonlinear_arith)
            requires
                s == v.x * v.x + v.y * v.y,
                coord_ok(v.x as int),
                coord_ok(v.y as int),
        ;
    }
    let n = ceil_sqrt(s as u128);
    proof {
        assert(n <= 2 * COORD_LIMIT) by (nonlinear_arith)
            requires
                is_ceil_sqrt(n as int, s as int),
                s <= 2 * COORD_LIMIT * COORD_LIMIT,
        ;
        assert(is_ceil_sqrt(n as int, len_sq(v)));
        let c = choose|k: int| is_ceil_sqrt(k, len_sq(v));
        lemma_ceil_sqrt_unique(c, n as int, s as int);
        lemma_clamp_vec_len(v, len as int, n as int);
    }
    Vec2 { x: scale_trunc(v.x, len, n as i64), y: scale_trunc(v.y, len, n as i64) }
}

impl Movable {
    /// The facing direction as a vector of length about 1000, from the
    /// 64-step direction table.
    pub fn heading_normal(&self) -> (r: Vec2)
        requires
            self.heading_angle < FULL_TURN,
        ensures
            r == unit_spec((self.heading_angle / HEADING_STEP) as int),
            -1000 <= r.x <= 1000 && -1000 <= r.y <= 1000,
    {
        let k = self.heading_angle / HEADING_STEP;
        let q = k / 16;
        let r = k % 16;
        if q == 0 {
            Vec2 { x: cos_q_exec(r), y: cos_q_exec(16 - r) }
        } else if q == 1 {
            Vec2 { x: -cos_q_exec(16 - r), y: cos_q_exec(r) }
        } else if q == 2 {
            Vec2 { x: -cos_q_exec(r), y: -cos_q_exec(16 - r) }
        } else {
            Vec2 { x: cos_q_exec(16 - r), y: -cos_q_exec(r) }
        }
    }
}

} // verus!
