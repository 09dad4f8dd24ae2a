use vstd::prelude::*;
use crate::asteroid::{
    Asteroid, AsteroidSpawn, AsteroidDestroyedEvent, asteroid_radius, scale_spec,
    ASTEROID_DIAMETER, child_size, child_size_spec, random_asteroid_size, random_asteroid_shape,
    random_asteroid_rotation, random_chunk_asteroid_state, direction, DIRECTION_COUNT,
    CHUNK_ASTEROID_INVULNERABLE_MS, ASTEROID_MIN_SPEED, ASTEROID_MAX_SPEED, direction_spec,
    is_direction, ASTEROID_MIN_SPIN_RATE, ASTEROID_MAX_SPIN_RATE, CHILD_ASTEROID_MIN_ADD_SPEED,
    CHILD_ASTEROID_MAX_ADD_SPEED, AsteroidSize, chunk_spec,
};
use crate::manager::{
    GameManager, AsteroidSpawnInstruction, PlayerState, AlienState, ScheduledAsteroidSpawn,
    after_rocket_destroyed, player_spawn_due, scheduled, sat_add, missing_asteroids, due_spawns,
    waiting_spawns, GAME_PLAYER_RESPAWN_TIME_MS, GAME_ASTEROID_SPAWN_TIME_MS, ALIEN_UFO_POINTS,
};
use crate::random::random_in;
use crate::bullet::{
    Bullet, BulletCollidable, BulletController, BulletFireResult, BulletSource, BulletSpawn,
};
use crate::player::{PlayerRocket, player_update_movable, rotation_control, thrust_control};
use crate::collidable::{Collidable, Collider};
use crate::explosion::{ExplosionShapeId, SpawnExplosion, explosion_part_directions, rotate_exec};
use crate::geom::{Vec2, WorldBoundaries, COORD_LIMIT, EDGE_LIMIT, vec_ok, coord_ok, div_trunc, div_trunc_exec};
use crate::hit::{EntityId, HitEvent, event_ids, distinct_seq, distinct_hit_events, contains_id};
use crate::movable::{Movable, MovableTorusConstraint, wrapped_position, scale_to_length};
use crate::timer::{Timer, TimerMode};

verus! {

/// What an entity is, with the state that only its kind carries.
#[derive(Clone, Copy, Debug, PartialEq, Eq, Structural)]
pub enum EntityKind {
    Asteroid(Asteroid),
    Bullet(Bullet),
    PlayerRocket,
    AlienUfo,
    /// A cosmetic debris particle, gone when its timer finishes.
    Explosion(Timer),
}

/// One simulated entity and its components.
#[derive(Clone, Copy, Debug, PartialEq, Eq)]
pub struct Entity {
    pub id: EntityId,
    pub kind: EntityKind,
    pub movable: Movable,
    pub torus: Option<MovableTorusConstraint>,
    pub collidable: Option<Collidable>,
    /// Bullets of this faction can hit the entity.
    pub bullet_collidable: Option<BulletCollidable>,
    /// Asteroids can hit the entity.
    pub asteroid_collidable: bool,
    pub invulnerable: Option<Timer>,
    pub bullet_controller: Option<BulletController>,
}

impl Entity {
    pub open spec fn wf(self) -> bool {
        &&& self.movable.wf()
        &&& (self.torus matches Some(t) ==> t.wf())
        &&& (self.collidable matches Some(c) ==> c.collider.wf())
        &&& (self.invulnerable matches Some(t) ==> t.wf())
        &&& (self.bullet_controller matches Some(c) ==> c.wf())
        &&& (self.kind matches EntityKind::Bullet(b) ==> b.despawn_timer.wf())
        &&& (self.kind matches EntityKind::Explosion(t) ==> t.wf())
    }

    /// Immune to collision response: its invulnerability timer still runs.
    pub open spec fn is_invulnerable(self) -> bool {
        self.invulnerable matches Some(t) && !t.finished
    }

    pub fn invulnerable_now(&self) -> (r: bool)
        ensures
            r == self.is_invulnerable(),
    {
        match self.invulnerable {
            Some(t) => !t.finished(),
            None => false,
        }
    }
}

pub open spec fn ids_of(es: Seq<Entity>) -> Seq<EntityId> {
    es.map_values(|e: Entity| e.id)
}

/// The entity store: every entity of the game, with distinct identities
/// below `next_id`.
pub struct World {
    pub entities: Vec<Entity>,
    pub next_id: EntityId,
    pub bounds: WorldBoundaries,
}

impl World {
    pub open spec fn wf(self) -> bool {
        &&& self.bounds.wf()
        &&& forall|i: int| 0 <= i < self.entities@.len() ==> (#[trigger] self.entities@[i]).wf()
        &&& forall|i: int|
            0 <= i < self.entities@.len() ==> (#[trigger] self.entities@[i]).id < self.next_id
        &&& forall|i: int, j: int|
            0 <= i < j < self.entities@.len() ==> (#[trigger] self.entities@[i]).id
                != (#[trigger] self.entities@[j]).id
    }

    /// An empty world with the given rectangle.
    pub fn new(bounds: WorldBoundaries) -> (r: World)
        requires
            bounds.wf(),
        ensures
            r.wf(),
            r.entities@.len() == 0,
            r.bounds == bounds,
    {
        World { entities: Vec::new(), next_id: 0, bounds }
    }

    /// Adds the entity under a fresh identity, which is returned; `None`
    /// (and nothing added) once identities have run out.
    pub fn insert(&mut self, e: Entity) -> (r: Option<EntityId>)
        requires
            old(self).wf(),
            e.wf(),
        ensures
            final(self).wf(),
            final(self).bounds == old(self).bounds,
            r is Some <==> old(self).next_id < u64::MAX,
            final(self).next_id == if r is Some {
                (old(self).next_id + 1) as u64
            } else {
                old(self).next_id
            },
            match r {
                Some(id) => id == old(self).next_id && final(self).entities@ == old(
                    self,
                ).entities@.push(Entity { id, ..e }),
                None => old(self).next_id == u64::MAX && final(self).entities@ == old(
                    self,
                ).entities@,
            },
    {
        if self.next_id == u64::MAX {
            return None;
        }
        let id = self.next_id;
        self.entities.push(Entity { id, ..e });
        self.next_id = self.next_id + 1;
        Some(id)
    }

    pub fn get(&self, id: EntityId) -> (r: Option<Entity>)
        ensures
            r == find(self.entities@, id),
    {
        find_exec(&self.entities, id)
    }

    /// How many asteroids the world holds.
    pub fn asteroid_count(&self) -> (r: u64)
        ensures
            r == count_asteroids(self.entities@),
    {
        let mut n: u64 = 0;
        let mut i: usize = 0;
        while i < self.entities.len()
            invariant
                i <= self.entities.len(),
                n == count_asteroids(self.entities@.take(i as int)),
                n <= i,
            decreases self.entities.len() - i,
        {
            proof {
                assert(self.entities@.take(i as int + 1).drop_last() == self.entities@.take(
                    i as int,
                ));
            }
            if let EntityKind::Asteroid(_) = self.entities[i].kind {
                n = n + 1;
            }
            i = i + 1;
        }
        proof {
            assert(self.entities@.take(self.entities.len() as int) == self.entities@);
        }
        n
    }
}

/// The last entity of `es` with identity `id`, if any.
pub open spec fn find(es: Seq<Entity>, id: EntityId) -> Option<Entity>
    decreases es.len(),
{
    if es.len() == 0 {
        None
    } else if es.last().id == id {
        Some(es.last())
    } else {
        find(es.drop_last(), id)
    }
}

pub open spec fn count_asteroids(es: Seq<Entity>) -> nat
    decreases es.len(),
{
    if es.len() == 0 {
        0
    } else {
        count_asteroids(es.drop_last()) + if es.last().kind is Asteroid {
            1nat
        } else {
            0nat
        }
    }
}

fn find_exec(es: &Vec<Entity>, id: EntityId) -> (r: Option<Entity>)
    ensures
        r == find(es@, id),
{
    let mut found: Option<Entity> = None;
    let mut i: usize = 0;
    while i < es.len()
        invariant
            i <= es.len(),
            found == find(es@.take(i as int), id),
        decreases es.len() - i,
    {
        proof {
            assert(es@.take(i as int + 1).drop_last() == es@.take(i as int));
        }
        if es[i].id == id {
            found = Some(es[i]);
        }
        i = i + 1;
    }
    proof {
        assert(es@.take(es.len() as int) == es@);
    }
    found
}

/// Whether every coordinate of `v` is inside the range the simulation keeps.
pub fn in_range(v: Vec2) -> (r: bool)
    ensures
        r == vec_ok(v),
{
    -COORD_LIMIT <= v.x && v.x <= COORD_LIMIT && -COORD_LIMIT <= v.y && v.y <= COORD_LIMIT
}

/// An entity after the movement stage: integrated (when the tick stays in
/// range), wrapped around the world, and its collider moved along.
pub open spec fn moved(e: Entity, delta_ms: u64, bounds: WorldBoundaries) -> Entity {
    let m1 = if e.movable.step_fits(delta_ms) {
        e.movable.advanced(delta_ms)
    } else {
        e.movable
    };
    let m2 = match e.torus {
        Some(t) => Movable {
            position: wrapped_position(m1.position, m1.velocity, bounds, t.radius as int),
            ..m1
        },
        None => m1,
    };
    Entity {
        movable: m2,
        collidable: match e.collidable {
            Some(c) => Some(Collidable { collider: c.collider.at(m2.position) }),
            None => None,
        },
        ..e
    }
}

impl World {
    /// Movement stage: moves every entity, wraps it around the world and
    /// re-centres its collider.
    pub fn movement_stage(&mut self, delta_ms: u64)
        requires
            old(self).wf(),
        ensures
            final(self).wf(),
            final(self).bounds == old(self).bounds,
            final(self).next_id == old(self).next_id,
            final(self).entities@.len() == old(self).entities@.len(),
            forall|i: int|
                0 <= i < old(self).entities@.len() ==> #[trigger] final(self).entities@[i] == moved(
                    old(self).entities@[i],
                    delta_ms,
                    old(self).bounds,
                ),
    {
        let n = self.entities.len();
        let mut i: usize = 0;
        while i < n
            invariant
                i <= n,
                n == old(self).entities@.len(),
                self.entities@.len() == n,
                self.bounds == old(self).bounds,
                self.next_id == old(self).next_id,
                self.bounds.wf(),
                forall|k: int| 0 <= k < n ==> (#[trigger] self.entities@[k]).wf(),
                forall|k: int|
                    0 <= k < i ==> #[trigger] self.entities@[k] == moved(
                        old(self).entities@[k],
                        delta_ms,
                        old(self).bounds,
                    ),
                forall|k: int| i <= k < n ==> #[trigger] self.entities@[k] == old(self).entities@[k],
                forall|k: int| 0 <= k < n ==> (#[trigger] self.entities@[k]).id == old(self).entities@[k].id,
            decreases n - i,
        {
            let mut e = self.entities[i];
            if e.movable.can_integrate(delta_ms) {
                e.movable.integrate(delta_ms);
            }
            if let Some(t) = e.torus {
                e.movable.apply_torus(&t, &self.bounds);
            }
            if let Some(c) = e.collidable {
                let mut collider = c.collider;
                collider.set_position(e.movable.position);
                e.collidable = Some(Collidable { collider });
            }
            self.entities.set(i, e);
            i = i + 1;
        }
        assert(self.wf()) by {
            assert forall|a: int, b: int|
                0 <= a < b < self.entities@.len() implies (#[trigger] self.entities@[a]).id
                != (#[trigger] self.entities@[b]).id by {
                assert(old(self).entities@[a].id != old(self).entities@[b].id);
            }
            assert forall|a: int| 0 <= a < self.entities@.len() implies (
            #[trigger] self.entities@[a]).id < self.next_id by {
                assert(old(self).entities@[a].id < old(self).next_id);
            }
        }
    }
}

} // verus!

verus! {

/// The two detectors, one per interacting pair of categories.
#[derive(Clone, Copy, Debug, PartialEq, Eq, Structural)]
pub enum Detector {
    /// Bullets against entities their faction can hit.
    Bullets,
    /// Asteroids against entities asteroids can hit.
    Asteroids,
}

/// `a` (a bullet or an asteroid, by detector) collides with `o`: `o` is a
/// target of that detector, not invulnerable, and the shapes overlap.
pub open spec fn pair_hits(det: Detector, a: Entity, o: Entity) -> bool {
    &&& a.collidable is Some
    &&& o.collidable is Some
    &&& !o.is_invulnerable()
    &&& match det {
        Detector::Bullets => a.kind matches EntityKind::Bullet(b) && o.bullet_collidable matches Some(
            bc,
        ) && bc.source == b.source,
        Detector::Asteroids => a.kind is Asteroid && o.asteroid_collidable,
    }
    &&& a.collidable.unwrap().collider.overlaps(o.collidable.unwrap().collider)
}

/// Hit notices of `a` against each of `os` in turn: both identities for
/// each collision.
pub open spec fn row_hits(det: Detector, a: Entity, os: Seq<Entity>) -> Seq<EntityId>
    decreases os.len(),
{
    if os.len() == 0 {
        seq![]
    } else {
        row_hits(det, a, os.drop_last()) + if pair_hits(det, a, os.last()) {
            seq![a.id, os.last().id]
        } else {
            seq![]
        }
    }
}

/// Hit notices of every entity of `as_` against all of `os`, in order.
pub open spec fn all_hits(det: Detector, as_: Seq<Entity>, os: Seq<Entity>) -> Seq<EntityId>
    decreases as_.len(),
{
    if as_.len() == 0 {
        seq![]
    } else {
        all_hits(det, as_.drop_last(), os) + row_hits(det, as_.last(), os)
    }
}


fn pair_hits_exec(det: Detector, a: &Entity, o: &Entity) -> (r: bool)
    requires
        a.wf(),
        o.wf(),
    ensures
        r == pair_hits(det, *a, *o),
{
    let (ca, co) = match (a.collidable, o.collidable) {
        (Some(ca), Some(co)) => (ca, co),
        _ => {
            return false;
        },
    };
    if o.invulnerable_now() {
        return false;
    }
    let kinds = match det {
        Detector::Bullets => match (a.kind, o.bullet_collidable) {
            (EntityKind::Bullet(b), Some(bc)) => b.source == bc.source,
            _ => false,
        },
        Detector::Asteroids => match a.kind {
            EntityKind::Asteroid(_) => o.asteroid_collidable,
            _ => false,
        },
    };
    kinds && ca.test_collision_with(&co)
}

proof fn lemma_push_map(hits: Seq<HitEvent>, h: HitEvent)
    ensures
        event_ids(hits.push(h)) == event_ids(hits).push(h.0),
{
    assert(event_ids(hits.push(h)) =~= event_ids(hits).push(h.0));
}

impl World {
    /// Collision stage of one detector: tests every pair and emits a notice
    /// for both members of each colliding pair.
    pub fn detect_collisions(&self, det: Detector) -> (r: Vec<HitEvent>)
        requires
            self.wf(),
        ensures
            event_ids(r@) == all_hits(det, self.entities@, self.entities@),
    {
        let es = &self.entities;
        let n = es.len();
        let mut out: Vec<HitEvent> = Vec::new();
        let mut i: usize = 0;
        while i < n
            invariant
                i <= n,
                n == es@.len(),
                forall|k: int| 0 <= k < n ==> (#[trigger] es@[k]).wf(),
                event_ids(out@) == all_hits(det, es@.take(i as int), es@),
            decreases n - i,
        {
            let a = es[i];
            let ghost before = event_ids(out@);
            let mut j: usize = 0;
            while j < n
                invariant
                    i < n,
                    j <= n,
                    n == es@.len(),
                    a == es@[i as int],
                    forall|k: int| 0 <= k < n ==> (#[trigger] es@[k]).wf(),
                    event_ids(out@) == before + row_hits(det, a, es@.take(j as int)),
                decreases n - j,
            {
                let o = es[j];
                proof {
                    assert(es@.take(j as int + 1).drop_last() == es@.take(j as int));
                }
                if pair_hits_exec(det, &a, &o) {
                    proof {
                        lemma_push_map(out@, HitEvent(a.id));
                    }
                    out.push(HitEvent(a.id));
                    proof {
                        lemma_push_map(out@, HitEvent(o.id));
                    }
                    out.push(HitEvent(o.id));
                    assert(event_ids(out@) =~= before + row_hits(det, a, es@.take(j as int + 1)));
                } else {
                    assert(event_ids(out@) =~= before + row_hits(det, a, es@.take(j as int + 1)));
                }
                j = j + 1;
            }
            proof {
                assert(es@.take(n as int) == es@);
                assert(es@.take(i as int + 1).drop_last() == es@.take(i as int));
            }
            i = i + 1;
        }
        proof {
            assert(es@.take(n as int) == es@);
        }
        out
    }
}

} // verus!

verus! {

/// What the collision-effect stage destroyed, for the game's bookkeeping.
pub struct Destroyed {
    /// One event per destroyed asteroid, in the order of the hits.
    pub asteroids: Vec<AsteroidDestroyedEvent>,
    pub rocket: bool,
    pub alien: bool,
    /// One burst of debris per destroyed ship or asteroid, in the order of
    /// the hits.
    pub explosions: Vec<SpawnExplosion>,
}

pub const ASTEROID_EXPLOSION_DESPAWN_AFTER_MS: u64 = 800;
pub const SHIP_EXPLOSION_DESPAWN_AFTER_MS: u64 = 3000;
/// Spin of alien ship debris: half a turn per second.
pub const ALIEN_DEBRIS_SPIN: i64 = 32768;

/// The debris burst a destroyed entity leaves, if it leaves one.
pub open spec fn debris_of(e: Entity) -> Option<SpawnExplosion> {
    let base = SpawnExplosion {
        shape_id: ExplosionShapeId::RocketDebris,
        shape_scale: 1,
        position: e.movable.position,
        velocity: e.movable.velocity,
        heading_angle: e.movable.heading_angle,
        rotational_velocity: e.movable.rotational_velocity,
        despawn_after_ms: SHIP_EXPLOSION_DESPAWN_AFTER_MS,
    };
    match e.kind {
        EntityKind::Asteroid(a) => Some(
            SpawnExplosion {
                shape_id: ExplosionShapeId::AsteroidDebris,
                shape_scale: scale_spec(a.size) as i64,
                despawn_after_ms: ASTEROID_EXPLOSION_DESPAWN_AFTER_MS,
                ..base
            },
        ),
        EntityKind::PlayerRocket => Some(base),
        EntityKind::AlienUfo => Some(
            SpawnExplosion {
                shape_id: ExplosionShapeId::UfoDebris,
                rotational_velocity: ALIEN_DEBRIS_SPIN,
                ..base
            },
        ),
        _ => None,
    }
}

/// Debris bursts for the entities named by `ids`, in the order of `ids`.
pub open spec fn debris_for(es: Seq<Entity>, ids: Seq<EntityId>) -> Seq<SpawnExplosion>
    decreases ids.len(),
{
    if ids.len() == 0 {
        seq![]
    } else {
        let rest = debris_for(es, ids.drop_last());
        match find(es, ids.last()) {
            Some(e) => match debris_of(e) {
                Some(x) => rest.push(x),
                None => rest,
            },
            None => rest,
        }
    }
}

fn debris_of_exec(e: &Entity) -> (r: Option<SpawnExplosion>)
    ensures
        r == debris_of(*e),
{
    let base = SpawnExplosion {
        shape_id: ExplosionShapeId::RocketDebris,
        shape_scale: 1,
        position: e.movable.position,
        velocity: e.movable.velocity,
        heading_angle: e.movable.heading_angle,
        rotational_velocity: e.movable.rotational_velocity,
        despawn_after_ms: SHIP_EXPLOSION_DESPAWN_AFTER_MS,
    };
    match e.kind {
        EntityKind::Asteroid(a) => Some(
            SpawnExplosion {
                shape_id: ExplosionShapeId::AsteroidDebris,
                shape_scale: crate::asteroid::asteroid_scale(a.size),
                despawn_after_ms: ASTEROID_EXPLOSION_DESPAWN_AFTER_MS,
                ..base
            },
        ),
        EntityKind::PlayerRocket => Some(base),
        EntityKind::AlienUfo => Some(
            SpawnExplosion {
                shape_id: ExplosionShapeId::UfoDebris,
                rotational_velocity: ALIEN_DEBRIS_SPIN,
                ..base
            },
        ),
        _ => None,
    }
}

/// Events for the asteroids among the entities named by `ids`, in the
/// order of `ids`.
pub open spec fn destroyed_asteroids(es: Seq<Entity>, ids: Seq<EntityId>) -> Seq<
    AsteroidDestroyedEvent,
>
    decreases ids.len(),
{
    if ids.len() == 0 {
        seq![]
    } else {
        let rest = destroyed_asteroids(es, ids.drop_last());
        match find(es, ids.last()) {
            Some(e) => match e.kind {
                EntityKind::Asteroid(a) => rest.push(
                    AsteroidDestroyedEvent {
                        size: a.size,
                        position: e.movable.position,
                        velocity: e.movable.velocity,
                    },
                ),
                _ => rest,
            },
            None => rest,
        }
    }
}

/// Some entity named by `ids` is the player's ship (or, with `alien`, an
/// alien ship).
pub open spec fn names_ship(es: Seq<Entity>, ids: Seq<EntityId>, alien: bool) -> bool
    decreases ids.len(),
{
    if ids.len() == 0 {
        false
    } else {
        names_ship(es, ids.drop_last(), alien) || match find(es, ids.last()) {
            Some(e) => if alien {
                e.kind is AlienUfo
            } else {
                e.kind is PlayerRocket
            },
            None => false,
        }
    }
}

/// The entities not named by `ids`, in order.
pub open spec fn unhit(es: Seq<Entity>, ids: Seq<EntityId>) -> Seq<Entity>
    decreases es.len(),
{
    if es.len() == 0 {
        seq![]
    } else if ids.contains(es.last().id) {
        unhit(es.drop_last(), ids)
    } else {
        unhit(es.drop_last(), ids).push(es.last())
    }
}

/// After the hits are applied, no entity named by them is left, and every
/// entity not named by them is still there.
pub proof fn lemma_unhit(es: Seq<Entity>, ids: Seq<EntityId>)
    ensures
        forall|k: int|
            0 <= k < unhit(es, ids).len() ==> !ids.contains(#[trigger] unhit(es, ids)[k].id),
        forall|k: int|
            0 <= k < es.len() && !ids.contains(#[trigger] es[k].id) ==> unhit(es, ids).contains(
                es[k],
            ),
    decreases es.len(),
{
    if es.len() > 0 {
        let t = es.drop_last();
        lemma_unhit(t, ids);
        let u = unhit(t, ids);
        assert forall|k: int| 0 <= k < es.len() && !ids.contains(#[trigger] es[k].id) implies unhit(
            es,
            ids,
        ).contains(es[k]) by {
            if k < es.len() - 1 {
                assert(t[k] == es[k]);
                let j = choose|j: int| 0 <= j < u.len() && u[j] == t[k];
                if !ids.contains(es.last().id) {
                    assert(u.push(es.last())[j] == es[k]);
                }
            } else {
                assert(u.push(es.last())[u.len() as int] == es[k]);
            }
        }
    }
}

impl World {
    /// Removes the entities named by `ids` (identities of the world are
    /// distinct, so each goes once).
    fn remove_ids(&mut self, ids: &Vec<EntityId>)
        requires
            old(self).wf(),
        ensures
            final(self).wf(),
            final(self).bounds == old(self).bounds,
            final(self).next_id == old(self).next_id,
            final(self).entities@ == unhit(old(self).entities@, ids@),
    {
        let mut all: Vec<Entity> = Vec::new();
        std::mem::swap(&mut all, &mut self.entities);
        let ghost idx: Seq<int> = seq![];
        let mut i: usize = 0;
        while i < all.len()
            invariant
                i <= all.len(),
                all@ == old(self).entities@,
                self.bounds == old(self).bounds,
                self.next_id == old(self).next_id,
                self.entities@ == unhit(all@.take(i as int), ids@),
                idx.len() == self.entities@.len(),
                forall|k: int| 0 <= k < idx.len() ==> 0 <= #[trigger] idx[k] < i,
                forall|a: int, b: int|
                    0 <= a < b < idx.len() ==> #[trigger] idx[a] < #[trigger] idx[b],
                forall|k: int| 0 <= k < idx.len() ==> #[trigger] self.entities@[k] == all@[idx[k]],
            decreases all.len() - i,
        {
            proof {
                assert(all@.take(i as int + 1).drop_last() == all@.take(i as int));
            }
            let e = all[i];
            if !contains_id(ids, e.id) {
                self.entities.push(e);
                proof {
                    idx = idx.push(i as int);
                }
            }
            i = i + 1;
        }
        proof {
            assert(all@.take(all.len() as int) == all@);
            let w = *old(self);
            assert forall|k: int| 0 <= k < self.entities@.len() implies (
            #[trigger] self.entities@[k]).wf() && self.entities@[k].id < self.next_id by {
                assert(self.entities@[k] == w.entities@[idx[k]]);
            }
            assert forall|a: int, b: int|
                0 <= a < b < self.entities@.len() implies (#[trigger] self.entities@[a]).id
                != (#[trigger] self.entities@[b]).id by {
                assert(idx[a] < idx[b]);
                assert(self.entities@[a] == w.entities@[idx[a]]);
                assert(self.entities@[b] == w.entities@[idx[b]]);
            }
        }
    }

    /// Collision-effect stage: each entity named in this tick's hits is
    /// destroyed exactly once, however many notices name it; the
    /// destructions are reported for the game's bookkeeping.
    pub fn collision_effect_stage(&mut self, hits: &Vec<HitEvent>) -> (r: Destroyed)
        requires
            old(self).wf(),
        ensures
            final(self).wf(),
            final(self).bounds == old(self).bounds,
            final(self).next_id == old(self).next_id,
            final(self).entities@ == unhit(old(self).entities@, distinct_seq(event_ids(hits@))),
            r.asteroids@ == destroyed_asteroids(
                old(self).entities@,
                distinct_seq(event_ids(hits@)),
            ),
            r.rocket == names_ship(old(self).entities@, distinct_seq(event_ids(hits@)), false),
            r.alien == names_ship(old(self).entities@, distinct_seq(event_ids(hits@)), true),
            r.explosions@ == debris_for(old(self).entities@, distinct_seq(event_ids(hits@))),
    {
        let distinct = distinct_hit_events(hits);
        let ghost ids = distinct_seq(event_ids(hits@));
        let mut id_list: Vec<EntityId> = Vec::new();
        let mut asteroids: Vec<AsteroidDestroyedEvent> = Vec::new();
        let mut rocket = false;
        let mut alien = false;
        let mut explosions: Vec<SpawnExplosion> = Vec::new();
        let mut i: usize = 0;
        while i < distinct.len()
            invariant
                i <= distinct.len(),
                event_ids(distinct@) == ids,
                id_list@ == ids.take(i as int),
                asteroids@ == destroyed_asteroids(self.entities@, ids.take(i as int)),
                rocket == names_ship(self.entities@, ids.take(i as int), false),
                alien == names_ship(self.entities@, ids.take(i as int), true),
                explosions@ == debris_for(self.entities@, ids.take(i as int)),
                *self == *old(self),
            decreases distinct.len() - i,
        {
            let id = distinct[i].0;
            proof {
                assert(ids[i as int] == id);
                assert(ids.take(i as int + 1).drop_last() == ids.take(i as int));
                assert(ids.take(i as int + 1).last() == id);
            }
            id_list.push(id);
            let found = self.get(id);
            if let Some(e) = found {
                if let Some(x) = debris_of_exec(&e) {
                    explosions.push(x);
                }
            }
            match found {
                Some(e) => match e.kind {
                    EntityKind::Asteroid(a) => {
                        asteroids.push(
                            AsteroidDestroyedEvent {
                                size: a.size,
                                position: e.movable.position,
                                velocity: e.movable.velocity,
                            },
                        );
                    },
                    EntityKind::PlayerRocket => {
                        rocket = true;
                    },
                    EntityKind::AlienUfo => {
                        alien = true;
                    },
                    _ => {},
                },
                None => {},
            }
            i = i + 1;
        }
        proof {
            assert(ids.take(distinct.len() as int) == ids);
        }
        self.remove_ids(&id_list);
        Destroyed { asteroids, rocket, alien, explosions }
    }
}

} // verus!

verus! {

pub const BULLET_RADIUS: i64 = 1000;
pub const ROCKET_RADIUS: i64 = 3000;
pub const ROCKET_FIRE_PERIOD_MS: u64 = 200;
pub const ROCKET_SPAWN_INVULNERABILITY_MS: u64 = 3000;
pub const ALIEN_HALF_WIDTH: i64 = 5000;
pub const ALIEN_RADIUS: i64 = 3000;
pub const ALIEN_FIRE_PERIOD_MS: u64 = 2000;
pub const ALIEN_UFO_SPEED: i64 = 50000;
/// How far outside the world rectangle off-screen spawns start.
pub const OFFSCREEN_MARGIN: i64 = 10000;

/// Where and how the player's ship appears.
#[derive(Clone, Copy, Debug, PartialEq, Eq, Structural)]
pub struct RocketSpawn {
    pub position: Vec2,
    pub velocity: Vec2,
    pub invulnerable: Option<Timer>,
}

impl RocketSpawn {
    /// At rest in the middle of the world, briefly invulnerable.
    pub fn new() -> (r: RocketSpawn)
        ensures
            r.position == Vec2::zero_spec(),
            r.velocity == Vec2::zero_spec(),
            r.invulnerable == Some(
                Timer::from_millis_spec(ROCKET_SPAWN_INVULNERABILITY_MS, TimerMode::Once),
            ),
    {
        RocketSpawn {
            position: Vec2::zero(),
            velocity: Vec2::zero(),
            invulnerable: Some(Timer::from_millis(ROCKET_SPAWN_INVULNERABILITY_MS, TimerMode::Once)),
        }
    }
}

/// Where and how the alien ship appears.
#[derive(Clone, Copy, Debug, PartialEq, Eq, Structural)]
pub struct AlienSpawn {
    pub position: Vec2,
    pub velocity: Vec2,
}

pub open spec fn still_movable(position: Vec2, velocity: Vec2, heading: u64, spin: i64) -> Movable {
    Movable {
        position,
        velocity,
        acceleration: None,
        heading_angle: heading,
        rotational_velocity: spin,
        rotational_acceleration: None,
    }
}

/// The entity an asteroid spawn creates (its identity is set on insertion).
pub open spec fn asteroid_entity(s: AsteroidSpawn) -> Entity {
    let radius = (scale_spec(s.size) * ASTEROID_DIAMETER / 2) as i64;
    Entity {
        id: 0,
        kind: EntityKind::Asteroid(Asteroid { size: s.size }),
        movable: still_movable(s.position, s.velocity, 0, s.rotation),
        torus: Some(MovableTorusConstraint { radius }),
        collidable: Some(Collidable { collider: Collider::Circle { center: s.position, radius } }),
        bullet_collidable: Some(BulletCollidable { source: BulletSource::PlayerRocket }),
        asteroid_collidable: false,
        invulnerable: s.invulnerable,
        bullet_controller: None,
    }
}

pub open spec fn bullet_entity(s: BulletSpawn) -> Entity {
    Entity {
        id: 0,
        kind: EntityKind::Bullet(
            Bullet {
                source: s.source,
                despawn_timer: Timer::from_millis_spec(s.despawn_after_ms, TimerMode::Once),
            },
        ),
        movable: still_movable(s.position, s.velocity, s.heading_angle, 0),
        torus: Some(MovableTorusConstraint { radius: BULLET_RADIUS }),
        collidable: Some(
            Collidable { collider: Collider::Circle { center: s.position, radius: BULLET_RADIUS } },
        ),
        bullet_collidable: None,
        asteroid_collidable: false,
        invulnerable: None,
        bullet_controller: None,
    }
}

/// The result of an insertion of `e` into `old`, giving `r`.
pub open spec fn inserted(old: World, new: World, e: Entity, r: Option<EntityId>) -> bool {
    match r {
        Some(id) => id == old.next_id && new.entities@ == old.entities@.push(Entity { id, ..e })
            && new.next_id == old.next_id + 1,
        None => new.entities@ == old.entities@ && new.next_id == old.next_id,
    }
}

impl World {
    /// Places an asteroid; `None` (nothing placed) if its position or
    /// velocity is outside the simulated range or identities have run out.
    pub fn spawn_asteroid(&mut self, spawn: AsteroidSpawn) -> (r: Option<EntityId>)
        requires
            old(self).wf(),
            spawn.invulnerable matches Some(t) ==> t.wf(),
        ensures
            final(self).wf(),
            final(self).bounds == old(self).bounds,
            inserted(*old(self), *final(self), asteroid_entity(spawn), r),
            r is Some <==> (vec_ok(spawn.position) && vec_ok(spawn.velocity) && coord_ok(
                spawn.rotation as int,
            ) && old(self).next_id < u64::MAX),
    {
        if !in_range(spawn.position) || !in_range(spawn.velocity) || spawn.rotation
            < -COORD_LIMIT || spawn.rotation > COORD_LIMIT {
            return None;
        }
        let radius = asteroid_radius(spawn.size);
        let e = Entity {
            id: 0,
            kind: EntityKind::Asteroid(Asteroid { size: spawn.size }),
            movable: Movable {
                position: spawn.position,
                velocity: spawn.velocity,
                acceleration: None,
                heading_angle: 0,
                rotational_velocity: spawn.rotation,
                rotational_acceleration: None,
            },
            torus: Some(MovableTorusConstraint { radius }),
            collidable: Some(Collidable { collider: Collider::circle(spawn.position, radius) }),
            bullet_collidable: Some(BulletCollidable { source: BulletSource::PlayerRocket }),
            asteroid_collidable: false,
            invulnerable: spawn.invulnerable,
            bullet_controller: None,
        };
        self.insert(e)
    }

    /// Places a bullet; `None` (nothing placed) if its position or velocity
    /// is outside the simulated range, its heading is not below a full
    /// turn, or identities have run out.
    pub fn spawn_bullet(&mut self, spawn: BulletSpawn) -> (r: Option<EntityId>)
        requires
            old(self).wf(),
        ensures
            final(self).wf(),
            final(self).bounds == old(self).bounds,
            inserted(*old(self), *final(self), bullet_entity(spawn), r),
            r is Some <==> (vec_ok(spawn.position) && vec_ok(spawn.velocity) && spawn.heading_angle
                < crate::movable::FULL_TURN && old(self).next_id < u64::MAX),
    {
        if !in_range(spawn.position) || !in_range(spawn.velocity) || spawn.heading_angle
            >= crate::movable::FULL_TURN {
            return None;
        }
        let e = Entity {
            id: 0,
            kind: EntityKind::Bullet(
                Bullet {
                    source: spawn.source,
                    despawn_timer: Timer::from_millis(spawn.despawn_after_ms, TimerMode::Once),
                },
            ),
            movable: Movable {
                position: spawn.position,
                velocity: spawn.velocity,
                acceleration: None,
                heading_angle: spawn.heading_angle,
                rotational_velocity: 0,
                rotational_acceleration: None,
            },
            torus: Some(MovableTorusConstraint { radius: BULLET_RADIUS }),
            collidable: Some(Collidable { collider: Collider::circle(spawn.position, BULLET_RADIUS) }),
            bullet_collidable: None,
            asteroid_collidable: false,
            invulnerable: None,
            bullet_controller: None,
        };
        self.insert(e)
    }

    /// Places the player's ship, facing up, with its fire control; `None`
    /// as for the other spawns.
    pub fn spawn_player_rocket(&mut self, spawn: RocketSpawn) -> (r: Option<EntityId>)
        requires
            old(self).wf(),
            spawn.invulnerable matches Some(t) ==> t.wf(),
        ensures
            final(self).wf(),
            final(self).bounds == old(self).bounds,
            r is Some <==> (vec_ok(spawn.position) && vec_ok(spawn.velocity) && old(self).next_id
                < u64::MAX),
            match r {
                Some(id) => final(self).entities@.len() == old(self).entities@.len() + 1
                    && final(self).entities@.last().id == id
                    && final(self).entities@.last().kind == EntityKind::PlayerRocket
                    && final(self).entities@.last().movable.position == spawn.position
                    && final(self).entities@.last().invulnerable == spawn.invulnerable
                    && final(self).entities@.drop_last() == old(self).entities@,
                None => final(self).entities@ == old(self).entities@,
            },
    {
        if !in_range(spawn.position) || !in_range(spawn.velocity) {
            return None;
        }
        let controller = BulletController::new(ROCKET_FIRE_PERIOD_MS).with_spawn_translation(
            Vec2::new(ROCKET_RADIUS, 0),
        );
        let e = Entity {
            id: 0,
            kind: EntityKind::PlayerRocket,
            movable: Movable {
                position: spawn.position,
                velocity: spawn.velocity,
                acceleration: None,
                heading_angle: crate::movable::FULL_TURN / 4,
                rotational_velocity: 0,
                rotational_acceleration: None,
            },
            torus: Some(MovableTorusConstraint { radius: ROCKET_RADIUS }),
            collidable: Some(Collidable { collider: Collider::circle(spawn.position, ROCKET_RADIUS / 2) }),
            bullet_collidable: Some(BulletCollidable { source: BulletSource::AlienUfo }),
            asteroid_collidable: true,
            invulnerable: spawn.invulnerable,
            bullet_controller: Some(controller),
        };
        let r = self.insert(e);
        proof {
            if r is Some {
                assert(self.entities@.drop_last() =~= old(self).entities@);
            }
        }
        r
    }

    /// Places the alien ship, already firing; `None` as for the other
    /// spawns.
    pub fn spawn_alien_ufo(&mut self, spawn: AlienSpawn) -> (r: Option<EntityId>)
        requires
            old(self).wf(),
        ensures
            final(self).wf(),
            final(self).bounds == old(self).bounds,
            r is Some <==> (vec_ok(spawn.position) && vec_ok(spawn.velocity) && old(self).next_id
                < u64::MAX),
            match r {
                Some(id) => final(self).entities@.len() == old(self).entities@.len() + 1
                    && final(self).entities@.last().id == id
                    && final(self).entities@.last().kind == EntityKind::AlienUfo
                    && final(self).entities@.last().movable.position == spawn.position
                    && final(self).entities@.drop_last() == old(self).entities@,
                None => final(self).entities@ == old(self).entities@,
            },
    {
        if !in_range(spawn.position) || !in_range(spawn.velocity) {
            return None;
        }
        let mut controller = BulletController::new(ALIEN_FIRE_PERIOD_MS);
        controller.try_set_firing_state(true);
        let e = Entity {
            id: 0,
            kind: EntityKind::AlienUfo,
            movable: Movable {
                position: spawn.position,
                velocity: spawn.velocity,
                acceleration: None,
                heading_angle: 0,
                rotational_velocity: 0,
                rotational_acceleration: None,
            },
            torus: Some(MovableTorusConstraint { radius: ALIEN_RADIUS }),
            collidable: Some(
                Collidable {
                    collider: Collider::capsule(spawn.position, Vec2::new(ALIEN_HALF_WIDTH, 0), ALIEN_RADIUS),
                },
            ),
            bullet_collidable: Some(BulletCollidable { source: BulletSource::PlayerRocket }),
            asteroid_collidable: false,
            invulnerable: None,
            bullet_controller: Some(controller),
        };
        let r = self.insert(e);
        proof {
            if r is Some {
                assert(self.entities@.drop_last() =~= old(self).entities@);
            }
        }
        r
    }
}

} // verus!

verus! {

/// An entity with its countdowns advanced by `delta_ms`.
pub open spec fn timers_ticked(e: Entity, delta_ms: u64) -> Entity {
    Entity {
        invulnerable: match e.invulnerable {
            Some(t) => Some(t.ticked(delta_ms)),
            None => None,
        },
        kind: match e.kind {
            EntityKind::Bullet(b) => EntityKind::Bullet(
                Bullet { despawn_timer: b.despawn_timer.ticked(delta_ms), ..b },
            ),
            EntityKind::Explosion(t) => EntityKind::Explosion(t.ticked(delta_ms)),
            k => k,
        },
        ..e
    }
}

/// A bullet or debris particle whose lifetime is over.
pub open spec fn expired(e: Entity) -> bool {
    match e.kind {
        EntityKind::Bullet(b) => b.despawn_timer.finished,
        EntityKind::Explosion(t) => t.finished,
        _ => false,
    }
}

/// The entities after their countdowns ran for `delta_ms`, without those
/// whose lifetime is over.
pub open spec fn after_timers(es: Seq<Entity>, delta_ms: u64) -> Seq<Entity>
    decreases es.len(),
{
    if es.len() == 0 {
        seq![]
    } else {
        let e = timers_ticked(es.last(), delta_ms);
        if expired(e) {
            after_timers(es.drop_last(), delta_ms)
        } else {
            after_timers(es.drop_last(), delta_ms).push(e)
        }
    }
}

/// The point where a ray from the world's centre along `d` leaves the
/// rectangle, pushed `margin` further out along the ray (distances in
/// fifths of `d`, whose length is 5).
pub open spec fn offscreen_point(d: Vec2, b: WorldBoundaries, margin: int) -> (int, int) {
    let right = if b.right > 0 { b.right as int } else { 0 };
    let left = if b.left < 0 { -b.left } else { 0 };
    let top = if b.top > 0 { b.top as int } else { 0 };
    let bottom = if b.bottom < 0 { -b.bottom } else { 0 };
    let tx = if d.x > 0 {
        right * 5 / (d.x as int)
    } else if d.x < 0 {
        left * 5 / (-d.x)
    } else {
        COORD_LIMIT as int
    };
    let ty = if d.y > 0 {
        top * 5 / (d.y as int)
    } else if d.y < 0 {
        bottom * 5 / (-d.y)
    } else {
        COORD_LIMIT as int
    };
    let t0 = if tx < ty { tx } else { ty };
    let t = if t0 < COORD_LIMIT / 2 { t0 } else { COORD_LIMIT / 2 };
    (div_trunc(d.x * (t + margin), 5), div_trunc(d.y * (t + margin), 5))
}

fn offscreen_position(d: Vec2, b: &WorldBoundaries, margin: i64) -> (r: Vec2)
    requires
        b.wf(),
        -5 <= d.x <= 5 && -5 <= d.y <= 5,
        0 <= margin <= EDGE_LIMIT,
    ensures
        vec_ok(r),
        r.x == offscreen_point(d, *b, margin as int).0,
        r.y == offscreen_point(d, *b, margin as int).1,
{
    let right: i64 = if b.right > 0 { b.right } else { 0 };
    let left: i64 = if b.left < 0 { -b.left } else { 0 };
    let top: i64 = if b.top > 0 { b.top } else { 0 };
    let bottom: i64 = if b.bottom < 0 { -b.bottom } else { 0 };
    let tx: i64 = if d.x > 0 {
        right * 5 / d.x
    } else if d.x < 0 {
        left * 5 / (-d.x)
    } else {
        COORD_LIMIT
    };
    let ty: i64 = if d.y > 0 {
        top * 5 / d.y
    } else if d.y < 0 {
        bottom * 5 / (-d.y)
    } else {
        COORD_LIMIT
    };
    let t0 = if tx < ty { tx } else { ty };
    let t = if t0 < COORD_LIMIT / 2 { t0 } else { COORD_LIMIT / 2 };
    assert(0 <= t <= COORD_LIMIT / 2) by {
        assert(right * 5 / (d.x as int) >= 0 || d.x <= 0) by (nonlinear_arith)
            requires right >= 0;
        assert(left * 5 / (-d.x) >= 0 || d.x >= 0) by (nonlinear_arith)
            requires left >= 0;
        assert(top * 5 / (d.y as int) >= 0 || d.y <= 0) by (nonlinear_arith)
            requires top >= 0;
        assert(bottom * 5 / (-d.y) >= 0 || d.y >= 0) by (nonlinear_arith)
            requires bottom >= 0;
    }
    let k = t + margin;
    assert(-5 * k <= d.x * k <= 5 * k && -5 * k <= d.y * k <= 5 * k) by (nonlinear_arith)
        requires
            -5 <= d.x <= 5,
            -5 <= d.y <= 5,
            k >= 0,
    ;
    Vec2 { x: div_trunc_exec(d.x * k, 5), y: div_trunc_exec(d.y * k, 5) }
}

/// Asteroid velocity for table direction `d`: the minimum speed on each
/// axis plus `d` scaled to the speed range.
pub open spec fn asteroid_velocity(d: Vec2) -> Vec2 {
    Vec2 {
        x: (ASTEROID_MIN_SPEED + div_trunc(d.x * (ASTEROID_MAX_SPEED - ASTEROID_MIN_SPEED), 5)) as i64,
        y: (ASTEROID_MIN_SPEED + div_trunc(d.y * (ASTEROID_MAX_SPEED - ASTEROID_MIN_SPEED), 5)) as i64,
    }
}

/// A point inside the world for table direction `d`: `d / 5` scaled by the
/// right and top edges.
pub open spec fn onscreen_point(d: Vec2, b: WorldBoundaries) -> Vec2 {
    Vec2 { x: div_trunc(d.x * b.right, 5) as i64, y: div_trunc(d.y * b.top, 5) as i64 }
}

/// A random asteroid velocity, for a direction drawn from the table.
fn random_asteroid_velocity() -> (r: Vec2)
    ensures
        vec_ok(r),
        exists|d: Vec2| is_direction(d) && r == asteroid_velocity(d),
{
    let i = random_in(0, DIRECTION_COUNT - 1);
    let d = direction(i);
    assert(direction_spec(i as int) == d);
    let span: i64 = ASTEROID_MAX_SPEED - ASTEROID_MIN_SPEED;
    assert(-5 <= d.x <= 5 && -5 <= d.y <= 5);
    let x = ASTEROID_MIN_SPEED + div_trunc_exec(d.x * span, 5);
    let y = ASTEROID_MIN_SPEED + div_trunc_exec(d.y * span, 5);
    assert(Vec2 { x, y } == asteroid_velocity(d));
    Vec2 { x, y }
}


/// `new` is `old` with entities appended, nothing else changed.
pub open spec fn appended(old: World, new: World) -> bool {
    &&& new.bounds == old.bounds
    &&& old.entities@.len() <= new.entities@.len()
    &&& new.entities@.subrange(0, old.entities@.len() as int) == old.entities@
}

/// A fragment of the given size at position `p` with velocity `v`, freshly
/// invulnerable, with a spin in the allowed range.
pub open spec fn fragment_ok(e: Entity, size: AsteroidSize, p: Vec2, v: Vec2) -> bool {
    &&& e.kind == EntityKind::Asteroid(Asteroid { size })
    &&& e.movable.position == p
    &&& e.movable.velocity == v
    &&& e.invulnerable == Some(
        Timer::from_millis_spec(CHUNK_ASTEROID_INVULNERABLE_MS, TimerMode::Once),
    )
    &&& ASTEROID_MIN_SPIN_RATE <= e.movable.rotational_velocity <= ASTEROID_MAX_SPIN_RATE
}

/// The fragments placed for fragment states `ch`: at most two, each of the
/// child size and freshly invulnerable; exactly the two, in order, when
/// both states are in range and two identities remain.
pub open spec fn fragments_placed(
    old: World,
    new: World,
    size: AsteroidSize,
    ch: ((Vec2, Vec2), (Vec2, Vec2)),
) -> bool {
    let n = old.entities@.len();
    &&& new.entities@.len() <= n + 2
    &&& forall|k: int|
        n <= k < new.entities@.len() ==> (#[trigger] new.entities@[k]).kind == EntityKind::Asteroid(
            Asteroid { size },
        ) && new.entities@[k].invulnerable == Some(
            Timer::from_millis_spec(CHUNK_ASTEROID_INVULNERABLE_MS, TimerMode::Once),
        )
    &&& (vec_ok(ch.0.0) && vec_ok(ch.0.1) && vec_ok(ch.1.0) && vec_ok(ch.1.1) && old.next_id
        <= u64::MAX - 2) ==> new.entities@.len() == n + 2 && fragment_ok(
        new.entities@[n as int],
        size,
        ch.0.0,
        ch.0.1,
    ) && fragment_ok(new.entities@[n + 1 as int], size, ch.1.0, ch.1.1)
}

/// What carrying out one scheduled spawn does to the world.
pub open spec fn spawn_executed(old: World, new: World, instruction: AsteroidSpawnInstruction) -> bool {
    let n = old.entities@.len();
    &&& appended(old, new)
    &&& match instruction {
        AsteroidSpawnInstruction::FromDestroyedAsteroid(ev) => match child_size_spec(ev.size) {
            None => new.entities@ == old.entities@,
            Some(size) => if vec_ok(ev.position) && vec_ok(ev.velocity) {
                exists|d: Vec2, sp: int|
                    is_direction(d) && CHILD_ASTEROID_MIN_ADD_SPEED <= sp
                        <= CHILD_ASTEROID_MAX_ADD_SPEED && fragments_placed(
                        old,
                        new,
                        size,
                        chunk_spec(d, sp, ev.position, ev.velocity),
                    )
            } else {
                new.entities@ == old.entities@
            },
        },
        AsteroidSpawnInstruction::AtPosition(p) => {
            &&& new.entities@.len() <= n + 1
            &&& (vec_ok(p) && old.next_id < u64::MAX ==> new.entities@.len() == n + 1)
            &&& forall|k: int|
                n <= k < new.entities@.len() ==> (#[trigger] new.entities@[k]).kind is Asteroid
                    && new.entities@[k].movable.position == p
                    && new.entities@[k].movable.velocity == Vec2::zero_spec()
        },
        AsteroidSpawnInstruction::Anywhere => {
            &&& new.entities@.len() <= n + 1
            &&& (old.next_id < u64::MAX ==> new.entities@.len() == n + 1)
            &&& forall|k: int|
                n <= k < new.entities@.len() ==> (#[trigger] new.entities@[k]).kind is Asteroid
                    && exists|d: Vec2|
                    is_direction(d) && new.entities@[k].movable.position == onscreen_point(
                        d,
                        old.bounds,
                    )
        },
        AsteroidSpawnInstruction::OffScreen => {
            &&& new.entities@.len() <= n + 1
            &&& (old.next_id < u64::MAX ==> new.entities@.len() == n + 1)
            &&& forall|k: int|
                n <= k < new.entities@.len() ==> (#[trigger] new.entities@[k]).kind is Asteroid
                    && exists|d: Vec2|
                    is_direction(d) && new.entities@[k].movable.position.x == offscreen_point(
                        d,
                        old.bounds,
                        OFFSCREEN_MARGIN as int,
                    ).0 && new.entities@[k].movable.position.y == offscreen_point(
                        d,
                        old.bounds,
                        OFFSCREEN_MARGIN as int,
                    ).1
        },
    }
}

impl World {
    /// Advances every entity's countdowns and removes the bullets and debris
    /// whose lifetime is over.
    pub fn timers_stage(&mut self, delta_ms: u64)
        requires
            old(self).wf(),
        ensures
            final(self).wf(),
            final(self).bounds == old(self).bounds,
            final(self).next_id == old(self).next_id,
            final(self).entities@ == after_timers(old(self).entities@, delta_ms),
    {
        let mut all: Vec<Entity> = Vec::new();
        std::mem::swap(&mut all, &mut self.entities);
        let ghost idx: Seq<int> = seq![];
        let mut i: usize = 0;
        while i < all.len()
            invariant
                i <= all.len(),
                all@ == old(self).entities@,
                self.bounds == old(self).bounds,
                self.next_id == old(self).next_id,
                old(self).wf(),
                self.entities@ == after_timers(all@.take(i as int), delta_ms),
                idx.len() == self.entities@.len(),
                forall|k: int| 0 <= k < idx.len() ==> 0 <= #[trigger] idx[k] < i,
                forall|a: int, b: int|
                    0 <= a < b < idx.len() ==> #[trigger] idx[a] < #[trigger] idx[b],
                forall|k: int|
                    0 <= k < idx.len() ==> #[trigger] self.entities@[k] == timers_ticked(
                        all@[idx[k]],
                        delta_ms,
                    ),
            decreases all.len() - i,
        {
            proof {
                assert(all@.take(i as int + 1).drop_last() == all@.take(i as int));
                assert(old(self).entities@[i as int].wf());
            }
            let mut e = all[i];
            if let Some(t) = e.invulnerable {
                let mut t2 = t;
                t2.tick(delta_ms);
                e.invulnerable = Some(t2);
            }
            let gone = match e.kind {
                EntityKind::Bullet(b) => {
                    let mut t2 = b.despawn_timer;
                    t2.tick(delta_ms);
                    e.kind = EntityKind::Bullet(Bullet { despawn_timer: t2, ..b });
                    t2.finished()
                },
                EntityKind::Explosion(t) => {
                    let mut t2 = t;
                    t2.tick(delta_ms);
                    e.kind = EntityKind::Explosion(t2);
                    t2.finished()
                },
                _ => false,
            };
            assert(e == timers_ticked(all@[i as int], delta_ms));
            if !gone {
                self.entities.push(e);
                proof {
                    idx = idx.push(i as int);
                }
            }
            i = i + 1;
        }
        proof {
            assert(all@.take(all.len() as int) == all@);
            let w = *old(self);
            assert forall|k: int| 0 <= k < self.entities@.len() implies (
            #[trigger] self.entities@[k]).wf() && self.entities@[k].id < self.next_id by {
                assert(w.entities@[idx[k]].wf());
            }
            assert forall|a: int, b: int|
                0 <= a < b < self.entities@.len() implies (#[trigger] self.entities@[a]).id
                != (#[trigger] self.entities@[b]).id by {
                assert(idx[a] < idx[b]);
                assert(w.entities@[idx[a]].id != w.entities@[idx[b]].id);
            }
        }
    }

    /// Carries out one scheduled asteroid spawn. Fragments of a destroyed
    /// Medium or Large asteroid come as two asteroids of the next size down,
    /// briefly invulnerable; a Small one gives none.
    pub fn handle_asteroid_spawn(&mut self, instruction: AsteroidSpawnInstruction)
        requires
            old(self).wf(),
        ensures
            final(self).wf(),
            spawn_executed(*old(self), *final(self), instruction),
    {
        let ghost start = self.entities@;
        match instruction {
            AsteroidSpawnInstruction::FromDestroyedAsteroid(ev) => {
                let size = match child_size(ev.size) {
                    Some(s) => s,
                    None => {
                        assert(self.entities@.subrange(0, start.len() as int) =~= start);
                        return;
                    },
                };
                if !in_range(ev.position) || !in_range(ev.velocity) {
                    assert(self.entities@.subrange(0, start.len() as int) =~= start);
                    return;
                }
                let (a, b) = random_chunk_asteroid_state(ev.position, ev.velocity);
                let invulnerable = Some(Timer::from_millis(CHUNK_ASTEROID_INVULNERABLE_MS, TimerMode::Once));
                let _ = self.spawn_asteroid(
                    AsteroidSpawn {
                        size,
                        shape: a.3,
                        position: a.0,
                        velocity: a.1,
                        rotation: a.2,
                        invulnerable,
                    },
                );
                let ghost mid = self.entities@;
                let _ = self.spawn_asteroid(
                    AsteroidSpawn {
                        size,
                        shape: b.3,
                        position: b.0,
                        velocity: b.1,
                        rotation: b.2,
                        invulnerable,
                    },
                );
                assert(self.entities@.subrange(0, start.len() as int) =~= start);
                proof {
                    let ch = ((a.0, a.1), (b.0, b.1));
                    let (d, sp) = choose|d: Vec2, sp: int|
                        is_direction(d) && CHILD_ASTEROID_MIN_ADD_SPEED <= sp
                            <= CHILD_ASTEROID_MAX_ADD_SPEED && chunk_spec(
                            d,
                            sp,
                            ev.position,
                            ev.velocity,
                        ) == ch;
                    let n = start.len();
                    assert forall|k: int|
                        n <= k < self.entities@.len() implies (#[trigger] self.entities@[k]).kind
                        == EntityKind::Asteroid(Asteroid { size }) && self.entities@[k].invulnerable
                        == Some(
                        Timer::from_millis_spec(CHUNK_ASTEROID_INVULNERABLE_MS, TimerMode::Once),
                    ) by {
                        if k < mid.len() {
                            assert(self.entities@[k] == mid[k]);
                        }
                    }
                    if vec_ok(a.0) && vec_ok(a.1) && vec_ok(b.0) && vec_ok(b.1) && old(self).next_id
                        <= u64::MAX - 2 {
                        assert(mid.len() == n + 1);
                        assert(self.entities@[n as int] == mid[n as int]);
                    }
                    assert(child_size_spec(ev.size) == Some(size));
                    assert(fragments_placed(*old(self), *self, size, ch));
                }
            },
            AsteroidSpawnInstruction::Anywhere => {
                let di = random_in(0, DIRECTION_COUNT - 1);
                let d = direction(di);
                assert(direction_spec(di as int) == d);
                assert(-5 <= d.x <= 5 && -5 <= d.y <= 5);
                assert(-5 * EDGE_LIMIT <= d.x * self.bounds.right <= 5 * EDGE_LIMIT
                    && -5 * EDGE_LIMIT <= d.y * self.bounds.top <= 5 * EDGE_LIMIT) by (
                nonlinear_arith)
                    requires
                        -5 <= d.x <= 5,
                        -5 <= d.y <= 5,
                        -EDGE_LIMIT <= self.bounds.right <= EDGE_LIMIT,
                        -EDGE_LIMIT <= self.bounds.top <= EDGE_LIMIT,
                ;
                let position = Vec2 {
                    x: div_trunc_exec(d.x * self.bounds.right, 5),
                    y: div_trunc_exec(d.y * self.bounds.top, 5),
                };
                let spawn = AsteroidSpawn {
                    size: random_asteroid_size(),
                    shape: random_asteroid_shape(),
                    position,
                    velocity: random_asteroid_velocity(),
                    rotation: random_asteroid_rotation(),
                    invulnerable: None,
                };
                assert(vec_ok(position));
                let _ = self.spawn_asteroid(spawn);
                assert(self.entities@.subrange(0, start.len() as int) =~= start);
                assert(position == onscreen_point(d, self.bounds));
                assert(is_direction(d));
                assert forall|k: int|
                    start.len() <= k < self.entities@.len() implies (
                    #[trigger] self.entities@[k]).kind is Asteroid && exists|e: Vec2|
                        is_direction(e) && self.entities@[k].movable.position == onscreen_point(
                            e,
                            self.bounds,
                        ) by {
                    assert(self.entities@[k].movable.position == position);
                }
            },
            AsteroidSpawnInstruction::OffScreen => {
                let di = random_in(0, DIRECTION_COUNT - 1);
                let d = direction(di);
                assert(direction_spec(di as int) == d);
                assert(-5 <= d.x <= 5 && -5 <= d.y <= 5);
                let position = offscreen_position(d, &self.bounds, OFFSCREEN_MARGIN);
                let spawn = AsteroidSpawn {
                    size: random_asteroid_size(),
                    shape: random_asteroid_shape(),
                    position,
                    velocity: random_asteroid_velocity(),
                    rotation: random_asteroid_rotation(),
                    invulnerable: None,
                };
                let _ = self.spawn_asteroid(spawn);
                assert(self.entities@.subrange(0, start.len() as int) =~= start);
                assert(is_direction(d));
                assert forall|k: int|
                    start.len() <= k < self.entities@.len() implies (
                    #[trigger] self.entities@[k]).kind is Asteroid && exists|e: Vec2|
                        is_direction(e) && self.entities@[k].movable.position.x == offscreen_point(
                            e,
                            self.bounds,
                            OFFSCREEN_MARGIN as int,
                        ).0 && self.entities@[k].movable.position.y == offscreen_point(
                            e,
                            self.bounds,
                            OFFSCREEN_MARGIN as int,
                        ).1 by {
                    assert(self.entities@[k].movable.position == position);
                }
            },
            AsteroidSpawnInstruction::AtPosition(position) => {
                let spawn = AsteroidSpawn {
                    size: random_asteroid_size(),
                    shape: random_asteroid_shape(),
                    position,
                    velocity: Vec2::zero(),
                    rotation: 0,
                    invulnerable: None,
                };
                let _ = self.spawn_asteroid(spawn);
                assert(self.entities@.subrange(0, start.len() as int) =~= start);
            },
        }
    }
}

} // verus!

verus! {

/// Player state, lives and respawn countdown once the destruction of the
/// player's ship (if `hit`) has been taken into account.
pub open spec fn player_after_events(game: GameManager, hit: bool) -> (PlayerState, u32, Timer) {
    if hit {
        let (s, l) = after_rocket_destroyed(game.player_state, game.player_lives_remaining);
        let t = if game.player_state == PlayerState::Ready && s == PlayerState::Respawning {
            Timer::from_millis_spec(GAME_PLAYER_RESPAWN_TIME_MS, TimerMode::Once)
        } else {
            game.player_spawn_timer
        };
        (s, l, t)
    } else {
        (game.player_state, game.player_lives_remaining, game.player_spawn_timer)
    }
}

pub open spec fn moved_all(es: Seq<Entity>, delta_ms: u64, b: WorldBoundaries) -> Seq<Entity> {
    es.map_values(|e: Entity| moved(e, delta_ms, b))
}

pub open spec fn asteroid_points_after(p: int, evs: Seq<AsteroidDestroyedEvent>) -> int
    decreases evs.len(),
{
    if evs.len() == 0 {
        p
    } else {
        sat_add(
            asteroid_points_after(p, evs.drop_last()),
            crate::asteroid::asteroid_points_spec(evs.last().size),
        )
    }
}

/// Points after this tick's asteroid events, in order, then the alien.
pub open spec fn points_after(p: int, evs: Seq<AsteroidDestroyedEvent>, alien: bool) -> int {
    let q = asteroid_points_after(p, evs);
    if alien {
        sat_add(q, ALIEN_UFO_POINTS as int)
    } else {
        q
    }
}

/// One immediate fragment entry per Medium or Large asteroid event, in order.
pub open spec fn fragment_entries(evs: Seq<AsteroidDestroyedEvent>) -> Seq<ScheduledAsteroidSpawn>
    decreases evs.len(),
{
    if evs.len() == 0 {
        seq![]
    } else if evs.last().size == AsteroidSize::Small {
        fragment_entries(evs.drop_last())
    } else {
        fragment_entries(evs.drop_last()).push(
            scheduled(0, AsteroidSpawnInstruction::FromDestroyedAsteroid(evs.last())),
        )
    }
}

/// The schedule after the events and the refill, before the countdowns run.
pub open spec fn schedule_after_events(
    game: GameManager,
    evs: Seq<AsteroidDestroyedEvent>,
    on_screen: nat,
) -> Seq<ScheduledAsteroidSpawn> {
    let s1 = game.scheduled_asteroid_spawns@ + fragment_entries(evs);
    let count = if on_screen > u32::MAX { u32::MAX as int } else { on_screen as int };
    s1 + Seq::new(
        missing_asteroids(game.init.asteroid_count as int, count, s1.len() as int) as nat,
        |i: int| scheduled(GAME_ASTEROID_SPAWN_TIME_MS, AsteroidSpawnInstruction::OffScreen),
    )
}

pub open spec fn ticked_spawns(s: Seq<ScheduledAsteroidSpawn>, delta_ms: u64) -> Seq<
    ScheduledAsteroidSpawn,
> {
    s.map_values(
        |x: ScheduledAsteroidSpawn|
            ScheduledAsteroidSpawn { spawn_timer: x.spawn_timer.ticked(delta_ms), ..x },
    )
}

/// `ws` are the worlds before and after carrying out each of `due`, in order.
pub open spec fn executed_in_order(ws: Seq<World>, due: Seq<ScheduledAsteroidSpawn>) -> bool {
    &&& ws.len() == due.len() + 1
    &&& forall|j: int| 0 <= j < due.len() ==> #[trigger] spawn_executed(ws[j], ws[j + 1], due[j].instruction)
}

/// What a spawn appends is asteroids only.
proof fn lemma_spawn_executed_asteroids(old: World, new: World, instruction: AsteroidSpawnInstruction)
    requires
        spawn_executed(old, new, instruction),
    ensures
        forall|k: int|
            old.entities@.len() <= k < new.entities@.len() ==> (#[trigger] new.entities@[k]).kind is Asteroid,
{
    match instruction {
        AsteroidSpawnInstruction::FromDestroyedAsteroid(ev) => {
            if let Some(size) = child_size_spec(ev.size) {
                if vec_ok(ev.position) && vec_ok(ev.velocity) {
                    let (d, sp) = choose|d: Vec2, sp: int|
                        is_direction(d) && CHILD_ASTEROID_MIN_ADD_SPEED <= sp
                            <= CHILD_ASTEROID_MAX_ADD_SPEED && fragments_placed(
                            old,
                            new,
                            size,
                            chunk_spec(d, sp, ev.position, ev.velocity),
                        );
                    assert forall|k: int|
                        old.entities@.len() <= k < new.entities@.len() implies (
                        #[trigger] new.entities@[k]).kind is Asteroid by {
                        assert(new.entities@[k].kind == EntityKind::Asteroid(Asteroid { size }));
                    }
                }
            }
        },
        _ => {},
    }
}

fn saturate_u32(n: u64) -> (r: u32)
    ensures
        r == if n > u32::MAX { u32::MAX as int } else { n as int },
{
    if n > u32::MAX as u64 {
        u32::MAX
    } else {
        n as u32
    }
}

impl World {
    /// Places the alien ship just off the left or right edge, at a random
    /// height within the middle four fifths, drifting across.
    fn spawn_alien_offscreen(&mut self)
        requires
            old(self).wf(),
        ensures
            final(self).wf(),
            final(self).bounds == old(self).bounds,
            old(self).entities@.len() <= final(self).entities@.len(),
            final(self).entities@.subrange(0, old(self).entities@.len() as int) == old(
                self,
            ).entities@,
            final(self).entities@.len() <= old(self).entities@.len() + 1,
            forall|k: int|
                old(self).entities@.len() <= k < final(self).entities@.len() ==> (
                #[trigger] final(self).entities@[k]).kind == EntityKind::AlienUfo,
    {
        let from_left = random_in(0, 1) == 0;
        let x = if from_left {
            self.bounds.left - OFFSCREEN_MARGIN
        } else {
            self.bounds.right + OFFSCREEN_MARGIN
        };
        let h: i64 = if self.bounds.top > 0 {
            self.bounds.top / 5 * 4
        } else {
            0
        };
        let y = random_in(0, 2 * h as u64) as i64 - h;
        let vx = if from_left {
            ALIEN_UFO_SPEED
        } else {
            -ALIEN_UFO_SPEED
        };
        let _ = self.spawn_alien_ufo(AlienSpawn { position: Vec2::new(x, y), velocity: Vec2::new(vx, 0) });
        assert(self.entities@.subrange(0, old(self).entities@.len() as int) =~= old(self).entities@);
    }

    /// Game bookkeeping stage: the game reacts to this tick's destructions,
    /// tops up the asteroid schedule, runs its countdowns, and places the
    /// player's ship, the alien ship and the asteroids that are due.
    pub fn game_stage(&mut self, game: &mut GameManager, destroyed: &Destroyed, delta_ms: u64)
        requires
            old(self).wf(),
            old(game).wf(),
        ensures
            final(self).wf(),
            final(game).wf(),
            final(self).bounds == old(self).bounds,
            final(game).init == old(game).init,
            final(game).player_points == points_after(
                old(game).player_points as int,
                destroyed.asteroids@,
                destroyed.alien,
            ),
            ({
                let t = ticked_spawns(
                    schedule_after_events(*old(game), destroyed.asteroids@, count_asteroids(old(self).entities@)),
                    delta_ms,
                );
                &&& final(game).scheduled_asteroid_spawns@ == waiting_spawns(t)
                &&& exists|ws: Seq<World>|
                    executed_in_order(ws, due_spawns(t)) && appended(*old(self), ws[0])
                        && ws[0].entities@.len() <= old(self).entities@.len() + 2 && ws.last()
                        == *final(self)
            }),
            !destroyed.alien ==> final(game).alien_spawn_timer == old(game).alien_spawn_timer.ticked(
                delta_ms,
            ) && final(game).alien_state == if old(game).alien_state == AlienState::Spawning
                && old(game).alien_spawn_timer.ticked(delta_ms).finished {
                AlienState::Ready
            } else {
                old(game).alien_state
            },
            destroyed.alien ==> old(game).init.alien_spawn_min_ms
                <= final(game).alien_spawn_timer.duration <= old(game).init.alien_spawn_max_ms
                && final(game).alien_spawn_timer == Timer::from_millis_spec(
                final(game).alien_spawn_timer.duration,
                TimerMode::Once,
            ).ticked(delta_ms) && final(game).alien_state == if final(game).alien_spawn_timer.finished {
                AlienState::Ready
            } else {
                AlienState::Spawning
            },
            ({
                let (s, l, t) = player_after_events(*old(game), destroyed.rocket);
                let t2 = t.ticked(delta_ms);
                let n = old(self).entities@.len();
                let placed = player_spawn_due(s, t2) && old(self).next_id < u64::MAX;
                &&& final(game).player_lives_remaining == l
                &&& final(game).player_spawn_timer == t2
                &&& final(game).player_state == if player_spawn_due(s, t2) {
                    PlayerState::Ready
                } else {
                    s
                }
                &&& placed ==> n < final(self).entities@.len()
                    && final(self).entities@[n as int].kind == EntityKind::PlayerRocket
                    && final(self).entities@[n as int].movable.position == Vec2::zero_spec()
                    && final(self).entities@[n as int].invulnerable == Some(
                    Timer::from_millis_spec(ROCKET_SPAWN_INVULNERABILITY_MS, TimerMode::Once),
                )
                &&& forall|k: int|
                    n + (if placed {
                        1int
                    } else {
                        0int
                    }) <= k < final(self).entities@.len() ==> (
                    #[trigger] final(self).entities@[k]).kind != EntityKind::PlayerRocket
            }),
    {
        let ghost old_game_s = game.scheduled_asteroid_spawns@;
        let ghost n = self.entities@.len();
        if destroyed.rocket {
            game.on_rocket_destroyed();
        }
        let ghost evs = destroyed.asteroids@;
        let mut i: usize = 0;
        while i < destroyed.asteroids.len()
            invariant
                i <= destroyed.asteroids.len(),
                evs == destroyed.asteroids@,
                game.wf(),
                game.init == old(game).init,
                game.player_state == player_after_events(*old(game), destroyed.rocket).0,
                game.player_lives_remaining == player_after_events(*old(game), destroyed.rocket).1,
                game.player_spawn_timer == player_after_events(*old(game), destroyed.rocket).2,
                game.alien_state == old(game).alien_state,
                game.alien_spawn_timer == old(game).alien_spawn_timer,
                game.player_points == asteroid_points_after(
                    old(game).player_points as int,
                    evs.take(i as int),
                ),
                game.scheduled_asteroid_spawns@ == old_game_s + fragment_entries(evs.take(i as int)),
            decreases destroyed.asteroids.len() - i,
        {
            proof {
                assert(evs.take(i as int + 1).drop_last() == evs.take(i as int));
                assert(evs.take(i as int + 1).last() == evs[i as int]);
            }
            game.on_asteroid_destroyed(destroyed.asteroids[i]);
            i = i + 1;
            assert(game.scheduled_asteroid_spawns@ =~= old_game_s + fragment_entries(
                evs.take(i as int),
            ));
        }
        proof {
            assert(evs.take(evs.len() as int) == evs);
        }
        if destroyed.alien {
            game.on_alien_ufo_destroyed();
        }
        let count = saturate_u32(self.asteroid_count());
        game.on_asteroid_count_update(count);
        let ghost s2 = game.scheduled_asteroid_spawns@;
        assert(s2 == schedule_after_events(*old(game), evs, count_asteroids(old(self).entities@)));
        game.tick(delta_ms);
        assert(game.scheduled_asteroid_spawns@ =~= ticked_spawns(s2, delta_ms));
        let ghost placed = player_spawn_due(game.player_state, game.player_spawn_timer)
            && old(self).next_id < u64::MAX;
        if game.should_spawn_player() {
            game.on_rocket_spawned();
            let r = self.spawn_player_rocket(RocketSpawn::new());
            assert(r is Some <==> placed);
        }
        proof {
            assert(self.entities@.subrange(0, n as int) =~= old(self).entities@) by {
                if placed {
                    assert forall|q: int| 0 <= q < n implies self.entities@[q]
                        == old(self).entities@[q] by {
                        assert(self.entities@.drop_last()[q] == self.entities@[q]);
                    }
                }
            }
        }
        let ghost len1 = self.entities@.len();
        let ghost w1 = self.entities@;
        if game.should_spawn_alien_ufo() {
            game.on_alien_ufo_spawned();
            self.spawn_alien_offscreen();
        }
        proof {
            assert forall|q: int| 0 <= q < len1 implies self.entities@[q] == w1[q] by {
                assert(self.entities@.subrange(0, len1 as int)[q] == self.entities@[q]);
            }
            assert(self.entities@.subrange(0, n as int) =~= old(self).entities@) by {
                assert forall|q: int| 0 <= q < n implies self.entities@[q]
                    == old(self).entities@[q] by {
                    assert(w1.subrange(0, n as int)[q] == w1[q]);
                }
            }
        }
        let due = game.take_due_spawns();
        let ghost w0 = *self;
        assert(self.entities@.subrange(0, self.entities@.len() as int) =~= self.entities@);
        let ghost ws: Seq<World> = seq![w0];
        let mut k: usize = 0;
        while k < due.len()
            invariant
                self.wf(),
                game.wf(),
                k <= due.len(),
                self.bounds == old(self).bounds,
                ws.len() == k + 1,
                ws[0] == w0,
                ws.last() == *self,
                forall|j: int| 0 <= j < k ==> #[trigger] spawn_executed(ws[j], ws[j + 1], due@[j].instruction),
                appended(w0, *self),
                forall|q: int|
                    w0.entities@.len() <= q < self.entities@.len() ==> (
                    #[trigger] self.entities@[q]).kind is Asteroid,
            decreases due.len() - k,
        {
            let ghost before = *self;
            self.handle_asteroid_spawn(due[k].instruction);
            proof {
                lemma_spawn_executed_asteroids(before, *self, due@[k as int].instruction);
                assert forall|q: int|
                    w0.entities@.len() <= q < self.entities@.len() implies (
                    #[trigger] self.entities@[q]).kind is Asteroid by {
                    if q < before.entities@.len() {
                        assert(self.entities@.subrange(0, before.entities@.len() as int)[q]
                            == self.entities@[q]);
                    }
                }
                assert(self.entities@.subrange(0, w0.entities@.len() as int) =~= w0.entities@) by {
                    assert forall|q: int| 0 <= q < w0.entities@.len() implies self.entities@[q]
                        == w0.entities@[q] by {
                        assert(self.entities@.subrange(0, before.entities@.len() as int)[q]
                            == self.entities@[q]);
                        assert(before.entities@.subrange(0, w0.entities@.len() as int)[q]
                            == before.entities@[q]);
                    }
                }
                ws = ws.push(*self);
            }
            k = k + 1;
        }
        proof {
            assert(executed_in_order(ws, due@));
            assert forall|q: int| 0 <= q < w0.entities@.len() implies self.entities@[q]
                == w0.entities@[q] by {
                assert(self.entities@.subrange(0, w0.entities@.len() as int)[q] == self.entities@[q]);
            }
            let pl: int = if placed { 1 } else { 0 };
            assert forall|q: int| n + pl <= q < self.entities@.len() implies (
            #[trigger] self.entities@[q]).kind != EntityKind::PlayerRocket by {
                if q < w0.entities@.len() {
                    assert(self.entities@[q] == w0.entities@[q]);
                    if q >= len1 {
                    } else {
                        assert(w0.entities@[q] == w1[q]);
                    }
                }
            }
            if placed {
                assert(self.entities@[n as int] == w0.entities@[n as int]);
                assert(w0.entities@[n as int] == w1[n as int]);
            }
        }
    }

    /// One simulation tick, stage by stage: movement, both collision
    /// detectors, collision effects, countdowns, then the game's
    /// bookkeeping. Returns what the collision effects destroyed.
    pub fn run_tick(&mut self, game: &mut GameManager, delta_ms: u64) -> (r: Destroyed)
        requires
            old(self).wf(),
            old(game).wf(),
        ensures
            final(self).wf(),
            final(game).wf(),
            final(self).bounds == old(self).bounds,
            ({
                let m = moved_all(old(self).entities@, delta_ms, old(self).bounds);
                let ids = distinct_seq(
                    all_hits(Detector::Bullets, m, m) + all_hits(Detector::Asteroids, m, m),
                );
                &&& r.asteroids@ == destroyed_asteroids(m, ids)
                &&& r.rocket == names_ship(m, ids, false)
                &&& r.alien == names_ship(m, ids, true)
            }),
    {
        self.movement_stage(delta_ms);
        let ghost m = self.entities@;
        assert(m =~= moved_all(old(self).entities@, delta_ms, old(self).bounds));
        let mut hits = self.detect_collisions(Detector::Bullets);
        let more = self.detect_collisions(Detector::Asteroids);
        let ghost h1 = hits@;
        let mut i: usize = 0;
        while i < more.len()
            invariant
                i <= more.len(),
                hits@ == h1 + more@.take(i as int),
            decreases more.len() - i,
        {
            hits.push(more[i]);
            i = i + 1;
            assert(hits@ =~= h1 + more@.take(i as int));
        }
        assert(more@.take(more.len() as int) == more@);
        assert(event_ids(hits@) =~= event_ids(h1) + event_ids(more@));
        let destroyed = self.collision_effect_stage(&hits);
        let mut k: usize = 0;
        while k < destroyed.explosions.len()
            invariant
                self.wf(),
                self.bounds == old(self).bounds,
            decreases destroyed.explosions.len() - k,
        {
            self.spawn_explosion(destroyed.explosions[k]);
            k = k + 1;
        }
        self.timers_stage(delta_ms);
        self.game_stage(game, &destroyed, delta_ms);
        destroyed
    }
}

} // verus!

verus! {

pub const ROCKET_BULLET_SPEED: i64 = 250;
pub const ROCKET_BULLET_MAX_AGE_MS: u64 = 1000;
pub const ALIEN_BULLET_SPEED: i64 = 125;
pub const ALIEN_BULLET_MAX_AGE_MS: u64 = 2000;

/// A player's ship after the input of this tick.
pub open spec fn steered(e: Entity, intents: PlayerRocket, firing: bool) -> Entity {
    if e.kind == EntityKind::PlayerRocket {
        Entity {
            movable: Movable {
                rotational_acceleration: rotation_control(intents, e.movable.rotational_velocity),
                acceleration: thrust_control(intents, e.movable),
                ..e.movable
            },
            bullet_controller: match e.bullet_controller {
                Some(c) => Some(c.with_firing(firing)),
                None => None,
            },
            ..e
        }
    } else {
        e
    }
}

/// A shooter's fire control after a tick of `delta_ms`; an alien ship's
/// only runs while the player has a ship to aim at.
pub open spec fn fire_ticked(e: Entity, delta_ms: u64, has_target: bool) -> Entity {
    match e.bullet_controller {
        Some(c) => if e.kind == EntityKind::AlienUfo && !has_target {
            e
        } else {
            Entity { bullet_controller: Some(c.stepped(delta_ms).0), ..e }
        },
        None => e,
    }
}

/// Position of the player's ship the alien ships aim at (the last one in
/// the store), if there is one.
pub open spec fn target_of(es: Seq<Entity>) -> Option<Vec2>
    decreases es.len(),
{
    if es.len() == 0 {
        None
    } else if es.last().kind == EntityKind::PlayerRocket {
        Some(es.last().movable.position)
    } else {
        target_of(es.drop_last())
    }
}

/// Largest muzzle offset a shooter may carry.
pub const MUZZLE_LIMIT: i64 = 1_000_000;

pub open spec fn muzzle_ok(t: Vec2) -> bool {
    -MUZZLE_LIMIT <= t.x <= MUZZLE_LIMIT && -MUZZLE_LIMIT <= t.y <= MUZZLE_LIMIT
}

pub open spec fn translation_of(c: BulletController) -> Vec2 {
    match c.spawn_translation {
        Some(v) => v,
        None => Vec2 { x: 0, y: 0 },
    }
}

pub open spec fn plus(a: Vec2, b: Vec2) -> Vec2 {
    Vec2 { x: (a.x + b.x) as i64, y: (a.y + b.y) as i64 }
}

pub open spec fn times(a: Vec2, k: int) -> Vec2 {
    Vec2 { x: (a.x * k) as i64, y: (a.y * k) as i64 }
}

/// The bullet a shooter fires during a tick of `delta_ms`, if it fires.
/// The player's ship fires from its muzzle (the translation turned to its
/// heading) along its heading; an alien ship fires from its position plus
/// its translation toward `target`, and only when there is one.
pub open spec fn shot_of(e: Entity, delta_ms: u64, target: Option<Vec2>) -> Option<BulletSpawn> {
    match e.bullet_controller {
        None => None,
        Some(c) => if e.kind == EntityKind::AlienUfo && target is None {
            None
        } else if c.stepped(delta_ms).1 != BulletFireResult::FireBullet {
            None
        } else if !muzzle_ok(translation_of(c)) {
            None
        } else if e.kind == EntityKind::PlayerRocket {
            let h = crate::movable::unit_spec(
                (e.movable.heading_angle / crate::movable::HEADING_STEP) as int,
            );
            Some(
                BulletSpawn {
                    source: BulletSource::PlayerRocket,
                    position: plus(e.movable.position, rotated(translation_of(c), h)),
                    velocity: plus(e.movable.velocity, times(h, ROCKET_BULLET_SPEED as int)),
                    heading_angle: e.movable.heading_angle,
                    despawn_after_ms: ROCKET_BULLET_MAX_AGE_MS,
                },
            )
        } else if e.kind == EntityKind::AlienUfo {
            let t = target.unwrap();
            let half = Vec2 {
                x: div_trunc(t.x - e.movable.position.x, 2) as i64,
                y: div_trunc(t.y - e.movable.position.y, 2) as i64,
            };
            if half.x == 0 && half.y == 0 {
                None
            } else {
                Some(
                    BulletSpawn {
                        source: BulletSource::AlienUfo,
                        position: plus(e.movable.position, translation_of(c)),
                        velocity: plus(
                            e.movable.velocity,
                            times(crate::movable::rescaled(half, 1000), ALIEN_BULLET_SPEED as int),
                        ),
                        heading_angle: 0,
                        despawn_after_ms: ALIEN_BULLET_MAX_AGE_MS,
                    },
                )
            }
        } else {
            None
        },
    }
}

/// The bullets fired by the shooters of `es`, in store order.
pub open spec fn shots_of(es: Seq<Entity>, delta_ms: u64, target: Option<Vec2>) -> Seq<BulletSpawn>
    decreases es.len(),
{
    if es.len() == 0 {
        seq![]
    } else {
        let rest = shots_of(es.drop_last(), delta_ms, target);
        match shot_of(es.last(), delta_ms, target) {
            Some(b) => rest.push(b),
            None => rest,
        }
    }
}

/// A shot the world can hold.
pub open spec fn shot_fits(b: BulletSpawn) -> bool {
    vec_ok(b.position) && vec_ok(b.velocity) && b.heading_angle < crate::movable::FULL_TURN
}

fn target_exec(es: &Vec<Entity>) -> (r: Option<Vec2>)
    requires
        forall|k: int| 0 <= k < es@.len() ==> (#[trigger] es@[k]).wf(),
    ensures
        r == target_of(es@),
        r matches Some(p) ==> vec_ok(p),
{
    let mut found: Option<Vec2> = None;
    let mut i: usize = 0;
    while i < es.len()
        invariant
            i <= es.len(),
            forall|k: int| 0 <= k < es@.len() ==> (#[trigger] es@[k]).wf(),
            found == target_of(es@.take(i as int)),
            found matches Some(p) ==> vec_ok(p),
        decreases es.len() - i,
    {
        proof {
            assert(es@.take(i as int + 1).drop_last() == es@.take(i as int));
            assert(es@[i as int].wf());
        }
        if es[i].kind == EntityKind::PlayerRocket {
            found = Some(es[i].movable.position);
        }
        i = i + 1;
    }
    proof {
        assert(es@.take(es.len() as int) == es@);
    }
    found
}

/// `t` turned by the rotation whose direction vector (length about 1000)
/// is `h`.
fn rotate_muzzle(t: Vec2, h: Vec2) -> (r: Vec2)
    requires
        muzzle_ok(t),
        -1000 <= h.x <= 1000 && -1000 <= h.y <= 1000,
    ensures
        r == rotated(t, h),
        -2 * MUZZLE_LIMIT <= r.x <= 2 * MUZZLE_LIMIT && -2 * MUZZLE_LIMIT <= r.y <= 2 * MUZZLE_LIMIT,
{
    proof {
        assert(-1_000_000_000 <= t.x * h.x <= 1_000_000_000 && -1_000_000_000 <= t.y * h.y
            <= 1_000_000_000 && -1_000_000_000 <= t.x * h.y <= 1_000_000_000 && -1_000_000_000
            <= t.y * h.x <= 1_000_000_000) by (nonlinear_arith)
            requires
                muzzle_ok(t),
                -1000 <= h.x <= 1000 && -1000 <= h.y <= 1000,
        ;
    }
    let x = div_trunc_exec(t.x * h.x - t.y * h.y, 1000);
    let y = div_trunc_exec(t.x * h.y + t.y * h.x, 1000);
    Vec2 { x, y }
}

/// The shot of `e`, computed, with its controller ticked.
fn shoot(e: &Entity, delta_ms: u64, target: Option<Vec2>) -> (r: (Entity, Option<BulletSpawn>))
    requires
        e.wf(),
        target matches Some(p) ==> vec_ok(p),
    ensures
        r.0 == fire_ticked(*e, delta_ms, target is Some),
        r.0.wf(),
        r.1 == shot_of(*e, delta_ms, target),
{
    let mut out = *e;
    let c = match e.bullet_controller {
        Some(c) => c,
        None => {
            return (out, None);
        },
    };
    if e.kind == EntityKind::AlienUfo && target.is_none() {
        return (out, None);
    }
    let mut c2 = c;
    let fired = c2.update(delta_ms);
    out.bullet_controller = Some(c2);
    if fired != BulletFireResult::FireBullet {
        return (out, None);
    }
    let t = match c2.spawn_translation {
        Some(v) => v,
        None => Vec2::zero(),
    };
    if !(-MUZZLE_LIMIT <= t.x && t.x <= MUZZLE_LIMIT && -MUZZLE_LIMIT <= t.y && t.y <= MUZZLE_LIMIT) {
        return (out, None);
    }
    let m = e.movable;
    if e.kind == EntityKind::PlayerRocket {
        let h = m.heading_normal();
        let muzzle = rotate_muzzle(t, h);
        let push = Vec2 { x: h.x * ROCKET_BULLET_SPEED, y: h.y * ROCKET_BULLET_SPEED };
        let shot = BulletSpawn {
            source: BulletSource::PlayerRocket,
            position: Vec2 { x: m.position.x + muzzle.x, y: m.position.y + muzzle.y },
            velocity: Vec2 { x: m.velocity.x + push.x, y: m.velocity.y + push.y },
            heading_angle: m.heading_angle,
            despawn_after_ms: ROCKET_BULLET_MAX_AGE_MS,
        };
        (out, Some(shot))
    } else if e.kind == EntityKind::AlienUfo {
        let tp = match target {
            Some(p) => p,
            None => {
                return (out, None);
            },
        };
        let dx = div_trunc_exec(tp.x - m.position.x, 2);
        let dy = div_trunc_exec(tp.y - m.position.y, 2);
        if dx == 0 && dy == 0 {
            return (out, None);
        }
        let half = Vec2 { x: dx, y: dy };
        proof {
            assert(crate::geom::len_sq(half) > 0) by (nonlinear_arith)
                requires
                    half.x != 0 || half.y != 0,
            ;
        }
        let dir = scale_to_length(half, 1000);
        let shot = BulletSpawn {
            source: BulletSource::AlienUfo,
            position: Vec2 { x: m.position.x + t.x, y: m.position.y + t.y },
            velocity: Vec2 {
                x: m.velocity.x + dir.x * ALIEN_BULLET_SPEED,
                y: m.velocity.y + dir.y * ALIEN_BULLET_SPEED,
            },
            heading_angle: 0,
            despawn_after_ms: ALIEN_BULLET_MAX_AGE_MS,
        };
        (out, Some(shot))
    } else {
        (out, None)
    }
}

impl World {
    /// Input stage: applies the player's intents to every player ship
    /// (steering, and the fire intent to its fire control).
    pub fn input_stage(&mut self, intents: PlayerRocket, firing: bool)
        requires
            old(self).wf(),
        ensures
            final(self).wf(),
            final(self).bounds == old(self).bounds,
            final(self).next_id == old(self).next_id,
            final(self).entities@.len() == old(self).entities@.len(),
            forall|k: int|
                0 <= k < old(self).entities@.len() ==> #[trigger] final(self).entities@[k]
                    == steered(old(self).entities@[k], intents, firing),
    {
        let n = self.entities.len();
        let mut i: usize = 0;
        while i < n
            invariant
                i <= n,
                n == old(self).entities@.len(),
                self.entities@.len() == n,
                self.bounds == old(self).bounds,
                self.next_id == old(self).next_id,
                self.bounds.wf(),
                forall|k: int| 0 <= k < n ==> (#[trigger] self.entities@[k]).wf(),
                forall|k: int|
                    0 <= k < i ==> #[trigger] self.entities@[k] == steered(
                        old(self).entities@[k],
                        intents,
                        firing,
                    ),
                forall|k: int| i <= k < n ==> #[trigger] self.entities@[k] == old(self).entities@[k],
                forall|k: int| 0 <= k < n ==> (#[trigger] self.entities@[k]).id == old(self).entities@[k].id,
            decreases n - i,
        {
            let mut e = self.entities[i];
            if e.kind == EntityKind::PlayerRocket {
                player_update_movable(&intents, &mut e.movable);
                if let Some(c) = e.bullet_controller {
                    let mut c2 = c;
                    c2.try_set_firing_state(firing);
                    e.bullet_controller = Some(c2);
                }
            }
            self.entities.set(i, e);
            i = i + 1;
        }
        assert(self.wf()) by {
            assert forall|a: int, b: int|
                0 <= a < b < self.entities@.len() implies (#[trigger] self.entities@[a]).id
                != (#[trigger] self.entities@[b]).id by {
                assert(old(self).entities@[a].id != old(self).entities@[b].id);
            }
            assert forall|a: int| 0 <= a < self.entities@.len() implies (
            #[trigger] self.entities@[a]).id < self.next_id by {
                assert(old(self).entities@[a].id < old(self).next_id);
            }
        }
    }

    /// Fire stage: runs every shooter's fire control and, for each shot,
    /// places a bullet. The player's ship fires along its heading from its
    /// muzzle; an alien ship fires at the player's ship, and holds its fire
    /// control while there is none. Shots that would leave the simulated
    /// range are dropped.
    pub fn fire_stage(&mut self, delta_ms: u64)
        requires
            old(self).wf(),
        ensures
            final(self).wf(),
            final(self).bounds == old(self).bounds,
            ({
                let n = old(self).entities@.len();
                let shots = shots_of(old(self).entities@, delta_ms, target_of(old(self).entities@));
                &&& n <= final(self).entities@.len() <= n + shots.len()
                &&& forall|k: int|
                    0 <= k < n ==> #[trigger] final(self).entities@[k] == fire_ticked(
                        old(self).entities@[k],
                        delta_ms,
                        target_of(old(self).entities@) is Some,
                    )
                &&& forall|k: int|
                    n <= k < final(self).entities@.len() ==> (
                    #[trigger] final(self).entities@[k]).kind is Bullet
                &&& (forall|j: int| 0 <= j < shots.len() ==> shot_fits(#[trigger] shots[j]))
                    && old(self).next_id + shots.len() <= u64::MAX ==> {
                    &&& final(self).entities@.len() == n + shots.len()
                    &&& forall|j: int|
                        0 <= j < shots.len() ==> (#[trigger] final(self).entities@[n + j]) == (
                        Entity { id: (old(self).next_id + j) as u64, ..bullet_entity(shots[j]) })
                }
            }),
    {
        let target = target_exec(&self.entities);
        let ghost tgt = target_of(old(self).entities@);
        let n = self.entities.len();
        let mut shots: Vec<BulletSpawn> = Vec::new();
        let mut i: usize = 0;
        while i < n
            invariant
                i <= n,
                n == old(self).entities@.len(),
                self.entities@.len() == n,
                self.bounds == old(self).bounds,
                self.next_id == old(self).next_id,
                self.bounds.wf(),
                target == tgt,
                target matches Some(p) ==> vec_ok(p),
                shots@ == shots_of(old(self).entities@.take(i as int), delta_ms, tgt),
                forall|k: int| 0 <= k < n ==> (#[trigger] self.entities@[k]).wf(),
                forall|k: int|
                    0 <= k < i ==> #[trigger] self.entities@[k] == fire_ticked(
                        old(self).entities@[k],
                        delta_ms,
                        tgt is Some,
                    ),
                forall|k: int| i <= k < n ==> #[trigger] self.entities@[k] == old(self).entities@[k],
                forall|k: int| 0 <= k < n ==> (#[trigger] self.entities@[k]).id == old(self).entities@[k].id,
            decreases n - i,
        {
            proof {
                assert(old(self).entities@.take(i as int + 1).drop_last() == old(self).entities@.take(
                    i as int,
                ));
                assert(old(self).entities@.take(i as int + 1).last() == old(self).entities@[i as int]);
            }
            let e = self.entities[i];
            let (e2, shot) = shoot(&e, delta_ms, target);
            if let Some(b) = shot {
                shots.push(b);
            }
            self.entities.set(i, e2);
            i = i + 1;
        }
        proof {
            assert(old(self).entities@.take(n as int) == old(self).entities@);
        }
        assert(self.wf()) by {
            assert forall|a: int, b: int|
                0 <= a < b < self.entities@.len() implies (#[trigger] self.entities@[a]).id
                != (#[trigger] self.entities@[b]).id by {
                assert(old(self).entities@[a].id != old(self).entities@[b].id);
            }
            assert forall|a: int| 0 <= a < self.entities@.len() implies (
            #[trigger] self.entities@[a]).id < self.next_id by {
                assert(old(self).entities@[a].id < old(self).next_id);
            }
        }
        let ghost mid = self.entities@;
        let ghost all_fit = (forall|j: int| 0 <= j < shots@.len() ==> shot_fits(#[trigger] shots@[j]))
            && old(self).next_id + shots@.len() <= u64::MAX;
        let mut k: usize = 0;
        while k < shots.len()
            invariant
                self.wf(),
                self.bounds == old(self).bounds,
                k <= shots.len(),
                mid.len() == n,
                mid.len() <= self.entities@.len() <= mid.len() + k,
                self.entities@.subrange(0, mid.len() as int) == mid,
                forall|j: int|
                    mid.len() <= j < self.entities@.len() ==> (#[trigger] self.entities@[j]).kind is Bullet,
                all_fit == ((forall|j: int| 0 <= j < shots@.len() ==> shot_fits(#[trigger] shots@[j]))
                    && old(self).next_id + shots@.len() <= u64::MAX),
                all_fit ==> {
                    &&& self.entities@.len() == n + k
                    &&& self.next_id == old(self).next_id + k
                    &&& forall|j: int|
                        0 <= j < k ==> (#[trigger] self.entities@[n + j]) == (Entity {
                            id: (old(self).next_id + j) as u64,
                            ..bullet_entity(shots@[j])
                        })
                },
                self.next_id >= old(self).next_id,
            decreases shots.len() - k,
        {
            let ghost before = self.entities@;
            let _ = self.spawn_bullet(shots[k]);
            assert(self.entities@.subrange(0, mid.len() as int) =~= mid) by {
                assert(self.entities@.subrange(0, before.len() as int) == before);
                assert forall|j: int| 0 <= j < mid.len() implies self.entities@[j] == mid[j] by {
                    assert(before[j] == mid[j]);
                    assert(self.entities@.subrange(0, before.len() as int)[j] == self.entities@[j]);
                }
            }
            proof {
                if all_fit {
                    assert(shot_fits(shots@[k as int]));
                    assert forall|j: int| 0 <= j < k + 1 implies (#[trigger] self.entities@[n + j]) == (
                    Entity { id: (old(self).next_id + j) as u64, ..bullet_entity(shots@[j]) }) by {
                        if j < k {
                            assert(self.entities@[n + j] == before[n + j]);
                        }
                    }
                }
            }
            k = k + 1;
        }
        assert forall|j: int| 0 <= j < mid.len() implies #[trigger] self.entities@[j] == fire_ticked(
            old(self).entities@[j],
            delta_ms,
            tgt is Some,
        ) by {
            assert(self.entities@.subrange(0, mid.len() as int)[j] == self.entities@[j]);
        }
    }
}

} // verus!

verus! {

pub open spec fn steered_all(es: Seq<Entity>, intents: PlayerRocket, firing: bool) -> Seq<Entity> {
    es.map_values(|e: Entity| steered(e, intents, firing))
}

impl World {
    /// One frame: input, then the tick's stages in order, then the shots
    /// fired this frame are placed (they take part from the next frame on).
    /// Returns what the collision effects destroyed.
    pub fn frame(
        &mut self,
        game: &mut GameManager,
        intents: PlayerRocket,
        firing: bool,
        delta_ms: u64,
    ) -> (r: Destroyed)
        requires
            old(self).wf(),
            old(game).wf(),
        ensures
            final(self).wf(),
            final(game).wf(),
            final(self).bounds == old(self).bounds,
            ({
                let m = moved_all(
                    steered_all(old(self).entities@, intents, firing),
                    delta_ms,
                    old(self).bounds,
                );
                let ids = distinct_seq(
                    all_hits(Detector::Bullets, m, m) + all_hits(Detector::Asteroids, m, m),
                );
                &&& r.asteroids@ == destroyed_asteroids(m, ids)
                &&& r.rocket == names_ship(m, ids, false)
                &&& r.alien == names_ship(m, ids, true)
            }),
    {
        self.input_stage(intents, firing);
        assert(self.entities@ =~= steered_all(old(self).entities@, intents, firing));
        let r = self.run_tick(game, delta_ms);
        self.fire_stage(delta_ms);
        r
    }
}

} // verus!

verus! {

/// The debris particle of a burst along part direction `d` (already
/// turned), given the burst's speed.
pub open spec fn debris_particle(x: SpawnExplosion, d: Vec2, speed: int) -> Entity {
    Entity {
        id: 0,
        kind: EntityKind::Explosion(Timer::from_millis_spec(x.despawn_after_ms, TimerMode::Once)),
        movable: Movable {
            position: x.position,
            velocity: Vec2 {
                x: (x.velocity.x + div_trunc(d.x * speed, 1000)) as i64,
                y: (x.velocity.y + div_trunc(d.y * speed, 1000)) as i64,
            },
            acceleration: None,
            heading_angle: x.heading_angle,
            rotational_velocity: x.rotational_velocity,
            rotational_acceleration: None,
        },
        torus: None,
        collidable: None,
        bullet_collidable: None,
        asteroid_collidable: false,
        invulnerable: None,
        bullet_controller: None,
    }
}

pub open spec fn rotated(d: Vec2, h: Vec2) -> Vec2 {
    Vec2 { x: crate::explosion::rotate(d, h).0 as i64, y: crate::explosion::rotate(d, h).1 as i64 }
}

/// The burst's pose is inside the range where every particle fits.
pub open spec fn burst_fits(x: SpawnExplosion) -> bool {
    &&& vec_ok(x.position)
    &&& -COORD_LIMIT + 50_000 <= x.velocity.x <= COORD_LIMIT - 50_000
    &&& -COORD_LIMIT + 50_000 <= x.velocity.y <= COORD_LIMIT - 50_000
    &&& x.heading_angle < crate::movable::FULL_TURN
    &&& coord_ok(x.rotational_velocity as int)
}

/// The burst `x` placed at one speed: one particle per part of its
/// template, in order, under consecutive fresh identities.
pub open spec fn burst_placed(old: World, new: World, x: SpawnExplosion, speed: int) -> bool {
    let parts = crate::explosion::part_directions(x.shape_id);
    let h = crate::movable::unit_spec((x.heading_angle / crate::movable::HEADING_STEP) as int);
    &&& crate::explosion::EXPLOSION_PART_MIN_ADD_SPEED <= speed
        <= crate::explosion::EXPLOSION_PART_MAX_ADD_SPEED
    &&& new.entities@.len() == old.entities@.len() + parts.len()
    &&& forall|i: int|
        0 <= i < parts.len() ==> (#[trigger] new.entities@[old.entities@.len() + i]) == (Entity {
            id: (old.next_id + i) as u64,
            ..debris_particle(x, rotated(parts[i], h), speed)
        })
}

impl World {
    /// Places a burst of debris: one particle per part of the template,
    /// flying off along the part's direction turned to the heading, at one
    /// random speed for the whole burst. Particles whose state would leave
    /// the simulated range are left out.
    pub fn spawn_explosion(&mut self, x: SpawnExplosion)
        requires
            old(self).wf(),
        ensures
            final(self).wf(),
            final(self).bounds == old(self).bounds,
            old(self).entities@.len() <= final(self).entities@.len(),
            final(self).entities@.len() <= old(self).entities@.len() + crate::explosion::part_directions(
                x.shape_id,
            ).len(),
            final(self).entities@.subrange(0, old(self).entities@.len() as int) == old(
                self,
            ).entities@,
            forall|k: int|
                old(self).entities@.len() <= k < final(self).entities@.len() ==> (
                #[trigger] final(self).entities@[k]).kind == EntityKind::Explosion(
                    Timer::from_millis_spec(x.despawn_after_ms, TimerMode::Once),
                ) && final(self).entities@[k].movable.position == x.position,
            burst_fits(x) && old(self).next_id <= u64::MAX - 3 ==> exists|speed: int|
                burst_placed(*old(self), *final(self), x, speed),
    {
        let ghost start = self.entities@;
        if !in_range(x.position) || !in_range(x.velocity) || x.heading_angle
            >= crate::movable::FULL_TURN || x.rotational_velocity < -COORD_LIMIT
            || x.rotational_velocity > COORD_LIMIT {
            assert(self.entities@.subrange(0, start.len() as int) =~= start);
            return;
        }
        let speed = random_in(
            crate::explosion::EXPLOSION_PART_MIN_ADD_SPEED,
            crate::explosion::EXPLOSION_PART_MAX_ADD_SPEED,
        ) as i64;
        let pose = Movable {
            position: x.position,
            velocity: x.velocity,
            acceleration: None,
            heading_angle: x.heading_angle,
            rotational_velocity: x.rotational_velocity,
            rotational_acceleration: None,
        };
        let h = pose.heading_normal();
        let parts = explosion_part_directions(x.shape_id);
        assert(parts@.len() <= 3);
        let mut i: usize = 0;
        while i < parts.len()
            invariant
                self.wf(),
                self.bounds == old(self).bounds,
                i <= parts.len(),
                parts@ == crate::explosion::part_directions(x.shape_id),
                forall|j: int|
                    0 <= j < parts@.len() ==> -1000 <= #[trigger] parts@[j].x <= 1000 && -1000
                        <= parts@[j].y <= 1000,
                -1000 <= h.x <= 1000 && -1000 <= h.y <= 1000,
                10_000 <= speed <= 25_000,
                vec_ok(x.velocity),
                pose.wf(),
                pose.position == x.position,
                pose == still_movable(x.position, x.velocity, x.heading_angle, x.rotational_velocity),
                h == crate::movable::unit_spec(
                    (x.heading_angle / crate::movable::HEADING_STEP) as int,
                ),
                burst_fits(x) && old(self).next_id <= u64::MAX - 3 ==> {
                    &&& self.entities@.len() == start.len() + i
                    &&& self.next_id == old(self).next_id + i
                    &&& forall|j: int|
                        0 <= j < i ==> #[trigger] self.entities@[start.len() + j] == (Entity {
                            id: (old(self).next_id + j) as u64,
                            ..debris_particle(x, rotated(parts@[j], h), speed as int)
                        })
                },
                start.len() <= self.entities@.len() <= start.len() + i,
                self.entities@.subrange(0, start.len() as int) == start,
                forall|k: int|
                    start.len() <= k < self.entities@.len() ==> (
                    #[trigger] self.entities@[k]).kind == EntityKind::Explosion(
                        Timer::from_millis_spec(x.despawn_after_ms, TimerMode::Once),
                    ) && self.entities@[k].movable.position == x.position,
            decreases parts.len() - i,
        {
            let d = rotate_exec(parts[i], h);
            proof {
                assert(-50_000_000 <= d.x * speed <= 50_000_000 && -50_000_000 <= d.y * speed
                    <= 50_000_000) by (nonlinear_arith)
                    requires
                        -2000 <= d.x <= 2000 && -2000 <= d.y <= 2000,
                        10_000 <= speed <= 25_000,
                ;
            }
            let v = Vec2 {
                x: x.velocity.x + div_trunc_exec(d.x * speed, 1000),
                y: x.velocity.y + div_trunc_exec(d.y * speed, 1000),
            };
            if in_range(v) {
                let e = Entity {
                    id: 0,
                    kind: EntityKind::Explosion(Timer::from_millis(x.despawn_after_ms, TimerMode::Once)),
                    movable: Movable { velocity: v, ..pose },
                    torus: None,
                    collidable: None,
                    bullet_collidable: None,
                    asteroid_collidable: false,
                    invulnerable: None,
                    bullet_controller: None,
                };
                let ghost before = self.entities@;
                let _ = self.insert(e);
                assert(self.entities@.subrange(0, start.len() as int) =~= start) by {
                    assert forall|j: int| 0 <= j < start.len() implies self.entities@[j] == start[j] by {
                        assert(before.subrange(0, start.len() as int)[j] == before[j]);
                    }
                }
                assert forall|k: int|
                    start.len() <= k < self.entities@.len() implies (
                    #[trigger] self.entities@[k]).kind == EntityKind::Explosion(
                        Timer::from_millis_spec(x.despawn_after_ms, TimerMode::Once),
                    ) && self.entities@[k].movable.position == x.position by {
                    if k < before.len() {
                        assert(self.entities@[k] == before[k]);
                    }
                }
                assert(debris_particle(x, rotated(parts@[i as int], h), speed as int) == e);
                proof {
                    if burst_fits(x) && old(self).next_id <= u64::MAX - 3 {
                        assert forall|j: int| 0 <= j < i + 1 implies #[trigger] self.entities@[start.len()
                            + j] == (Entity {
                            id: (old(self).next_id + j) as u64,
                            ..debris_particle(x, rotated(parts@[j], h), speed as int)
                        }) by {
                            if j < i {
                                assert(self.entities@[start.len() + j] == before[start.len() + j]);
                            }
                        }
                    }
                }
            } else {
                proof {
                    if burst_fits(x) {
                        assert(false);
                    }
                }
            }
            i = i + 1;
        }
        proof {
            if burst_fits(x) && old(self).next_id <= u64::MAX - 3 {
                assert(burst_placed(*old(self), *self, x, speed as int));
            }
        }
    }
}

} // verus!
