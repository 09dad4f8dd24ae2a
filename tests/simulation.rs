use asteroids_core::asteroid::{
    child_size, chunk_asteroid_state, direction, fragment_count, get_points_for_asteroid,
    random_chunk_asteroid_state, AsteroidDestroyedEvent, AsteroidShapeId, AsteroidSize,
    AsteroidSpawn, CHILD_ASTEROID_SPAWN_DISTANCE,
};
use asteroids_core::bullet::{
    BulletController, BulletControllerState, BulletFireResult, BulletSource, BulletSpawn,
};
use asteroids_core::collidable::{Collidable, Collider};
use asteroids_core::explosion::ExplosionShapeId;
use asteroids_core::geom::{ceil_sqrt, scale_trunc, Vec2, WorldBoundaries};
use asteroids_core::hit::{distinct_by, distinct_hit_events, HitEvent};
use asteroids_core::manager::{
    AsteroidSpawnInstruction, GameInit, GameManager, PlayerState, GAME_ASTEROID_SPAWN_TIME_MS,
};
use asteroids_core::movable::{
    limit_rot, limit_vec, AcceleratingTo, Acceleration, Movable, MovableTorusConstraint,
    FULL_TURN,
};
use asteroids_core::timer::{Timer, TimerMode};
use asteroids_core::player::{player_update_movable, PlayerRocket, ROCKET_RATE_OF_TURN};
use asteroids_core::world::{AlienSpawn, Destroyed, Detector, EntityKind, RocketSpawn, World};

fn bounds() -> WorldBoundaries {
    WorldBoundaries { left: -100_000, right: 100_000, top: 75_000, bottom: -75_000 }
}

fn still(position: Vec2, velocity: Vec2) -> Movable {
    Movable {
        position,
        velocity,
        acceleration: None,
        heading_angle: 0,
        rotational_velocity: 0,
        rotational_acceleration: None,
    }
}

fn quiet_init(asteroids: u32, lives: u32) -> GameInit {
    GameInit {
        asteroid_count: asteroids,
        player_lives: lives,
        alien_spawn_min_ms: 1_000_000,
        alien_spawn_max_ms: 1_000_000,
    }
}

#[test]
fn dedup_keeps_first_occurrences_in_order() {
    let a = 7;
    let b = 3;
    let c = 11;
    let r = distinct_by(&vec![a, b, a, c, a]);
    assert_eq!(r, vec![a, b, c]);
    let events = vec![HitEvent(a), HitEvent(b), HitEvent(a), HitEvent(c), HitEvent(a)];
    assert_eq!(distinct_hit_events(&events), vec![HitEvent(a), HitEvent(b), HitEvent(c)]);
}

#[test]
fn dedup_of_empty_batch_is_empty() {
    assert_eq!(distinct_by(&vec![]), Vec::<u64>::new());
}

#[test]
fn first_update_after_intent_fires() {
    let mut c = BulletController::new(200);
    // Age the timer first: the first shot must not depend on it.
    assert_eq!(c.update(150), BulletFireResult::Hold);
    c.try_set_firing_state(true);
    assert_eq!(c.update(1), BulletFireResult::FireBullet);
    assert_eq!(c.fire_count, 1);
    assert_eq!(c.update(100), BulletFireResult::Hold);
    assert_eq!(c.update(100), BulletFireResult::FireBullet);
    assert_eq!(c.fire_count, 2);
}

#[test]
fn cooldown_blocks_refire_until_a_full_period() {
    let mut c = BulletController::new(200);
    c.try_set_firing_state(true);
    assert_eq!(c.update(150), BulletFireResult::FireBullet);
    c.try_set_firing_state(false);
    assert_eq!(c.state(), BulletControllerState::Cooldown);
    c.try_set_firing_state(true);
    assert_eq!(c.state(), BulletControllerState::Cooldown);
    // The burst's own period would complete here; the cooldown's does not.
    assert_eq!(c.update(50), BulletFireResult::Hold);
    assert_eq!(c.state(), BulletControllerState::Cooldown);
    c.try_set_firing_state(true);
    assert_eq!(c.update(149), BulletFireResult::Hold);
    assert_eq!(c.state(), BulletControllerState::Cooldown);
    c.try_set_firing_state(true);
    assert_eq!(c.update(1), BulletFireResult::Hold);
    assert_eq!(c.state(), BulletControllerState::Idle);
    c.try_set_firing_state(true);
    assert_eq!(c.update(0), BulletFireResult::FireBullet);
}

#[test]
fn decelerate_snaps_on_direction_change() {
    let mut m = still(Vec2::new(0, 0), Vec2::new(1000, 0));
    m.acceleration = Some(Acceleration::new(Vec2::new(0, 2000)).with_limit(AcceleratingTo::Zero));
    m.integrate(1000);
    assert_eq!(m.velocity, Vec2::new(0, 0));
    let kept = limit_vec(AcceleratingTo::Zero, Vec2::new(1000, 0), Vec2::new(900, 50));
    assert_eq!(kept, Vec2::new(900, 50));
}

#[test]
fn timer_once_and_repeating() {
    let mut t = Timer::from_millis(100, TimerMode::Once);
    t.tick(60);
    assert!(!t.finished());
    t.tick(60);
    assert!(t.finished() && t.just_finished());
    assert_eq!(t.elapsed, 100);
    t.tick(10);
    assert!(t.finished() && !t.just_finished());
    let mut r = Timer::from_millis(100, TimerMode::Repeating);
    r.tick(250);
    assert!(r.just_finished());
    assert_eq!(r.elapsed, 50);
}

#[test]
fn clamp_to_max_limits_speed() {
    let v = limit_vec(AcceleratingTo::Max(5000), Vec2::new(0, 0), Vec2::new(6000, 8000));
    assert_eq!(v, Vec2::new(3000, 4000));
    let slow = limit_vec(AcceleratingTo::Max(5000), Vec2::new(0, 0), Vec2::new(300, 400));
    assert_eq!(slow, Vec2::new(300, 400));
    let odd = limit_vec(AcceleratingTo::Max(1000), Vec2::new(0, 0), Vec2::new(12345, -6789));
    assert!(odd.x as i128 * odd.x as i128 + odd.y as i128 * odd.y as i128 <= 1000 * 1000);
    assert!(odd.x > 0 && odd.y < 0);
}

#[test]
fn integrate_with_clamp_keeps_speed_under_max() {
    let mut m = still(Vec2::new(0, 0), Vec2::new(0, 0));
    m.acceleration = Some(Acceleration::new(Vec2::new(300_000, 0)).with_limit(AcceleratingTo::Max(200_000)));
    for _ in 0..10 {
        assert!(m.can_integrate(100));
        m.integrate(100);
        let v = m.velocity;
        assert!(v.x as i128 * v.x as i128 + v.y as i128 * v.y as i128 <= 200_000i128 * 200_000);
    }
    assert_eq!(m.velocity, Vec2::new(200_000, 0));
}

#[test]
fn decelerate_to_zero_stops_exactly() {
    let mut m = still(Vec2::new(0, 0), Vec2::new(30_000, 0));
    m.acceleration = Some(Acceleration::new(Vec2::new(-50_000, 0)).with_limit(AcceleratingTo::Zero));
    let mut last = m.velocity.x;
    for _ in 0..20 {
        m.integrate(100);
        assert!(m.velocity.x >= 0 && m.velocity.x <= last);
        last = m.velocity.x;
    }
    assert_eq!(m.velocity, Vec2::new(0, 0));
    assert_eq!(limit_rot(AcceleratingTo::Zero, 10, -5), 0);
    assert_eq!(limit_rot(AcceleratingTo::Max(7), 0, -9), -7);
}

#[test]
fn integrate_moves_and_turns() {
    let mut m = still(Vec2::new(1000, 2000), Vec2::new(10_000, -4000));
    m.rotational_velocity = 65536;
    m.heading_angle = 60000;
    m.integrate(500);
    assert_eq!(m.position, Vec2::new(6000, 0));
    assert_eq!(m.heading_angle, (60000 + 32768) % FULL_TURN);
    m.rotational_velocity = -131072;
    m.integrate(250);
    assert_eq!(m.heading_angle, 27232 + 65536 - 32768);
}

#[test]
fn wrap_right_edge_only_when_moving_out() {
    let b = bounds();
    let t = MovableTorusConstraint { radius: 5000 };
    let mut out = still(Vec2::new(b.right + 5000 + 1, 10), Vec2::new(1, 0));
    out.apply_torus(&t, &b);
    assert_eq!(out.position.x, b.left - 5000);
    let mut back = still(Vec2::new(b.right + 5000 + 1, 10), Vec2::new(-1, 0));
    back.apply_torus(&t, &b);
    assert_eq!(back.position.x, b.right + 5000 + 1);
    let mut down = still(Vec2::new(0, b.bottom - 5000 - 1), Vec2::new(0, -3));
    down.apply_torus(&t, &b);
    assert_eq!(down.position.y, b.top + 5000);
}

#[test]
fn collision_shapes() {
    let a = Collidable { collider: Collider::circle(Vec2::new(0, 0), 1000) };
    let b = Collidable { collider: Collider::circle(Vec2::new(1999, 0), 1000) };
    let c = Collidable { collider: Collider::circle(Vec2::new(2000, 0), 1000) };
    assert!(a.test_collision_with(&b));
    assert!(!a.test_collision_with(&c));
    let cap = Collidable { collider: Collider::capsule(Vec2::new(0, 3000), Vec2::new(5000, 0), 1000) };
    let near = Collidable { collider: Collider::circle(Vec2::new(4000, 1500), 600) };
    let far = Collidable { collider: Collider::circle(Vec2::new(7000, 3000), 900) };
    assert!(cap.test_collision_with(&near));
    assert!(!cap.test_collision_with(&far));
    let crossing = Collidable { collider: Collider::capsule(Vec2::new(0, 3000), Vec2::new(0, 5000), 1) };
    assert!(cap.test_collision_with(&crossing));
}

#[test]
fn fragmentation_sizes_and_counts() {
    assert_eq!(child_size(AsteroidSize::Large), Some(AsteroidSize::Medium));
    assert_eq!(child_size(AsteroidSize::Medium), Some(AsteroidSize::Small));
    assert_eq!(child_size(AsteroidSize::Small), None);
    assert_eq!(fragment_count(AsteroidSize::Large), 2);
    assert_eq!(fragment_count(AsteroidSize::Medium), 2);
    assert_eq!(fragment_count(AsteroidSize::Small), 0);
    assert_eq!(get_points_for_asteroid(AsteroidSize::Small), 10);
    assert_eq!(get_points_for_asteroid(AsteroidSize::Medium), 7);
    assert_eq!(get_points_for_asteroid(AsteroidSize::Large), 5);
}

#[test]
fn fragments_sit_at_spawn_distance() {
    let d = direction(1);
    let ((p1, v1), (p2, v2)) = chunk_asteroid_state(d, 10_000, Vec2::new(100, 200), Vec2::new(5000, -1000));
    assert_eq!(p1, Vec2::new(100 + 1600, 200 + 1200));
    assert_eq!(p2, Vec2::new(100 - 1600, 200 - 1200));
    assert_eq!(v1, Vec2::new(4000 + 8000, -800 + 6000));
    assert_eq!(v2, Vec2::new(4000 - 8000, -800 - 6000));
    let (a, b) = random_chunk_asteroid_state(Vec2::new(0, 0), Vec2::new(0, 0));
    let da = a.0.x as i64 * a.0.x as i64 + a.0.y as i64 * a.0.y as i64;
    assert_eq!(da, CHILD_ASTEROID_SPAWN_DISTANCE * CHILD_ASTEROID_SPAWN_DISTANCE);
    assert_eq!(b.0, Vec2::new(-a.0.x, -a.0.y));
    assert!(a.1 != Vec2::new(0, 0));
}

#[test]
fn integer_helpers() {
    assert_eq!(ceil_sqrt(0), 0);
    assert_eq!(ceil_sqrt(16), 4);
    assert_eq!(ceil_sqrt(17), 5);
    assert_eq!(scale_trunc(-7, 4, 5), -5);
    assert_eq!(scale_trunc(7, 4, 5), 5);
}

#[test]
fn end_to_end_large_asteroid_hit_by_bullet() {
    let mut world = World::new(bounds());
    let mut game = GameManager::new(quiet_init(0, 3));
    let rock = world
        .spawn_asteroid(AsteroidSpawn {
            size: AsteroidSize::Large,
            shape: AsteroidShapeId::A,
            position: Vec2::new(0, 0),
            velocity: Vec2::new(0, 0),
            rotation: 0,
            invulnerable: None,
        })
        .unwrap();
    let bullet = world
        .spawn_bullet(BulletSpawn {
            source: BulletSource::PlayerRocket,
            position: Vec2::new(1000, 0),
            velocity: Vec2::new(0, 0),
            heading_angle: 0,
            despawn_after_ms: 1000,
        })
        .unwrap();
    let hits = world.detect_collisions(Detector::Bullets);
    assert_eq!(hits, vec![HitEvent(bullet), HitEvent(rock)]);
    let destroyed = world.run_tick(&mut game, 0);
    assert_eq!(destroyed.asteroids.len(), 1);
    assert_eq!(
        destroyed.asteroids[0],
        AsteroidDestroyedEvent { size: AsteroidSize::Large, position: Vec2::new(0, 0), velocity: Vec2::new(0, 0) }
    );
    assert!(world.get(rock).is_none());
    assert!(world.get(bullet).is_none());
    let mediums: Vec<_> = world
        .entities
        .iter()
        .filter(|e| matches!(e.kind, EntityKind::Asteroid(a) if a.size == AsteroidSize::Medium))
        .collect();
    assert_eq!(mediums.len(), 2);
    let (p, q) = (mediums[0].movable.position, mediums[1].movable.position);
    assert_eq!(p.x as i64 * p.x as i64 + p.y as i64 * p.y as i64, 2000 * 2000);
    assert_eq!(q, Vec2::new(-p.x, -p.y));
    assert!(mediums.iter().all(|e| e.invulnerable.is_some()));
    assert_eq!(game.player_points, 5);
    assert_eq!(world.asteroid_count(), 2);
}

#[test]
fn duplicate_hits_destroy_once() {
    let mut world = World::new(bounds());
    let rock = world
        .spawn_asteroid(AsteroidSpawn {
            size: AsteroidSize::Small,
            shape: AsteroidShapeId::B,
            position: Vec2::new(0, 0),
            velocity: Vec2::new(0, 0),
            rotation: 0,
            invulnerable: None,
        })
        .unwrap();
    let destroyed = world.collision_effect_stage(&vec![HitEvent(rock), HitEvent(rock), HitEvent(99)]);
    assert_eq!(destroyed.asteroids.len(), 1);
    assert!(world.entities.is_empty());
}

#[test]
fn respawn_then_game_over() {
    let mut world = World::new(bounds());
    let mut game = GameManager::new(quiet_init(0, 1));
    let empty = Destroyed { asteroids: vec![], rocket: false, alien: false, explosions: vec![] };
    world.game_stage(&mut game, &empty, 16);
    assert_eq!(game.player_state, PlayerState::Ready);
    assert_eq!(world.entities.len(), 1);
    let hit = Destroyed { asteroids: vec![], rocket: true, alien: false, explosions: vec![] };
    world.entities.clear();
    world.game_stage(&mut game, &hit, 16);
    assert_eq!(game.player_state, PlayerState::Respawning);
    assert_eq!(game.player_lives_remaining, 0);
    assert!(world.entities.is_empty());
    world.game_stage(&mut game, &empty, 1000);
    assert_eq!(game.player_state, PlayerState::Respawning);
    world.game_stage(&mut game, &empty, 500);
    assert_eq!(game.player_state, PlayerState::Ready);
    assert!(world.entities.iter().any(|e| e.kind == EntityKind::PlayerRocket));
    world.entities.clear();
    world.game_stage(&mut game, &hit, 16);
    assert_eq!(game.player_state, PlayerState::Destroyed);
    assert!(game.is_game_over());
    world.game_stage(&mut game, &empty, 10_000);
    assert_eq!(game.player_state, PlayerState::Destroyed);
    assert!(world.entities.is_empty());
}

#[test]
fn refill_accounts_for_pending_spawns() {
    let mut game = GameManager::new(quiet_init(8, 3));
    assert_eq!(game.scheduled_asteroid_spawns.len(), 8);
    game.on_asteroid_count_update(0);
    assert_eq!(game.scheduled_asteroid_spawns.len(), 8);
    game.tick(0);
    let due = game.take_due_spawns();
    assert_eq!(due.len(), 8);
    assert!(due.iter().all(|s| s.instruction == AsteroidSpawnInstruction::Anywhere));
    game.on_asteroid_count_update(5);
    assert_eq!(game.scheduled_asteroid_spawns.len(), 3);
    assert!(game
        .scheduled_asteroid_spawns
        .iter()
        .all(|s| s.instruction == AsteroidSpawnInstruction::OffScreen
            && s.spawn_timer.duration == GAME_ASTEROID_SPAWN_TIME_MS));
    game.on_asteroid_count_update(9);
    assert_eq!(game.scheduled_asteroid_spawns.len(), 3);
}

#[test]
fn scoring_and_fragment_scheduling() {
    let mut game = GameManager::new(quiet_init(0, 3));
    let ev = AsteroidDestroyedEvent { size: AsteroidSize::Small, position: Vec2::new(0, 0), velocity: Vec2::new(0, 0) };
    game.on_asteroid_destroyed(ev);
    assert_eq!(game.player_points, 10);
    assert!(game.scheduled_asteroid_spawns.is_empty());
    let big = AsteroidDestroyedEvent { size: AsteroidSize::Large, ..ev };
    game.on_asteroid_destroyed(big);
    assert_eq!(game.player_points, 15);
    assert_eq!(game.scheduled_asteroid_spawns.len(), 1);
    assert_eq!(game.scheduled_asteroid_spawns[0].instruction, AsteroidSpawnInstruction::FromDestroyedAsteroid(big));
    game.on_alien_ufo_destroyed();
    assert_eq!(game.player_points, 30);
}

#[test]
fn alien_countdown_within_range() {
    let init = GameInit { asteroid_count: 0, player_lives: 3, alien_spawn_min_ms: 5000, alien_spawn_max_ms: 60000 };
    let mut game = GameManager::new(init);
    let d = game.alien_spawn_timer.duration;
    assert!((5000..=60000).contains(&d));
    assert!(!game.should_spawn_alien_ufo());
    game.tick(60000);
    assert!(game.should_spawn_alien_ufo());
    game.on_alien_ufo_spawned();
    assert!(!game.should_spawn_alien_ufo());
}

#[test]
fn bullets_expire() {
    let mut world = World::new(bounds());
    world
        .spawn_bullet(BulletSpawn {
            source: BulletSource::AlienUfo,
            position: Vec2::new(0, 0),
            velocity: Vec2::new(1000, 0),
            heading_angle: 0,
            despawn_after_ms: 100,
        })
        .unwrap();
    world.timers_stage(50);
    assert_eq!(world.entities.len(), 1);
    world.timers_stage(50);
    assert!(world.entities.is_empty());
}

#[test]
fn invulnerable_target_is_not_hit() {
    let mut world = World::new(bounds());
    world
        .spawn_asteroid(AsteroidSpawn {
            size: AsteroidSize::Medium,
            shape: AsteroidShapeId::C,
            position: Vec2::new(0, 0),
            velocity: Vec2::new(0, 0),
            rotation: 0,
            invulnerable: Some(Timer::from_millis(500, TimerMode::Once)),
        })
        .unwrap();
    world
        .spawn_bullet(BulletSpawn {
            source: BulletSource::PlayerRocket,
            position: Vec2::new(0, 0),
            velocity: Vec2::new(0, 0),
            heading_angle: 0,
            despawn_after_ms: 1000,
        })
        .unwrap();
    assert!(world.detect_collisions(Detector::Bullets).is_empty());
    world
        .spawn_bullet(BulletSpawn {
            source: BulletSource::AlienUfo,
            position: Vec2::new(0, 0),
            velocity: Vec2::new(0, 0),
            heading_angle: 0,
            despawn_after_ms: 1000,
        })
        .unwrap();
    world.timers_stage(500);
    // Alien bullets never hit asteroids: only the player's faction does.
    assert_eq!(world.detect_collisions(Detector::Bullets).len(), 2);
}

#[test]
fn offscreen_and_fragment_spawns() {
    let mut world = World::new(bounds());
    world.handle_asteroid_spawn(AsteroidSpawnInstruction::OffScreen);
    assert_eq!(world.entities.len(), 1);
    let p = world.entities[0].movable.position;
    let b = bounds();
    assert!(p.x <= b.left || p.x >= b.right || p.y <= b.bottom || p.y >= b.top);
    let ev = AsteroidDestroyedEvent { size: AsteroidSize::Small, position: Vec2::new(0, 0), velocity: Vec2::new(0, 0) };
    world.handle_asteroid_spawn(AsteroidSpawnInstruction::FromDestroyedAsteroid(ev));
    assert_eq!(world.entities.len(), 1);
    world.handle_asteroid_spawn(AsteroidSpawnInstruction::AtPosition(Vec2::new(0, 20_000)));
    assert_eq!(world.entities[1].movable.position, Vec2::new(0, 20_000));
    assert_eq!(world.entities[1].movable.velocity, Vec2::new(0, 0));
}

#[test]
fn heading_table_directions() {
    let mut m = still(Vec2::new(0, 0), Vec2::new(0, 0));
    assert_eq!(m.heading_normal(), Vec2::new(1000, 0));
    m.heading_angle = FULL_TURN / 4;
    assert_eq!(m.heading_normal(), Vec2::new(0, 1000));
    m.heading_angle = FULL_TURN / 2;
    assert_eq!(m.heading_normal(), Vec2::new(-1000, 0));
    m.heading_angle = FULL_TURN / 8;
    assert_eq!(m.heading_normal(), Vec2::new(707, 707));
}

#[test]
fn intents_set_accelerations() {
    let mut m = still(Vec2::new(0, 0), Vec2::new(0, 0));
    m.heading_angle = FULL_TURN / 4;
    let thrust = PlayerRocket { turning_left: true, turning_right: false, accelerating: true };
    player_update_movable(&thrust, &mut m);
    let a = m.acceleration.unwrap();
    assert_eq!(a.value, Vec2::new(0, 300_000));
    assert_eq!(a.limit, AcceleratingTo::Max(200_000));
    let r = m.rotational_acceleration.unwrap();
    assert_eq!(r.value, ROCKET_RATE_OF_TURN);
    assert_eq!(r.limit, AcceleratingTo::Max(65536));
    let mut coast = still(Vec2::new(0, 0), Vec2::new(30_000, 0));
    coast.rotational_velocity = -5;
    player_update_movable(&PlayerRocket::default(), &mut coast);
    let d = coast.acceleration.unwrap();
    assert_eq!(d.value, Vec2::new(-50_000, 0));
    assert_eq!(d.limit, AcceleratingTo::Zero);
    assert_eq!(coast.rotational_acceleration.unwrap().value, ROCKET_RATE_OF_TURN);
    let mut slow = still(Vec2::new(0, 0), Vec2::new(1000, 0));
    player_update_movable(&PlayerRocket::default(), &mut slow);
    assert!(slow.acceleration.is_none() && slow.rotational_acceleration.is_none());
}

#[test]
fn player_and_alien_fire() {
    let mut world = World::new(bounds());
    world.spawn_player_rocket(RocketSpawn::new()).unwrap();
    world.input_stage(PlayerRocket::default(), true);
    world.fire_stage(16);
    assert_eq!(world.entities.len(), 2);
    let shot = world.entities[1];
    assert!(matches!(shot.kind, EntityKind::Bullet(b) if b.source == BulletSource::PlayerRocket));
    assert_eq!(shot.movable.position, Vec2::new(0, 3000));
    assert_eq!(shot.movable.velocity, Vec2::new(0, 250_000));
    world.fire_stage(16);
    assert_eq!(world.entities.len(), 2);
    world
        .spawn_alien_ufo(AlienSpawn { position: Vec2::new(100_000, 0), velocity: Vec2::new(0, 0) })
        .unwrap();
    world.input_stage(PlayerRocket::default(), false);
    world.fire_stage(1);
    let last = world.entities[world.entities.len() - 1];
    assert!(matches!(last.kind, EntityKind::Bullet(b) if b.source == BulletSource::AlienUfo));
    assert_eq!(last.movable.position, Vec2::new(100_000, 0));
    assert_eq!(last.movable.velocity, Vec2::new(-125_000, 0));
}

#[test]
fn alien_holds_fire_without_target() {
    let mut world = World::new(bounds());
    world
        .spawn_alien_ufo(AlienSpawn { position: Vec2::new(0, 0), velocity: Vec2::new(0, 0) })
        .unwrap();
    world.fire_stage(5000);
    assert_eq!(world.entities.len(), 1);
}

#[test]
fn frames_run_a_game() {
    let mut world = World::new(bounds());
    let mut game = GameManager::new(GameInit {
        asteroid_count: 4,
        player_lives: 3,
        alien_spawn_min_ms: 100,
        alien_spawn_max_ms: 200,
    });
    let intents = PlayerRocket { turning_left: true, turning_right: false, accelerating: true };
    for _ in 0..30 {
        world.frame(&mut game, intents, true, 16);
    }
    assert!(world.asteroid_count() <= 4 + 8);
    assert!(world.entities.iter().all(|e| {
        let p = e.movable.position;
        p.x.abs() <= 200_000 && p.y.abs() <= 200_000
    }));
}

#[test]
fn destroyed_asteroid_leaves_fading_debris() {
    let mut world = World::new(bounds());
    let mut game = GameManager::new(quiet_init(0, 3));
    world
        .spawn_asteroid(AsteroidSpawn {
            size: AsteroidSize::Small,
            shape: AsteroidShapeId::D,
            position: Vec2::new(50_000, 0),
            velocity: Vec2::new(0, 0),
            rotation: 0,
            invulnerable: None,
        })
        .unwrap();
    world
        .spawn_bullet(BulletSpawn {
            source: BulletSource::PlayerRocket,
            position: Vec2::new(50_000, 0),
            velocity: Vec2::new(0, 0),
            heading_angle: 0,
            despawn_after_ms: 1000,
        })
        .unwrap();
    let destroyed = world.run_tick(&mut game, 0);
    assert_eq!(destroyed.explosions.len(), 1);
    assert_eq!(destroyed.explosions[0].shape_id, ExplosionShapeId::AsteroidDebris);
    let debris = |w: &World| w.entities.iter().filter(|e| matches!(e.kind, EntityKind::Explosion(_))).count();
    assert_eq!(debris(&world), 3);
    assert!(world
        .entities
        .iter()
        .filter(|e| matches!(e.kind, EntityKind::Explosion(_)))
        .all(|e| e.movable.position == Vec2::new(50_000, 0) && e.movable.velocity != Vec2::new(0, 0)));
    world.timers_stage(800);
    assert_eq!(debris(&world), 0);
}

#[test]
fn game_stage_runs_due_spawns_once() {
    let mut world = World::new(bounds());
    let mut game = GameManager::new(quiet_init(3, 2));
    let ev = AsteroidDestroyedEvent { size: AsteroidSize::Medium, position: Vec2::new(0, 0), velocity: Vec2::new(1000, 0) };
    let destroyed = Destroyed { asteroids: vec![ev], rocket: false, alien: true, explosions: vec![] };
    world.game_stage(&mut game, &destroyed, 0);
    // Three on-screen spawns and the two fragments ran; the refill found
    // the schedule already full, so nothing is left pending.
    assert!(game.scheduled_asteroid_spawns.is_empty());
    assert_eq!(world.asteroid_count(), 5);
    let smalls = world
        .entities
        .iter()
        .filter(|e| matches!(e.kind, EntityKind::Asteroid(a) if a.size == AsteroidSize::Small))
        .filter(|e| e.invulnerable.is_some())
        .count();
    assert!(smalls >= 2);
    let ships: Vec<_> = world.entities.iter().filter(|e| e.kind == EntityKind::PlayerRocket).collect();
    assert_eq!(ships.len(), 1);
    assert_eq!(ships[0].invulnerable, Some(Timer::from_millis(3000, TimerMode::Once)));
    assert_eq!(game.player_points, 7 + 15);
    world.game_stage(&mut game, &Destroyed { asteroids: vec![], rocket: false, alien: false, explosions: vec![] }, 0);
    assert_eq!(world.asteroid_count(), 5);
}
