use vstd::prelude::*;
use crate::asteroid::{
    AsteroidDestroyedEvent, AsteroidSize, asteroid_points_spec, get_points_for_asteroid,
};
use crate::random::random_in;
use crate::timer::{Timer, TimerMode};

verus! {

pub const GAME_PLAYER_RESPAWN_TIME_MS: u64 = 1500;
pub const GAME_ASTEROID_SPAWN_TIME_MS: u64 = 5000;
pub const ALIEN_SPAWN_MIN_MS: u64 = 5000;
pub const ALIEN_SPAWN_MAX_MS: u64 = 60000;
pub const ALIEN_UFO_POINTS: u32 = 15;

/// Settings a game starts with.
#[derive(Clone, Copy, Debug, PartialEq, Eq, Structural)]
pub struct GameInit {
    /// How many asteroids the game keeps on screen.
    pub asteroid_count: u32,
    pub player_lives: u32,
    /// Range of the countdown before an alien ship appears.
    pub alien_spawn_min_ms: u64,
    pub alien_spawn_max_ms: u64,
}

impl GameInit {
    pub open spec fn wf(self) -> bool {
        self.alien_spawn_min_ms <= self.alien_spawn_max_ms
    }
}

#[derive(Clone, Copy, Debug, PartialEq, Eq, Structural)]
pub enum PlayerState {
    FirstSpawn,
    Respawning,
    Ready,
    Destroyed,
}

#[derive(Clone, Copy, Debug, PartialEq, Eq, Structural)]
pub enum AlienState {
    Spawning,
    Ready,
}

/// What a scheduled asteroid spawn places, and where.
#[derive(Clone, Copy, Debug, PartialEq, Eq, Structural)]
pub enum AsteroidSpawnInstruction {
    Anywhere,
    OffScreen,
    FromDestroyedAsteroid(AsteroidDestroyedEvent),
    AtPosition(crate::geom::Vec2),
}

/// An asteroid spawn waiting for its own countdown.
#[derive(Clone, Copy, Debug, PartialEq, Eq, Structural)]
pub struct ScheduledAsteroidSpawn {
    pub spawn_timer: Timer,
    pub instruction: AsteroidSpawnInstruction,
}

/// Central game state: score, lives, the player and alien lifecycles and
/// the pending asteroid spawns.
pub struct GameManager {
    pub player_lives_remaining: u32,
    pub player_points: u32,
    pub debug_asteroid_count_on_screen: u32,
    pub scheduled_asteroid_spawns: Vec<ScheduledAsteroidSpawn>,
    pub player_state: PlayerState,
    pub alien_state: AlienState,
    pub player_spawn_timer: Timer,
    pub alien_spawn_timer: Timer,
    pub init: GameInit,
}

/// `a + b`, stopping at the largest `u32`.
pub open spec fn sat_add(a: int, b: int) -> int {
    if a + b > u32::MAX {
        u32::MAX as int
    } else {
        a + b
    }
}

fn sat_add_exec(a: u32, b: u32) -> (r: u32)
    ensures
        r == sat_add(a as int, b as int),
{
    if a > u32::MAX - b {
        u32::MAX
    } else {
        a + b
    }
}

/// Player state and lives after the player's ship was destroyed: only a
/// ship that is Ready can be lost; with lives left it respawns (one life
/// used), without it the game is over.
pub open spec fn after_rocket_destroyed(state: PlayerState, lives: u32) -> (PlayerState, u32) {
    if state != PlayerState::Ready {
        (state, lives)
    } else if lives == 0 {
        (PlayerState::Destroyed, lives)
    } else {
        (PlayerState::Respawning, (lives - 1) as u32)
    }
}

/// A new ship is due: on entering play, or when the respawn countdown ran out.
pub open spec fn player_spawn_due(state: PlayerState, timer: Timer) -> bool {
    state == PlayerState::FirstSpawn || (state == PlayerState::Respawning && timer.finished)
}

pub open spec fn spawns_wf(s: Seq<ScheduledAsteroidSpawn>) -> bool {
    forall|i: int|
        0 <= i < s.len() ==> (#[trigger] s[i]).spawn_timer.wf() && s[i].spawn_timer.mode
            == TimerMode::Once
}

/// The pending spawns whose countdown has finished, in schedule order.
pub open spec fn due_spawns(s: Seq<ScheduledAsteroidSpawn>) -> Seq<ScheduledAsteroidSpawn>
    decreases s.len(),
{
    if s.len() == 0 {
        seq![]
    } else if s.last().spawn_timer.finished {
        due_spawns(s.drop_last()).push(s.last())
    } else {
        due_spawns(s.drop_last())
    }
}

/// The pending spawns whose countdown is still running, in schedule order.
pub open spec fn waiting_spawns(s: Seq<ScheduledAsteroidSpawn>) -> Seq<ScheduledAsteroidSpawn>
    decreases s.len(),
{
    if s.len() == 0 {
        seq![]
    } else if !s.last().spawn_timer.finished {
        waiting_spawns(s.drop_last()).push(s.last())
    } else {
        waiting_spawns(s.drop_last())
    }
}

pub open spec fn scheduled(delay: u64, instruction: AsteroidSpawnInstruction) -> ScheduledAsteroidSpawn {
    ScheduledAsteroidSpawn {
        spawn_timer: Timer::from_millis_spec(delay, TimerMode::Once),
        instruction,
    }
}

/// How many off-screen spawns the refill adds: what is missing from the
/// target once the asteroids on screen and those pending are counted.
pub open spec fn missing_asteroids(target: int, on_screen: int, pending: int) -> int {
    if target - on_screen - pending > 0 {
        target - on_screen - pending
    } else {
        0
    }
}

impl GameManager {
    pub open spec fn wf(self) -> bool {
        &&& self.init.wf()
        &&& self.player_spawn_timer.wf() && self.player_spawn_timer.mode == TimerMode::Once
        &&& self.alien_spawn_timer.wf() && self.alien_spawn_timer.mode == TimerMode::Once
        &&& spawns_wf(self.scheduled_asteroid_spawns@)
    }

    /// Whether the alien countdown was restarted with a draw from the
    /// configured range.
    pub open spec fn alien_scheduled(self) -> bool {
        &&& self.alien_state == AlienState::Spawning
        &&& self.alien_spawn_timer.mode == TimerMode::Once
        &&& self.alien_spawn_timer.elapsed == 0
        &&& !self.alien_spawn_timer.finished
        &&& self.init.alien_spawn_min_ms <= self.alien_spawn_timer.duration
            <= self.init.alien_spawn_max_ms
    }

    /// A game on entering play: all lives, no points, the first ship due at
    /// once, the alien countdown started, and one immediate on-screen
    /// asteroid spawn for each asteroid of the target.
    pub fn new(init: GameInit) -> (r: GameManager)
        requires
            init.wf(),
        ensures
            r.wf(),
            r.init == init,
            r.player_lives_remaining == init.player_lives,
            r.player_points == 0,
            r.player_state == PlayerState::FirstSpawn,
            r.alien_scheduled(),
            r.scheduled_asteroid_spawns@ == Seq::new(
                init.asteroid_count as nat,
                |i: int| scheduled(0, AsteroidSpawnInstruction::Anywhere),
            ),
    {
        let mut game = GameManager {
            player_lives_remaining: init.player_lives,
            player_points: 0,
            debug_asteroid_count_on_screen: 0,
            scheduled_asteroid_spawns: Vec::new(),
            player_state: PlayerState::FirstSpawn,
            alien_state: AlienState::Spawning,
            player_spawn_timer: Timer::from_millis(0, TimerMode::Once),
            alien_spawn_timer: Timer::from_millis(0, TimerMode::Once),
            init,
        };
        game.schedule_alien_ufo_to_spawn();
        let mut i: u32 = 0;
        while i < init.asteroid_count
            invariant
                game.wf(),
                game.init == init,
                game.player_lives_remaining == init.player_lives,
                game.player_points == 0,
                game.player_state == PlayerState::FirstSpawn,
                game.alien_scheduled(),
                i <= init.asteroid_count,
                game.scheduled_asteroid_spawns@ == Seq::new(
                    i as nat,
                    |k: int| scheduled(0, AsteroidSpawnInstruction::Anywhere),
                ),
            decreases init.asteroid_count - i,
        {
            game.schedule_asteroid_to_spawn(0, AsteroidSpawnInstruction::Anywhere);
            i = i + 1;
            assert(game.scheduled_asteroid_spawns@ =~= Seq::new(
                i as nat,
                |k: int| scheduled(0, AsteroidSpawnInstruction::Anywhere),
            ));
        }
        game
    }

    /// Adds a spawn that runs once `delay_ms` milliseconds have passed.
    pub fn schedule_asteroid_to_spawn(
        &mut self,
        delay_ms: u64,
        instruction: AsteroidSpawnInstruction,
    )
        requires
            old(self).wf(),
        ensures
            final(self).wf(),
            final(self).scheduled_asteroid_spawns@ == old(self).scheduled_asteroid_spawns@.push(
                scheduled(delay_ms, instruction),
            ),
            final(self).player_lives_remaining == old(self).player_lives_remaining,
            final(self).player_points == old(self).player_points,
            final(self).player_state == old(self).player_state,
            final(self).player_spawn_timer == old(self).player_spawn_timer,
            final(self).alien_state == old(self).alien_state,
            final(self).alien_spawn_timer == old(self).alien_spawn_timer,
            final(self).init == old(self).init,
            final(self).debug_asteroid_count_on_screen == old(self).debug_asteroid_count_on_screen,
    {
        let s = ScheduledAsteroidSpawn {
            spawn_timer: Timer::from_millis(delay_ms, TimerMode::Once),
            instruction,
        };
        self.scheduled_asteroid_spawns.push(s);
        assert(spawns_wf(self.scheduled_asteroid_spawns@)) by {
            assert forall|i: int| 0 <= i < self.scheduled_asteroid_spawns@.len() implies (
            #[trigger] self.scheduled_asteroid_spawns@[i]).spawn_timer.wf()
                && self.scheduled_asteroid_spawns@[i].spawn_timer.mode == TimerMode::Once by {
                if i < old(self).scheduled_asteroid_spawns@.len() {
                    assert(self.scheduled_asteroid_spawns@[i]
                        == old(self).scheduled_asteroid_spawns@[i]);
                }
            }
        }
    }

    /// Starts the alien countdown, drawn from the configured range.
    pub fn schedule_alien_ufo_to_spawn(&mut self)
        requires
            old(self).init.wf(),
        ensures
            final(self).alien_scheduled(),
            final(self).init == old(self).init,
            final(self).player_lives_remaining == old(self).player_lives_remaining,
            final(self).player_points == old(self).player_points,
            final(self).player_state == old(self).player_state,
            final(self).player_spawn_timer == old(self).player_spawn_timer,
            final(self).scheduled_asteroid_spawns@ == old(self).scheduled_asteroid_spawns@,
            final(self).debug_asteroid_count_on_screen == old(self).debug_asteroid_count_on_screen,
    {
        let ms = random_in(self.init.alien_spawn_min_ms, self.init.alien_spawn_max_ms);
        self.alien_state = AlienState::Spawning;
        self.alien_spawn_timer = Timer::from_millis(ms, TimerMode::Once);
    }

    /// Reacts to the loss of the player's ship.
    pub fn on_rocket_destroyed(&mut self)
        requires
            old(self).wf(),
        ensures
            final(self).wf(),
            (final(self).player_state, final(self).player_lives_remaining)
                == after_rocket_destroyed(old(self).player_state, old(self).player_lives_remaining),
            final(self).player_spawn_timer == if final(self).player_state
                == PlayerState::Respawning && old(self).player_state == PlayerState::Ready {
                Timer::from_millis_spec(GAME_PLAYER_RESPAWN_TIME_MS, TimerMode::Once)
            } else {
                old(self).player_spawn_timer
            },
            final(self).player_points == old(self).player_points,
            final(self).alien_state == old(self).alien_state,
            final(self).alien_spawn_timer == old(self).alien_spawn_timer,
            final(self).scheduled_asteroid_spawns@ == old(self).scheduled_asteroid_spawns@,
            final(self).init == old(self).init,
    {
        if self.player_state != PlayerState::Ready {
            return;
        }
        if self.player_lives_remaining == 0 {
            self.player_state = PlayerState::Destroyed;
        } else {
            self.player_state = PlayerState::Respawning;
            self.player_lives_remaining = self.player_lives_remaining - 1;
            self.player_spawn_timer = Timer::from_millis(
                GAME_PLAYER_RESPAWN_TIME_MS,
                TimerMode::Once,
            );
        }
    }

    /// Scores a destroyed asteroid and, for a Medium or Large one, schedules
    /// its fragments at once.
    pub fn on_asteroid_destroyed(&mut self, event: AsteroidDestroyedEvent)
        requires
            old(self).wf(),
        ensures
            final(self).wf(),
            final(self).player_points == sat_add(
                old(self).player_points as int,
                asteroid_points_spec(event.size),
            ),
            final(self).scheduled_asteroid_spawns@ == if event.size == AsteroidSize::Small {
                old(self).scheduled_asteroid_spawns@
            } else {
                old(self).scheduled_asteroid_spawns@.push(
                    scheduled(0, AsteroidSpawnInstruction::FromDestroyedAsteroid(event)),
                )
            },
            final(self).player_state == old(self).player_state,
            final(self).player_lives_remaining == old(self).player_lives_remaining,
            final(self).player_spawn_timer == old(self).player_spawn_timer,
            final(self).alien_state == old(self).alien_state,
            final(self).alien_spawn_timer == old(self).alien_spawn_timer,
            final(self).init == old(self).init,
    {
        self.player_points = sat_add_exec(self.player_points, get_points_for_asteroid(event.size));
        if event.size == AsteroidSize::Medium || event.size == AsteroidSize::Large {
            self.schedule_asteroid_to_spawn(
                0,
                AsteroidSpawnInstruction::FromDestroyedAsteroid(event),
            );
        }
    }

    /// Scores a destroyed alien ship and starts the countdown to the next.
    pub fn on_alien_ufo_destroyed(&mut self)
        requires
            old(self).wf(),
        ensures
            final(self).wf(),
            final(self).player_points == sat_add(
                old(self).player_points as int,
                ALIEN_UFO_POINTS as int,
            ),
            final(self).alien_scheduled(),
            final(self).player_state == old(self).player_state,
            final(self).player_lives_remaining == old(self).player_lives_remaining,
            final(self).player_spawn_timer == old(self).player_spawn_timer,
            final(self).scheduled_asteroid_spawns@ == old(self).scheduled_asteroid_spawns@,
            final(self).init == old(self).init,
    {
        self.player_points = sat_add_exec(self.player_points, get_points_for_alien_ufo());
        self.schedule_alien_ufo_to_spawn();
    }

    /// Tops the asteroid population up to its target: schedules one delayed
    /// off-screen spawn for each asteroid missing once those on screen and
    /// those already pending are counted.
    pub fn on_asteroid_count_update(&mut self, current_asteroid_count: u32)
        requires
            old(self).wf(),
        ensures
            final(self).wf(),
            final(self).debug_asteroid_count_on_screen == current_asteroid_count,
            final(self).scheduled_asteroid_spawns@ == old(self).scheduled_asteroid_spawns@ + Seq::new(
                missing_asteroids(
                    old(self).init.asteroid_count as int,
                    current_asteroid_count as int,
                    old(self).scheduled_asteroid_spawns@.len() as int,
                ) as nat,
                |i: int| scheduled(GAME_ASTEROID_SPAWN_TIME_MS, AsteroidSpawnInstruction::OffScreen),
            ),
            final(self).player_points == old(self).player_points,
            final(self).player_state == old(self).player_state,
            final(self).player_lives_remaining == old(self).player_lives_remaining,
            final(self).player_spawn_timer == old(self).player_spawn_timer,
            final(self).alien_state == old(self).alien_state,
            final(self).alien_spawn_timer == old(self).alien_spawn_timer,
            final(self).init == old(self).init,
    {
        self.debug_asteroid_count_on_screen = current_asteroid_count;
        let pending = self.scheduled_asteroid_spawns.len();
        let target = self.init.asteroid_count as u64;
        let have: u128 = current_asteroid_count as u128 + pending as u128;
        let missing: u64 = if (target as u128) > have {
            (target as u128 - have) as u64
        } else {
            0
        };
        let ghost start = self.scheduled_asteroid_spawns@;
        let ghost pend_spec = missing_asteroids(
            target as int,
            current_asteroid_count as int,
            pending as int,
        );
        assert(missing == pend_spec);
        let mut k: u64 = 0;
        while k < missing
            invariant
                self.wf(),
                k <= missing,
                self.debug_asteroid_count_on_screen == current_asteroid_count,
                self.scheduled_asteroid_spawns@ == start + Seq::new(
                    k as nat,
                    |i: int| scheduled(GAME_ASTEROID_SPAWN_TIME_MS, AsteroidSpawnInstruction::OffScreen),
                ),
                self.player_points == old(self).player_points,
                self.player_state == old(self).player_state,
                self.player_lives_remaining == old(self).player_lives_remaining,
                self.player_spawn_timer == old(self).player_spawn_timer,
                self.alien_state == old(self).alien_state,
                self.alien_spawn_timer == old(self).alien_spawn_timer,
                self.init == old(self).init,
            decreases missing - k,
        {
            self.schedule_asteroid_to_spawn(
                GAME_ASTEROID_SPAWN_TIME_MS,
                AsteroidSpawnInstruction::OffScreen,
            );
            k = k + 1;
            assert(self.scheduled_asteroid_spawns@ =~= start + Seq::new(
                k as nat,
                |i: int| scheduled(GAME_ASTEROID_SPAWN_TIME_MS, AsteroidSpawnInstruction::OffScreen),
            ));
        }
    }

    /// Advances every countdown of the game by `delta_ms` milliseconds.
    pub fn tick(&mut self, delta_ms: u64)
        requires
            old(self).wf(),
        ensures
            final(self).wf(),
            final(self).player_spawn_timer == old(self).player_spawn_timer.ticked(delta_ms),
            final(self).alien_spawn_timer == old(self).alien_spawn_timer.ticked(delta_ms),
            final(self).scheduled_asteroid_spawns@.len() == old(self).scheduled_asteroid_spawns@.len(),
            forall|i: int|
                0 <= i < old(self).scheduled_asteroid_spawns@.len() ==> (
                #[trigger] final(self).scheduled_asteroid_spawns@[i]) == (ScheduledAsteroidSpawn {
                    spawn_timer: old(self).scheduled_asteroid_spawns@[i].spawn_timer.ticked(
                        delta_ms,
                    ),
                    ..old(self).scheduled_asteroid_spawns@[i]
                }),
            final(self).player_points == old(self).player_points,
            final(self).player_state == old(self).player_state,
            final(self).player_lives_remaining == old(self).player_lives_remaining,
            final(self).alien_state == old(self).alien_state,
            final(self).init == old(self).init,
    {
        self.player_spawn_timer.tick(delta_ms);
        self.alien_spawn_timer.tick(delta_ms);
        let n = self.scheduled_asteroid_spawns.len();
        let mut i: usize = 0;
        while i < n
            invariant
                i <= n,
                n == old(self).scheduled_asteroid_spawns@.len(),
                self.scheduled_asteroid_spawns@.len() == n,
                self.player_spawn_timer == old(self).player_spawn_timer.ticked(delta_ms),
                self.alien_spawn_timer == old(self).alien_spawn_timer.ticked(delta_ms),
                self.player_spawn_timer.wf(),
                self.alien_spawn_timer.wf(),
                self.player_points == old(self).player_points,
                self.player_state == old(self).player_state,
                self.player_lives_remaining == old(self).player_lives_remaining,
                self.alien_state == old(self).alien_state,
                self.init == old(self).init,
                spawns_wf(self.scheduled_asteroid_spawns@),
                forall|k: int|
                    0 <= k < i ==> (#[trigger] self.scheduled_asteroid_spawns@[k])
                        == (ScheduledAsteroidSpawn {
                        spawn_timer: old(self).scheduled_asteroid_spawns@[k].spawn_timer.ticked(
                            delta_ms,
                        ),
                        ..old(self).scheduled_asteroid_spawns@[k]
                    }),
                forall|k: int|
                    i <= k < n ==> (#[trigger] self.scheduled_asteroid_spawns@[k])
                        == old(self).scheduled_asteroid_spawns@[k],
            decreases n - i,
        {
            let mut s = self.scheduled_asteroid_spawns[i];
            s.spawn_timer.tick(delta_ms);
            self.scheduled_asteroid_spawns.set(i, s);
            i = i + 1;
        }
    }

    /// Removes and returns the pending spawns whose countdown has finished,
    /// in schedule order; the others stay, in order.
    pub fn take_due_spawns(&mut self) -> (r: Vec<ScheduledAsteroidSpawn>)
        requires
            old(self).wf(),
        ensures
            final(self).wf(),
            r@ == due_spawns(old(self).scheduled_asteroid_spawns@),
            final(self).scheduled_asteroid_spawns@ == waiting_spawns(
                old(self).scheduled_asteroid_spawns@,
            ),
            final(self).player_points == old(self).player_points,
            final(self).player_state == old(self).player_state,
            final(self).player_lives_remaining == old(self).player_lives_remaining,
            final(self).player_spawn_timer == old(self).player_spawn_timer,
            final(self).alien_state == old(self).alien_state,
            final(self).alien_spawn_timer == old(self).alien_spawn_timer,
            final(self).init == old(self).init,
    {
        let mut all: Vec<ScheduledAsteroidSpawn> = Vec::new();
        std::mem::swap(&mut all, &mut self.scheduled_asteroid_spawns);
        let mut due: Vec<ScheduledAsteroidSpawn> = Vec::new();
        let mut keep: Vec<ScheduledAsteroidSpawn> = Vec::new();
        let mut i: usize = 0;
        while i < all.len()
            invariant
                i <= all.len(),
                all@ == old(self).scheduled_asteroid_spawns@,
                due@ == due_spawns(all@.take(i as int)),
                keep@ == waiting_spawns(all@.take(i as int)),
                spawns_wf(keep@),
                spawns_wf(all@),
            decreases all.len() - i,
        {
            let s = all[i];
            proof {
                assert(all@.take(i as int + 1).drop_last() == all@.take(i as int));
            }
            if s.spawn_timer.finished() {
                due.push(s);
            } else {
                keep.push(s);
                assert(spawns_wf(keep@)) by {
                    assert forall|k: int| 0 <= k < keep@.len() implies (
                    #[trigger] keep@[k]).spawn_timer.wf() && keep@[k].spawn_timer.mode
                        == TimerMode::Once by {
                        if k == keep@.len() - 1 {
                            assert(keep@[k] == all@[i as int]);
                        }
                    }
                }
            }
            i = i + 1;
        }
        proof {
            assert(all@.take(all.len() as int) == all@);
        }
        self.scheduled_asteroid_spawns = keep;
        due
    }

    /// Whether a new player ship should be placed now.
    pub fn should_spawn_player(&self) -> (r: bool)
        ensures
            r == player_spawn_due(self.player_state, self.player_spawn_timer),
    {
        self.player_state == PlayerState::FirstSpawn || (self.player_state
            == PlayerState::Respawning && self.player_spawn_timer.finished())
    }

    /// Records that a new player ship was placed.
    pub fn on_rocket_spawned(&mut self)
        requires
            old(self).wf(),
        ensures
            final(self).wf(),
            final(self).player_state == PlayerState::Ready,
            final(self).player_lives_remaining == old(self).player_lives_remaining,
            final(self).player_points == old(self).player_points,
            final(self).player_spawn_timer == old(self).player_spawn_timer,
            final(self).alien_state == old(self).alien_state,
            final(self).alien_spawn_timer == old(self).alien_spawn_timer,
            final(self).scheduled_asteroid_spawns@ == old(self).scheduled_asteroid_spawns@,
            final(self).init == old(self).init,
    {
        self.player_state = PlayerState::Ready;
    }

    /// Whether the alien ship should appear now.
    pub fn should_spawn_alien_ufo(&self) -> (r: bool)
        ensures
            r == (self.alien_state == AlienState::Spawning && self.alien_spawn_timer.finished),
    {
        self.alien_state == AlienState::Spawning && self.alien_spawn_timer.finished()
    }

    /// Records that the alien ship appeared.
    pub fn on_alien_ufo_spawned(&mut self)
        requires
            old(self).wf(),
        ensures
            final(self).wf(),
            final(self).alien_state == AlienState::Ready,
            final(self).alien_spawn_timer == old(self).alien_spawn_timer,
            final(self).player_state == old(self).player_state,
            final(self).player_lives_remaining == old(self).player_lives_remaining,
            final(self).player_points == old(self).player_points,
            final(self).player_spawn_timer == old(self).player_spawn_timer,
            final(self).scheduled_asteroid_spawns@ == old(self).scheduled_asteroid_spawns@,
            final(self).init == old(self).init,
    {
        self.alien_state = AlienState::Ready;
    }

    /// The game is lost.
    pub fn is_game_over(&self) -> (r: bool)
        ensures
            r == (self.player_state == PlayerState::Destroyed),
    {
        self.player_state == PlayerState::Destroyed
    }
}

/// Points for destroying an alien ship.
pub fn get_points_for_alien_ufo() -> (r: u32)
    ensures
        r == ALIEN_UFO_POINTS,
{
    ALIEN_UFO_POINTS
}

/// A countdown before the first alien ship, drawn from the default range.
pub fn random_alien_spawn_ms() -> (r: u64)
    ensures
        ALIEN_SPAWN_MIN_MS <= r <= ALIEN_SPAWN_MAX_MS,
{
    random_in(ALIEN_SPAWN_MIN_MS, ALIEN_SPAWN_MAX_MS)
}

/// A player with one life left, hit while Ready, starts respawning with no
/// life left; once the respawn countdown has run, a new ship is due and,
/// placed, is Ready; hit again, the game is over for good: no respawn is
/// ever due again, however much time passes.
pub proof fn lemma_respawn_cycle(timer: Timer, delta_ms: u64, later_ms: u64)
    requires
        delta_ms >= GAME_PLAYER_RESPAWN_TIME_MS,
    ensures
        ({
            let (s1, l1) = after_rocket_destroyed(PlayerState::Ready, 1);
            let t1 = Timer::from_millis_spec(GAME_PLAYER_RESPAWN_TIME_MS, TimerMode::Once);
            let t2 = t1.ticked(delta_ms);
            let (s3, l3) = after_rocket_destroyed(PlayerState::Ready, l1);
            &&& s1 == PlayerState::Respawning && l1 == 0
            &&& player_spawn_due(s1, t2)
            &&& s3 == PlayerState::Destroyed && l3 == 0
            &&& !player_spawn_due(s3, timer.ticked(later_ms))
            &&& after_rocket_destroyed(s3, l3) == (s3, l3)
        }),
{
}

/// While respawning, no ship is due before the respawn countdown has run.
pub proof fn lemma_no_early_respawn(delta_ms: u64)
    requires
        delta_ms < GAME_PLAYER_RESPAWN_TIME_MS,
    ensures
        !player_spawn_due(
            PlayerState::Respawning,
            Timer::from_millis_spec(GAME_PLAYER_RESPAWN_TIME_MS, TimerMode::Once).ticked(delta_ms),
        ),
{
}

} // verus!
