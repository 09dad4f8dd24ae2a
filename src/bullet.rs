use vstd::prelude::*;
use crate::geom::Vec2;
use crate::timer::{Timer, TimerMode};

verus! {

/// Which faction fired a bullet; a bullet never hits its own faction.
#[derive(Clone, Copy, Debug, PartialEq, Eq, Structural)]
pub enum BulletSource {
    PlayerRocket,
    AlienUfo,
}

/// A bullet in flight.
#[derive(Clone, Copy, Debug, PartialEq, Eq, Structural)]
pub struct Bullet {
    pub source: BulletSource,
    pub despawn_timer: Timer,
}

/// Marks an entity that bullets of `source` can hit.
#[derive(Clone, Copy, Debug, PartialEq, Eq, Structural)]
pub struct BulletCollidable {
    pub source: BulletSource,
}

/// What a shooter fires.
#[derive(Clone, Copy, Debug, PartialEq, Eq, Structural)]
pub struct BulletSpawn {
    pub source: BulletSource,
    pub position: Vec2,
    pub velocity: Vec2,
    pub heading_angle: u64,
    pub despawn_after_ms: u64,
}

/// Outcome of one tick of a shooter's fire control.
#[derive(Clone, Copy, Debug, PartialEq, Eq, Structural)]
pub enum BulletFireResult {
    Hold,
    FireBullet,
}

#[derive(Clone, Copy, Debug, PartialEq, Eq, Structural)]
pub enum BulletControllerState {
    Idle,
    Firing,
    Cooldown,
}

/// Per-shooter fire control: a fire-rate timer and the Idle / Firing /
/// Cooldown state machine.
#[derive(Clone, Copy, Debug, PartialEq, Eq, Structural)]
pub struct BulletController {
    pub timer: Timer,
    pub state: BulletControllerState,
    pub fire_count: u64,
    pub spawn_translation: Option<Vec2>,
}

impl BulletController {
    pub open spec fn wf(self) -> bool {
        self.timer.wf() && self.timer.mode == TimerMode::Repeating
    }

    pub open spec fn with_firing(self, firing: bool) -> BulletController {
        if firing && self.state == BulletControllerState::Idle {
            BulletController {
                state: BulletControllerState::Firing,
                fire_count: 0,
                timer: Timer { elapsed: 0, finished: false, just_finished: false, ..self.timer },
                ..self
            }
        } else if !firing && self.state == BulletControllerState::Firing {
            BulletController {
                state: BulletControllerState::Cooldown,
                timer: Timer { elapsed: 0, finished: false, just_finished: false, ..self.timer },
                ..self
            }
        } else {
            self
        }
    }

    /// The controller after one tick of `delta` milliseconds, and what it
    /// decided.
    pub open spec fn stepped(self, delta: u64) -> (BulletController, BulletFireResult) {
        let timer = self.timer.ticked(delta);
        match self.state {
            BulletControllerState::Idle => (
                BulletController { timer, ..self },
                BulletFireResult::Hold,
            ),
            BulletControllerState::Firing => if self.fire_count == 0 || timer.just_finished {
                (
                    BulletController {
                        timer,
                        fire_count: if self.fire_count < u64::MAX {
                            (self.fire_count + 1) as u64
                        } else {
                            self.fire_count
                        },
                        ..self
                    },
                    BulletFireResult::FireBullet,
                )
            } else {
                (BulletController { timer, ..self }, BulletFireResult::Hold)
            },
            BulletControllerState::Cooldown => (
                BulletController {
                    timer,
                    state: if timer.just_finished {
                        BulletControllerState::Idle
                    } else {
                        BulletControllerState::Cooldown
                    },
                    ..self
                },
                BulletFireResult::Hold,
            ),
        }
    }

    /// A controller that fires once every `fire_period_ms` milliseconds
    /// while firing.
    pub fn new(fire_period_ms: u64) -> (r: BulletController)
        ensures
            r.wf(),
            r.state == BulletControllerState::Idle,
            r.fire_count == 0,
            r.timer == Timer::from_millis_spec(fire_period_ms, TimerMode::Repeating),
            r.spawn_translation.is_none(),
    {
        BulletController {
            timer: Timer::from_millis(fire_period_ms, TimerMode::Repeating),
            state: BulletControllerState::Idle,
            fire_count: 0,
            spawn_translation: None,
        }
    }

    /// The same controller, with bullets leaving at `translation` from the
    /// shooter's position.
    pub fn with_spawn_translation(self, translation: Vec2) -> (r: BulletController)
        ensures
            r == (BulletController { spawn_translation: Some(translation), ..self }),
    {
        BulletController { spawn_translation: Some(translation), ..self }
    }

    /// Records the shooter's fire intent. Idle starts firing (count and
    /// timer reset); Firing with no intent starts the cooldown (timer reset,
    /// so a full period runs from here); anything else is left as it is.
    pub fn try_set_firing_state(&mut self, firing: bool)
        ensures
            *final(self) == old(self).with_firing(firing),
    {
        if firing && self.state == BulletControllerState::Idle {
            self.state = BulletControllerState::Firing;
            self.fire_count = 0;
            self.timer.reset();
        } else if !firing && self.state == BulletControllerState::Firing {
            self.state = BulletControllerState::Cooldown;
            self.timer.reset();
        }
    }

    /// Advances the fire control by `delta` milliseconds. While Firing it
    /// fires on the first tick of the burst and whenever a period completes;
    /// Cooldown returns to Idle once a full period has passed.
    pub fn update(&mut self, delta: u64) -> (r: BulletFireResult)
        requires
            old(self).wf(),
        ensures
            final(self).wf(),
            (*final(self), r) == old(self).stepped(delta),
    {
        self.timer.tick(delta);
        match self.state {
            BulletControllerState::Idle => BulletFireResult::Hold,
            BulletControllerState::Firing => {
                if self.fire_count == 0 || self.timer.just_finished() {
                    if self.fire_count < u64::MAX {
                        self.fire_count = self.fire_count + 1;
                    }
                    BulletFireResult::FireBullet
                } else {
                    BulletFireResult::Hold
                }
            },
            BulletControllerState::Cooldown => {
                if self.timer.just_finished() {
                    self.state = BulletControllerState::Idle;
                }
                BulletFireResult::Hold
            },
        }
    }

    pub fn state(&self) -> (r: BulletControllerState)
        ensures
            r == self.state,
    {
        self.state
    }
}

/// Runs a sequence of ticks, each one an intent followed by an update of
/// the given milliseconds; gives the final controller and how many shots
/// were fired.
pub open spec fn run_fire_control(c: BulletController, steps: Seq<(bool, u64)>) -> (
    BulletController,
    nat,
)
    decreases steps.len(),
{
    if steps.len() == 0 {
        (c, 0)
    } else {
        let (c1, fired) = c.with_firing(steps[0].0).stepped(steps[0].1);
        let (c2, n) = run_fire_control(c1, steps.subrange(1, steps.len() as int));
        (c2, if fired == BulletFireResult::FireBullet {
            n + 1
        } else {
            n
        })
    }
}

pub open spec fn total_delta(steps: Seq<(bool, u64)>) -> int
    decreases steps.len(),
{
    if steps.len() == 0 {
        0
    } else {
        steps[0].1 + total_delta(steps.subrange(1, steps.len() as int))
    }
}

/// From Idle, asking to fire and then updating fires on that very first
/// update, whatever the timer held and however little time passed.
pub proof fn lemma_first_update_fires(c: BulletController, delta: u64)
    requires
        c.wf(),
        c.state == BulletControllerState::Idle,
    ensures
        c.with_firing(true).stepped(delta).1 == BulletFireResult::FireBullet,
        c.with_firing(true).stepped(delta).0.fire_count == 1,
{
}

/// Once a burst ends (Firing with the intent released), no shot is fired,
/// whatever the intents, until a full period has passed since that moment;
/// the controller stays in Cooldown until then.
pub proof fn lemma_cooldown_from_entry(c: BulletController, steps: Seq<(bool, u64)>)
    requires
        c.wf(),
        c.state == BulletControllerState::Firing,
        total_delta(steps) < c.timer.duration,
    ensures
        run_fire_control(c.with_firing(false), steps).1 == 0,
        run_fire_control(c.with_firing(false), steps).0.state == BulletControllerState::Cooldown,
{
    lemma_cooldown_holds_fire(c.with_firing(false), steps);
}

/// In Cooldown no shot is fired, whatever the intents, while the cooldown
/// timer has not completed its period; the controller stays in Cooldown
/// until then.
pub proof fn lemma_cooldown_holds_fire(c: BulletController, steps: Seq<(bool, u64)>)
    requires
        c.wf(),
        c.state == BulletControllerState::Cooldown,
        c.timer.elapsed + total_delta(steps) < c.timer.duration,
    ensures
        run_fire_control(c, steps).1 == 0,
        run_fire_control(c, steps).0.state == BulletControllerState::Cooldown,
    decreases steps.len(),
{
    if steps.len() > 0 {
        let rest = steps.subrange(1, steps.len() as int);
        let c1 = c.with_firing(steps[0].0).stepped(steps[0].1).0;
        lemma_total_delta_nonneg(rest);
        assert(c1.timer.elapsed == c.timer.elapsed + steps[0].1);
        lemma_cooldown_holds_fire(c1, rest);
    }
}

proof fn lemma_total_delta_nonneg(steps: Seq<(bool, u64)>)
    ensures
        total_delta(steps) >= 0,
    decreases steps.len(),
{
    if steps.len() > 0 {
        lemma_total_delta_nonneg(steps.subrange(1, steps.len() as int));
    }
}

} // verus!
