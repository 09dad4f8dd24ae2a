use vstd::prelude::*;
use crate::geom::{Vec2, len_sq};
use crate::movable::{
    AcceleratingTo, Acceleration, Movable, HEADING_STEP, unit_spec, rescaled,
    scale_to_length, dot_exec,
};

verus! {

/// Turn rate change per second while turning (effectively instant).
pub const ROCKET_RATE_OF_TURN: i64 = 10_419_948;
pub const ROCKET_RATE_OF_TURN_DRAG: i64 = 10_419_948;
/// Thrust, per unit of the heading vector (whose length is about 1000).
pub const ROCKET_RATE_OF_ACCELERATION: i64 = 300;
pub const ROCKET_RATE_OF_ACCELERATION_DRAG: i64 = 50_000;
pub const ROCKET_MAX_SPEED: u64 = 200_000;
/// Above this speed a coasting ship slows down.
pub const ROCKET_MAX_DRAG_SPEED: i64 = 20_000;
/// One full turn per second.
pub const ROCKET_MAX_ROTATION_SPEED: u64 = 65536;

/// The player's steering intents, as read from the input each tick.
#[derive(Clone, Copy, Debug, PartialEq, Eq, Structural, Default)]
pub struct PlayerRocket {
    pub turning_left: bool,
    pub turning_right: bool,
    pub accelerating: bool,
}

/// Rotational acceleration for the intents: turning one way accelerates up
/// to the maximum spin; otherwise a spinning ship is braked to zero.
pub open spec fn rotation_control(rocket: PlayerRocket, spin: i64) -> Option<Acceleration<i64>> {
    if rocket.turning_left && !rocket.turning_right {
        Some(
            Acceleration {
                value: ROCKET_RATE_OF_TURN,
                limit: AcceleratingTo::Max(ROCKET_MAX_ROTATION_SPEED),
            },
        )
    } else if !rocket.turning_left && rocket.turning_right {
        Some(
            Acceleration {
                value: (-ROCKET_RATE_OF_TURN) as i64,
                limit: AcceleratingTo::Max(ROCKET_MAX_ROTATION_SPEED),
            },
        )
    } else if spin > 0 {
        Some(Acceleration { value: (-ROCKET_RATE_OF_TURN_DRAG) as i64, limit: AcceleratingTo::Zero })
    } else if spin < 0 {
        Some(Acceleration { value: ROCKET_RATE_OF_TURN_DRAG, limit: AcceleratingTo::Zero })
    } else {
        None
    }
}

/// Acceleration for the intents: thrust along the heading up to the
/// maximum speed; otherwise, above the drag speed, a braking acceleration
/// against the velocity down to zero.
pub open spec fn thrust_control(rocket: PlayerRocket, m: Movable) -> Option<Acceleration<Vec2>> {
    if rocket.accelerating {
        let h = unit_spec((m.heading_angle / HEADING_STEP) as int);
        Some(
            Acceleration {
                value: Vec2 {
                    x: (h.x * ROCKET_RATE_OF_ACCELERATION) as i64,
                    y: (h.y * ROCKET_RATE_OF_ACCELERATION) as i64,
                },
                limit: AcceleratingTo::Max(ROCKET_MAX_SPEED),
            },
        )
    } else if len_sq(m.velocity) > ROCKET_MAX_DRAG_SPEED * ROCKET_MAX_DRAG_SPEED {
        let d = rescaled(m.velocity, ROCKET_RATE_OF_ACCELERATION_DRAG as int);
        Some(
            Acceleration {
                value: Vec2 { x: (-d.x) as i64, y: (-d.y) as i64 },
                limit: AcceleratingTo::Zero,
            },
        )
    } else {
        None
    }
}

/// Sets the ship's accelerations from the player's intents.
pub fn player_update_movable(rocket: &PlayerRocket, movable: &mut Movable)
    requires
        old(movable).wf(),
    ensures
        final(movable).wf(),
        *final(movable) == (Movable {
            rotational_acceleration: rotation_control(*rocket, old(movable).rotational_velocity),
            acceleration: thrust_control(*rocket, *old(movable)),
            ..*old(movable)
        }),
{
    movable.rotational_acceleration = if rocket.turning_left && !rocket.turning_right {
        Some(
            Acceleration::new(ROCKET_RATE_OF_TURN).with_limit(
                AcceleratingTo::Max(ROCKET_MAX_ROTATION_SPEED),
            ),
        )
    } else if !rocket.turning_left && rocket.turning_right {
        Some(
            Acceleration::new(-ROCKET_RATE_OF_TURN).with_limit(
                AcceleratingTo::Max(ROCKET_MAX_ROTATION_SPEED),
            ),
        )
    } else if movable.rotational_velocity > 0 {
        Some(Acceleration::new(-ROCKET_RATE_OF_TURN_DRAG).with_limit(AcceleratingTo::Zero))
    } else if movable.rotational_velocity < 0 {
        Some(Acceleration::new(ROCKET_RATE_OF_TURN_DRAG).with_limit(AcceleratingTo::Zero))
    } else {
        None
    };
    movable.acceleration = if rocket.accelerating {
        let h = movable.heading_normal();
        let value = Vec2 {
            x: h.x * ROCKET_RATE_OF_ACCELERATION,
            y: h.y * ROCKET_RATE_OF_ACCELERATION,
        };
        Some(Acceleration::new(value).with_limit(AcceleratingTo::Max(ROCKET_MAX_SPEED)))
    } else {
        let v = movable.velocity;
        let s = dot_exec(v, v);
        if s > (ROCKET_MAX_DRAG_SPEED as i128) * (ROCKET_MAX_DRAG_SPEED as i128) {
            let d = scale_to_length(v, ROCKET_RATE_OF_ACCELERATION_DRAG);
            Some(
                Acceleration::new(Vec2 { x: -d.x, y: -d.y }).with_limit(AcceleratingTo::Zero),
            )
        } else {
            None
        }
    };
}

} // verus!
