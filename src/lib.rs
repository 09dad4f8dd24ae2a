//! Simulation core of a 2D space shooter: motion on a toroidal world,
//! collision detection and hit resolution, the asteroid, bullet, ship and
//! alien lifecycles, and the game manager that schedules spawns. Positions,
//! velocities and times are integers (thousandths of a world unit,
//! milliseconds), so every stage is exact.

pub mod geom;
pub mod timer;
pub mod hit;
pub mod movable;
pub mod collidable;
mod random;
pub mod bullet;
pub mod asteroid;
pub mod explosion;
pub mod player;
pub mod manager;
pub mod world;
