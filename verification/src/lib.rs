//! Game rules of a small tower-defense scene: countdown timers that drive
//! spawning, shooting and despawning, target health, the choice of the
//! closest target, camera key bindings and gamepad bookkeeping.
//!
//! Everything that touches the engine's world (entities, transforms,
//! rendering, input devices) lives outside this crate; the functions here
//! take and return plain values.

pub mod timer;
pub mod common;
pub mod bullet;
pub mod target;
pub mod tower;
pub mod camera;
pub mod gamepad;
