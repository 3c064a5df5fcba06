//! Enemy-wave spawning for a top-down survival game: where a new enemy
//! appears relative to the player, what it is made of, and when waves and
//! difficulty stages come round.

pub mod placement;
pub mod enemies;
pub mod timer;
pub mod spawner;
