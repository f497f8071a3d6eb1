//! Simulation core of a single-screen arcade game: a player-controlled
//! square dodges bouncing, homing projectiles on a fixed 160x160 playfield.
//! The library covers clamped box movement, overlap detection, projectile
//! physics, the seeded spawner, and the session state machine with score
//! and high-score tracking. Rendering, input polling and the persisted
//! byte stay with the host.

pub mod basics;
pub mod game;
pub mod projectile;
pub mod rng;
