//! Core decision logic of a small 2D arcade shooter.
//!
//! The game engine (rendering, windowing, entity storage, input, and the
//! fixed-timestep scheduler) lives outside this crate. This library holds
//! the per-tick decisions the game makes over plain values: when an enemy
//! may spawn, how enemies and lasers move across the screen, which
//! bounding boxes collide, how hits change the counters and the overall
//! game state, and how an explosion animation advances and terminates.
//!
//! Coordinates are whole pixels (`i32`), with the origin at the centre of
//! the window, x growing rightward and y growing upward. The driver that
//! owns the engine converts between its own units and these.

pub mod geom;
pub mod state;
pub mod resolver;
pub mod spawner;
pub mod mover;
pub mod explosion;
