//! The run controller of an endless-runner arcade game.
//!
//! A player body falls under gravity, rises on a jump, and has to pass a
//! procession of obstacles that scroll towards it. This crate holds the
//! rules of such a run: the three-state run controller, the speed ramp, the
//! recycling of a fixed pool of obstacles, and the scoring. Physics, input,
//! rendering and storage are collaborators: they hand in plain values each
//! frame and take plain values back.
//!
//! All lengths are integers in a fixed-point length unit of the caller's
//! choice, time is counted in ticks, which the frame clock cuts out of the
//! time between frames, and a speed is a length per tick.

pub mod clock;
pub mod gameplay;
pub mod laws;
pub mod player;
pub mod rng;
pub mod scene;
pub mod score;
pub mod scoring;
pub mod speed;
pub mod state;
