//! Core of a browser-hosted 2D sprite-animation game loop.
//!
//! The library covers the parts of the game that are pure computation and
//! proves them correct: the fixed-timestep accumulator that bridges
//! variable-rate frame callbacks to a constant-rate simulation, the
//! character animation state machine, the keyboard aggregator that turns
//! key-down/key-up occurrences into a held-key set, and the sprite-atlas
//! lookup table.  The host shell (canvas, asset loading, frame scheduling)
//! drives these entry points and stays outside the library.

pub mod engine;
pub mod game;
