//! A verified core for a flashing-background animation: a fixed-timestep
//! state machine that cycles a discrete color base, accumulates a continuous
//! hue drift, and periodically overrides the frame with a white flash.

pub mod color;
pub mod events;
pub mod parse;
pub mod state;
