//! Gameplay rules for a two-player paddle-and-ball game.
//!
//! The rendering, windowing, input-polling, audio and physics engines are
//! external collaborators: they deliver collision-start events, resize
//! notifications and held-key states, and consume score counters and sound-cue
//! requests. This crate holds the deterministic rules layered on top of those
//! services: speed alignment, collision-driven scoring, sound-cue
//! classification, window-relative layout rescaling and input-to-velocity
//! mapping, each with a verified contract.
//!
//! Positions and collider extents are exact fractions ([`frac::Frac`]), so the
//! proportional rescale on window resize is exact. A velocity is a direction
//! vector with an explicit magnitude ([`component::Velocity`]); turning that
//! into unit-vector components needs a square root and is left to the engine
//! boundary, which keeps the speed-lock invariant exact here.

pub mod audio;
pub mod ball;
pub mod component;
pub mod field;
pub mod frac;
pub mod game;
pub mod physics;
pub mod player;
