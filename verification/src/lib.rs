//! Core of a falling-petals visual simulation: the per-tick motion model for a
//! collection of sprite entities, the back-to-front depth ordering required for
//! alpha compositing, a periodic mixture-of-sinusoids motion field, an upright
//! perspective camera, and the bounded-channel state machine that streams
//! rendered frames to an external encoder.
//!
//! All scalar quantities are fixed-point integers: spatial lengths are plain
//! integer units whose physical meaning the caller chooses, angles are
//! measured in units of [`trig::TURN`] per full revolution, fractions are
//! 16.16 fixed point ([`config::FP_ONE`]), and quaternion components are
//! scaled by [`quat::QUAT_ONE`].

pub mod camera;
pub mod config;
pub mod encoder;
pub mod entity;
pub mod fixed;
pub mod input;
pub mod motion;
pub mod pack;
pub mod quat;
pub mod random;
pub mod state;
pub mod trig;
