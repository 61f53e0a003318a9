//! Input-to-movement pipeline of a small multiplayer-capable game core.
//!
//! Raw held-key snapshots become per-player move commands, each command is
//! routed to the entity owned by the issuing player, and every entity's
//! commands are reduced to a single net direction that is applied to its
//! position, once per fixed simulation tick.
//!
//! Positions are kept exactly, as the ordered list of movement steps an
//! entity has taken: a step records the net direction vector of one tick and
//! denotes a displacement of that vector normalized to unit length and scaled
//! by the configured move speed. The host converts steps to floating-point
//! coordinates for rendering; the core itself never needs inexact arithmetic.

pub mod capture;
pub mod command;
pub mod entity;
pub mod laws;
pub mod motion;
pub mod router;
pub mod tick;
