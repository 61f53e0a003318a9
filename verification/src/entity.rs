//! Entity records: the owning player, the per-entity pending command list,
//! and the exact position kept as a list of movement steps.

use vstd::prelude::*;

use crate::command::Command;

verus! {

/// The player that owns a controllable entity. Identifiers are unique per
/// entity; both fields are set once at startup and never change afterwards.
#[derive(Clone, Debug)]
pub struct Player {
    pub id: u8,
    pub name: String,
}

/// One applied movement step: the net direction vector of one tick.
///
/// A step with direction `(dx, dy)` denotes a displacement of that vector
/// normalized to unit length and scaled by the configured move speed, so a
/// diagonal step covers the same distance as an axis-aligned one. The zero
/// vector is never stored: a tick that cancels out applies no step. Each
/// component is bounded by the number of commands drained in the tick, so
/// this width can never overflow.
#[derive(Clone, Copy, Debug, PartialEq, Eq, Structural)]
pub struct Step {
    pub dx: i128,
    pub dy: i128,
}

/// An entity's spatial state: the ordered list of movement steps applied so
/// far, relative to where the entity was spawned. Kept exact so the core
/// needs no inexact arithmetic; the host renders it in floating point.
#[derive(Clone, Debug)]
pub struct Position {
    pub steps: Vec<Step>,
}

impl View for Position {
    type V = Seq<Step>;

    open spec fn view(&self) -> Seq<Step> {
        self.steps@
    }
}

impl Position {
    /// The position of a freshly spawned entity: no steps taken.
    pub fn origin() -> (p: Position)
        ensures
            p@.len() == 0,
    {
        Position { steps: Vec::new() }
    }
}

/// An addressable game object: its player, its tick-scoped pending command
/// list, and its position.
#[derive(Clone, Debug)]
pub struct Entity {
    pub player: Player,
    pub pending: Vec<Command>,
    pub position: Position,
}

impl Entity {
    /// A freshly spawned entity: the given player, an empty pending list,
    /// and a position at its spawn point.
    pub fn new(id: u8, name: String) -> (e: Entity)
        ensures
            e.player.id == id,
            e.player.name == name,
            e.pending@.len() == 0,
            e.position@.len() == 0,
    {
        Entity { player: Player { id, name }, pending: Vec::new(), position: Position::origin() }
    }
}

} // verus!
