//! Integration stage: reduce each entity's pending commands to one net
//! direction and apply it to the entity's position as a single step.

use vstd::prelude::*;

use crate::command::{delta_x, delta_y, Command};
use crate::entity::{Entity, Step};

verus! {

/// The net x component of a command sequence: the sum of the commands' unit
/// directions. The reduction is a commutative vector sum, so the order of
/// the commands never affects it.
pub open spec fn net_x(cmds: Seq<Command>) -> int
    decreases cmds.len(),
{
    if cmds.len() == 0 {
        0
    } else {
        net_x(cmds.drop_last()) + delta_x(cmds.last())
    }
}

/// The net y component of a command sequence.
pub open spec fn net_y(cmds: Seq<Command>) -> int
    decreases cmds.len(),
{
    if cmds.len() == 0 {
        0
    } else {
        net_y(cmds.drop_last()) + delta_y(cmds.last())
    }
}

/// How integration changes one entity: the pending list is drained, the
/// player is untouched, and the position gains exactly one step in the net
/// direction of the drained commands — unless that direction is zero
/// (no commands, or opposing commands canceling), in which case the
/// position is left unchanged for this tick.
pub open spec fn integrates(e0: Entity, e1: Entity) -> bool {
    &&& e1.player == e0.player
    &&& e1.pending@.len() == 0
    &&& if net_x(e0.pending@) == 0 && net_y(e0.pending@) == 0 {
        e1.position@ == e0.position@
    } else {
        e1.position@ == e0.position@.push(
            Step { dx: net_x(e0.pending@) as i128, dy: net_y(e0.pending@) as i128 },
        )
    }
}

/// Drain one entity's pending list into a net direction and apply it.
fn integrate_entity(e: &mut Entity)
    ensures
        integrates(*old(e), *final(e)),
{
    let ghost cmds = e.pending@;
    let n = e.pending.len();
    let mut nx: i128 = 0;
    let mut ny: i128 = 0;
    let mut j: usize = 0;
    while j < n
        invariant
            j <= n,
            e == old(e),
            n == cmds.len(),
            cmds == e.pending@,
            nx as int == net_x(cmds.take(j as int)),
            ny as int == net_y(cmds.take(j as int)),
            -(j as int) <= nx as int <= j as int,
            -(j as int) <= ny as int <= j as int,
        decreases n - j,
    {
        match e.pending[j] {
            Command::Left => {
                nx = nx - 1;
            }
            Command::Right => {
                nx = nx + 1;
            }
            Command::Up => {
                ny = ny + 1;
            }
            Command::Down => {
                ny = ny - 1;
            }
        }
        proof {
            assert(cmds.take(j as int + 1).drop_last() =~= cmds.take(j as int));
            assert(cmds.take(j as int + 1).last() == cmds[j as int]);
        }
        j = j + 1;
    }
    proof {
        assert(cmds.take(n as int) =~= cmds);
    }
    e.pending.clear();
    if nx != 0 || ny != 0 {
        e.position.steps.push(Step { dx: nx, dy: ny });
    }
}

/// Integration stage entry point: for every entity, drain its pending
/// command list and move it by at most one step. Opposing simultaneous
/// inputs cancel rather than picking a winner, and a diagonal step covers
/// the same distance as an axis-aligned one, since a step denotes its
/// direction normalized and scaled by the move speed.
pub fn movement_system(entities: &mut Vec<Entity>)
    ensures
        final(entities)@.len() == old(entities)@.len(),
        forall|i: int|
            0 <= i < old(entities)@.len() ==> integrates(
                #[trigger] old(entities)@[i],
                final(entities)@[i],
            ),
{
    let n = entities.len();
    let mut i: usize = 0;
    while i < n
        invariant
            i <= n,
            n == entities@.len(),
            entities@.len() == old(entities)@.len(),
            forall|k: int|
                0 <= k < i ==> integrates(#[trigger] old(entities)@[k], entities@[k]),
            forall|k: int| i <= k < n ==> entities@[k] == old(entities)@[k],
        decreases n - i,
    {
        integrate_entity(&mut entities[i]);
        i = i + 1;
    }
}

} // verus!
