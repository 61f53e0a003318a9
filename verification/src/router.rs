//! Routing stage: drain the shared queue and hand each owned command to the
//! entity whose player issued it.

use vstd::prelude::*;

use crate::command::{Command, OwnedCommand};
use crate::entity::Entity;

verus! {

/// The commands that routing appends to the pending list of the entity whose
/// player has the given identifier: the commands of exactly the queue
/// entries with a matching owner, in arrival order. Entries with any other
/// owner contribute nothing to this entity.
pub open spec fn routed(queue: Seq<OwnedCommand>, id: u8) -> Seq<Command>
    decreases queue.len(),
{
    if queue.len() == 0 {
        Seq::empty()
    } else {
        let rest = routed(queue.drop_last(), id);
        if queue.last().owner_id == id {
            rest.push(queue.last().command)
        } else {
            rest
        }
    }
}

/// How routing changes one entity: player and position untouched, and the
/// matching queue entries appended to its pending list in arrival order.
pub open spec fn routes_into(e0: Entity, e1: Entity, queue: Seq<OwnedCommand>) -> bool {
    &&& e1.player == e0.player
    &&& e1.position == e0.position
    &&& e1.pending@ == e0.pending@ + routed(queue, e0.player.id)
}

/// Append to one entity every queued command whose owner matches its player.
fn route_to_entity(queue: &Vec<OwnedCommand>, e: &mut Entity)
    ensures
        routes_into(*old(e), *final(e), queue@),
{
    let mut j: usize = 0;
    while j < queue.len()
        invariant
            j <= queue@.len(),
            e.player == old(e).player,
            e.position == old(e).position,
            e.pending@ == old(e).pending@ + routed(queue@.take(j as int), old(e).player.id),
        decreases queue@.len() - j,
    {
        let oc = queue[j];
        if oc.owner_id == e.player.id {
            e.pending.push(oc.command);
        }
        proof {
            assert(queue@.take(j as int + 1).drop_last() =~= queue@.take(j as int));
            assert(queue@.take(j as int + 1).last() == queue@[j as int]);
            assert(e.pending@ =~= old(e).pending@ + routed(
                queue@.take(j as int + 1),
                old(e).player.id,
            ));
        }
        j = j + 1;
    }
    proof {
        assert(queue@.take(queue@.len() as int) =~= queue@);
    }
}

/// Routing stage entry point: test every queued command against every
/// entity (a full cross-product scan, acceptable for a handful of players)
/// and append each match to that entity's pending list, preserving arrival
/// order. Afterwards the queue is cleared unconditionally: a command whose
/// owner matches no entity is dropped, silently and by design.
pub fn input_system(queue: &mut Vec<OwnedCommand>, entities: &mut Vec<Entity>)
    ensures
        final(queue)@.len() == 0,
        final(entities)@.len() == old(entities)@.len(),
        forall|i: int|
            0 <= i < old(entities)@.len() ==> routes_into(
                #[trigger] old(entities)@[i],
                final(entities)@[i],
                old(queue)@,
            ),
{
    let n = entities.len();
    let mut i: usize = 0;
    while i < n
        invariant
            i <= n,
            n == entities@.len(),
            entities@.len() == old(entities)@.len(),
            queue@ == old(queue)@,
            forall|k: int|
                0 <= k < i ==> routes_into(#[trigger] old(entities)@[k], entities@[k], queue@),
            forall|k: int| i <= k < n ==> entities@[k] == old(entities)@[k],
        decreases n - i,
    {
        route_to_entity(queue, &mut entities[i]);
        i = i + 1;
    }
    queue.clear();
}

} // verus!
