//! One fixed simulation tick: capture, then route, then integrate, in that
//! strict order, over the whole shared state of the core.

use vstd::prelude::*;

use crate::capture::{captured, keyboard_input_system};
use crate::command::{Key, OwnedCommand};
use crate::entity::{Entity, Step};
use crate::motion::{integrates, movement_system, net_x, net_y};
use crate::router::{input_system, routed, routes_into};

verus! {

/// The whole shared state of the core: the process-wide command queue and
/// the controllable entities. The queue and each entity's pending list are
/// tick-scoped: empty at the start and at the end of every tick.
pub struct World {
    pub queue: Vec<OwnedCommand>,
    pub entities: Vec<Entity>,
}

/// The net x direction one tick with this held-key snapshot gives the
/// entity whose player has this identifier.
pub open spec fn held_delta_x(keys: Seq<Key>, id: u8) -> int {
    net_x(routed(captured(keys), id))
}

/// The net y direction one tick with this held-key snapshot gives the
/// entity whose player has this identifier.
pub open spec fn held_delta_y(keys: Seq<Key>, id: u8) -> int {
    net_y(routed(captured(keys), id))
}

/// Whether one tick with this held-key snapshot moves the entity whose
/// player has this identifier.
pub open spec fn moves(keys: Seq<Key>, id: u8) -> bool {
    held_delta_x(keys, id) != 0 || held_delta_y(keys, id) != 0
}

/// How one full tick with this held-key snapshot changes one entity: its
/// pending list ends empty, its player is untouched, and its position gains
/// exactly one step in the snapshot's net direction for its player — or no
/// step at all when that direction is zero.
pub open spec fn ticked(e0: Entity, e1: Entity, keys: Seq<Key>) -> bool {
    &&& e1.player == e0.player
    &&& e1.pending@.len() == 0
    &&& if moves(keys, e0.player.id) {
        e1.position@ == e0.position@.push(
            Step {
                dx: held_delta_x(keys, e0.player.id) as i128,
                dy: held_delta_y(keys, e0.player.id) as i128,
            },
        )
    } else {
        e1.position@ == e0.position@
    }
}

impl World {
    /// A world with no entities and an empty queue.
    pub fn new() -> (w: World)
        ensures
            w.queue@.len() == 0,
            w.entities@.len() == 0,
    {
        World { queue: Vec::new(), entities: Vec::new() }
    }

    /// Bootstrap support: add one controllable entity. The core itself
    /// never creates or destroys entities; the host does, at startup.
    pub fn spawn(&mut self, e: Entity)
        ensures
            final(self).entities@ == old(self).entities@.push(e),
            final(self).queue@ == old(self).queue@,
    {
        self.entities.push(e);
    }
}

/// One fixed simulation tick: capture, then route, then integrate, each
/// stage consuming the full output of the previous one. Requires the
/// tick-scoped invariant — queue and pending lists empty at tick start —
/// and re-establishes it, so ticks chain indefinitely.
pub fn tick(world: &mut World, held: &Vec<Key>)
    requires
        old(world).queue@.len() == 0,
        forall|i: int|
            0 <= i < old(world).entities@.len() ==> (#[trigger] old(
                world,
            ).entities@[i]).pending@.len() == 0,
    ensures
        final(world).queue@.len() == 0,
        final(world).entities@.len() == old(world).entities@.len(),
        forall|i: int|
            0 <= i < old(world).entities@.len() ==> ticked(
                #[trigger] old(world).entities@[i],
                final(world).entities@[i],
                held@,
            ),
{
    keyboard_input_system(held, &mut world.queue);
    proof {
        assert(world.queue@ =~= captured(held@));
    }
    input_system(&mut world.queue, &mut world.entities);
    let ghost routed_entities = world.entities@;
    movement_system(&mut world.entities);
    proof {
        assert forall|i: int| 0 <= i < old(world).entities@.len() implies ticked(
            old(world).entities@[i],
            world.entities@[i],
            held@,
        ) by {
            let e0 = old(world).entities@[i];
            let em = routed_entities[i];
            assert(routes_into(e0, em, captured(held@)));
            assert(em.pending@ =~= routed(captured(held@), e0.player.id));
            assert(integrates(em, world.entities@[i]));
        }
    }
}

} // verus!
