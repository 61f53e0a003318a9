//! Laws of the pipeline, proved once and for all over the spec functions
//! the stage contracts are written in.

use vstd::multiset::Multiset;
use vstd::prelude::*;

use crate::capture::{captured, LOCAL_OWNER_ID};
use crate::command::{command_of_key, delta_x, delta_y, Command, Key, OwnedCommand};
use crate::motion::{net_x, net_y};
use crate::router::routed;
use crate::tick::{held_delta_x, held_delta_y, moves};

verus! {

/// How many of the held keys map to the given command.
pub open spec fn count_cmd(keys: Seq<Key>, c: Command) -> nat
    decreases keys.len(),
{
    if keys.len() == 0 {
        0
    } else {
        count_cmd(keys.drop_last(), c) + if command_of_key(keys.last()) == Some(c) {
            1nat
        } else {
            0nat
        }
    }
}

/// No opposing pair of directions is held: never LEFT together with RIGHT,
/// never UP together with DOWN.
pub open spec fn no_opposing(keys: Seq<Key>) -> bool {
    &&& count_cmd(keys, Command::Left) == 0 || count_cmd(keys, Command::Right) == 0
    &&& count_cmd(keys, Command::Up) == 0 || count_cmd(keys, Command::Down) == 0
}

/// At least one recognized movement key is held.
pub open spec fn has_arrow(keys: Seq<Key>) -> bool {
    count_cmd(keys, Command::Left) + count_cmd(keys, Command::Right) + count_cmd(
        keys,
        Command::Up,
    ) + count_cmd(keys, Command::Down) > 0
}

/// The direction one tick gives the local player's entity is the
/// component-wise sum of the held keys' unit vectors: right minus left
/// along x, up minus down along y.
pub proof fn lemma_local_net_is_key_sum(keys: Seq<Key>)
    ensures
        held_delta_x(keys, LOCAL_OWNER_ID) == count_cmd(keys, Command::Right) - count_cmd(
            keys,
            Command::Left,
        ),
        held_delta_y(keys, LOCAL_OWNER_ID) == count_cmd(keys, Command::Up) - count_cmd(
            keys,
            Command::Down,
        ),
    decreases keys.len(),
{
    if keys.len() > 0 {
        let prefix = keys.drop_last();
        lemma_local_net_is_key_sum(prefix);
        let q = captured(prefix);
        let r = routed(q, LOCAL_OWNER_ID);
        match command_of_key(keys.last()) {
            Some(c) => {
                let oc = OwnedCommand { owner_id: LOCAL_OWNER_ID, command: c };
                assert(captured(keys) == q.push(oc));
                assert(q.push(oc).drop_last() =~= q);
                assert(routed(q.push(oc), LOCAL_OWNER_ID) == r.push(c));
                assert(r.push(c).drop_last() =~= r);
                assert(net_x(r.push(c)) == net_x(r) + delta_x(c));
                assert(net_y(r.push(c)) == net_y(r) + delta_y(c));
            }
            None => {
                assert(captured(keys) == q);
            }
        }
    }
}

/// Law: a tick whose held keys include at least one recognized movement key
/// and no opposing pair moves the local player's entity, and the step it
/// applies points in the component-wise sum of the held keys' unit vectors
/// — so a lone UP key steps straight up, and UP with LEFT steps in the
/// diagonal direction (-1, 1), which a step denotes normalized and scaled
/// by the move speed: diagonal speed equals axis speed.
pub proof fn lemma_tick_moves_by_key_sum(keys: Seq<Key>)
    requires
        no_opposing(keys),
        has_arrow(keys),
    ensures
        moves(keys, LOCAL_OWNER_ID),
        held_delta_x(keys, LOCAL_OWNER_ID) == count_cmd(keys, Command::Right) - count_cmd(
            keys,
            Command::Left,
        ),
        held_delta_y(keys, LOCAL_OWNER_ID) == count_cmd(keys, Command::Up) - count_cmd(
            keys,
            Command::Down,
        ),
{
    lemma_local_net_is_key_sum(keys);
}

/// Law: opposing inputs cancel. A snapshot holding as many LEFT as RIGHT
/// keys and as many UP as DOWN keys — LEFT and RIGHT held together for one
/// tick, say — leaves the local player's position unchanged: no winner is
/// picked, no step is applied.
pub proof fn lemma_opposing_keys_cancel(keys: Seq<Key>)
    requires
        count_cmd(keys, Command::Left) == count_cmd(keys, Command::Right),
        count_cmd(keys, Command::Up) == count_cmd(keys, Command::Down),
    ensures
        !moves(keys, LOCAL_OWNER_ID),
{
    lemma_local_net_is_key_sum(keys);
}

/// Law: a queued command whose owner identifier matches no entity's player
/// reaches no pending list — routing drops it silently, and by the router's
/// contract the queue still ends the tick empty.
pub proof fn lemma_unmatched_owner_dropped(queue: Seq<OwnedCommand>, id: u8)
    requires
        forall|j: int| 0 <= j < queue.len() ==> (#[trigger] queue[j]).owner_id != id,
    ensures
        routed(queue, id).len() == 0,
    decreases queue.len(),
{
    if queue.len() > 0 {
        lemma_unmatched_owner_dropped(queue.drop_last(), id);
    }
}

/// Every command the capture stage emits is owned by the local player.
proof fn lemma_captured_owned_by_local(keys: Seq<Key>)
    ensures
        forall|j: int|
            0 <= j < captured(keys).len() ==> (#[trigger] captured(
                keys,
            )[j]).owner_id == LOCAL_OWNER_ID,
    decreases keys.len(),
{
    if keys.len() > 0 {
        lemma_captured_owned_by_local(keys.drop_last());
    }
}

/// Law: ownership routing. Locally captured input is tagged with the local
/// player's identifier, so a tick moves no entity owned by anyone else.
pub proof fn lemma_capture_targets_local_only(keys: Seq<Key>, id: u8)
    requires
        id != LOCAL_OWNER_ID,
    ensures
        routed(captured(keys), id).len() == 0,
        !moves(keys, id),
{
    lemma_captured_owned_by_local(keys);
    lemma_unmatched_owner_dropped(captured(keys), id);
}

/// With no recognized key held, nothing is captured.
proof fn lemma_no_arrow_captures_nothing(keys: Seq<Key>)
    requires
        !has_arrow(keys),
    ensures
        captured(keys).len() == 0,
    decreases keys.len(),
{
    if keys.len() > 0 {
        let prefix = keys.drop_last();
        assert(count_cmd(prefix, Command::Left) <= count_cmd(keys, Command::Left));
        assert(count_cmd(prefix, Command::Right) <= count_cmd(keys, Command::Right));
        assert(count_cmd(prefix, Command::Up) <= count_cmd(keys, Command::Up));
        assert(count_cmd(prefix, Command::Down) <= count_cmd(keys, Command::Down));
        lemma_no_arrow_captures_nothing(prefix);
        match command_of_key(keys.last()) {
            Some(c) => {
                assert(count_cmd(keys, c) > 0);
            }
            None => {
            }
        }
    }
}

/// How many entries of a command list are the given command.
pub open spec fn count_in(cmds: Seq<Command>, c: Command) -> nat
    decreases cmds.len(),
{
    if cmds.len() == 0 {
        0
    } else {
        count_in(cmds.drop_last(), c) + if cmds.last() == c {
            1nat
        } else {
            0nat
        }
    }
}

/// The net direction of a command list depends only on how often each
/// command occurs in it: right minus left along x, up minus down along y.
pub proof fn lemma_net_is_counts(cmds: Seq<Command>)
    ensures
        net_x(cmds) == count_in(cmds, Command::Right) - count_in(cmds, Command::Left),
        net_y(cmds) == count_in(cmds, Command::Up) - count_in(cmds, Command::Down),
    decreases cmds.len(),
{
    if cmds.len() > 0 {
        lemma_net_is_counts(cmds.drop_last());
    }
}

/// A command list's occurrence counts are its multiset's counts.
proof fn lemma_count_in_is_multiset_count(cmds: Seq<Command>, c: Command)
    ensures
        count_in(cmds, c) == cmds.to_multiset().count(c),
    decreases cmds.len(),
{
    broadcast use vstd::seq_lib::group_to_multiset_ensures;
    broadcast use vstd::multiset::group_multiset_axioms;
    broadcast use vstd::multiset::group_multiset_properties;

    if cmds.len() == 0 {
        vstd::multiset::lemma_multiset_empty_len(cmds.to_multiset());
        assert(Multiset::<Command>::empty().count(c) == 0);
    } else {
        let prefix = cmds.drop_last();
        let last = cmds.last();
        lemma_count_in_is_multiset_count(prefix, c);
        assert(prefix.push(last) =~= cmds);
        assert(prefix.push(last).to_multiset() =~= prefix.to_multiset().insert(last));
        assert(cmds.to_multiset() == prefix.push(last).to_multiset());
    }
}

/// Law: the order in which an entity's pending commands are drained never
/// affects where the entity ends up. The reduction is a commutative vector
/// sum, so two pending lists holding the same commands in any order give
/// the same net direction, and so the same step.
pub proof fn lemma_net_order_independent(a: Seq<Command>, b: Seq<Command>)
    requires
        a.to_multiset() == b.to_multiset(),
    ensures
        net_x(a) == net_x(b),
        net_y(a) == net_y(b),
{
    lemma_net_is_counts(a);
    lemma_net_is_counts(b);
    lemma_count_in_is_multiset_count(a, Command::Left);
    lemma_count_in_is_multiset_count(a, Command::Right);
    lemma_count_in_is_multiset_count(a, Command::Up);
    lemma_count_in_is_multiset_count(a, Command::Down);
    lemma_count_in_is_multiset_count(b, Command::Left);
    lemma_count_in_is_multiset_count(b, Command::Right);
    lemma_count_in_is_multiset_count(b, Command::Up);
    lemma_count_in_is_multiset_count(b, Command::Down);
}

/// Law: a tick with zero recognized held keys moves nothing. The queue
/// receives no command, every pending list stays empty, and every entity's
/// position is unchanged, whatever its player's identifier.
pub proof fn lemma_no_keys_no_motion(keys: Seq<Key>, id: u8)
    requires
        !has_arrow(keys),
    ensures
        captured(keys).len() == 0,
        !moves(keys, id),
{
    lemma_no_arrow_captures_nothing(keys);
    assert(captured(keys) =~= Seq::<OwnedCommand>::empty());
    assert(routed(captured(keys), id).len() == 0);
}

} // verus!
