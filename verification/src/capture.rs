//! Capture stage: turn the host's held-key snapshot into owned commands on
//! the shared queue.

use vstd::prelude::*;

use crate::command::{command_of_key, Command, Key, OwnedCommand};

verus! {

/// The identifier of the local player: the owner attached to every command
/// the capture stage emits in this single-player-capable design.
pub const LOCAL_OWNER_ID: u8 = 0;

/// The owned commands that capture appends for a held-key snapshot, in
/// snapshot order: one command per recognized key, owned by the local
/// player. Unrecognized keys contribute nothing.
pub open spec fn captured(keys: Seq<Key>) -> Seq<OwnedCommand>
    decreases keys.len(),
{
    if keys.len() == 0 {
        Seq::empty()
    } else {
        let rest = captured(keys.drop_last());
        match command_of_key(keys.last()) {
            Some(c) => rest.push(OwnedCommand { owner_id: LOCAL_OWNER_ID, command: c }),
            None => rest,
        }
    }
}

/// Capture stage entry point: for each of the four recognized keys present
/// in the snapshot, append one command owned by the local player to the
/// shared queue, in the order the host reports the keys. Any other key is
/// ignored, silently and by design: there is no error channel here.
pub fn keyboard_input_system(held: &Vec<Key>, queue: &mut Vec<OwnedCommand>)
    ensures
        final(queue)@ == old(queue)@ + captured(held@),
{
    let mut i: usize = 0;
    while i < held.len()
        invariant
            i <= held@.len(),
            queue@ == old(queue)@ + captured(held@.take(i as int)),
        decreases held@.len() - i,
    {
        match held[i] {
            Key::Left => {
                queue.push(OwnedCommand { owner_id: LOCAL_OWNER_ID, command: Command::Left });
            }
            Key::Right => {
                queue.push(OwnedCommand { owner_id: LOCAL_OWNER_ID, command: Command::Right });
            }
            Key::Up => {
                queue.push(OwnedCommand { owner_id: LOCAL_OWNER_ID, command: Command::Up });
            }
            Key::Down => {
                queue.push(OwnedCommand { owner_id: LOCAL_OWNER_ID, command: Command::Down });
            }
            Key::Other(_) => {}
        }
        proof {
            assert(held@.take(i as int + 1).drop_last() =~= held@.take(i as int));
            assert(held@.take(i as int + 1).last() == held@[i as int]);
            assert(queue@ =~= old(queue)@ + captured(held@.take(i as int + 1)));
        }
        i = i + 1;
    }
    proof {
        assert(held@.take(held@.len() as int) =~= held@);
    }
}

} // verus!
