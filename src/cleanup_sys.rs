//! Expiry: the input slot is emptied and outlived locks and actions removed.

use vstd::prelude::*;
use crate::world::{EntityRecord, InputEvent, World};

verus! {

/// `o` without its fired action and its cooldown where they have outlived
/// their duration at `now`; handled or not makes no difference.
pub open spec fn cleaned(o: EntityRecord, now: u64) -> EntityRecord {
    EntityRecord {
        action: if o.action.is_some() && o.action.unwrap().expired_at(now) {
            None
        } else {
            o.action
        },
        lock: if o.lock.is_some() && o.lock.unwrap().expired_at(now) {
            None
        } else {
            o.lock
        },
        ..o
    }
}

/// Nothing on `o` has expired at `now`.
pub open spec fn nothing_expired(o: EntityRecord, now: u64) -> bool {
    &&& (o.action.is_some() ==> !o.action.unwrap().expired_at(now))
    &&& (o.lock.is_some() ==> !o.lock.unwrap().expired_at(now))
}

/// Cleaning twice at the same time removes nothing the first pass left, and
/// cleaning an entity on which nothing has expired changes nothing.
pub proof fn lemma_cleanup_idempotent(o: EntityRecord, now: u64)
    ensures
        cleaned(cleaned(o, now), now) == cleaned(o, now),
        nothing_expired(cleaned(o, now), now),
        nothing_expired(o, now) ==> cleaned(o, now) == o,
{
}

/// The cleanup system.
pub struct CleanupSys;

impl CleanupSys {
    pub fn run(&self, world: &mut World, now: u64)
        ensures
            final(world).entities.len() == old(world).entities.len(),
            forall|i: int|
                0 <= i < final(world).entities.len() ==> #[trigger] final(world).entities@[i] == cleaned(
                    old(world).entities@[i],
                    now,
                ),
            final(world).input == InputEvent(None),
            final(world).grid == old(world).grid,
            final(world).game_info == old(world).game_info,
    {
        world.input = InputEvent(None);
        let n = world.entities.len();
        let mut i: usize = 0;
        while i < n
            invariant
                n == world.entities.len(),
                n == old(world).entities.len(),
                i <= n,
                world.grid == old(world).grid,
                world.input == InputEvent(None),
                world.game_info == old(world).game_info,
                forall|j: int| 0 <= j < i ==> world.entities@[j] == cleaned(#[trigger] old(world).entities@[j], now),
                forall|j: int| i <= j < n ==> #[trigger] world.entities@[j] == old(world).entities@[j],
            decreases n - i,
        {
            let rec = world.entities[i];
            let action = match rec.action {
                Some(a) => if a.is_expired(now) {
                    None
                } else {
                    Some(a)
                },
                None => None,
            };
            let lock = match rec.lock {
                Some(l) => if l.is_expired(now) {
                    None
                } else {
                    Some(l)
                },
                None => None,
            };
            world.entities.set(i, EntityRecord { action, lock, ..rec });
            i += 1;
        }
    }
}

} // verus!
