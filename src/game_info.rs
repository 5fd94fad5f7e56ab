//! The summary handed to the renderer: the health of every blob.

use vstd::prelude::*;
use crate::components::Role;
use crate::world::{EntityRecord, World};

verus! {

/// Health of the blobs among the first `n` entities of `s`, in entity order.
pub open spec fn blob_healths(s: Seq<EntityRecord>, n: int) -> Seq<u8>
    decreases n,
{
    if n <= 0 {
        Seq::empty()
    } else if s[n - 1].role == Role::Blob && s[n - 1].health.is_some() {
        blob_healths(s, n - 1).push(s[n - 1].health.unwrap().0)
    } else {
        blob_healths(s, n - 1)
    }
}

/// The summary system.
pub struct GameInfoSys;

impl GameInfoSys {
    pub fn run(&self, world: &mut World)
        ensures
            final(world).game_info.blobs_health@ == blob_healths(
                old(world).entities@,
                old(world).entities@.len() as int,
            ),
            final(world).entities == old(world).entities,
            final(world).grid == old(world).grid,
            final(world).input == old(world).input,
    {
        let mut healths: Vec<u8> = Vec::new();
        let n = world.entities.len();
        let mut i: usize = 0;
        while i < n
            invariant
                n == world.entities.len(),
                i <= n,
                healths@ == blob_healths(world.entities@, i as int),
            decreases n - i,
        {
            let r = world.entities[i];
            if r.role == Role::Blob {
                if let Some(h) = r.health {
                    healths.push(h.0);
                }
            }
            i += 1;
        }
        world.game_info.blobs_health = healths;
    }
}

} // verus!
