//! Orientation: the sprite frame follows the direction of the pending move.

use vstd::prelude::*;
use crate::components::{Facing, GridCoords, NewGridCoords, PlayerSprite};
use crate::world::{EntityRecord, World};

verus! {

/// Frame after moving from `c` to `n`: right or left on a horizontal change,
/// the vertical frame on any vertical change, otherwise `f` unchanged.
pub open spec fn facing_after(c: GridCoords, n: NewGridCoords, f: Facing) -> Facing {
    if c.y != n.y {
        Facing::Vertical
    } else if c.x < n.x {
        Facing::Right
    } else if c.x > n.x {
        Facing::Left
    } else {
        f
    }
}

pub open spec fn oriented(o: EntityRecord) -> EntityRecord {
    if o.new_coords.is_some() && o.coords.is_some() && o.sprite.is_some() {
        EntityRecord {
            sprite: Some(
                PlayerSprite {
                    current_frame: facing_after(
                        o.coords.unwrap(),
                        o.new_coords.unwrap(),
                        o.sprite.unwrap().current_frame,
                    ),
                },
            ),
            ..o
        }
    } else {
        o
    }
}

/// The orientation system; it must run before the proposals are resolved.
pub struct SpriteMovementSys;

impl SpriteMovementSys {
    pub fn run(&self, world: &mut World)
        ensures
            final(world).entities.len() == old(world).entities.len(),
            forall|i: int|
                0 <= i < final(world).entities.len() ==> #[trigger] final(world).entities@[i] == oriented(
                    old(world).entities@[i],
                ),
            final(world).grid == old(world).grid,
            final(world).input == old(world).input,
            final(world).game_info == old(world).game_info,
    {
        let n = world.entities.len();
        let mut i: usize = 0;
        while i < n
            invariant
                n == world.entities.len(),
                n == old(world).entities.len(),
                i <= n,
                world.grid == old(world).grid,
                world.input == old(world).input,
                world.game_info == old(world).game_info,
                forall|j: int| 0 <= j < i ==> world.entities@[j] == oriented(#[trigger] old(world).entities@[j]),
                forall|j: int| i <= j < n ==> #[trigger] world.entities@[j] == old(world).entities@[j],
            decreases n - i,
        {
            let rec = world.entities[i];
            if let (Some(target), Some(coord), Some(sprite)) = (rec.new_coords, rec.coords, rec.sprite) {
                let mut sprite = sprite;
                if coord.x < target.x {
                    sprite.update_frame(Facing::Right);
                } else if coord.x > target.x {
                    sprite.update_frame(Facing::Left);
                }
                if coord.y != target.y {
                    sprite.update_frame(Facing::Vertical);
                }
                world.entities.set(i, EntityRecord { sprite: Some(sprite), ..rec });
            }
            i += 1;
        }
    }
}

} // verus!
