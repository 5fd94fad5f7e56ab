//! Movement resolution: pending proposals become the authoritative cell.

use vstd::prelude::*;
use crate::components::{GridCoords, Position};
use crate::grid::GridDimensions;
use crate::world::{EntityRecord, World};

verus! {

/// An entity with coordinates and a proposal moves to the proposed cell and
/// its pixel position follows; every proposal is consumed.
pub open spec fn resolved(o: EntityRecord, g: GridDimensions) -> EntityRecord {
    if o.coords.is_some() && o.new_coords.is_some() {
        let n = o.new_coords.unwrap();
        EntityRecord {
            coords: Some(GridCoords { x: n.x, y: n.y }),
            position: Some(Position { x: g.pixel_x(n.x), y: g.pixel_y(n.y) }),
            new_coords: None,
            ..o
        }
    } else {
        EntityRecord { new_coords: None, ..o }
    }
}

/// The movement resolution system.
pub struct UpdatePos;

impl UpdatePos {
    pub fn run(&self, world: &mut World)
        ensures
            final(world).entities.len() == old(world).entities.len(),
            forall|i: int|
                0 <= i < final(world).entities.len() ==> #[trigger] final(world).entities@[i] == resolved(
                    old(world).entities@[i],
                    old(world).grid,
                ),
            forall|i: int|
                0 <= i < final(world).entities.len() ==> (#[trigger] final(world).entities@[i]).new_coords
                    is None,
            final(world).grid == old(world).grid,
            final(world).input == old(world).input,
            final(world).game_info == old(world).game_info,
    {
        let n = world.entities.len();
        let mut i: usize = 0;
        while i < n
            invariant
                n == world.entities.len(),
                n == old(world).entities.len(),
                i <= n,
                world.grid == old(world).grid,
                world.input == old(world).input,
                world.game_info == old(world).game_info,
                forall|j: int|
                    0 <= j < i ==> world.entities@[j] == resolved(#[trigger] old(world).entities@[j], world.grid),
                forall|j: int| i <= j < n ==> #[trigger] world.entities@[j] == old(world).entities@[j],
            decreases n - i,
        {
            let rec = world.entities[i];
            let next = match (rec.coords, rec.new_coords) {
                (Some(_), Some(target)) => {
                    let position = Position {
                        x: world.grid.find_position_for_gridx(target.x),
                        y: world.grid.find_position_for_gridy(target.y),
                    };
                    EntityRecord {
                        coords: Some(GridCoords { x: target.x, y: target.y }),
                        position: Some(position),
                        new_coords: None,
                        ..rec
                    }
                },
                _ => EntityRecord { new_coords: None, ..rec },
            };
            world.entities.set(i, next);
            i += 1;
        }
        assert forall|i: int| 0 <= i < world.entities.len() implies (
        #[trigger] world.entities@[i]).new_coords is None by {
            assert(world.entities@[i] == resolved(old(world).entities@[i], world.grid));
        }
    }
}

} // verus!
