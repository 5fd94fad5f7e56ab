//! Player input: arrow keys propose a step, the trigger key fires an action.

use vstd::prelude::*;
use crate::components::{ActionFired, GridCoords, NewGridCoords, Role, ACTION_DURATION_MS};
use crate::world::{EntityRecord, Event, Key, World};

verus! {

/// The cell an arrow key leads to from `c`, if it lies inside `[0, cols) x [0, rows)`
/// along the axis moved; `None` for any other key or a step off the grid.
pub open spec fn player_step(c: GridCoords, k: Key, cols: u64, rows: u64) -> Option<NewGridCoords> {
    match k {
        Key::Right => if c.x + 1 < cols {
            Some(NewGridCoords { x: (c.x + 1) as u64, y: c.y })
        } else {
            None
        },
        Key::Left => if c.x > 0 {
            Some(NewGridCoords { x: (c.x - 1) as u64, y: c.y })
        } else {
            None
        },
        Key::Down => if c.y + 1 < rows {
            Some(NewGridCoords { x: c.x, y: (c.y + 1) as u64 })
        } else {
            None
        },
        Key::Up => if c.y > 0 {
            Some(NewGridCoords { x: c.x, y: (c.y - 1) as u64 })
        } else {
            None
        },
        _ => None,
    }
}

/// What a key press does to one entity: a player with coordinates gets the
/// step's proposal (if there is one) and, on the trigger key, a fresh fired action.
pub open spec fn input_applied(o: EntityRecord, event: Option<Event>, now: u64, cols: u64, rows: u64) -> EntityRecord {
    match event {
        Some(Event::Press(k)) => if o.role == Role::Player && o.coords.is_some() {
            EntityRecord {
                new_coords: match player_step(o.coords.unwrap(), k, cols, rows) {
                    Some(n) => Some(n),
                    None => o.new_coords,
                },
                action: if k == Key::D {
                    Some(ActionFired { duration: ACTION_DURATION_MS, created: now, handled: false })
                } else {
                    o.action
                },
                ..o
            }
        } else {
            o
        },
        _ => o,
    }
}

/// The input system.
pub struct InputSys;

impl InputSys {
    /// The proposal an arrow key makes from `c`, bounded by the grid.
    pub fn add_location_update(c: &GridCoords, k: Key, cols: u64, rows: u64) -> (r: Option<NewGridCoords>)
        ensures
            r == player_step(*c, k, cols, rows),
    {
        match k {
            Key::Right => if c.x < cols && c.x + 1 < cols {
                Some(NewGridCoords { x: c.x + 1, y: c.y })
            } else {
                None
            },
            Key::Left => if c.x > 0 {
                Some(NewGridCoords { x: c.x - 1, y: c.y })
            } else {
                None
            },
            Key::Down => if c.y < rows && c.y + 1 < rows {
                Some(NewGridCoords { x: c.x, y: c.y + 1 })
            } else {
                None
            },
            Key::Up => if c.y > 0 {
                Some(NewGridCoords { x: c.x, y: c.y - 1 })
            } else {
                None
            },
            _ => None,
        }
    }

    /// Applies the stored key press, if any, to every player entity.
    pub fn run(&self, world: &mut World, now: u64)
        requires
            old(world).wf(),
        ensures
            final(world).entities.len() == old(world).entities.len(),
            forall|i: int|
                0 <= i < final(world).entities.len() ==> #[trigger] final(world).entities@[i] == input_applied(
                    old(world).entities@[i],
                    old(world).input.0,
                    now,
                    old(world).grid.columns(),
                    old(world).grid.rows(),
                ),
            final(world).grid == old(world).grid,
            final(world).input == old(world).input,
            final(world).game_info == old(world).game_info,
    {
        let key = match world.input.0 {
            Some(Event::Press(k)) => k,
            _ => {
                assert forall|i: int| 0 <= i < world.entities.len() implies world.entities@[i]
                    == input_applied(#[trigger] old(world).entities@[i], old(world).input.0, now,
                    old(world).grid.columns(), old(world).grid.rows()) by {}
                return;
            },
        };
        let cols = world.grid.grid_columns();
        let rows = world.grid.grid_rows();
        let n = world.entities.len();
        let mut i: usize = 0;
        while i < n
            invariant
                n == world.entities.len(),
                n == old(world).entities.len(),
                i <= n,
                cols == old(world).grid.columns(),
                rows == old(world).grid.rows(),
                old(world).input.0 == Some(Event::Press(key)),
                world.grid == old(world).grid,
                world.input == old(world).input,
                world.game_info == old(world).game_info,
                forall|j: int|
                    0 <= j < i ==> world.entities@[j] == input_applied(
                        #[trigger] old(world).entities@[j],
                        old(world).input.0,
                        now,
                        cols,
                        rows,
                    ),
                forall|j: int| i <= j < n ==> #[trigger] world.entities@[j] == old(world).entities@[j],
            decreases n - i,
        {
            let rec = world.entities[i];
            if rec.role == Role::Player {
                if let Some(c) = rec.coords {
                    let step = Self::add_location_update(&c, key, cols, rows);
                    let new_coords = match step {
                        Some(s) => Some(s),
                        None => rec.new_coords,
                    };
                    let action = if key == Key::D {
                        Some(ActionFired::new(ACTION_DURATION_MS, now))
                    } else {
                        rec.action
                    };
                    world.entities.set(i, EntityRecord { new_coords, action, ..rec });
                }
            }
            i += 1;
        }
    }
}

} // verus!
