//! The entity store: one record per entity, each field a component table's
//! entry for it, and the world's shared resources.

use vstd::prelude::*;
use crate::components::{
    ActionFired, ActionLock, Color, Damage, Death, Facing, GridCoords, Health, NewGridCoords,
    PlayerSprite, Position, Role,
};
use crate::grid::GridDimensions;

verus! {

/// Identity of an entity: its index in the store.
pub type Entity = usize;

/// All components of one entity; `None` means the entity lacks that component.
#[derive(Clone, Copy, Debug, PartialEq, Eq)]
pub struct EntityRecord {
    pub role: Role,
    pub coords: Option<GridCoords>,
    pub new_coords: Option<NewGridCoords>,
    pub position: Option<Position>,
    pub health: Option<Health>,
    pub damage: Option<Damage>,
    pub death: Option<Death>,
    pub lock: Option<ActionLock>,
    pub action: Option<ActionFired>,
    pub color: Option<Color>,
    pub sprite: Option<PlayerSprite>,
}

/// Keys the simulation reacts to.
#[derive(Clone, Copy, Debug, PartialEq, Eq, Structural)]
pub enum Key {
    Up,
    Down,
    Left,
    Right,
    /// The trigger key: fires the player's action.
    D,
    Other,
}

/// One abstract event from the event source.
#[derive(Clone, Copy, Debug, PartialEq, Eq, Structural)]
pub enum Event {
    Press(Key),
    Release(Key),
    /// New viewport size in pixels: width, then height.
    Resize(u64, u64),
    Other,
}

/// Single-slot holder of the current tick's event.
#[derive(Clone, Copy, Debug, PartialEq, Eq)]
pub struct InputEvent(pub Option<Event>);

/// Summary read by the renderer after a tick.
#[derive(Debug)]
pub struct GameInfo {
    /// Health of every blob, in entity order.
    pub blobs_health: Vec<u8>,
}

/// The store and its shared resources.
pub struct World {
    pub entities: Vec<EntityRecord>,
    pub grid: GridDimensions,
    pub input: InputEvent,
    pub game_info: GameInfo,
}

impl EntityRecord {
    /// An entity of the given role with no other component.
    pub fn new(role: Role) -> (r: Self)
        ensures
            r == (EntityRecord {
                role,
                coords: None,
                new_coords: None,
                position: None,
                health: None,
                damage: None,
                death: None,
                lock: None,
                action: None,
                color: None,
                sprite: None,
            }),
    {
        EntityRecord {
            role,
            coords: None,
            new_coords: None,
            position: None,
            health: None,
            damage: None,
            death: None,
            lock: None,
            action: None,
            color: None,
            sprite: None,
        }
    }
    pub fn with_coords(self, x: u64, y: u64) -> (r: Self)
        ensures
            r == (EntityRecord { coords: Some(GridCoords { x, y }), ..self }),
    {
        EntityRecord { coords: Some(GridCoords { x, y }), ..self }
    }

    pub fn with_new_coords(self, x: u64, y: u64) -> (r: Self)
        ensures
            r == (EntityRecord { new_coords: Some(NewGridCoords { x, y }), ..self }),
    {
        EntityRecord { new_coords: Some(NewGridCoords { x, y }), ..self }
    }

    pub fn with_position(self, x: u128, y: u128) -> (r: Self)
        ensures
            r == (EntityRecord { position: Some(Position { x, y }), ..self }),
    {
        EntityRecord { position: Some(Position { x, y }), ..self }
    }

    pub fn with_health(self, h: u8) -> (r: Self)
        ensures
            r == (EntityRecord { health: Some(Health(h)), ..self }),
    {
        EntityRecord { health: Some(Health(h)), ..self }
    }

    pub fn with_damage(self, d: u8) -> (r: Self)
        ensures
            r == (EntityRecord { damage: Some(Damage(d)), ..self }),
    {
        EntityRecord { damage: Some(Damage(d)), ..self }
    }

    pub fn with_lock(self, lock: ActionLock) -> (r: Self)
        ensures
            r == (EntityRecord { lock: Some(lock), ..self }),
    {
        EntityRecord { lock: Some(lock), ..self }
    }

    pub fn with_action(self, action: ActionFired) -> (r: Self)
        ensures
            r == (EntityRecord { action: Some(action), ..self }),
    {
        EntityRecord { action: Some(action), ..self }
    }

    pub fn with_color(self, color: Color) -> (r: Self)
        ensures
            r == (EntityRecord { color: Some(color), ..self }),
    {
        EntityRecord { color: Some(color), ..self }
    }

    pub fn with_sprite(self, frame: Facing) -> (r: Self)
        ensures
            r == (EntityRecord { sprite: Some(PlayerSprite { current_frame: frame }), ..self }),
    {
        EntityRecord { sprite: Some(PlayerSprite { current_frame: frame }), ..self }
    }
}

impl World {
    pub open spec fn wf(&self) -> bool {
        self.grid.wf()
    }

    pub fn new(grid: GridDimensions) -> (r: Self)
        ensures
            r.entities@ == Seq::<EntityRecord>::empty(),
            r.grid == grid,
            r.input == InputEvent(None),
            r.game_info.blobs_health@ == Seq::<u8>::empty(),
    {
        World { entities: Vec::new(), grid, input: InputEvent(None), game_info: GameInfo { blobs_health: Vec::new() } }
    }

    /// Adds an entity and returns its identity.
    pub fn create_entity(&mut self, record: EntityRecord) -> (e: Entity)
        requires
            old(self).entities.len() < usize::MAX,
        ensures
            e == old(self).entities.len(),
            final(self).entities@ == old(self).entities@.push(record),
            final(self).grid == old(self).grid,
            final(self).input == old(self).input,
            final(self).game_info == old(self).game_info,
    {
        let e = self.entities.len();
        self.entities.push(record);
        e
    }

    /// Stores the event for the next tick.
    pub fn set_input(&mut self, event: Event)
        ensures
            final(self).input == InputEvent(Some(event)),
            final(self).entities == old(self).entities,
            final(self).grid == old(self).grid,
            final(self).game_info == old(self).game_info,
    {
        self.input = InputEvent(Some(event));
    }
}

} // verus!
