//! Component records attached to entities, and the small rules they carry.

use vstd::prelude::*;

verus! {

/// How long a movement cooldown lasts, in milliseconds.
pub const LOCK_DURATION_MS: u64 = 500;

/// How long a fired action stays visible, in milliseconds.
pub const ACTION_DURATION_MS: u64 = 100;

/// Damage dealt to a blob next to the player when the player fires.
pub const HIT_DAMAGE: u8 = 5;

/// Authoritative discrete cell of an entity.
#[derive(Clone, Copy, Debug, PartialEq, Eq, Structural)]
pub struct GridCoords {
    pub x: u64,
    pub y: u64,
}

/// Target cell proposed for an entity during the current tick.
#[derive(Clone, Copy, Debug, PartialEq, Eq, Structural)]
pub struct NewGridCoords {
    pub x: u64,
    pub y: u64,
}

/// Continuous (pixel) position derived from the grid cell.
#[derive(Clone, Copy, Debug, PartialEq, Eq, Structural)]
pub struct Position {
    pub x: u128,
    pub y: u128,
}

/// Remaining vitality; it never drops below zero.
#[derive(Clone, Copy, Debug, PartialEq, Eq, Structural)]
pub struct Health(pub u8);

/// Damage pending for the current tick.
#[derive(Clone, Copy, Debug, PartialEq, Eq, Structural)]
pub struct Damage(pub u8);

/// Terminal marker: the entity's health reached zero.
#[derive(Clone, Copy, Debug, PartialEq, Eq, Structural)]
pub struct Death;

/// Behavioural class of an entity, fixed when it is spawned.
#[derive(Clone, Copy, Debug, PartialEq, Eq, Structural)]
pub enum Role {
    Player,
    AI,
    Blob,
}

/// Visual state of a blob, as seen by the renderer.
#[derive(Clone, Copy, Debug, PartialEq, Eq, Structural)]
pub enum Color {
    /// No player next to it.
    Idle,
    /// A player stands next to it.
    Near,
    /// A player next to it fired this tick.
    Hit,
}

/// Frame a walking sprite shows.
#[derive(Clone, Copy, Debug, PartialEq, Eq, Structural)]
pub enum Facing {
    Vertical,
    Left,
    Right,
}

/// Orientation state of a sprite-carrying entity.
#[derive(Clone, Copy, Debug, PartialEq, Eq, Structural)]
pub struct PlayerSprite {
    pub current_frame: Facing,
}

impl PlayerSprite {
    pub fn update_frame(&mut self, new_frame: Facing)
        ensures
            final(self).current_frame == new_frame,
    {
        self.current_frame = new_frame;
    }
}

/// Whether `elapsed = now - created` exceeds `duration` (all in milliseconds).
/// A clock reading before `created` counts as no time elapsed.
pub open spec fn lifetime_exceeded(created: u64, duration: u64, now: u64) -> bool {
    now - created > duration
}

/// Cooldown that keeps an entity from proposing another move.
#[derive(Clone, Copy, Debug, PartialEq, Eq, Structural)]
pub struct ActionLock {
    pub duration: u64,
    pub created: u64,
}

impl ActionLock {
    pub fn new(duration: u64, now: u64) -> (r: Self)
        ensures
            r == (ActionLock { duration, created: now }),
    {
        ActionLock { duration, created: now }
    }

    pub open spec fn expired_at(&self, now: u64) -> bool {
        lifetime_exceeded(self.created, self.duration, now)
    }

    pub fn is_expired(&self, now: u64) -> (r: bool)
        ensures
            r == self.expired_at(now),
    {
        now > self.created && now - self.created > self.duration
    }
}

/// Time-bounded signal that a player fired an action.
#[derive(Clone, Copy, Debug, PartialEq, Eq, Structural)]
pub struct ActionFired {
    pub duration: u64,
    pub created: u64,
    pub handled: bool,
}

impl ActionFired {
    pub fn new(duration: u64, now: u64) -> (r: Self)
        ensures
            r == (ActionFired { duration, created: now, handled: false }),
    {
        ActionFired { duration, created: now, handled: false }
    }

    pub open spec fn expired_at(&self, now: u64) -> bool {
        lifetime_exceeded(self.created, self.duration, now)
    }

    pub fn is_expired(&self, now: u64) -> (r: bool)
        ensures
            r == self.expired_at(now),
    {
        now > self.created && now - self.created > self.duration
    }

    pub fn is_handled(&self) -> (r: bool)
        ensures
            r == self.handled,
    {
        self.handled
    }

    pub fn mark_as_handled(&mut self)
        ensures
            *final(self) == (ActionFired { handled: true, ..*old(self) }),
    {
        self.handled = true;
    }
}

/// Health left after taking `amount` damage, saturating at zero.
pub open spec fn reduced(h: u8, amount: u8) -> u8 {
    if amount > h {
        0
    } else {
        (h - amount) as u8
    }
}

impl Health {
    pub fn reduce(&mut self, amount: u8)
        ensures
            final(self).0 == reduced(old(self).0, amount),
    {
        if amount > self.0 {
            self.0 = 0;
        } else {
            self.0 = self.0 - amount;
        }
    }
}

/// Chebyshev adjacency, the same cell included.
pub open spec fn adjacent(a: GridCoords, b: GridCoords) -> bool {
    -1 <= a.x - b.x <= 1 && -1 <= a.y - b.y <= 1
}

impl GridCoords {
    pub fn is_next_to(&self, other: &Self) -> (r: bool)
        ensures
            r == adjacent(*self, *other),
    {
        let dx: u64 = if self.x >= other.x { self.x - other.x } else { other.x - self.x };
        let dy: u64 = if self.y >= other.y { self.y - other.y } else { other.y - self.y };
        dx <= 1 && dy <= 1
    }
}

} // verus!
