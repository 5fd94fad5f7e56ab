//! Interaction between players and blobs: proximity, hits and action handling.

use vstd::prelude::*;
use crate::components::{adjacent, ActionFired, Color, Damage, GridCoords, Role, HIT_DAMAGE};
use crate::world::{EntityRecord, World};

verus! {

/// `r` is a player whose fired action has not been handled yet.
pub open spec fn unhandled_fire(r: EntityRecord) -> bool {
    r.role == Role::Player && r.action.is_some() && !r.action.unwrap().handled
}

/// Some player of `s` has an unhandled fired action.
pub open spec fn fired(s: Seq<EntityRecord>) -> bool {
    exists|j: int| 0 <= j < s.len() && #[trigger] unhandled_fire(s[j])
}

/// `r` is a player standing next to cell `b`.
pub open spec fn player_adjacent(r: EntityRecord, b: GridCoords) -> bool {
    r.role == Role::Player && r.coords.is_some() && adjacent(r.coords.unwrap(), b)
}

/// Some player of `s` stands next to cell `b`.
pub open spec fn any_adjacent(s: Seq<EntityRecord>, b: GridCoords) -> bool {
    exists|j: int| 0 <= j < s.len() && #[trigger] player_adjacent(s[j], b)
}

/// What one player at `p` makes of a blob at `b`.
pub open spec fn verdict(p: GridCoords, b: GridCoords, fired: bool) -> Color {
    if adjacent(p, b) {
        if fired {
            Color::Hit
        } else {
            Color::Near
        }
    } else {
        Color::Idle
    }
}

/// The verdict of the last player with coordinates among the first `n`
/// entities of `s`, which is the one that stands.
pub open spec fn last_verdict(s: Seq<EntityRecord>, n: int, b: GridCoords, fired: bool) -> Option<Color>
    decreases n,
{
    if n <= 0 {
        None
    } else if s[n - 1].role == Role::Player && s[n - 1].coords.is_some() {
        Some(verdict(s[n - 1].coords.unwrap(), b, fired))
    } else {
        last_verdict(s, n - 1, b, fired)
    }
}

/// Entity `i` after the interaction stage over the store `s`: a blob with
/// coordinates takes the players' verdict and, when a player fired and one
/// stands next to it, a pending damage of `HIT_DAMAGE`; every player's fired
/// action is handled.
pub open spec fn interacted(s: Seq<EntityRecord>, i: int) -> EntityRecord {
    let o = s[i];
    if o.role == Role::Blob && o.coords.is_some() {
        let b = o.coords.unwrap();
        EntityRecord {
            color: match last_verdict(s, s.len() as int, b, fired(s)) {
                Some(c) => Some(c),
                None => o.color,
            },
            damage: if fired(s) && any_adjacent(s, b) {
                Some(Damage(HIT_DAMAGE))
            } else {
                o.damage
            },
            ..o
        }
    } else if o.role == Role::Player && o.action.is_some() {
        EntityRecord { action: Some(ActionFired { handled: true, ..o.action.unwrap() }), ..o }
    } else {
        o
    }
}

/// `a` and `b` hold the same entities at the same cells.
pub open spec fn same_layout(a: Seq<EntityRecord>, b: Seq<EntityRecord>) -> bool {
    &&& a.len() == b.len()
    &&& forall|j: int| 0 <= j < a.len() ==> (#[trigger] a[j]).role == b[j].role && a[j].coords == b[j].coords
}

proof fn lemma_layout_verdict(a: Seq<EntityRecord>, b: Seq<EntityRecord>, n: int, c: GridCoords, f: bool)
    requires
        same_layout(a, b),
        0 <= n <= a.len(),
    ensures
        last_verdict(a, n, c, f) == last_verdict(b, n, c, f),
    decreases n,
{
    if n > 0 {
        assert(a[n - 1].role == b[n - 1].role && a[n - 1].coords == b[n - 1].coords);
        lemma_layout_verdict(a, b, n - 1, c, f);
    }
}

proof fn lemma_layout_adjacent(a: Seq<EntityRecord>, b: Seq<EntityRecord>, c: GridCoords)
    requires
        same_layout(a, b),
    ensures
        any_adjacent(a, c) == any_adjacent(b, c),
{
    if any_adjacent(a, c) {
        let j = choose|j: int| 0 <= j < a.len() && #[trigger] player_adjacent(a[j], c);
        assert(a[j].role == b[j].role && a[j].coords == b[j].coords);
        assert(player_adjacent(b[j], c));
    }
    if any_adjacent(b, c) {
        let j = choose|j: int| 0 <= j < b.len() && #[trigger] player_adjacent(b[j], c);
        assert(a[j].role == b[j].role && a[j].coords == b[j].coords);
        assert(player_adjacent(a[j], c));
    }
}

/// The interaction system.
pub struct BlobInteractionSys;

impl BlobInteractionSys {
    /// Whether some player holds an unhandled fired action.
    pub fn any_fired(entities: &Vec<EntityRecord>) -> (r: bool)
        ensures
            r == fired(entities@),
    {
        let n = entities.len();
        let mut i: usize = 0;
        while i < n
            invariant
                n == entities.len(),
                i <= n,
                forall|j: int| 0 <= j < i ==> !#[trigger] unhandled_fire(entities@[j]),
            decreases n - i,
        {
            let r = entities[i];
            if r.role == Role::Player {
                if let Some(a) = r.action {
                    if !a.is_handled() {
                        assert(unhandled_fire(entities@[i as int]));
                        return true;
                    }
                }
            }
            i += 1;
        }
        false
    }

    /// The standing verdict on a blob at `b`, and whether any player stands next to it.
    pub fn blob_outcome(entities: &Vec<EntityRecord>, b: &GridCoords, fired: bool) -> (r: (Option<Color>, bool))
        ensures
            r.0 == last_verdict(entities@, entities@.len() as int, *b, fired),
            r.1 == any_adjacent(entities@, *b),
    {
        let n = entities.len();
        let mut standing: Option<Color> = None;
        let mut near = false;
        let mut j: usize = 0;
        while j < n
            invariant
                n == entities.len(),
                j <= n,
                standing == last_verdict(entities@, j as int, *b, fired),
                near == exists|k: int| 0 <= k < j && #[trigger] player_adjacent(entities@[k], *b),
            decreases n - j,
        {
            let p = entities[j];
            if p.role == Role::Player {
                if let Some(c) = p.coords {
                    let next_to = c.is_next_to(b);
                    standing = Some(if next_to {
                        if fired {
                            Color::Hit
                        } else {
                            Color::Near
                        }
                    } else {
                        Color::Idle
                    });
                    if next_to {
                        assert(player_adjacent(entities@[j as int], *b));
                        near = true;
                    }
                }
            }
            j += 1;
        }
        (standing, near)
    }

    pub fn run(&self, world: &mut World)
        ensures
            final(world).entities.len() == old(world).entities.len(),
            forall|i: int|
                0 <= i < final(world).entities.len() ==> #[trigger] final(world).entities@[i] == interacted(
                    old(world).entities@,
                    i,
                ),
            final(world).grid == old(world).grid,
            final(world).input == old(world).input,
            final(world).game_info == old(world).game_info,
    {
        let fire = Self::any_fired(&world.entities);
        let n = world.entities.len();
        let mut i: usize = 0;
        while i < n
            invariant
                n == world.entities.len(),
                n == old(world).entities.len(),
                i <= n,
                fire == fired(old(world).entities@),
                same_layout(world.entities@, old(world).entities@),
                world.grid == old(world).grid,
                world.input == old(world).input,
                world.game_info == old(world).game_info,
                forall|j: int| 0 <= j < i ==> #[trigger] world.entities@[j] == interacted(old(world).entities@, j),
                forall|j: int| i <= j < n ==> #[trigger] world.entities@[j] == old(world).entities@[j],
            decreases n - i,
        {
            let rec = world.entities[i];
            if rec.role == Role::Blob && rec.coords.is_some() {
                let b = rec.coords.unwrap();
                let outcome = Self::blob_outcome(&world.entities, &b, fire);
                proof {
                    lemma_layout_verdict(world.entities@, old(world).entities@, n as int, b, fire);
                    lemma_layout_adjacent(world.entities@, old(world).entities@, b);
                }
                let color = match outcome.0 {
                    Some(c) => Some(c),
                    None => rec.color,
                };
                let damage = if fire && outcome.1 {
                    Some(Damage(HIT_DAMAGE))
                } else {
                    rec.damage
                };
                world.entities.set(i, EntityRecord { color, damage, ..rec });
            } else if rec.role == Role::Player && rec.action.is_some() {
                let mut a = rec.action.unwrap();
                a.mark_as_handled();
                world.entities.set(i, EntityRecord { action: Some(a), ..rec });
            }
            i += 1;
        }
    }
}

} // verus!
