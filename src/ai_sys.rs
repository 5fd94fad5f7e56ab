//! Movement proposal for AI entities: a random walk of one step on one axis.

use rand::Rng;
use vstd::prelude::*;
use crate::components::{ActionLock, GridCoords, NewGridCoords, Role, LOCK_DURATION_MS};
use crate::world::{EntityRecord, World};

verus! {

/// Values an AI entity may move to on one axis: staying first, then one step
/// up while it stays below `max`, then one step down while it stays at or above zero.
pub open spec fn candidate_seq(v: u64, max: u64) -> Seq<u64> {
    seq![v] + (if v + 1 < max { seq![(v + 1) as u64] } else { Seq::empty() }) + (if v > 0 {
        seq![(v - 1) as u64]
    } else {
        Seq::empty()
    })
}

/// `n` stays on `c` or moves one cell along exactly one axis, never leaving
/// `[0, cols) x [0, rows)` by the step it takes.
pub open spec fn wander_step(c: GridCoords, n: NewGridCoords, cols: u64, rows: u64) -> bool {
    ||| n.y == c.y && (n.x == c.x || (n.x == c.x + 1 && n.x < cols) || n.x + 1 == c.x)
    ||| n.x == c.x && (n.y == c.y || (n.y == c.y + 1 && n.y < rows) || n.y + 1 == c.y)
}

/// An AI entity with coordinates and no unexpired cooldown proposes a move.
pub open spec fn ai_eligible(r: EntityRecord, now: u64) -> bool {
    &&& r.role == Role::AI
    &&& r.coords.is_some()
    &&& (r.lock.is_none() || r.lock.unwrap().expired_at(now))
}

/// `f` is what the movement proposal may make of `o`: an eligible entity gets a
/// wandering step and a fresh cooldown, any other entity is left as it is.
pub open spec fn ai_proposed(o: EntityRecord, f: EntityRecord, now: u64, cols: u64, rows: u64) -> bool {
    if ai_eligible(o, now) {
        &&& f.new_coords.is_some()
        &&& wander_step(o.coords.unwrap(), f.new_coords.unwrap(), cols, rows)
        &&& f == (EntityRecord {
            new_coords: f.new_coords,
            lock: Some(ActionLock { duration: LOCK_DURATION_MS, created: now }),
            ..o
        })
    } else {
        f == o
    }
}

/// A wandering step from a cell inside the grid stays inside it, and changes
/// at most one axis, by at most one cell.
pub proof fn lemma_wander_step_bounded(c: GridCoords, n: NewGridCoords, cols: u64, rows: u64)
    requires
        wander_step(c, n, cols, rows),
        c.x < cols,
        c.y < rows,
    ensures
        n.x < cols,
        n.y < rows,
        (n.x == c.x && -1 <= n.y - c.y <= 1) || (n.y == c.y && -1 <= n.x - c.x <= 1),
{
}

/// An entity whose cooldown has not expired gets no new proposal and keeps
/// its cooldown: the proposal stage leaves it as it was.
pub proof fn lemma_locked_entity_unchanged(o: EntityRecord, f: EntityRecord, now: u64, cols: u64, rows: u64)
    requires
        ai_proposed(o, f, now, cols, rows),
        o.lock is Some,
        !o.lock.unwrap().expired_at(now),
    ensures
        f == o,
{
}

/// Relies on rand::random::<bool>: a coin toss from the thread-local generator.
/// Nothing is promised of the value.
#[verifier::external_body]
fn toss() -> (r: bool) {
    rand::random::<bool>()
}

/// Relies on rand::Rng::gen_range over the thread-local generator: for `0..n`
/// it returns a value in that range; it panics on an empty range.
#[verifier::external_body]
fn draw_below(n: usize) -> (r: usize)
    requires
        n > 0,
    ensures
        r < n,
{
    rand::thread_rng().gen_range(0..n)
}

/// The random-walk system.
pub struct AISys;

impl AISys {
    /// The candidates of `candidate_seq`, in that order.
    pub fn candidates(v: u64, max: u64) -> (r: Vec<u64>)
        ensures
            r@ == candidate_seq(v, max),
            1 <= r@.len() <= 3,
    {
        let mut r: Vec<u64> = Vec::new();
        r.push(v);
        if v < max && v + 1 < max {
            r.push(v + 1);
        }
        if v > 0 {
            r.push(v - 1);
        }
        assert(r@ =~= candidate_seq(v, max));
        r
    }

    /// The move proposed from `c` once the axis (`along_x`) and the candidate
    /// index (`pick`) are drawn.
    pub fn propose_move(c: &GridCoords, cols: u64, rows: u64, along_x: bool, pick: usize) -> (r:
        NewGridCoords)
        requires
            along_x ==> pick < candidate_seq(c.x, cols).len(),
            !along_x ==> pick < candidate_seq(c.y, rows).len(),
        ensures
            along_x ==> r == (NewGridCoords { x: candidate_seq(c.x, cols)[pick as int], y: c.y }),
            !along_x ==> r == (NewGridCoords { x: c.x, y: candidate_seq(c.y, rows)[pick as int] }),
            wander_step(*c, r, cols, rows),
    {
        if along_x {
            let options = Self::candidates(c.x, cols);
            NewGridCoords { x: options[pick], y: c.y }
        } else {
            let options = Self::candidates(c.y, rows);
            NewGridCoords { x: c.x, y: options[pick] }
        }
    }

    /// Draws an axis with equal probability, then one of its candidates uniformly.
    fn random_move(c: &GridCoords, cols: u64, rows: u64) -> (r: NewGridCoords)
        ensures
            wander_step(*c, r, cols, rows),
    {
        let along_x = toss();
        let count = if along_x {
            Self::candidates(c.x, cols).len()
        } else {
            Self::candidates(c.y, rows).len()
        };
        let pick = draw_below(count);
        Self::propose_move(c, cols, rows, along_x, pick)
    }

    /// Gives every AI entity without an unexpired cooldown a random one-step
    /// proposal and a new cooldown of `LOCK_DURATION_MS` starting at `now`.
    pub fn run(&self, world: &mut World, now: u64)
        requires
            old(world).wf(),
        ensures
            final(world).entities.len() == old(world).entities.len(),
            forall|i: int|
                0 <= i < final(world).entities.len() ==> ai_proposed(
                    old(world).entities@[i],
                    #[trigger] final(world).entities@[i],
                    now,
                    old(world).grid.columns(),
                    old(world).grid.rows(),
                ),
            final(world).grid == old(world).grid,
            final(world).input == old(world).input,
            final(world).game_info == old(world).game_info,
    {
        let cols = world.grid.grid_columns();
        let rows = world.grid.grid_rows();
        let n = world.entities.len();
        let mut i: usize = 0;
        while i < n
            invariant
                n == world.entities.len(),
                n == old(world).entities.len(),
                i <= n,
                cols == old(world).grid.columns(),
                rows == old(world).grid.rows(),
                world.grid == old(world).grid,
                world.input == old(world).input,
                world.game_info == old(world).game_info,
                forall|j: int|
                    0 <= j < i ==> ai_proposed(
                        #[trigger] old(world).entities@[j],
                        world.entities@[j],
                        now,
                        cols,
                        rows,
                    ),
                forall|j: int| i <= j < n ==> #[trigger] world.entities@[j] == old(world).entities@[j],
            decreases n - i,
        {
            let rec = world.entities[i];
            let unlocked = match rec.lock {
                None => true,
                Some(l) => l.is_expired(now),
            };
            if rec.role == Role::AI && unlocked {
                if let Some(c) = rec.coords {
                    let target = Self::random_move(&c, cols, rows);
                    let next = EntityRecord {
                        new_coords: Some(target),
                        lock: Some(ActionLock::new(LOCK_DURATION_MS, now)),
                        ..rec
                    };
                    world.entities.set(i, next);
                }
            }
            i += 1;
        }
    }
}

} // verus!
