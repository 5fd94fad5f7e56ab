//! One tick: every stage once, in the fixed order.

use vstd::prelude::*;
use crate::ai_sys::{ai_proposed, AISys};
use crate::blob_interaction::{interacted, BlobInteractionSys};
use crate::cleanup_sys::{cleaned, CleanupSys};
use crate::components::Health;
use crate::game_info::{blob_healths, GameInfoSys};
use crate::grid::GridDimensions;
use crate::grid_changes::{resized, GridChangesSys};
use crate::health_sys::{health_resolved, HealthSys};
use crate::input_sys::{input_applied, InputSys};
use crate::sprite_movement_sys::{oriented, SpriteMovementSys};
use crate::update_position_sys::{resolved, UpdatePos};
use crate::world::{EntityRecord, Event, InputEvent, World};

verus! {

/// The cell and any pending proposal of `r` lie inside the grid `g`.
pub open spec fn in_bounds(r: EntityRecord, g: GridDimensions) -> bool {
    &&& (r.coords.is_some() ==> r.coords.unwrap().x < g.columns() && r.coords.unwrap().y < g.rows())
    &&& (r.new_coords.is_some() ==> r.new_coords.unwrap().x < g.columns() && r.new_coords.unwrap().y
        < g.rows())
}

/// The event in `input` is a resize.
pub open spec fn is_resize(input: InputEvent) -> bool {
    input.0 is Some && input.0.unwrap() is Resize
}

/// Orientation, then movement resolution, applied to every entity of `s2`.
pub open spec fn moved(s2: Seq<EntityRecord>, g: GridDimensions) -> Seq<EntityRecord> {
    Seq::new(s2.len(), |j: int| resolved(oriented(s2[j]), g))
}

/// `s2` is a possible outcome of player input followed by the AI proposal
/// stage on `s0`, under the event `ev` and the grid `g`.
pub open spec fn proposed_all(
    s0: Seq<EntityRecord>,
    s2: Seq<EntityRecord>,
    ev: Option<Event>,
    now: u64,
    g: GridDimensions,
) -> bool {
    &&& s2.len() == s0.len()
    &&& forall|i: int|
        0 <= i < s2.len() ==> ai_proposed(
            input_applied(s0[i], ev, now, g.columns(), g.rows()),
            #[trigger] s2[i],
            now,
            g.columns(),
            g.rows(),
        )
}

impl World {
    /// Runs one tick at time `now` (milliseconds): resize, player input, AI
    /// proposals, orientation, movement resolution, interaction, health
    /// resolution, cleanup, summary.
    pub fn tick(&mut self, now: u64)
        requires
            old(self).wf(),
        ensures
            final(self).wf(),
            final(self).grid == resized(old(self).grid, old(self).input),
            final(self).input == InputEvent(None),
            final(self).entities.len() == old(self).entities.len(),
            exists|s2: Seq<EntityRecord>|
                #[trigger] proposed_all(
                    old(self).entities@,
                    s2,
                    old(self).input.0,
                    now,
                    resized(old(self).grid, old(self).input),
                ) && forall|i: int|
                    0 <= i < final(self).entities.len() ==> #[trigger] final(self).entities@[i]
                        == cleaned(
                        health_resolved(
                            interacted(moved(s2, resized(old(self).grid, old(self).input)), i),
                        ),
                        now,
                    ),
            final(self).game_info.blobs_health@ == blob_healths(
                final(self).entities@,
                final(self).entities@.len() as int,
            ),
            forall|i: int|
                0 <= i < final(self).entities.len() ==> {
                    let o = old(self).entities@[i];
                    let f = #[trigger] final(self).entities@[i];
                    &&& f.role == o.role
                    &&& f.new_coords is None
                    &&& f.damage is None
                    &&& f.health.is_some() == o.health.is_some()
                    &&& (o.health.is_some() ==> f.health.unwrap().0 <= o.health.unwrap().0)
                    &&& (o.death.is_some() ==> f.death.is_some())
                    &&& (f.health == Some(Health(0)) && o.health != f.health
                        ==> f.death.is_some())
                },
            !is_resize(old(self).input) && (forall|i: int|
                0 <= i < old(self).entities.len() ==> in_bounds(
                    old(self).entities@[i],
                    old(self).grid,
                )) ==> forall|i: int|
                0 <= i < final(self).entities.len() ==> in_bounds(
                    #[trigger] final(self).entities@[i],
                    final(self).grid,
                ),
    {
        let ghost s0 = self.entities@;
        GridChangesSys.run(self);
        let ghost g = self.grid;
        InputSys.run(self, now);
        let ghost s1 = self.entities@;
        AISys.run(self, now);
        let ghost s2 = self.entities@;
        SpriteMovementSys.run(self);
        let ghost s3 = self.entities@;
        UpdatePos.run(self);
        let ghost s4 = self.entities@;
        BlobInteractionSys.run(self);
        let ghost s5 = self.entities@;
        HealthSys.run(self);
        let ghost s6 = self.entities@;
        CleanupSys.run(self, now);
        let ghost s7 = self.entities@;
        GameInfoSys.run(self);
        assert(s4 =~= moved(s2, g));
        assert(proposed_all(s0, s2, old(self).input.0, now, g));
        assert forall|i: int| 0 <= i < self.entities.len() implies #[trigger] self.entities@[i] == cleaned(
            health_resolved(interacted(moved(s2, g), i)),
            now,
        ) by {
            assert(s5[i] == interacted(s4, i));
            assert(s6[i] == health_resolved(s5[i]));
            assert(s7[i] == cleaned(s6[i], now));
        }
        assert forall|i: int| 0 <= i < self.entities.len() implies {
            let o = #[trigger] s0[i];
            let f = self.entities@[i];
            &&& f.role == o.role
            &&& f.new_coords is None
            &&& f.damage is None
            &&& f.health.is_some() == o.health.is_some()
            &&& (o.health.is_some() ==> f.health.unwrap().0 <= o.health.unwrap().0)
            &&& (o.death.is_some() ==> f.death.is_some())
            &&& (f.health == Some(Health(0)) && o.health != f.health
                ==> f.death.is_some())
        } by {
            assert(s1[i] == input_applied(s0[i], old(self).input.0, now, g.columns(), g.rows()));
            assert(ai_proposed(s1[i], s2[i], now, g.columns(), g.rows()));
            assert(s3[i] == oriented(s2[i]));
            assert(s4[i] == resolved(s3[i], g));
            assert(s5[i] == interacted(s4, i));
            assert(s6[i] == health_resolved(s5[i]));
            assert(s7[i] == cleaned(s6[i], now));
        }
        proof {
            if !is_resize(old(self).input) && (forall|i: int|
                0 <= i < old(self).entities.len() ==> in_bounds(
                    #[trigger] old(self).entities@[i],
                    old(self).grid,
                )) {
                assert forall|i: int| 0 <= i < self.entities.len() implies in_bounds(
                    #[trigger] self.entities@[i],
                    self.grid,
                ) by {
                    assert(g == old(self).grid);
                    assert(in_bounds(s0[i], g));
                    assert(s1[i] == input_applied(s0[i], old(self).input.0, now, g.columns(), g.rows()));
                    assert(in_bounds(s1[i], g));
                    assert(ai_proposed(s1[i], s2[i], now, g.columns(), g.rows()));
                    assert(in_bounds(s2[i], g));
                    assert(s3[i] == oriented(s2[i]));
                    assert(s4[i] == resolved(s3[i], g));
                    assert(in_bounds(s4[i], g));
                    assert(s5[i] == interacted(s4, i));
                    assert(s6[i] == health_resolved(s5[i]));
                    assert(s7[i] == cleaned(s6[i], now));
                }
            }
        }
    }
}

} // verus!
