//! Health resolution: pending damage is subtracted, death is flagged at zero.

use vstd::prelude::*;
use crate::components::{reduced, Death, Health};
use crate::world::{EntityRecord, World};

verus! {

/// An entity with health takes its pending damage (saturating at zero) and is
/// marked dead when its health is then zero; every pending damage is consumed.
pub open spec fn health_resolved(o: EntityRecord) -> EntityRecord {
    if o.health.is_some() && o.damage.is_some() {
        let h = reduced(o.health.unwrap().0, o.damage.unwrap().0);
        EntityRecord {
            health: Some(Health(h)),
            death: if h == 0 { Some(Death) } else { o.death },
            damage: None,
            ..o
        }
    } else {
        EntityRecord { damage: None, ..o }
    }
}

/// Health never rises in this stage, and stays as it is where no damage is pending.
pub proof fn lemma_health_non_increasing(o: EntityRecord)
    ensures
        health_resolved(o).health.is_some() == o.health.is_some(),
        o.health is Some ==> health_resolved(o).health.unwrap().0 <= o.health.unwrap().0,
        o.damage is None ==> health_resolved(o).health == o.health,
{
}

/// Death is never removed; it is set when damage brings health to zero; and
/// damage dealt to an entity already at zero keeps it at zero and dead.
pub proof fn lemma_death_persists(o: EntityRecord)
    ensures
        o.death is Some ==> health_resolved(o).death is Some,
        o.health is Some && o.damage is Some && health_resolved(o).health == Some(Health(0))
            ==> health_resolved(o).death is Some,
        o.health == Some(Health(0)) && o.damage is Some ==> health_resolved(o).health == Some(Health(0))
            && health_resolved(o).death == Some(Death),
{
}

/// The health resolution system.
pub struct HealthSys;

impl HealthSys {
    pub fn run(&self, world: &mut World)
        ensures
            final(world).entities.len() == old(world).entities.len(),
            forall|i: int|
                0 <= i < final(world).entities.len() ==> #[trigger] final(world).entities@[i] == health_resolved(
                    old(world).entities@[i],
                ),
            final(world).grid == old(world).grid,
            final(world).input == old(world).input,
            final(world).game_info == old(world).game_info,
    {
        let n = world.entities.len();
        let mut i: usize = 0;
        while i < n
            invariant
                n == world.entities.len(),
                n == old(world).entities.len(),
                i <= n,
                world.grid == old(world).grid,
                world.input == old(world).input,
                world.game_info == old(world).game_info,
                forall|j: int|
                    0 <= j < i ==> world.entities@[j] == health_resolved(#[trigger] old(world).entities@[j]),
                forall|j: int| i <= j < n ==> #[trigger] world.entities@[j] == old(world).entities@[j],
            decreases n - i,
        {
            let rec = world.entities[i];
            let next = match (rec.health, rec.damage) {
                (Some(h), Some(d)) => {
                    let mut h = h;
                    h.reduce(d.0);
                    let death = if h.0 == 0 { Some(Death) } else { rec.death };
                    EntityRecord { health: Some(h), death, damage: None, ..rec }
                },
                _ => EntityRecord { damage: None, ..rec },
            };
            world.entities.set(i, next);
            i += 1;
        }
    }
}

} // verus!
