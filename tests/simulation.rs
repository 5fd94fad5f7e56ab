use grid_world::ai_sys::AISys;
use grid_world::blob_interaction::BlobInteractionSys;
use grid_world::cleanup_sys::CleanupSys;
use grid_world::components::{
    ActionFired, ActionLock, Color, Damage, Death, Facing, GridCoords, Health, NewGridCoords,
    PlayerSprite, Position, Role,
};
use grid_world::game_info::GameInfoSys;
use grid_world::grid::GridDimensions;
use grid_world::grid_changes::GridChangesSys;
use grid_world::health_sys::HealthSys;
use grid_world::input_sys::InputSys;
use grid_world::sprite_movement_sys::SpriteMovementSys;
use grid_world::update_position_sys::UpdatePos;
use grid_world::world::{EntityRecord, Event, InputEvent, Key, World};

/// A grid of five columns and five rows (largest index 4 on both axes).
fn five_by_five() -> GridDimensions {
    GridDimensions::new(300, 250)
}

#[test]
fn adjacency_of_neighbours() {
    let c = GridCoords { x: 3, y: 3 };
    assert!(c.is_next_to(&GridCoords { x: 2, y: 2 }));
    assert!(c.is_next_to(&GridCoords { x: 3, y: 2 }));
    assert!(c.is_next_to(&GridCoords { x: 4, y: 4 }));
    assert!(c.is_next_to(&GridCoords { x: 3, y: 3 }));
    assert!(!c.is_next_to(&GridCoords { x: 5, y: 5 }));
    assert!(!c.is_next_to(&GridCoords { x: 3, y: 5 }));
    assert!(GridCoords { x: 0, y: 0 }.is_next_to(&GridCoords { x: 1, y: 1 }));
}

#[test]
fn fired_action_hits_adjacent_blob() {
    let mut world = World::new(GridDimensions::new(480, 640));
    let player = world.create_entity(
        EntityRecord::new(Role::Player)
            .with_coords(0, 0)
            .with_health(100)
            .with_action(ActionFired::new(100, 0)),
    );
    let blob = world.create_entity(
        EntityRecord::new(Role::Blob).with_coords(0, 1).with_health(100).with_color(Color::Idle),
    );
    world.tick(10);
    let b = world.entities[blob];
    assert_eq!(b.health, Some(Health(95)));
    assert_eq!(b.color, Some(Color::Hit));
    assert_eq!(b.damage, None);
    assert_eq!(b.death, None);
    let a = world.entities[player].action.unwrap();
    assert!(a.is_handled());
    assert_eq!(world.game_info.blobs_health, vec![95]);
}

#[test]
fn handled_action_does_not_hit_again() {
    let mut world = World::new(GridDimensions::new(480, 640));
    world.create_entity(
        EntityRecord::new(Role::Player).with_coords(0, 0).with_action(ActionFired::new(100, 0)),
    );
    let blob = world.create_entity(
        EntityRecord::new(Role::Blob).with_coords(0, 1).with_health(100).with_color(Color::Idle),
    );
    world.tick(10);
    world.tick(20);
    let b = world.entities[blob];
    assert_eq!(b.health, Some(Health(95)));
    assert_eq!(b.color, Some(Color::Near));
}

#[test]
fn fired_action_fans_out_and_is_handled_without_targets() {
    let mut world = World::new(GridDimensions::new(480, 640));
    let player = world.create_entity(
        EntityRecord::new(Role::Player).with_coords(2, 2).with_action(ActionFired::new(100, 0)),
    );
    let b1 = world.create_entity(EntityRecord::new(Role::Blob).with_coords(1, 1).with_health(10));
    let b2 = world.create_entity(EntityRecord::new(Role::Blob).with_coords(3, 2).with_health(10));
    let far = world.create_entity(EntityRecord::new(Role::Blob).with_coords(6, 6).with_health(10));
    BlobInteractionSys.run(&mut world);
    assert_eq!(world.entities[b1].damage, Some(Damage(5)));
    assert_eq!(world.entities[b2].damage, Some(Damage(5)));
    assert_eq!(world.entities[b1].color, Some(Color::Hit));
    assert_eq!(world.entities[far].damage, None);
    assert_eq!(world.entities[far].color, Some(Color::Idle));
    assert!(world.entities[player].action.unwrap().handled);

    let mut lonely = World::new(GridDimensions::new(480, 640));
    let p = lonely.create_entity(
        EntityRecord::new(Role::Player).with_coords(0, 0).with_action(ActionFired::new(100, 0)),
    );
    BlobInteractionSys.run(&mut lonely);
    assert!(lonely.entities[p].action.unwrap().handled);
}

#[test]
fn near_without_fired_action() {
    let mut world = World::new(GridDimensions::new(480, 640));
    world.create_entity(EntityRecord::new(Role::Player).with_coords(4, 4));
    let blob = world.create_entity(EntityRecord::new(Role::Blob).with_coords(3, 3).with_health(100));
    BlobInteractionSys.run(&mut world);
    assert_eq!(world.entities[blob].color, Some(Color::Near));
    assert_eq!(world.entities[blob].damage, None);
}

#[test]
fn ai_entity_wanders_one_step_and_locks() {
    for _ in 0..200 {
        let mut world = World::new(five_by_five());
        let ai = world.create_entity(EntityRecord::new(Role::AI).with_coords(0, 0));
        AISys.run(&mut world, 0);
        let r = world.entities[ai];
        let n = r.new_coords.unwrap();
        assert!(n.x <= 4 && n.y <= 4);
        assert!(n.x + n.y <= 1);
        assert_eq!(r.lock, Some(ActionLock { duration: 500, created: 0 }));
        let lock = r.lock.unwrap();
        assert!(!lock.is_expired(0));
        assert!(!lock.is_expired(500));
        assert!(lock.is_expired(501));
    }
}

#[test]
fn ai_move_from_origin_with_drawn_candidate() {
    let c = GridCoords { x: 0, y: 0 };
    assert_eq!(AISys::propose_move(&c, 5, 5, true, 1), NewGridCoords { x: 1, y: 0 });
    assert_eq!(AISys::propose_move(&c, 5, 5, false, 1), NewGridCoords { x: 0, y: 1 });
    assert_eq!(AISys::propose_move(&c, 5, 5, true, 0), NewGridCoords { x: 0, y: 0 });
}

#[test]
fn ai_candidates() {
    assert_eq!(AISys::candidates(0, 5), vec![0, 1]);
    assert_eq!(AISys::candidates(2, 5), vec![2, 3, 1]);
    assert_eq!(AISys::candidates(4, 5), vec![4, 3]);
    assert_eq!(AISys::candidates(0, 1), vec![0]);
    assert_eq!(AISys::candidates(0, 0), vec![0]);
}

#[test]
fn ai_wanders_inside_bounds_over_many_ticks() {
    let mut world = World::new(five_by_five());
    let ai = world.create_entity(EntityRecord::new(Role::AI).with_coords(4, 4).with_sprite(Facing::Vertical));
    let mut now: u64 = 0;
    let mut last = world.entities[ai].coords.unwrap();
    for _ in 0..300 {
        now += 600;
        world.tick(now);
        let c = world.entities[ai].coords.unwrap();
        assert!(c.x <= 4 && c.y <= 4);
        let dx = (c.x as i64 - last.x as i64).abs();
        let dy = (c.y as i64 - last.y as i64).abs();
        assert!(dx + dy <= 1);
        assert_eq!(world.entities[ai].new_coords, None);
        last = c;
    }
}

#[test]
fn locked_ai_entity_proposes_nothing() {
    let mut world = World::new(five_by_five());
    let ai = world.create_entity(
        EntityRecord::new(Role::AI).with_coords(2, 2).with_lock(ActionLock::new(500, 100)),
    );
    AISys.run(&mut world, 400);
    assert_eq!(world.entities[ai].new_coords, None);
    assert_eq!(world.entities[ai].lock, Some(ActionLock { duration: 500, created: 100 }));
    AISys.run(&mut world, 601);
    assert!(world.entities[ai].new_coords.is_some());
    assert_eq!(world.entities[ai].lock, Some(ActionLock { duration: 500, created: 601 }));
}

#[test]
fn non_ai_entities_propose_nothing() {
    let mut world = World::new(five_by_five());
    let p = world.create_entity(EntityRecord::new(Role::Player).with_coords(2, 2));
    let b = world.create_entity(EntityRecord::new(Role::Blob).with_coords(2, 2));
    let a = world.create_entity(EntityRecord::new(Role::AI));
    AISys.run(&mut world, 0);
    assert_eq!(world.entities[p].new_coords, None);
    assert_eq!(world.entities[b].new_coords, None);
    assert_eq!(world.entities[a].new_coords, None);
    assert_eq!(world.entities[a].lock, None);
}

#[test]
fn resolution_consumes_every_proposal() {
    let mut world = World::new(GridDimensions { window_height: 480, window_width: 640, tile_width: 50, tile_height: 40, tile_center: 3 });
    let e = world.create_entity(EntityRecord::new(Role::Player).with_coords(0, 0).with_new_coords(2, 3));
    let orphan = world.create_entity(EntityRecord::new(Role::Blob).with_new_coords(1, 1));
    UpdatePos.run(&mut world);
    let r = world.entities[e];
    assert_eq!(r.coords, Some(GridCoords { x: 2, y: 3 }));
    assert_eq!(r.position, Some(Position { x: 103, y: 123 }));
    assert_eq!(r.new_coords, None);
    assert_eq!(world.entities[orphan].new_coords, None);
    assert_eq!(world.entities[orphan].coords, None);
}

#[test]
fn orientation_follows_pending_move() {
    let mut world = World::new(five_by_five());
    let r = world.create_entity(EntityRecord::new(Role::Player).with_coords(2, 2).with_new_coords(3, 2).with_sprite(Facing::Vertical));
    let l = world.create_entity(EntityRecord::new(Role::Player).with_coords(2, 2).with_new_coords(1, 2).with_sprite(Facing::Vertical));
    let v = world.create_entity(EntityRecord::new(Role::AI).with_coords(2, 2).with_new_coords(2, 1).with_sprite(Facing::Left));
    let s = world.create_entity(EntityRecord::new(Role::AI).with_coords(2, 2).with_new_coords(2, 2).with_sprite(Facing::Left));
    SpriteMovementSys.run(&mut world);
    assert_eq!(world.entities[r].sprite, Some(PlayerSprite { current_frame: Facing::Right }));
    assert_eq!(world.entities[l].sprite, Some(PlayerSprite { current_frame: Facing::Left }));
    assert_eq!(world.entities[v].sprite, Some(PlayerSprite { current_frame: Facing::Vertical }));
    assert_eq!(world.entities[s].sprite, Some(PlayerSprite { current_frame: Facing::Left }));
    assert_eq!(world.entities[r].new_coords, Some(NewGridCoords { x: 3, y: 2 }));
}

#[test]
fn health_saturates_and_death_is_flagged() {
    let mut h = Health(3);
    h.reduce(5);
    assert_eq!(h, Health(0));
    let mut h = Health(10);
    h.reduce(4);
    assert_eq!(h, Health(6));

    let mut world = World::new(five_by_five());
    let e = world.create_entity(EntityRecord::new(Role::Blob).with_health(5).with_damage(5));
    let untouched = world.create_entity(EntityRecord::new(Role::Blob).with_health(7));
    HealthSys.run(&mut world);
    assert_eq!(world.entities[e].health, Some(Health(0)));
    assert_eq!(world.entities[e].death, Some(Death));
    assert_eq!(world.entities[e].damage, None);
    assert_eq!(world.entities[untouched].health, Some(Health(7)));
    assert_eq!(world.entities[untouched].death, None);

    world.entities[e].damage = Some(Damage(5));
    HealthSys.run(&mut world);
    assert_eq!(world.entities[e].health, Some(Health(0)));
    assert_eq!(world.entities[e].death, Some(Death));
    assert_eq!(world.entities[e].damage, None);
}

#[test]
fn blob_dies_after_repeated_hits_and_stays_dead() {
    let mut world = World::new(GridDimensions::new(480, 640));
    let player = world.create_entity(EntityRecord::new(Role::Player).with_coords(1, 1));
    let blob = world.create_entity(EntityRecord::new(Role::Blob).with_coords(1, 2).with_health(12));
    let mut now: u64 = 0;
    let mut last = 12;
    for _ in 0..6 {
        now += 200;
        world.entities[player].action = Some(ActionFired::new(100, now));
        world.tick(now);
        let h = world.entities[blob].health.unwrap().0;
        assert!(h <= last);
        last = h;
    }
    assert_eq!(world.entities[blob].health, Some(Health(0)));
    assert_eq!(world.entities[blob].death, Some(Death));
    world.tick(now + 10);
    assert_eq!(world.entities[blob].death, Some(Death));
}

#[test]
fn cleanup_removes_expired_unhandled_action() {
    let mut world = World::new(five_by_five());
    let p = world.create_entity(EntityRecord::new(Role::Player).with_coords(0, 0).with_action(ActionFired::new(100, 1000)));
    world.set_input(Event::Press(Key::Up));
    CleanupSys.run(&mut world, 1050);
    assert_eq!(world.input, InputEvent(None));
    assert!(world.entities[p].action.is_some());
    assert!(!world.entities[p].action.unwrap().is_handled());
    CleanupSys.run(&mut world, 1150);
    assert_eq!(world.entities[p].action, None);
}

#[test]
fn cleanup_removes_expired_lock() {
    let mut world = World::new(five_by_five());
    let a = world.create_entity(EntityRecord::new(Role::AI).with_coords(0, 0).with_lock(ActionLock::new(500, 0)));
    CleanupSys.run(&mut world, 500);
    assert!(world.entities[a].lock.is_some());
    CleanupSys.run(&mut world, 501);
    assert_eq!(world.entities[a].lock, None);
}

#[test]
fn cleanup_twice_with_nothing_expired_changes_nothing() {
    let mut world = World::new(five_by_five());
    world.create_entity(EntityRecord::new(Role::Player).with_coords(0, 0).with_action(ActionFired::new(100, 1000)));
    world.create_entity(EntityRecord::new(Role::AI).with_coords(1, 1).with_lock(ActionLock::new(500, 1000)));
    let before = world.entities.clone();
    CleanupSys.run(&mut world, 1020);
    assert_eq!(world.entities, before);
    CleanupSys.run(&mut world, 1020);
    assert_eq!(world.entities, before);
}

#[test]
fn arrow_keys_move_player_inside_grid() {
    let c = GridCoords { x: 0, y: 0 };
    assert_eq!(InputSys::add_location_update(&c, Key::Right, 5, 5), Some(NewGridCoords { x: 1, y: 0 }));
    assert_eq!(InputSys::add_location_update(&c, Key::Down, 5, 5), Some(NewGridCoords { x: 0, y: 1 }));
    assert_eq!(InputSys::add_location_update(&c, Key::Left, 5, 5), None);
    assert_eq!(InputSys::add_location_update(&c, Key::Up, 5, 5), None);
    assert_eq!(InputSys::add_location_update(&c, Key::D, 5, 5), None);
    let edge = GridCoords { x: 4, y: 4 };
    assert_eq!(InputSys::add_location_update(&edge, Key::Right, 5, 5), None);
    assert_eq!(InputSys::add_location_update(&edge, Key::Down, 5, 5), None);
    assert_eq!(InputSys::add_location_update(&edge, Key::Up, 5, 5), Some(NewGridCoords { x: 4, y: 3 }));
}

#[test]
fn key_press_moves_player_in_one_tick() {
    let mut world = World::new(five_by_five());
    let p = world.create_entity(EntityRecord::new(Role::Player).with_coords(1, 1).with_sprite(Facing::Vertical));
    world.set_input(Event::Press(Key::Right));
    world.tick(5);
    let r = world.entities[p];
    assert_eq!(r.coords, Some(GridCoords { x: 2, y: 1 }));
    assert_eq!(r.position, Some(Position { x: 100, y: 50 }));
    assert_eq!(r.sprite, Some(PlayerSprite { current_frame: Facing::Right }));
    assert_eq!(world.input, InputEvent(None));
    world.tick(6);
    assert_eq!(world.entities[p].coords, Some(GridCoords { x: 2, y: 1 }));
}

#[test]
fn trigger_key_fires_action() {
    let mut world = World::new(five_by_five());
    let p = world.create_entity(EntityRecord::new(Role::Player).with_coords(1, 1));
    world.set_input(Event::Press(Key::D));
    InputSys.run(&mut world, 77);
    assert_eq!(world.entities[p].action, Some(ActionFired { duration: 100, created: 77, handled: false }));
    assert_eq!(world.entities[p].new_coords, None);
    let mut released = World::new(five_by_five());
    let q = released.create_entity(EntityRecord::new(Role::Player).with_coords(1, 1));
    released.set_input(Event::Release(Key::D));
    InputSys.run(&mut released, 77);
    assert_eq!(released.entities[q].action, None);
}

#[test]
fn grid_bounds_and_resize() {
    let g = GridDimensions::new(480, 640);
    assert_eq!(g.grid_columns(), 12);
    assert_eq!(g.grid_rows(), 8);
    assert_eq!(g.tile_size(), (50, 50));
    assert_eq!(g.tile_center(), 0);
    assert_eq!(g.find_position_for_gridx(3), 150);
    assert_eq!(g.find_position_for_gridy(2), 100);
    assert_eq!(GridDimensions::new(40, 640).grid_rows(), 0);
    assert_eq!(GridDimensions::new(99, 49).grid_columns(), 0);
    assert_eq!(GridDimensions::new(99, 49).grid_rows(), 0);

    let mut world = World::new(g);
    world.set_input(Event::Resize(300, 260));
    GridChangesSys.run(&mut world);
    assert_eq!(world.grid.grid_columns(), 6);
    assert_eq!(world.grid.grid_rows(), 4);
    world.set_input(Event::Press(Key::Up));
    GridChangesSys.run(&mut world);
    assert_eq!(world.grid.window_width, 300);
}

#[test]
fn game_info_lists_blob_health() {
    let mut world = World::new(five_by_five());
    world.create_entity(EntityRecord::new(Role::Blob).with_health(30));
    world.create_entity(EntityRecord::new(Role::Player).with_health(100));
    world.create_entity(EntityRecord::new(Role::Blob));
    world.create_entity(EntityRecord::new(Role::Blob).with_health(0));
    GameInfoSys.run(&mut world);
    assert_eq!(world.game_info.blobs_health, vec![30, 0]);
}

#[test]
fn action_fired_lifetime() {
    let mut a = ActionFired::new(100, 50);
    assert!(!a.is_handled());
    assert!(!a.is_expired(150));
    assert!(a.is_expired(151));
    assert!(!a.is_expired(10));
    a.mark_as_handled();
    assert!(a.is_handled());
    assert_eq!(a, ActionFired { duration: 100, created: 50, handled: true });
}
