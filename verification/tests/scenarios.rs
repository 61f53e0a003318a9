// Whole-tick scenarios, including the floating-point reading of the exact
// step-list positions that a host would render.

use move_pipeline::command::{Command, Key, OwnedCommand};
use move_pipeline::entity::Entity;
use move_pipeline::entity::Step;
use move_pipeline::motion::movement_system;
use move_pipeline::router::input_system;
use move_pipeline::tick::{tick, World};

// A host-side reading of an entity's exact position: each step moves the
// entity by its direction normalized to unit length, scaled by move_speed.
fn float_pos(e: &Entity, move_speed: f32) -> (f32, f32) {
    let mut x = 0.0f32;
    let mut y = 0.0f32;
    for s in e.position.steps.iter() {
        let dx = s.dx as f32;
        let dy = s.dy as f32;
        let len = (dx * dx + dy * dy).sqrt();
        x += move_speed * dx / len;
        y += move_speed * dy / len;
    }
    (x, y)
}

fn one_player_world() -> World {
    let mut world = World::new();
    world.spawn(Entity::new(0, "One".to_string()));
    world
}

#[test]
fn example_up_then_right_with_speed_five() {
    let mut world = one_player_world();
    tick(&mut world, &vec![Key::Up]);
    assert_eq!(world.entities[0].position.steps, vec![Step { dx: 0, dy: 1 }]);
    let (x, y) = float_pos(&world.entities[0], 5.0);
    assert_eq!((x, y), (0.0, 5.0));

    tick(&mut world, &vec![Key::Right]);
    assert_eq!(
        world.entities[0].position.steps,
        vec![Step { dx: 0, dy: 1 }, Step { dx: 1, dy: 0 }]
    );
    let (x, y) = float_pos(&world.entities[0], 5.0);
    assert_eq!((x, y), (5.0, 5.0));
}

#[test]
fn diagonal_speed_equals_axis_speed() {
    let mut world = one_player_world();
    tick(&mut world, &vec![Key::Up, Key::Left]);
    assert_eq!(world.entities[0].position.steps, vec![Step { dx: -1, dy: 1 }]);
    let (x, y) = float_pos(&world.entities[0], 5.0);
    let expected = 5.0f32 / 2.0f32.sqrt();
    assert_eq!((x, y), (-expected, expected));
    // the diagonal tick covers the same distance as an axis-aligned one
    let dist2 = x * x + y * y;
    assert!((dist2 - 25.0).abs() < 1e-4);
}

#[test]
fn left_and_right_cancel() {
    let mut world = one_player_world();
    tick(&mut world, &vec![Key::Left, Key::Right]);
    assert!(world.entities[0].position.steps.is_empty());
    assert!(world.queue.is_empty());
    assert!(world.entities[0].pending.is_empty());
}

#[test]
fn no_held_keys_no_motion() {
    let mut world = one_player_world();
    tick(&mut world, &Vec::new());
    assert!(world.entities[0].position.steps.is_empty());
}

#[test]
fn only_unrecognized_keys_no_motion() {
    let mut world = one_player_world();
    tick(&mut world, &vec![Key::Other(11), Key::Other(12)]);
    assert!(world.entities[0].position.steps.is_empty());
    assert!(world.queue.is_empty());
}

#[test]
fn tick_leaves_queue_and_pending_lists_empty() {
    let mut world = one_player_world();
    world.spawn(Entity::new(1, "Two".to_string()));
    tick(&mut world, &vec![Key::Up, Key::Left, Key::Other(3)]);
    assert!(world.queue.is_empty());
    for e in world.entities.iter() {
        assert!(e.pending.is_empty());
    }
}

#[test]
fn local_input_moves_only_the_local_player() {
    let mut world = one_player_world();
    world.spawn(Entity::new(1, "Two".to_string()));
    tick(&mut world, &vec![Key::Down]);
    assert_eq!(world.entities[0].position.steps, vec![Step { dx: 0, dy: -1 }]);
    assert!(world.entities[1].position.steps.is_empty());
    assert!(world.entities[1].pending.is_empty());
}

#[test]
fn unmatched_owner_command_is_dropped_whole_tick() {
    // a command owned by nobody, fed straight to the router and integrator
    let mut world = one_player_world();
    world.queue.push(OwnedCommand { owner_id: 9, command: Command::Left });
    input_system(&mut world.queue, &mut world.entities);
    movement_system(&mut world.entities);
    assert!(world.queue.is_empty());
    assert!(world.entities[0].pending.is_empty());
    assert!(world.entities[0].position.steps.is_empty());
}

#[test]
fn consecutive_ticks_accumulate_steps() {
    let mut world = one_player_world();
    tick(&mut world, &vec![Key::Up]);
    tick(&mut world, &vec![Key::Up]);
    tick(&mut world, &vec![Key::Left, Key::Down]);
    assert_eq!(
        world.entities[0].position.steps,
        vec![
            Step { dx: 0, dy: 1 },
            Step { dx: 0, dy: 1 },
            Step { dx: -1, dy: -1 },
        ]
    );
    let (x, y) = float_pos(&world.entities[0], 1.0);
    let diag = 1.0f32 / 2.0f32.sqrt();
    assert_eq!((x, y), (-diag, 2.0 - diag));
}
