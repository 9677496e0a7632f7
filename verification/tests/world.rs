use engine_core::body::Body;
use engine_core::collision::{Collision, Wall, WallContact};
use engine_core::engine::{dispatcher_event, handle_event};
use engine_core::events::{Event, EventResult};
use engine_core::world::World;
use engine_core::{apply_force_event_creation, object_creation};

const WORLD_DIMENSIONS: [f32; 2] = [400.0, 400.0];

type Vec2 = glam::Vec2;

fn new_world() -> World<Vec2, f32> {
    World::new(Vec2::new(WORLD_DIMENSIONS[0], WORLD_DIMENSIONS[1]))
}

/// Whether every pair of bodies touches, as the physics computes it.
fn touching(world: &World<Vec2, f32>) -> Vec<Vec<bool>> {
    let bodies = world.objects();
    let mut rows = Vec::new();
    for a in bodies.iter() {
        let mut row = Vec::new();
        for b in bodies.iter() {
            let sum_rad = a.radius + b.radius;
            row.push(a.position.distance_squared(b.position) <= sum_rad * sum_rad);
        }
        rows.push(row);
    }
    rows
}

/// Which walls every body reaches, as the physics computes it.
fn wall_contacts(world: &World<Vec2, f32>) -> Vec<WallContact> {
    let dim = world.world_dim();
    world
        .objects()
        .iter()
        .map(|b| WallContact {
            left: b.position.x - b.radius <= 0.0,
            right: b.position.x + b.radius >= dim.x,
            top: b.position.y - b.radius <= 0.0,
            bottom: b.position.y + b.radius >= dim.y,
        })
        .collect()
}

#[test]
fn test_body_collision() {
    let mut world = new_world();
    let p: Vec2 = Vec2::new(0.0, 0.0);
    let _id = world.create_object(p.clone(), 20.0, 10.0);

    let _id_2 = world.create_object(p, 10.0, 10.0);

    let mut collisions = Vec::<Collision>::new();
    world.handle_body_collisions(&touching(&world), &mut collisions);

    assert!(
        collisions.len() > 0 && collisions.len() < 2,
        "Should have collisions between the two bodies"
    )
}

#[test]
fn test_wall_collision() {
    let mut world = new_world();
    let p: Vec2 = Vec2::new(0.0, 0.0);
    let _id = world.create_object(p, 10.0, 10.0);

    let p: Vec2 = Vec2::new(WORLD_DIMENSIONS[0], WORLD_DIMENSIONS[1]);
    let _id_2 = world.create_object(p, 10.0, 10.0);

    let mut collisions = Vec::<Collision>::new();
    world.handle_wall_collisions(&wall_contacts(&world), &mut collisions);

    assert!(
        collisions.len() > 0 && collisions.len() < 5,
        "Should have collisions for the four walls"
    )
}

#[test]
fn apply_force_test() {
    let mut world = new_world();
    let p: Vec2 = Vec2::new(100.0, 200.0);
    let id = world.create_object(p, 10.0, 10.0);

    let v0 = world.get_body(id).unwrap().velocity.length();
    world.apply_force(id, Vec2::new(50.0, 50.0), |a: Vec2, b: Vec2| a + b);

    let v1 = world.get_body(id).unwrap().velocity.length();

    assert!(
        v1 > v0,
        "Velocity should increased due apply force event (v0={}, v1={})",
        v0,
        v1
    );
}

#[test]
fn ids_are_handed_out_in_creation_order() {
    let mut world = new_world();
    assert_eq!(world.create_object(Vec2::new(1.0, 2.0), 3.0, 4.0), 0);
    assert_eq!(world.create_object(Vec2::new(5.0, 6.0), 7.0, 8.0), 1);
    assert_eq!(world.len(), 2);
    let b = world.get_body(1).unwrap();
    assert_eq!(b.id, 1);
    assert_eq!(b.position, Vec2::new(5.0, 6.0));
    assert_eq!(b.radius, 7.0);
    assert_eq!(b.mass, 8.0);
    assert_eq!(b.velocity, Vec2::ZERO);
    assert_eq!(b.damage, 0.0);
    assert!(world.get_body(2).is_none());
    assert_eq!(world.get_body(0).unwrap().position, Vec2::new(1.0, 2.0));
}

#[test]
fn setters_change_one_body_only() {
    let mut world = new_world();
    world.create_object(Vec2::new(1.0, 1.0), 1.0, 1.0);
    world.create_object(Vec2::new(2.0, 2.0), 1.0, 1.0);
    world.set_velocity(1, Vec2::new(3.0, 4.0));
    world.set_position(0, Vec2::new(9.0, 9.0));
    assert_eq!(world.get_body(0).unwrap().position, Vec2::new(9.0, 9.0));
    assert_eq!(world.get_body(0).unwrap().velocity, Vec2::ZERO);
    assert_eq!(world.get_body(1).unwrap().velocity, Vec2::new(3.0, 4.0));
    assert_eq!(world.get_body(1).unwrap().position, Vec2::new(2.0, 2.0));
    assert_eq!(world.get_body(1).unwrap().id, 1);
}

#[test]
fn apply_force_adds_to_velocity() {
    let mut world = new_world();
    let id = world.create_object(Vec2::new(100.0, 200.0), 10.0, 10.0);
    world.apply_force(id, Vec2::new(50.0, 50.0), |a: Vec2, b: Vec2| a + b);
    world.apply_force(id, Vec2::new(1.0, -2.0), |a: Vec2, b: Vec2| a + b);
    assert_eq!(world.get_body(id).unwrap().velocity, Vec2::new(51.0, 48.0));
    assert_eq!(world.get_body(id).unwrap().position, Vec2::new(100.0, 200.0));
}

#[test]
fn snapshots_copy_every_body() {
    let mut world = new_world();
    world.create_object(Vec2::new(1.0, 2.0), 3.0, 4.0);
    world.create_object(Vec2::new(5.0, 6.0), 7.0, 8.0);
    world.set_velocity(0, Vec2::new(1.0, 1.0));
    let copy = world.physics_snapshot();
    assert_eq!(copy.len(), 2);
    assert_eq!(copy.world_dim(), Vec2::new(400.0, 400.0));
    assert_eq!(copy.get_body(0).unwrap().velocity, Vec2::new(1.0, 1.0));
    assert_eq!(copy.get_body(1).unwrap().mass, 8.0);
    let render = world.render_snapshot();
    assert_eq!(render.objects.len(), 2);
    assert_eq!(render.objects[1].id, 1);
    assert_eq!(render.objects[1].position(), Vec2::new(5.0, 6.0));
    assert_eq!(render.objects[1].radius, 7.0);
}

#[test]
fn body_collisions_are_reported_pair_by_pair() {
    let mut world: World<(i32, i32), i32> = World::new((10, 10));
    for _ in 0..4 {
        world.create_object((0, 0), 1, 1);
    }
    let mut t = vec![vec![false; 4]; 4];
    t[0][2] = true;
    t[1][3] = true;
    t[0][1] = true;
    t[3][1] = true; // below the diagonal: never read
    let mut collisions = vec![Collision::WithWall { body_id: 7, wall: Wall::Top }];
    world.handle_body_collisions(&t, &mut collisions);
    assert_eq!(
        collisions,
        vec![
            Collision::WithWall { body_id: 7, wall: Wall::Top },
            Collision::WithBody { a_body_id: 0, b_body_id: 1 },
            Collision::WithBody { a_body_id: 0, b_body_id: 2 },
            Collision::WithBody { a_body_id: 1, b_body_id: 3 },
        ]
    );
}

#[test]
fn wall_collisions_come_body_by_body() {
    let mut world = new_world();
    world.create_object(Vec2::new(0.0, 0.0), 10.0, 10.0);
    world.create_object(Vec2::new(200.0, 200.0), 10.0, 10.0);
    world.create_object(Vec2::new(400.0, 400.0), 10.0, 10.0);
    let collisions = world.handle_collision(&touching(&world), &wall_contacts(&world));
    assert_eq!(
        collisions,
        vec![
            Collision::WithWall { body_id: 0, wall: Wall::Left },
            Collision::WithWall { body_id: 0, wall: Wall::Top },
            Collision::WithWall { body_id: 2, wall: Wall::Right },
            Collision::WithWall { body_id: 2, wall: Wall::Bottom },
        ]
    );
}

#[test]
fn handle_collision_puts_body_collisions_first() {
    let mut world = new_world();
    world.create_object(Vec2::new(0.0, 100.0), 10.0, 10.0);
    world.create_object(Vec2::new(5.0, 100.0), 10.0, 10.0);
    let collisions = world.handle_collision(&touching(&world), &wall_contacts(&world));
    assert_eq!(
        collisions,
        vec![
            Collision::WithBody { a_body_id: 0, b_body_id: 1 },
            Collision::WithWall { body_id: 0, wall: Wall::Left },
            Collision::WithWall { body_id: 1, wall: Wall::Left },
        ]
    );
}

#[test]
fn events_create_and_push_bodies() {
    let mut world = new_world();
    let add = |a: Vec2, b: Vec2| a + b;
    let r = handle_event(
        Event::ObjectCreation { position: Vec2::new(10.0, 20.0), radius: 5.0, mass: 30.0 },
        &mut world,
        add,
    );
    assert_eq!(r, EventResult::ObjectCreated { id: 0 });
    let r = handle_event(
        Event::ObjectCreation { position: Vec2::new(1.0, 2.0), radius: 5.0, mass: 30.0 },
        &mut world,
        add,
    );
    assert_eq!(r, EventResult::ObjectCreated { id: 1 });
    let r = handle_event(Event::ApplyForce { object_id: 0, velocity: Vec2::new(3.0, 4.0) }, &mut world, add);
    assert_eq!(r, EventResult::Nothing);
    let b: &Body<Vec2, f32> = world.get_body(0).unwrap();
    assert_eq!(b.velocity, Vec2::new(3.0, 4.0));
    assert_eq!(b.position, Vec2::new(10.0, 20.0));
    assert_eq!(world.get_body(1).unwrap().velocity, Vec2::ZERO);
}

#[test]
fn dispatcher_hands_back_the_responder() {
    let mut world = new_world();
    let add = |a: Vec2, b: Vec2| a + b;
    let ev = object_creation::<Vec2, f32, &str>(Vec2::new(1.0, 1.0), 2.0, 3.0, "reply here");
    let (r, tx) = dispatcher_event(ev, &mut world, add);
    assert_eq!(r, EventResult::ObjectCreated { id: 0 });
    assert_eq!(tx, Some("reply here"));
    let ev = apply_force_event_creation::<Vec2, f32, &str>(0, Vec2::new(1.0, 0.0));
    let (r, tx) = dispatcher_event(ev, &mut world, add);
    assert_eq!(r, EventResult::Nothing);
    assert_eq!(tx, None);
    assert_eq!(world.get_body(0).unwrap().velocity, Vec2::new(1.0, 0.0));
}

#[test]
fn set_damage_changes_only_damage() {
    let mut b: Body<Vec2, f32> = Body::new(3, 1.0, 2.0, Vec2::new(4.0, 5.0));
    b.set_damage(7.5);
    assert_eq!(b.damage, 7.5);
    assert_eq!(b.id, 3);
    assert_eq!(b.mass, 2.0);
    let s = b.get_render_snapshot();
    assert_eq!((s.id, s.position, s.radius), (3, Vec2::new(4.0, 5.0), 1.0));
    let c = b.get_physics_snapshot();
    assert_eq!(c.damage, 7.5);
    assert_eq!(c.position, b.position);
}
