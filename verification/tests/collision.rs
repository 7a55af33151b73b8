use arena_sim::collision::{overlaps, sweep};
use arena_sim::entity::{Entity, Role};
use arena_sim::units::{OBSTACLE_RADIUS, PLAYER_RADIUS, UNIT};
use arena_sim::vector::Vector2;

fn obstacle_at(x: i64, y: i64) -> Entity {
    Entity::obstacle(Vector2::new(x, y), Vector2::zero()).unwrap()
}

fn circle(x: i64, y: i64, radius: u32) -> Entity {
    Entity {
        role: Role::Obstacle,
        position: Vector2::new(x, y),
        heading: 0,
        drift: Vector2::zero(),
        collision_radius: radius,
    }
}

#[test]
fn obstacle_at_sixty_overlaps_and_at_seventy_does_not() {
    let player = Entity::controlled();
    assert_eq!(player.position, Vector2::new(0, 0));
    assert_eq!(player.collision_radius, 5 * UNIT as u32);
    let near = obstacle_at(60 * UNIT, 0);
    assert_eq!(near.collision_radius, 60 * UNIT as u32);
    assert!(overlaps(&player, &near));
    let far = obstacle_at(70 * UNIT, 0);
    assert!(!overlaps(&player, &far));
}

#[test]
fn touching_circles_overlap() {
    let player = Entity::controlled();
    assert!(overlaps(&player, &obstacle_at(65 * UNIT, 0)));
    assert!(!overlaps(&player, &obstacle_at(65 * UNIT + 1, 0)));
    assert!(overlaps(&player, &obstacle_at(0, -65 * UNIT)));
    assert!(!overlaps(&player, &obstacle_at(0, -65 * UNIT - 1)));
}

#[test]
fn diagonal_distance_is_euclidean() {
    let player = Entity::controlled();
    // 39, 52, 65 is a right triangle
    assert!(overlaps(&player, &obstacle_at(39 * UNIT, 52 * UNIT)));
    assert!(!overlaps(&player, &obstacle_at(39 * UNIT + 1, 52 * UNIT)));
    assert!(!overlaps(&player, &obstacle_at(-39 * UNIT, -52 * UNIT - 1)));
    // inside the bounding square of the reach, outside the circle
    assert!(!overlaps(&player, &obstacle_at(60 * UNIT, 60 * UNIT)));
}

#[test]
fn overlap_is_symmetric() {
    let bodies = [
        Entity::controlled(),
        obstacle_at(60 * UNIT, 0),
        obstacle_at(70 * UNIT, 0),
        obstacle_at(-39 * UNIT, 52 * UNIT),
        circle(1, 1, 0),
        circle(i64::MAX, i64::MIN, u32::MAX),
        circle(i64::MIN, i64::MAX, 7),
    ];
    for a in &bodies {
        for b in &bodies {
            assert_eq!(overlaps(a, b), overlaps(b, a));
        }
    }
}

#[test]
fn every_entity_overlaps_itself() {
    let bodies = [
        Entity::controlled(),
        obstacle_at(60 * UNIT, -3),
        circle(5, 5, 0),
        circle(i64::MAX, i64::MIN, u32::MAX),
    ];
    for a in &bodies {
        assert!(overlaps(a, a));
    }
}

#[test]
fn points_overlap_only_when_they_coincide() {
    assert!(overlaps(&circle(3, 4, 0), &circle(3, 4, 0)));
    assert!(!overlaps(&circle(3, 4, 0), &circle(3, 5, 0)));
}

#[test]
fn overlap_at_the_ends_of_the_range() {
    let a = circle(i64::MIN, i64::MIN, u32::MAX);
    let b = circle(i64::MAX, i64::MAX, u32::MAX);
    assert!(!overlaps(&a, &b));
    let c = circle(i64::MAX - 10, i64::MAX, 4);
    let d = circle(i64::MAX, i64::MAX, 6);
    assert!(overlaps(&c, &d));
    let e = circle(i64::MAX - 11, i64::MAX, 4);
    assert!(!overlaps(&e, &d));
    let wide = circle(0, 0, u32::MAX);
    let reach = 2 * (u32::MAX as i64);
    assert!(overlaps(&wide, &circle(reach, 0, u32::MAX)));
    assert!(!overlaps(&wide, &circle(reach + 1, 0, u32::MAX)));
}

#[test]
fn default_radii() {
    assert_eq!(PLAYER_RADIUS, 5000);
    assert_eq!(OBSTACLE_RADIUS, 60000);
}

#[test]
fn sweep_lists_the_overlapping_obstacles_in_order() {
    let player = Entity::controlled();
    let obstacles = vec![
        obstacle_at(70 * UNIT, 0),
        obstacle_at(60 * UNIT, 0),
        obstacle_at(0, 0),
        obstacle_at(0, 66 * UNIT),
        obstacle_at(-39 * UNIT, -52 * UNIT),
    ];
    assert_eq!(sweep(&player, &obstacles), vec![1, 2, 4]);
}

#[test]
fn sweep_of_nothing_is_empty() {
    let player = Entity::controlled();
    assert_eq!(sweep(&player, &Vec::new()), Vec::<usize>::new());
    assert_eq!(sweep(&player, &vec![obstacle_at(70 * UNIT, 0)]), Vec::<usize>::new());
}

#[test]
fn sweep_agrees_with_overlaps() {
    let player = circle(10 * UNIT, -20 * UNIT, 5000);
    let mut obstacles = Vec::new();
    for k in 0..200i64 {
        obstacles.push(obstacle_at((k * 37 % 300 - 150) * UNIT, (k * 91 % 300 - 150) * UNIT));
    }
    let hits = sweep(&player, &obstacles);
    let mut expected = Vec::new();
    for (i, o) in obstacles.iter().enumerate() {
        if overlaps(&player, o) {
            expected.push(i);
        }
    }
    assert!(!expected.is_empty());
    assert!(expected.len() < obstacles.len());
    assert_eq!(hits, expected);
}
