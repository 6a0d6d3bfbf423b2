use platformer_core::geom::to_rect;
use platformer_core::physics::{
    needs_flip, resolve_collisions, Dir, KinematicBody, MotionState, TerrainCollider,
};

fn body(x: i32, y: i32, vx: i32, vy: i32, w: i32, h: i32) -> KinematicBody {
    KinematicBody {
        x,
        y,
        vx,
        vy,
        w,
        h,
        grounded: false,
        direction: Dir::Right,
        motion_state: MotionState::Stopped,
    }
}

fn block(x: i32, y: i32, w: i32, h: i32) -> TerrainCollider {
    TerrainCollider { grid_x: 0, grid_y: 0, x, y, w, h, collision: true }
}

#[test]
fn grounding_on_falling_body() {
    // A body falling onto a floor: resolved onto the terrain top, fall
    // zeroed, grounded.
    let mut b = body(0, 5, 0, -10, 16, 16);
    let terrain = vec![block(0, -16, 16, 16)]; // top edge at y == 0
    resolve_collisions(&mut b, &terrain);
    assert_eq!(b.y, 0);
    assert_eq!(b.vy, 0);
    assert!(b.grounded);
}

#[test]
fn falling_scenario_with_fractional_dt() {
    // velocity (0, -50), size (16, 16), old bottom exactly 5 above the
    // terrain top, dt = 0.2: the displacement crosses the boundary.
    let dt: f32 = 0.2;
    let dy = (-50.0_f32 * dt) as i32;
    assert_eq!(dy, -10);
    let terrain_top = 100;
    let mut b = body(0, terrain_top + 5, 0, dy, 16, 16);
    let terrain = vec![block(0, terrain_top - 32, 32, 32)];
    resolve_collisions(&mut b, &terrain);
    assert_eq!(b.y, terrain_top);
    assert_eq!(b.vy, 0);
    assert!(b.grounded);
}

#[test]
fn tie_break_resolves_vertically() {
    // ty == tx exactly: 5 units to the floor at fall speed 10, 5 units to
    // the wall at run speed 10. The vertical axis must win, every time.
    for _ in 0..50 {
        let mut b = body(0, 5, 10, -10, 16, 16);
        // Terrain ahead and below: old right edge at 16, terrain left at 21;
        // old bottom at 5, terrain top at 0.
        let terrain = vec![block(21, -16, 16, 16)];
        resolve_collisions(&mut b, &terrain);
        assert_eq!(b.y, 0, "vertical axis must resolve");
        assert_eq!(b.vy, 0);
        assert_eq!(b.x, 10, "horizontal axis must stay free");
        assert_eq!(b.vx, 10);
    }
}

#[test]
fn no_interaction_below_threshold() {
    // Swept rectangles that never overlap leave the motion exactly at
    // old_position + velocity.
    let mut b = body(0, 0, 3, -4, 16, 16);
    let terrain = vec![block(100, 100, 16, 16), block(-200, 0, 16, 16)];
    resolve_collisions(&mut b, &terrain);
    assert_eq!((b.x, b.y), (3, -4));
    assert_eq!((b.vx, b.vy), (3, -4));
    assert!(!b.grounded);
}

#[test]
fn touching_edges_do_not_interact() {
    // The swept rectangle merely touching a collider's edge is not an
    // overlap for terrain resolution.
    let mut b = body(0, 16, 5, 0, 16, 16);
    let terrain = vec![block(0, 0, 16, 16)]; // top edge == body bottom
    resolve_collisions(&mut b, &terrain);
    assert_eq!((b.x, b.y), (5, 16));
    assert_eq!(b.vx, 5);
}

#[test]
fn decorative_tiles_never_block() {
    let mut b = body(0, 5, 0, -10, 16, 16);
    let mut t = block(0, -16, 16, 16);
    t.collision = false;
    let terrain = vec![t];
    resolve_collisions(&mut b, &terrain);
    assert_eq!(b.y, -5);
    assert!(!b.grounded);
}

#[test]
fn ceiling_stops_rising_body() {
    let mut b = body(0, 0, 0, 10, 16, 16);
    let terrain = vec![block(0, 21, 16, 16)]; // bottom edge at 21, old top 16
    resolve_collisions(&mut b, &terrain);
    assert_eq!(b.y, 5); // clamped to terrain bottom minus height
    assert_eq!(b.vy, 0);
    assert!(!b.grounded, "a ceiling is no floor");
}

#[test]
fn wall_stops_running_body() {
    let mut b = body(0, 0, 10, 0, 16, 16);
    let terrain = vec![block(21, 0, 16, 16)];
    resolve_collisions(&mut b, &terrain);
    assert_eq!(b.x, 5); // terrain left minus body width
    assert_eq!(b.vx, 0);
    assert_eq!(b.motion_state, MotionState::Stopped);
}

#[test]
fn motion_state_derivation() {
    let mut b = body(0, 0, 7, 0, 16, 16);
    resolve_collisions(&mut b, &Vec::new());
    assert_eq!(b.motion_state, MotionState::Running);
    assert_eq!(b.direction, Dir::Right);

    let mut b = body(0, 0, -7, 3, 16, 16);
    resolve_collisions(&mut b, &Vec::new());
    assert_eq!(b.motion_state, MotionState::Jumping);
    assert_eq!(b.direction, Dir::Left);

    let mut b = body(0, 0, 0, 0, 16, 16);
    b.direction = Dir::Left;
    resolve_collisions(&mut b, &Vec::new());
    assert_eq!(b.motion_state, MotionState::Stopped);
    assert_eq!(b.direction, Dir::Left, "zero speed keeps the old facing");
}

#[test]
fn later_colliders_narrow_never_relax() {
    // Two floor tiles at different heights under one falling body: the
    // higher top wins.
    let mut b = body(0, 40, 0, -40, 16, 16);
    let terrain = vec![block(0, -16, 16, 16), block(4, 0, 16, 16)];
    resolve_collisions(&mut b, &terrain);
    assert_eq!(b.y, 16, "clamped to the higher floor");
    assert!(b.grounded);
}

#[test]
fn body_rectangle_spans_its_extent() {
    let r = to_rect(-3, 7, 16, 20);
    assert_eq!((r.left, r.right), (-3, 13));
    assert_eq!((r.bottom, r.top), (7, 27));
}

#[test]
fn flip_decision() {
    assert!(!needs_flip(Dir::Right, Dir::Right));
    assert!(needs_flip(Dir::Left, Dir::Right));
    assert!(needs_flip(Dir::Right, Dir::Left));
    assert!(!needs_flip(Dir::Left, Dir::Left));
}
