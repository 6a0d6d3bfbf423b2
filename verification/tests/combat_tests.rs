use platformer_core::combat::{
    apply_hits, collect_hits, random_attack_gate, random_walk, try_shoot, Projectile, WalkConfig,
};
use platformer_core::physics::{Dir, KinematicBody, MotionState};
use platformer_core::timer::TickTimer;

fn body_at(x: i32, y: i32) -> KinematicBody {
    KinematicBody {
        x,
        y,
        vx: 0,
        vy: 0,
        w: 16,
        h: 16,
        grounded: false,
        direction: Dir::Right,
        motion_state: MotionState::Stopped,
    }
}

#[test]
fn hits_collect_touching_boxes() {
    let b = body_at(0, 0);
    // Combat boxes that merely touch already count as a hit.
    let positions = vec![
        (1_u64, 16, 0),  // touching the right edge: hit
        (2_u64, 17, 0),  // one unit beyond: miss
        (3_u64, 0, -16), // touching below: hit
        (4_u64, -17, 0), // beyond on the left: miss
        (5_u64, 4, 4),   // inside: hit
    ];
    assert_eq!(collect_hits(&b, &positions), vec![1, 3, 5]);
}

#[test]
fn hits_cost_one_life_each() {
    assert_eq!(apply_hits(10, 2), (8, false));
    assert_eq!(apply_hits(2, 2), (0, true));
    assert_eq!(apply_hits(5, 0), (5, false));
    assert_eq!(apply_hits(0, 0), (0, false), "no hit never kills");
}

#[test]
fn shooting_respects_cooldown_and_direction() {
    let mut cooldown = TickTimer::new(5, false);
    // Cooldown not elapsed: nothing leaves.
    assert!(try_shoot(&mut cooldown, true, Dir::Right, 0, 0, 500, 2).is_none());
    // Elapsed and held: a projectile leaves at facing speed.
    let p = try_shoot(&mut cooldown, true, Dir::Right, 10, 20, 500, 3).unwrap();
    assert_eq!(p, Projectile { x: 10, y: 20, vx: 500, vy: 0 });
    // The cooldown started over.
    assert!(try_shoot(&mut cooldown, true, Dir::Right, 0, 0, 500, 4).is_none());
    let p = try_shoot(&mut cooldown, true, Dir::Left, 0, 0, 500, 1).unwrap();
    assert_eq!(p.vx, -500);
}

#[test]
fn held_attack_without_elapsed_timer_waits() {
    let mut cooldown = TickTimer::new(100, false);
    for _ in 0..9 {
        assert!(try_shoot(&mut cooldown, true, Dir::Right, 0, 0, 500, 10).is_none());
    }
    assert!(try_shoot(&mut cooldown, true, Dir::Right, 0, 0, 500, 10).is_some());
}

#[test]
fn projectile_flies_by_its_velocity() {
    let mut p = Projectile { x: 3, y: -4, vx: 10, vy: -20 };
    p.step();
    assert_eq!((p.x, p.y), (13, -24));
    assert_eq!((p.vx, p.vy), (10, -20));
}

#[test]
fn random_walk_outcomes_stay_in_range() {
    let cfg = WalkConfig { move_permille: 1000, jump_permille: 1000, jump_speed: 200, max_run: 100 };
    for _ in 0..200 {
        let mut b = body_at(0, 0);
        let mut t = TickTimer::new(1, true);
        random_walk(&mut b, &mut t, &cfg, 1);
        assert!(b.vx >= -100 && b.vx < 100);
        assert!(b.vy == 0 || b.vy == 200);
        assert_eq!((b.x, b.y), (0, 0), "wandering writes velocity, not position");
    }
}

#[test]
fn random_walk_waits_for_its_timer() {
    let cfg = WalkConfig { move_permille: 1000, jump_permille: 1000, jump_speed: 200, max_run: 100 };
    let mut b = body_at(5, 6);
    let mut t = TickTimer::new(100, true);
    random_walk(&mut b, &mut t, &cfg, 1);
    assert_eq!((b.vx, b.vy), (0, 0), "nothing moves before the walk timer fires");
}

#[test]
fn attack_gate_never_fires_early() {
    let mut t = TickTimer::new(10, true);
    for _ in 0..100 {
        assert!(!random_attack_gate(&mut t, 600, 3));
        t.reset();
    }
}
