use vstd::prelude::*;

use rand::Rng;

use crate::geom::{clamp_coord, coord_ok, rect_model, RectModel, COORD_LIMIT};
use crate::physics::{Dir, KinematicBody};
use crate::timer::TickTimer;

verus! {

/// Side length of a projectile's square hit box.
pub const ATTACK_EXTENT: i32 = 16;

/// A projectile in flight; velocity in world units per tick.
#[derive(Clone, Copy, PartialEq, Eq, Structural, Debug)]
pub struct Projectile {
    pub x: i32,
    pub y: i32,
    pub vx: i32,
    pub vy: i32,
}

impl Projectile {
    /// Position and velocity inside the world budget.
    pub open spec fn wf(self) -> bool {
        &&& coord_ok(self.x as int)
        &&& coord_ok(self.y as int)
        &&& coord_ok(self.vx as int)
        &&& coord_ok(self.vy as int)
    }

    /// The projectile's square hit box.
    pub open spec fn rect(self) -> RectModel {
        rect_model(self.x as int, self.y as int, ATTACK_EXTENT as int, ATTACK_EXTENT as int)
    }

    /// One tick of flight: the position moves by the velocity, held inside
    /// the world budget so it stays representable until the streaming pass
    /// culls it.
    pub fn step(&mut self)
        requires
            old(self).wf(),
        ensures
            final(self).x as int == clamp_coord(old(self).x + old(self).vx),
            final(self).y as int == clamp_coord(old(self).y + old(self).vy),
            final(self).vx == old(self).vx,
            final(self).vy == old(self).vy,
            final(self).wf(),
    {
        let nx: i64 = self.x as i64 + self.vx as i64;
        let ny: i64 = self.y as i64 + self.vy as i64;
        self.x = if nx < -COORD_LIMIT as i64 {
            -COORD_LIMIT
        } else if nx > COORD_LIMIT as i64 {
            COORD_LIMIT
        } else {
            nx as i32
        };
        self.y = if ny < -COORD_LIMIT as i64 {
            -COORD_LIMIT
        } else if ny > COORD_LIMIT as i64 {
            COORD_LIMIT
        } else {
            ny as i32
        };
    }
}

/// The combat hit test: unlike the terrain test, boxes that merely touch
/// on an edge already count as a hit.
pub open spec fn hits_rect(target: RectModel, p: RectModel) -> bool {
    !(target.right < p.left || p.right < target.left || target.top < p.bottom || p.top
        < target.bottom)
}

/// The square hit box of a projectile recorded as `(handle, x, y)`.
pub open spec fn projectile_rect(p: (u64, i32, i32)) -> RectModel {
    rect_model(p.1 as int, p.2 as int, ATTACK_EXTENT as int, ATTACK_EXTENT as int)
}

/// The handles of the projectiles that hit the target, in order.
pub open spec fn hit_ids(target: RectModel, ps: Seq<(u64, i32, i32)>) -> Seq<u64>
    decreases ps.len(),
{
    if ps.len() == 0 {
        Seq::empty()
    } else {
        hit_ids(target, ps.drop_last()) + if hits_rect(target, projectile_rect(ps.last())) {
            seq![ps.last().0]
        } else {
            Seq::empty()
        }
    }
}

/// Collects the projectiles whose hit boxes touch the body's rectangle:
/// each one deals one hit and is despawned.
pub fn collect_hits(body: &KinematicBody, positions: &Vec<(u64, i32, i32)>) -> (r: Vec<u64>)
    requires
        body.wf(),
    ensures
        r@ == hit_ids(body.old_rect(), positions@),
{
    let left: i64 = body.x as i64;
    let right: i64 = body.x as i64 + body.w as i64;
    let bottom: i64 = body.y as i64;
    let top: i64 = body.y as i64 + body.h as i64;
    let mut r: Vec<u64> = Vec::new();
    let mut i: usize = 0;
    while i < positions.len()
        invariant
            i <= positions@.len(),
            left == body.x as int,
            right == body.old_rect().right,
            bottom == body.y as int,
            top == body.old_rect().top,
            r@ == hit_ids(body.old_rect(), positions@.take(i as int)),
        decreases positions@.len() - i,
    {
        proof {
            assert(positions@.take(i as int + 1).drop_last() =~= positions@.take(i as int));
            assert(positions@.take(i as int + 1).last() == positions@[i as int]);
        }
        let (id, px, py) = positions[i];
        let p_left: i64 = px as i64;
        let p_right: i64 = px as i64 + ATTACK_EXTENT as i64;
        let p_bottom: i64 = py as i64;
        let p_top: i64 = py as i64 + ATTACK_EXTENT as i64;
        let miss = right < p_left || p_right < left || top < p_bottom || p_top < bottom;
        if !miss {
            r.push(id);
        }
        i += 1;
    }
    proof {
        assert(positions@.take(positions@.len() as int) =~= positions@);
    }
    r
}

/// Applies `n` hits to a life total: each hit costs one life, and the
/// holder dies the moment the total reaches zero.
pub fn apply_hits(life: u32, n: u32) -> (r: (u32, bool))
    requires
        n <= life,
    ensures
        r.0 == life - n,
        r.1 == (r.0 == 0 && n > 0),
{
    let remaining = life - n;
    (remaining, remaining == 0 && n > 0)
}

/// The player's ranged attack: when the cooldown has elapsed and the
/// attack intent is held, the cooldown starts over and a projectile leaves
/// at the facing direction's speed; otherwise nothing is emitted.
pub fn try_shoot(
    cooldown: &mut TickTimer,
    attack_held: bool,
    dir: Dir,
    x: i32,
    y: i32,
    speed: i32,
    dt: u32,
) -> (r: Option<Projectile>)
    requires
        0 <= speed <= COORD_LIMIT,
    ensures
        (old(cooldown).fires(dt) && attack_held) ==> r == Some(
            Projectile {
                x,
                y,
                vx: if dir == Dir::Right {
                    speed
                } else {
                    (-speed) as i32
                },
                vy: 0,
            },
        ) && *final(cooldown) == (TickTimer { elapsed: 0, ..*old(cooldown) }),
        !(old(cooldown).fires(dt) && attack_held) ==> r.is_none() && *final(cooldown)
            == old(cooldown).after_tick(dt),
{
    let fired = cooldown.tick(dt);
    if fired && attack_held {
        cooldown.reset();
        let vx = if matches!(dir, Dir::Right) {
            speed
        } else {
            -speed
        };
        Some(Projectile { x, y, vx, vy: 0 })
    } else {
        None
    }
}

/// Tuning of an enemy's wander behaviour: per-mille chances drawn each
/// time the walk timer fires, and the speeds they set.
#[derive(Clone, Copy, PartialEq, Eq, Structural, Debug)]
pub struct WalkConfig {
    pub move_permille: u32,
    pub jump_permille: u32,
    pub jump_speed: i32,
    pub max_run: i32,
}

impl WalkConfig {
    /// Speeds inside the world budget; the run range is never empty.
    pub open spec fn wf(self) -> bool {
        &&& 1 <= self.max_run <= COORD_LIMIT
        &&& 0 <= self.jump_speed <= COORD_LIMIT
    }
}

/// Enemy wander: when the walk timer fires, one draw may set the vertical
/// speed to the jump speed and another either picks a horizontal speed
/// from the run range or stops the enemy. The draws are random, so only
/// the range of every outcome is promised; the body is otherwise
/// untouched.
pub fn random_walk(body: &mut KinematicBody, timer: &mut TickTimer, cfg: &WalkConfig, dt: u32)
    requires
        old(body).wf(),
        cfg.wf(),
    ensures
        *final(timer) == old(timer).after_tick(dt),
        ({
            let b0 = *old(body);
            let b1 = *final(body);
            &&& b1.x == b0.x
            &&& b1.y == b0.y
            &&& b1.w == b0.w
            &&& b1.h == b0.h
            &&& b1.grounded == b0.grounded
            &&& b1.direction == b0.direction
            &&& b1.motion_state == b0.motion_state
        }),
        !old(timer).fires(dt) ==> *final(body) == *old(body),
        old(timer).fires(dt) ==> (final(body).vy == old(body).vy || final(body).vy
            == cfg.jump_speed) && -cfg.max_run <= final(body).vx < cfg.max_run,
        final(body).wf(),
{
    let fired = timer.tick(dt);
    if fired {
        if draw_permille() < cfg.jump_permille {
            body.vy = cfg.jump_speed;
        }
        if draw_permille() < cfg.move_permille {
            body.vx = draw_in_range(-cfg.max_run, cfg.max_run);
        } else {
            body.vx = 0;
        }
    }
}

/// Enemy volley gate: when the volley timer fires, a draw decides whether
/// the volley is emitted this tick. The draw is random, so the result is
/// free; all that is promised is that nothing fires between timer
/// expirations.
pub fn random_attack_gate(timer: &mut TickTimer, threshold_permille: u32, dt: u32) -> (fire: bool)
    ensures
        *final(timer) == old(timer).after_tick(dt),
        fire ==> old(timer).fires(dt),
{
    let fired = timer.tick(dt);
    if fired {
        draw_permille() > threshold_permille
    } else {
        false
    }
}

/// Relies on rand::thread_rng and Rng::gen_range over `0..1000`: a
/// uniform draw strictly below one thousand. Nothing more can be promised
/// of a random value.
#[verifier::external_body]
fn draw_permille() -> (r: u32)
    ensures
        r < 1000,
{
    rand::thread_rng().gen_range(0..1000u32)
}

/// Relies on rand::thread_rng and Rng::gen_range over `lo..hi`: a value
/// inside the half-open range; the call panics only on an empty range,
/// which the precondition rules out.
#[verifier::external_body]
fn draw_in_range(lo: i32, hi: i32) -> (r: i32)
    requires
        lo < hi,
    ensures
        lo <= r < hi,
{
    rand::thread_rng().gen_range(lo..hi)
}

} // verus!
