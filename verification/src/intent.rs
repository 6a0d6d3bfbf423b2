use vstd::prelude::*;

use crate::geom::{coord_ok, COORD_LIMIT};
use crate::physics::KinematicBody;

verus! {

/// The per-actor movement intent, as the input layer hands it over.
#[derive(Clone, Copy, PartialEq, Eq, Structural, Debug)]
pub struct CharMotion {
    pub up: bool,
    pub down: bool,
    pub left: bool,
    pub right: bool,
    pub attack: bool,
}

impl Default for CharMotion {
    /// No intent held.
    fn default() -> (r: CharMotion)
        ensures
            r == (CharMotion { up: false, down: false, left: false, right: false, attack: false }),
    {
        CharMotion { up: false, down: false, left: false, right: false, attack: false }
    }
}

/// Per-tick speeds used when turning intent into velocity.
#[derive(Clone, Copy, PartialEq, Eq, Structural, Debug)]
pub struct IntentConfig {
    pub run_speed: i32,
    pub jump_speed: i32,
    pub fly_speed: i32,
    pub gravity: i32,
}

impl IntentConfig {
    /// Speeds stay inside the world budget.
    pub open spec fn wf(self) -> bool {
        &&& 0 <= self.run_speed <= COORD_LIMIT
        &&& 0 <= self.jump_speed <= COORD_LIMIT
        &&& 0 <= self.fly_speed <= COORD_LIMIT
        &&& 0 <= self.gravity <= COORD_LIMIT
    }
}

/// The body after one application of the movement intent: debug mode flies
/// freely on the vertical axis; otherwise an `up` intent jumps only from
/// the ground and consumes the grounding. The horizontal speed follows the
/// held direction, or stops.
pub open spec fn after_motion(
    b: KinematicBody,
    m: CharMotion,
    debug_mode: bool,
    cfg: IntentConfig,
) -> KinematicBody {
    let vy = if debug_mode {
        if m.up {
            cfg.fly_speed
        } else if m.down {
            (-cfg.fly_speed) as i32
        } else {
            0
        }
    } else if m.up && b.grounded {
        cfg.jump_speed
    } else {
        b.vy
    };
    let grounded = if !debug_mode && m.up && b.grounded {
        false
    } else {
        b.grounded
    };
    let vx = if m.right {
        cfg.run_speed
    } else if m.left {
        (-cfg.run_speed) as i32
    } else {
        0
    };
    KinematicBody { vx, vy, grounded, ..b }
}

/// Turns the held intent into this tick's velocity, as `after_motion`
/// describes.
pub fn apply_motion(
    body: &mut KinematicBody,
    motion: &CharMotion,
    debug_mode: bool,
    cfg: &IntentConfig,
)
    requires
        old(body).wf(),
        cfg.wf(),
    ensures
        *final(body) == after_motion(*old(body), *motion, debug_mode, *cfg),
        final(body).wf(),
{
    if debug_mode {
        if motion.up {
            body.vy = cfg.fly_speed;
        } else if motion.down {
            body.vy = -cfg.fly_speed;
        } else {
            body.vy = 0;
        }
    } else if motion.up && body.grounded {
        body.vy = cfg.jump_speed;
        body.grounded = false;
    }
    if motion.right {
        body.vx = cfg.run_speed;
    } else if motion.left {
        body.vx = -cfg.run_speed;
    } else {
        body.vx = 0;
    }
}

/// The vertical velocity after one tick of gravity: lowered by the gravity
/// constant, held at the world budget's floor so the fall speed stays
/// representable.
pub open spec fn after_gravity(vy: int, gravity: int) -> int {
    if vy - gravity >= -(COORD_LIMIT as int) {
        vy - gravity
    } else {
        -(COORD_LIMIT as int)
    }
}

/// The body after one tick of gravity; debug mode suspends it.
pub open spec fn after_gravity_body(b: KinematicBody, gravity: i32, debug_mode: bool) -> KinematicBody {
    if debug_mode {
        b
    } else {
        KinematicBody { vy: after_gravity(b.vy as int, gravity as int) as i32, ..b }
    }
}

/// Applies one tick of gravity to the body, as `after_gravity_body`
/// describes.
pub fn apply_gravity(body: &mut KinematicBody, gravity: i32, debug_mode: bool)
    requires
        old(body).wf(),
        0 <= gravity <= COORD_LIMIT,
    ensures
        *final(body) == after_gravity_body(*old(body), gravity, debug_mode),
        final(body).wf(),
{
    if debug_mode {
        return ;
    }
    let next: i64 = body.vy as i64 - gravity as i64;
    body.vy = if next >= -COORD_LIMIT as i64 {
        next as i32
    } else {
        -COORD_LIMIT
    };
}

} // verus!
