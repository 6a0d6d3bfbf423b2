use vstd::prelude::*;

use crate::animation::Animate;
use crate::geom::clamp_coord;
use crate::geom::COORD_LIMIT;
use crate::intent::{
    after_gravity_body, after_motion, apply_gravity, apply_motion, CharMotion, IntentConfig,
};
use crate::physics::{
    lemma_resolve_seq_bounds, resolve_collisions, resolved_body, KinematicBody, TerrainCollider,
};
use crate::streaming::{updated, ArenaEntry, StreamingWindow};
use crate::timer::TickTimer;

verus! {

/// One simulated actor: its kinematic body, the movement intent the input
/// layer or the AI wrote this frame, and its animation state.
pub struct Actor {
    pub body: KinematicBody,
    pub motion: CharMotion,
    pub animate: Animate,
    pub anim_timer: TickTimer,
    pub sprite: u32,
}

impl Actor {
    /// A well-formed actor: body inside the world budget, animation
    /// sequences non-empty, counter advanceable.
    pub open spec fn wf(self) -> bool {
        &&& self.body.wf()
        &&& self.animate.config.wf()
        &&& self.animate.index < usize::MAX
    }
}

/// The body held inside the world budget after a resolver pass, so the
/// next tick starts well formed; only positions at the very edge of the
/// world are moved.
pub open spec fn budgeted_body(b: KinematicBody) -> KinematicBody {
    KinematicBody { x: clamp_coord(b.x as int) as i32, y: clamp_coord(b.y as int) as i32, ..b }
}

/// One actor's whole tick, in the fixed phase order: the movement intent
/// (for the intent-driven actor), gravity, collision resolution against
/// the active colliders, the world-budget clamp, and the animation step.
pub open spec fn actor_after_tick(
    a: Actor,
    use_intent: bool,
    debug: bool,
    cfg: IntentConfig,
    ts: Seq<TerrainCollider>,
    dt: u32,
) -> Actor {
    let b1 = if use_intent {
        after_motion(a.body, a.motion, debug, cfg)
    } else {
        a.body
    };
    let b2 = after_gravity_body(b1, cfg.gravity, debug);
    let b3 = budgeted_body(resolved_body(b2, ts));
    let fires = a.anim_timer.fires(dt);
    let s = a.animate.config.sequence(b3.motion_state);
    let idx = ((a.animate.index + 1) % (s.len() as int)) as usize;
    Actor {
        body: b3,
        motion: a.motion,
        animate: if fires {
            Animate { index: idx, config: a.animate.config }
        } else {
            a.animate
        },
        anim_timer: a.anim_timer.after_tick(dt),
        sprite: if fires {
            s[idx as int]
        } else {
            a.sprite
        },
    }
}

/// Runs one actor through the intent, gravity, collision and animation
/// phases, exactly as `actor_after_tick` describes.
#[verifier::spinoff_prover]
#[verifier::rlimit(100)]
pub fn actor_tick(
    a: &mut Actor,
    use_intent: bool,
    debug: bool,
    cfg: &IntentConfig,
    terrains: &Vec<TerrainCollider>,
    dt: u32,
)
    requires
        old(a).wf(),
        cfg.wf(),
        forall|i: int| 0 <= i < terrains@.len() ==> (#[trigger] terrains@[i]).wf(),
    ensures
        *final(a) == actor_after_tick(*old(a), use_intent, debug, *cfg, terrains@, dt),
        final(a).wf(),
{
    let ghost expected = actor_after_tick(*old(a), use_intent, debug, *cfg, terrains@, dt);
    if use_intent {
        apply_motion(&mut a.body, &a.motion, debug, cfg);
    }
    apply_gravity(&mut a.body, cfg.gravity, debug);
    let ghost b2 = a.body;
    resolve_collisions(&mut a.body, terrains);
    proof {
        lemma_resolve_seq_bounds(b2, terrains@);
        assert(a.body == resolved_body(b2, terrains@));
    }
    if a.body.x > COORD_LIMIT {
        a.body.x = COORD_LIMIT;
    } else if a.body.x < -COORD_LIMIT {
        a.body.x = -COORD_LIMIT;
    }
    if a.body.y > COORD_LIMIT {
        a.body.y = COORD_LIMIT;
    } else if a.body.y < -COORD_LIMIT {
        a.body.y = -COORD_LIMIT;
    }
    proof {
        assert(a.body == expected.body) by {
            assert(a.body == budgeted_body(resolved_body(b2, terrains@)));
        }
        assert(a.body.wf());
    }
    let fired = a.anim_timer.tick(dt);
    if fired {
        a.sprite = a.animate.next(a.body.motion_state);
    }
    proof {
        assert(a.anim_timer == expected.anim_timer);
        assert(a.animate == expected.animate);
        assert(a.sprite == expected.sprite);
        assert(a.motion == expected.motion);
        assert(*a == expected);
    }
}

/// The whole mutable state one frame touches: the streaming window with
/// its collider arena, the player, the enemies, and the fixed tuning.
pub struct SimulationContext {
    pub window: StreamingWindow,
    pub player: Actor,
    pub enemies: Vec<Actor>,
    pub intent_cfg: IntentConfig,
    pub debug_mode: bool,
}

impl SimulationContext {
    /// Every part is well formed.
    pub open spec fn wf(self) -> bool {
        &&& self.window.wf()
        &&& self.player.wf()
        &&& forall|i: int| 0 <= i < self.enemies@.len() ==> (#[trigger] self.enemies@[i]).wf()
        &&& self.intent_cfg.wf()
    }
}

/// One frame of the simulation, in the fixed order: the player's intent,
/// gravity, the streaming window around the player (the camera's focal
/// point), collision resolution for every actor against the freshly
/// streamed colliders, and the animation step. Enemy intents (the random
/// walk) are produced upstream and already sit in the enemy bodies'
/// velocities.
pub fn simulation_tick(ctx: &mut SimulationContext, dt: u32)
    requires
        old(ctx).wf(),
        old(ctx).window.next_id + old(ctx).window.cells@.len() <= u64::MAX,
    ensures
        final(ctx).wf(),
        final(ctx).intent_cfg == old(ctx).intent_cfg,
        final(ctx).debug_mode == old(ctx).debug_mode,
        updated(
            old(ctx).window,
            final(ctx).window,
            old(ctx).player.body.x as int,
            old(ctx).player.body.y as int,
            dt,
        ),
        ({
            let c0 = *old(ctx);
            let c1 = *final(ctx);
            let ts = c1.window.entries@.map_values(|e: ArenaEntry| e.collider);
            let debug = c0.debug_mode;
            let cfg = c0.intent_cfg;
            &&& c1.player == actor_after_tick(c0.player, true, debug, cfg, ts, dt)
            &&& c1.enemies@.len() == c0.enemies@.len()
            &&& forall|i: int| 0 <= i < c0.enemies@.len() ==> #[trigger] c1.enemies@[i]
                == actor_after_tick(c0.enemies@[i], false, debug, cfg, ts, dt)
        }),
{
    let ghost c0 = *old(ctx);
    let fx = ctx.player.body.x;
    let fy = ctx.player.body.y;
    ctx.window.update(fx, fy, dt);
    let terrains = ctx.window.colliders();
    actor_tick(&mut ctx.player, true, ctx.debug_mode, &ctx.intent_cfg, &terrains, dt);
    let ghost w1 = ctx.window;
    let mut i: usize = 0;
    while i < ctx.enemies.len()
        invariant
            i <= ctx.enemies@.len(),
            c0 == *old(ctx),
            ctx.window == w1,
            ctx.enemies@.len() == old(ctx).enemies@.len(),
            ctx.intent_cfg == old(ctx).intent_cfg,
            ctx.debug_mode == old(ctx).debug_mode,
            ctx.intent_cfg.wf(),
            ctx.window.wf(),
            updated(c0.window, ctx.window, c0.player.body.x as int, c0.player.body.y as int, dt),
            ctx.player == actor_after_tick(
                c0.player,
                true,
                c0.debug_mode,
                c0.intent_cfg,
                terrains@,
                dt,
            ),
            ctx.player.wf(),
            terrains@ == ctx.window.entries@.map_values(|e: ArenaEntry| e.collider),
            forall|k: int| 0 <= k < terrains@.len() ==> (#[trigger] terrains@[k]).wf(),
            forall|j: int| 0 <= j < c0.enemies@.len() ==> (#[trigger] c0.enemies@[j]).wf(),
            forall|j: int| i <= j < ctx.enemies@.len() ==> (#[trigger] ctx.enemies@[j])
                == c0.enemies@[j],
            forall|j: int| 0 <= j < i ==> (#[trigger] ctx.enemies@[j]) == actor_after_tick(
                c0.enemies@[j],
                false,
                c0.debug_mode,
                c0.intent_cfg,
                terrains@,
                dt,
            ) && ctx.enemies@[j].wf(),
        decreases ctx.enemies@.len() - i,
    {
        let ghost pre = ctx.enemies@;
        actor_tick(
            &mut ctx.enemies[i],
            false,
            ctx.debug_mode,
            &ctx.intent_cfg,
            &terrains,
            dt,
        );
        proof {
            assert forall|j: int| i as int + 1 <= j < ctx.enemies@.len() implies (
            #[trigger] ctx.enemies@[j]) == c0.enemies@[j] by {
                assert(ctx.enemies@ == pre.update(i as int, ctx.enemies@[i as int]));
                assert(ctx.enemies@[j] == pre[j]);
                assert(pre[j] == c0.enemies@[j]);
            }
            assert forall|j: int| 0 <= j < i as int implies (#[trigger] ctx.enemies@[j])
                == actor_after_tick(c0.enemies@[j], false, c0.debug_mode, c0.intent_cfg, terrains@, dt)
                && ctx.enemies@[j].wf() by {
                assert(ctx.enemies@ == pre.update(i as int, ctx.enemies@[i as int]));
                assert(ctx.enemies@[j] == pre[j]);
            }
        }
        i += 1;
    }
}

} // verus!
