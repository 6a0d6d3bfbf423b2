use vstd::prelude::*;

use crate::geom::{coord_ok, overlaps, rect_model, RectModel, COORD_LIMIT};

verus! {

/// Which way an actor faces.
#[derive(Clone, Copy, PartialEq, Eq, Structural, Debug)]
pub enum Dir {
    Left,
    Right,
}

/// The closed set of motion states an actor can be in.
#[derive(Clone, Copy, PartialEq, Eq, Structural, Debug)]
pub enum MotionState {
    Stopped,
    Running,
    Jumping,
}

/// A kinematic actor: bottom-left anchored rectangle, per-tick velocity,
/// and the flags the resolver maintains. Velocities are measured in world
/// units per tick, so the proposed displacement of a tick is `(vx, vy)`.
#[derive(Clone, Copy, PartialEq, Eq, Structural, Debug)]
pub struct KinematicBody {
    pub x: i32,
    pub y: i32,
    pub vx: i32,
    pub vy: i32,
    pub w: i32,
    pub h: i32,
    pub grounded: bool,
    pub direction: Dir,
    pub motion_state: MotionState,
}

/// A static terrain collider instance occupying one grid cell.
/// `collision == false` marks a decorative tile that blocks nothing.
#[derive(Clone, Copy, PartialEq, Eq, Structural, Debug)]
pub struct TerrainCollider {
    pub grid_x: u32,
    pub grid_y: u32,
    pub x: i32,
    pub y: i32,
    pub w: i32,
    pub h: i32,
    pub collision: bool,
}

impl KinematicBody {
    /// All coordinates, extents and velocities inside the world budget.
    pub open spec fn wf(self) -> bool {
        &&& coord_ok(self.x as int)
        &&& coord_ok(self.y as int)
        &&& coord_ok(self.vx as int)
        &&& coord_ok(self.vy as int)
        &&& 0 <= self.w <= COORD_LIMIT
        &&& 0 <= self.h <= COORD_LIMIT
    }

    /// The body's rectangle at its current position.
    pub open spec fn old_rect(self) -> RectModel {
        rect_model(self.x as int, self.y as int, self.w as int, self.h as int)
    }

    /// The body's rectangle at the naively displaced position, one tick on.
    pub open spec fn swept_rect(self) -> RectModel {
        rect_model(
            self.x + self.vx,
            self.y + self.vy,
            self.w as int,
            self.h as int,
        )
    }
}

impl TerrainCollider {
    /// Coordinates and extents inside the world budget.
    pub open spec fn wf(self) -> bool {
        &&& coord_ok(self.x as int)
        &&& coord_ok(self.y as int)
        &&& 0 <= self.w <= COORD_LIMIT
        &&& 0 <= self.h <= COORD_LIMIT
    }

    /// The collider's world rectangle.
    pub open spec fn rect(self) -> RectModel {
        rect_model(self.x as int, self.y as int, self.w as int, self.h as int)
    }
}

/// A collider takes part in this tick's resolution only when it blocks and
/// the body's swept rectangle overlaps it.
pub open spec fn interacts(b: KinematicBody, t: TerrainCollider) -> bool {
    t.collision && overlaps(b.swept_rect(), t.rect())
}

/// The body is falling towards the collider's top edge: a finite time until
/// a floor impact exists.
pub open spec fn gate_down(b: KinematicBody, t: TerrainCollider) -> bool {
    b.vy < 0 && t.rect().top <= b.old_rect().bottom
}

/// The body is rising towards the collider's bottom edge.
pub open spec fn gate_up(b: KinematicBody, t: TerrainCollider) -> bool {
    b.vy > 0 && b.old_rect().top <= t.rect().bottom
}

/// A finite vertical impact time exists.
pub open spec fn gate_y(b: KinematicBody, t: TerrainCollider) -> bool {
    gate_down(b, t) || gate_up(b, t)
}

/// The body moves left towards the collider's right edge.
pub open spec fn gate_left(b: KinematicBody, t: TerrainCollider) -> bool {
    b.vx < 0 && t.rect().right <= b.old_rect().left
}

/// The body moves right towards the collider's left edge.
pub open spec fn gate_right(b: KinematicBody, t: TerrainCollider) -> bool {
    b.vx > 0 && b.old_rect().right <= t.rect().left
}

/// A finite horizontal impact time exists.
pub open spec fn gate_x(b: KinematicBody, t: TerrainCollider) -> bool {
    gate_left(b, t) || gate_right(b, t)
}

/// Distance from the body's leading vertical edge to the collider's facing
/// edge; non-negative under `gate_y`. The vertical impact time is
/// `ty = ty_dist / |vy|`.
pub open spec fn ty_dist(b: KinematicBody, t: TerrainCollider) -> int {
    if b.vy < 0 {
        b.old_rect().bottom - t.rect().top
    } else {
        t.rect().bottom - b.old_rect().top
    }
}

/// Distance from the body's leading horizontal edge to the collider's facing
/// edge; non-negative under `gate_x`. The horizontal impact time is
/// `tx = tx_dist / |vx|`.
pub open spec fn tx_dist(b: KinematicBody, t: TerrainCollider) -> int {
    if b.vx < 0 {
        b.old_rect().left - t.rect().right
    } else {
        t.rect().left - b.old_rect().right
    }
}

/// Tie-break rule: the vertical axis resolves first exactly when
/// `ty <= tx`, where a failed gate stands for an infinite impact time and
/// finite times are compared by cross-multiplication:
/// `ty_dist/|vy| <= tx_dist/|vx|  <==>  ty_dist*|vx| <= tx_dist*|vy|`.
pub open spec fn vertical_first(b: KinematicBody, t: TerrainCollider) -> bool {
    if gate_y(b, t) {
        if gate_x(b, t) {
            ty_dist(b, t) * vstd::math::abs(b.vx as int) <= tx_dist(b, t) * vstd::math::abs(
                b.vy as int,
            )
        } else {
            true
        }
    } else {
        !gate_x(b, t)
    }
}

/// The per-axis candidate position, remaining velocity and grounded flag
/// folded over the colliders of one tick.
pub struct ResolveState {
    pub px: int,
    pub py: int,
    pub vx: int,
    pub vy: int,
    pub grounded: bool,
}

/// Where a tick starts: the naive displacement, full velocity, not grounded.
pub open spec fn resolve_init(b: KinematicBody) -> ResolveState {
    ResolveState {
        px: b.x + b.vx,
        py: b.y + b.vy,
        vx: b.vx as int,
        vy: b.vy as int,
        grounded: false,
    }
}

/// One collider's contribution: nothing without interaction; otherwise the
/// winning axis clamps the candidate position towards the blocking edge
/// (later colliders only narrow, never relax) and its velocity component is
/// zeroed. A downward vertical resolution grounds the body.
pub open spec fn resolve_one(
    b: KinematicBody,
    s: ResolveState,
    t: TerrainCollider,
) -> ResolveState {
    if !interacts(b, t) {
        s
    } else if vertical_first(b, t) {
        if b.vy < 0 {
            ResolveState {
                py: if t.rect().top > s.py { t.rect().top } else { s.py },
                vy: 0,
                grounded: true,
                ..s
            }
        } else {
            ResolveState {
                py: if t.rect().bottom - b.h < s.py { t.rect().bottom - b.h } else { s.py },
                vy: 0,
                ..s
            }
        }
    } else {
        if b.vx < 0 {
            ResolveState {
                px: if t.rect().right > s.px { t.rect().right } else { s.px },
                vx: 0,
                ..s
            }
        } else {
            ResolveState {
                px: if t.rect().left - b.w < s.px { t.rect().left - b.w } else { s.px },
                vx: 0,
                ..s
            }
        }
    }
}

/// The single pass over all active colliders, in order.
pub open spec fn resolve_seq(b: KinematicBody, ts: Seq<TerrainCollider>) -> ResolveState
    decreases ts.len(),
{
    if ts.len() == 0 {
        resolve_init(b)
    } else {
        resolve_one(b, resolve_seq(b, ts.drop_last()), ts.last())
    }
}

/// The facing direction after a tick: the sign of the remaining horizontal
/// velocity, unchanged when it is zero.
pub open spec fn derived_direction(d: Dir, vx: int) -> Dir {
    if vx > 0 {
        Dir::Right
    } else if vx < 0 {
        Dir::Left
    } else {
        d
    }
}

/// The motion state after a tick, from the remaining velocity.
pub open spec fn derived_state(vx: int, vy: int) -> MotionState {
    if vy != 0 {
        MotionState::Jumping
    } else if vx != 0 {
        MotionState::Running
    } else {
        MotionState::Stopped
    }
}

/// The whole of one resolver call: the folded pass written back into the
/// body, with the direction and motion state derived from the remaining
/// velocity. Meaningful when the body and colliders are well formed, which
/// keeps the folded positions representable.
pub open spec fn resolved_body(b: KinematicBody, ts: Seq<TerrainCollider>) -> KinematicBody {
    let s = resolve_seq(b, ts);
    KinematicBody {
        x: s.px as i32,
        y: s.py as i32,
        vx: s.vx as i32,
        vy: s.vy as i32,
        grounded: s.grounded,
        direction: derived_direction(b.direction, s.vx),
        motion_state: derived_state(s.vx, s.vy),
        ..b
    }
}

/// The fold keeps candidate positions inside twice the world budget and
/// only ever keeps or zeroes each velocity component.
pub proof fn lemma_resolve_seq_bounds(b: KinematicBody, ts: Seq<TerrainCollider>)
    requires
        b.wf(),
        forall|i: int| 0 <= i < ts.len() ==> (#[trigger] ts[i]).wf(),
    ensures
        ({
            let s = resolve_seq(b, ts);
            &&& -2 * (COORD_LIMIT as int) <= s.px <= 2 * (COORD_LIMIT as int)
            &&& -2 * (COORD_LIMIT as int) <= s.py <= 2 * (COORD_LIMIT as int)
            &&& (s.vx == b.vx as int || s.vx == 0)
            &&& (s.vy == b.vy as int || s.vy == 0)
        }),
    decreases ts.len(),
{
    if ts.len() > 0 {
        lemma_resolve_seq_bounds(b, ts.drop_last());
    }
}

/// Law: colliders that the swept rectangle never reaches leave the motion
/// unconstrained: the pass returns the naive displacement with the velocity
/// intact and the body not grounded.
pub proof fn lemma_no_interaction(b: KinematicBody, ts: Seq<TerrainCollider>)
    requires
        forall|i: int| 0 <= i < ts.len() ==> !interacts(b, #[trigger] ts[i]),
    ensures
        resolve_seq(b, ts) == resolve_init(b),
    decreases ts.len(),
{
    if ts.len() > 0 {
        lemma_no_interaction(b, ts.drop_last());
    }
}

/// Law (grounding): a falling body whose swept rectangle crosses a blocking
/// collider's top edge, with the vertical axis winning the tie-break, lands
/// on it: its bottom is placed exactly on the terrain top, the fall is
/// zeroed and the body is grounded.
pub proof fn lemma_grounding(b: KinematicBody, t: TerrainCollider)
    requires
        b.wf(),
        t.wf(),
        b.vy < 0,
        interacts(b, t),
        t.rect().top <= b.old_rect().bottom,
        vertical_first(b, t),
    ensures
        ({
            let s = resolve_seq(b, seq![t]);
            &&& s.py == t.rect().top
            &&& s.vy == 0
            &&& s.grounded
        }),
{
    lemma_resolve_singleton(b, t);
}

/// Law (tie-break determinism): when the two impact times are exactly equal
/// the vertical axis resolves, always: the fall is zeroed while the
/// horizontal candidate and velocity pass through untouched.
pub proof fn lemma_tie_break_vertical(b: KinematicBody, t: TerrainCollider)
    requires
        b.wf(),
        t.wf(),
        interacts(b, t),
        gate_y(b, t),
        gate_x(b, t),
        ty_dist(b, t) * vstd::math::abs(b.vx as int) == tx_dist(b, t) * vstd::math::abs(
            b.vy as int,
        ),
    ensures
        ({
            let s = resolve_seq(b, seq![t]);
            &&& s.vy == 0
            &&& s.vx == b.vx as int
            &&& s.px == b.x + b.vx
        }),
{
    lemma_resolve_singleton(b, t);
}

/// A pass over a single collider is that collider's contribution to the
/// initial state.
pub proof fn lemma_resolve_singleton(b: KinematicBody, t: TerrainCollider)
    ensures
        resolve_seq(b, seq![t]) == resolve_one(b, resolve_init(b), t),
{
    let ts = seq![t];
    assert(ts.len() == 1);
    assert(ts.last() == t);
    assert(ts.drop_last() =~= Seq::<TerrainCollider>::empty());
    assert(resolve_seq(b, ts.drop_last()) == resolve_init(b));
}

/// Law: after a pass over a single blocking collider the body's rectangle
/// never rests strictly inside it: the winning axis pushes the body to
/// the blocking boundary, and a rectangle touching a boundary does not
/// overlap. (With several colliders one clamp can push the body into
/// another collider: the single pass may under-resolve, by design.)
pub proof fn lemma_never_rests_inside(b: KinematicBody, t: TerrainCollider)
    requires
        b.wf(),
        t.wf(),
        t.collision,
    ensures
        ({
            let s = resolve_seq(b, seq![t]);
            !overlaps(rect_model(s.px, s.py, b.w as int, b.h as int), t.rect())
        }),
{
    lemma_resolve_singleton(b, t);
}

/// Law: a body not touching any floor this tick is never grounded. The
/// grounded flag starts false and only an interacting collider that
/// resolves the vertical axis downward sets it.
pub proof fn lemma_grounded_needs_floor(b: KinematicBody, ts: Seq<TerrainCollider>)
    ensures
        resolve_seq(b, ts).grounded ==> b.vy < 0 && exists|i: int|
            0 <= i < ts.len() && interacts(b, #[trigger] ts[i]) && vertical_first(b, ts[i]),
    decreases ts.len(),
{
    if ts.len() > 0 {
        lemma_grounded_needs_floor(b, ts.drop_last());
        let t = ts.last();
        let s = resolve_seq(b, ts);
        if s.grounded {
            if interacts(b, t) && vertical_first(b, t) && b.vy < 0 {
                assert(interacts(b, ts[ts.len() - 1]) && vertical_first(b, ts[ts.len() - 1]));
            } else {
                let i = choose|i: int|
                    0 <= i < ts.drop_last().len() && interacts(b, #[trigger] ts.drop_last()[i])
                        && vertical_first(b, ts.drop_last()[i]);
                assert(ts.drop_last()[i] == ts[i]);
                assert(interacts(b, ts[i]) && vertical_first(b, ts[i]));
            }
        }
    }
}

/// Law: one collider's contribution only narrows the candidate position
/// towards the blocking boundary in the direction of motion, never
/// relaxes what earlier colliders already constrained.
pub proof fn lemma_never_relax(b: KinematicBody, s: ResolveState, t: TerrainCollider)
    ensures
        b.vy < 0 ==> resolve_one(b, s, t).py >= s.py,
        b.vy >= 0 ==> resolve_one(b, s, t).py <= s.py,
        b.vx < 0 ==> resolve_one(b, s, t).px >= s.px,
        b.vx >= 0 ==> resolve_one(b, s, t).px <= s.px,
{
}

/// Resolves one body against the active colliders: a single pass of
/// axis-separated time-of-impact narrowing, then direction and motion-state
/// derivation from the remaining velocity. The body's extent is unchanged.
pub fn resolve_collisions(body: &mut KinematicBody, terrains: &Vec<TerrainCollider>)
    requires
        old(body).wf(),
        forall|i: int| 0 <= i < terrains@.len() ==> (#[trigger] terrains@[i]).wf(),
    ensures
        ({
            let s = resolve_seq(*old(body), terrains@);
            &&& final(body).x as int == s.px
            &&& final(body).y as int == s.py
            &&& final(body).vx as int == s.vx
            &&& final(body).vy as int == s.vy
            &&& final(body).grounded == s.grounded
            &&& final(body).w == old(body).w
            &&& final(body).h == old(body).h
            &&& final(body).direction == derived_direction(old(body).direction, s.vx)
            &&& final(body).motion_state == derived_state(s.vx, s.vy)
        }),
        *final(body) == resolved_body(*old(body), terrains@),
        (forall|i: int| 0 <= i < terrains@.len() ==> !interacts(*old(body), #[trigger] terrains@[i]))
            ==> {
            &&& final(body).x as int == old(body).x + old(body).vx
            &&& final(body).y as int == old(body).y + old(body).vy
            &&& final(body).vx == old(body).vx
            &&& final(body).vy == old(body).vy
            &&& !final(body).grounded
        },
{
    let b = *body;
    let mut px: i64 = b.x as i64 + b.vx as i64;
    let mut py: i64 = b.y as i64 + b.vy as i64;
    let mut nvx: i32 = b.vx;
    let mut nvy: i32 = b.vy;
    let mut grounded: bool = false;

    let mut idx: usize = 0;
    while idx < terrains.len()
        invariant
            idx <= terrains@.len(),
            b == *old(body),
            b.wf(),
            forall|i: int| 0 <= i < terrains@.len() ==> (#[trigger] terrains@[i]).wf(),
            ({
                let s = resolve_seq(b, terrains@.take(idx as int));
                &&& px as int == s.px
                &&& py as int == s.py
                &&& nvx as int == s.vx
                &&& nvy as int == s.vy
                &&& grounded == s.grounded
            }),
        decreases terrains@.len() - idx,
    {
        let t = terrains[idx];
        proof {
            assert(terrains@.take(idx as int + 1).drop_last() =~= terrains@.take(idx as int));
            assert(terrains@.take(idx as int + 1).last() == terrains@[idx as int]);
            lemma_resolve_seq_bounds(b, terrains@.take(idx as int));
        }
        if t.collision {
            let new_left: i64 = b.x as i64 + b.vx as i64;
            let new_right: i64 = new_left + b.w as i64;
            let new_bottom: i64 = b.y as i64 + b.vy as i64;
            let new_top: i64 = new_bottom + b.h as i64;
            let t_left: i64 = t.x as i64;
            let t_right: i64 = t.x as i64 + t.w as i64;
            let t_bottom: i64 = t.y as i64;
            let t_top: i64 = t.y as i64 + t.h as i64;

            let separated = new_right <= t_left || t_right <= new_left || new_top <= t_bottom
                || t_top <= new_bottom;
            if !separated {
                let old_left: i64 = b.x as i64;
                let old_right: i64 = b.x as i64 + b.w as i64;
                let old_bottom: i64 = b.y as i64;
                let old_top: i64 = b.y as i64 + b.h as i64;

                let gy = (b.vy < 0 && t_top <= old_bottom) || (b.vy > 0 && old_top <= t_bottom);
                let gx = (b.vx < 0 && t_right <= old_left) || (b.vx > 0 && old_right <= t_left);

                let vertical = if gy {
                    if gx {
                        let ty_d: i64 = if b.vy < 0 { old_bottom - t_top } else { t_bottom - old_top };
                        let tx_d: i64 = if b.vx < 0 { old_left - t_right } else { t_left - old_right };
                        let avy: i64 = if b.vy < 0 { -(b.vy as i64) } else { b.vy as i64 };
                        let avx: i64 = if b.vx < 0 { -(b.vx as i64) } else { b.vx as i64 };
                        proof {
                            assert(0 <= ty_d <= 3 * (COORD_LIMIT as int));
                            assert(0 <= tx_d <= 3 * (COORD_LIMIT as int));
                            assert(0 <= avx <= COORD_LIMIT as int);
                            assert(0 <= avy <= COORD_LIMIT as int);
                            assert(ty_d * avx <= 3 * (COORD_LIMIT as int) * (COORD_LIMIT as int)
                                && ty_d * avx >= 0 && tx_d * avy <= 3 * (COORD_LIMIT as int) * (
                            COORD_LIMIT as int) && tx_d * avy >= 0) by (nonlinear_arith)
                                requires
                                    0 <= ty_d <= 3 * (COORD_LIMIT as int),
                                    0 <= tx_d <= 3 * (COORD_LIMIT as int),
                                    0 <= avx <= COORD_LIMIT as int,
                                    0 <= avy <= COORD_LIMIT as int,
                            ;
                        }
                        ty_d * avx <= tx_d * avy
                    } else {
                        true
                    }
                } else {
                    !gx
                };

                if vertical {
                    if b.vy < 0 {
                        if t_top > py {
                            py = t_top;
                        }
                        grounded = true;
                    } else {
                        let cap = t_bottom - b.h as i64;
                        if cap < py {
                            py = cap;
                        }
                    }
                    nvy = 0;
                } else {
                    if b.vx < 0 {
                        if t_right > px {
                            px = t_right;
                        }
                    } else {
                        let cap = t_left - b.w as i64;
                        if cap < px {
                            px = cap;
                        }
                    }
                    nvx = 0;
                }
            }
        }
        idx += 1;
    }

    proof {
        assert(terrains@.take(terrains@.len() as int) =~= terrains@);
        lemma_resolve_seq_bounds(b, terrains@);
        if forall|i: int| 0 <= i < terrains@.len() ==> !interacts(b, #[trigger] terrains@[i]) {
            lemma_no_interaction(b, terrains@);
        }
    }
    body.x = px as i32;
    body.y = py as i32;
    body.vx = nvx;
    body.vy = nvy;
    body.grounded = grounded;
    if nvx != 0 {
        body.direction = if nvx > 0 {
            Dir::Right
        } else {
            Dir::Left
        };
    }
    body.motion_state = if nvy != 0 {
        MotionState::Jumping
    } else if nvx != 0 {
        MotionState::Running
    } else {
        MotionState::Stopped
    };
}

/// Whether an actor's sprite must be mirrored: it faces away from the
/// direction its art was drawn in.
pub fn needs_flip(direction: Dir, init_direction: Dir) -> (r: bool)
    ensures
        r == (direction != init_direction),
{
    direction != init_direction
}

} // verus!
