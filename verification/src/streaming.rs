use vstd::prelude::*;

use crate::geom::{coord_ok, point_in_bounds, COORD_LIMIT};
use crate::physics::TerrainCollider;
use crate::tilemap::GridCell;
use crate::timer::TickTimer;

verus! {

/// Fixed configuration of the streaming window: the tile geometry and the
/// activation half-extents (viewport extent already multiplied by the
/// margin factor).
#[derive(Clone, Copy, PartialEq, Eq, Structural, Debug)]
pub struct StreamConfig {
    pub tile_size: i32,
    pub origin_x: i32,
    pub origin_y: i32,
    pub ext_x: i32,
    pub ext_y: i32,
}

/// Largest grid coordinate the window accepts; together with the config
/// budget it keeps every cell's world position inside the world budget.
pub const GRID_LIMIT: u32 = 0x2000;

/// Budget for the map origin and the activation extents.
pub const ORIGIN_LIMIT: i32 = 0x1000_0000;

/// Largest tile size the window accepts.
pub const TILE_SIZE_LIMIT: i32 = 0x8000;

impl StreamConfig {
    /// The configuration stays inside the world budget.
    pub open spec fn wf(self) -> bool {
        &&& 1 <= self.tile_size <= TILE_SIZE_LIMIT
        &&& -ORIGIN_LIMIT <= self.origin_x <= ORIGIN_LIMIT
        &&& -ORIGIN_LIMIT <= self.origin_y <= ORIGIN_LIMIT
        &&& 0 <= self.ext_x <= ORIGIN_LIMIT
        &&& 0 <= self.ext_y <= ORIGIN_LIMIT
    }

    /// World x of a cell: the column scaled by the tile size, from the
    /// map origin.
    pub open spec fn cell_x(self, gx: u32) -> int {
        self.origin_x + gx * self.tile_size
    }

    /// World y of a cell: rows grow downwards from the map origin.
    pub open spec fn cell_y(self, gy: u32) -> int {
        self.origin_y - gy * self.tile_size
    }

    /// The collider instance a cell spawns: its world rectangle is one tile,
    /// anchored at the cell's world position, and it blocks.
    pub open spec fn collider_of(self, c: GridCell) -> TerrainCollider {
        TerrainCollider {
            grid_x: c.grid_x,
            grid_y: c.grid_y,
            x: self.cell_x(c.grid_x) as i32,
            y: self.cell_y(c.grid_y) as i32,
            w: self.tile_size,
            h: self.tile_size,
            collision: true,
        }
    }
}

/// A cell's shape is inside the window's grid budget and its tile value is
/// positive (zero cells never become streaming cells).
pub open spec fn cell_shape_wf(c: GridCell) -> bool {
    c.grid_x < GRID_LIMIT && c.grid_y < GRID_LIMIT && c.tile >= 1
}

/// Two cells with the same place in the map and the same tile.
pub open spec fn same_cell_shape(a: GridCell, b: GridCell) -> bool {
    a.grid_x == b.grid_x && a.grid_y == b.grid_y && a.tile == b.tile
}

/// Two window states whose loaded cells, arena, recorded focal point and
/// allocation cursor all agree: no spawn or despawn separates them.
pub open spec fn same_pass_state(a: StreamingWindow, b: StreamingWindow) -> bool {
    a.cells == b.cells && a.entries == b.entries && a.center_x == b.center_x && a.center_y
        == b.center_y && a.next_id == b.next_id
}

/// Whether a cell's world position lies inside the activation bounds around
/// the focal point `(fx, fy)`.
pub open spec fn cell_active(cfg: StreamConfig, c: GridCell, fx: int, fy: int) -> bool {
    point_in_bounds(
        cfg.cell_x(c.grid_x),
        cfg.cell_y(c.grid_y),
        fx - cfg.ext_x,
        fy - cfg.ext_y,
        fx + cfg.ext_x,
        fy + cfg.ext_y,
    )
}

/// Everything one `update` call promises of how the window changed, for a
/// focal point `(fx, fy)` and a time step `dt`: the debounce and
/// focal-point gates (idempotence), and the settled pass's completeness
/// and handle stability.
pub open spec fn updated(w0: StreamingWindow, w1: StreamingWindow, fx: int, fy: int, dt: u32) -> bool {
    &&& w1.config == w0.config
    &&& w1.timer == w0.timer.after_tick(dt)
    &&& w1.cells@.len() == w0.cells@.len()
    &&& forall|i: int| 0 <= i < w0.cells@.len() ==> same_cell_shape(
        #[trigger] w1.cells@[i],
        w0.cells@[i],
    )
    &&& w0.next_id <= w1.next_id <= w0.next_id + w0.cells@.len()
    &&& (!w0.timer.fires(dt) ==> same_pass_state(w1, w0))
    &&& ((w0.center_x as int == fx && w0.center_y as int == fy) ==> same_pass_state(w1, w0))
    &&& ((w0.timer.fires(dt) && !(w0.center_x as int == fx && w0.center_y as int == fy)) ==> {
        &&& w1.center_x as int == fx
        &&& w1.center_y as int == fy
        &&& forall|i: int| 0 <= i < w0.cells@.len() ==> ((#[trigger] w1.cells@[i]).loaded.is_some()
            <==> cell_active(w0.config, w0.cells@[i], fx, fy))
        &&& forall|i: int| 0 <= i < w0.cells@.len() && cell_active(w0.config, w0.cells@[i], fx, fy)
            && (#[trigger] w0.cells@[i]).loaded.is_some() ==> w1.cells@[i].loaded
            == w0.cells@[i].loaded
    })
    &&& (w1.center_x == w0.center_x || w1.center_x as int == fx)
    &&& (w1.center_y == w0.center_y || w1.center_y as int == fy)
}

/// Law (streaming idempotence): two updates in succession with an
/// unchanged focal point make the second one spawn and despawn nothing,
/// provided the first was not cut short by the debounce timer while the
/// focal point was still unrecorded.
pub proof fn lemma_streaming_idempotent(
    w0: StreamingWindow,
    w1: StreamingWindow,
    w2: StreamingWindow,
    fx: int,
    fy: int,
    dt1: u32,
    dt2: u32,
)
    requires
        updated(w0, w1, fx, fy, dt1),
        updated(w1, w2, fx, fy, dt2),
        w0.timer.fires(dt1) || (w0.center_x as int == fx && w0.center_y as int == fy),
    ensures
        same_pass_state(w2, w1),
{
    assert(w1.center_x as int == fx && w1.center_y as int == fy);
}

/// Law (streaming completeness, seen from the arena): after a settled
/// pass, the live collider instances are exactly the colliders of the
/// cells inside the activation bounds — every instance belongs to an
/// active cell and carries that cell's collider, and every active cell
/// owns an instance.
pub proof fn lemma_arena_matches_active_cells(
    w0: StreamingWindow,
    w1: StreamingWindow,
    fx: int,
    fy: int,
    dt: u32,
)
    requires
        updated(w0, w1, fx, fy, dt),
        w1.wf(),
        w0.timer.fires(dt),
        !(w0.center_x as int == fx && w0.center_y as int == fy),
    ensures
        forall|k: int| 0 <= k < w1.entries@.len() ==> ({
            let e = #[trigger] w1.entries@[k];
            &&& e.cell < w1.cells@.len()
            &&& cell_active(w1.config, w1.cells@[e.cell as int], fx, fy)
            &&& e.collider == w1.config.collider_of(w1.cells@[e.cell as int])
        }),
        forall|i: int| 0 <= i < w1.cells@.len() && cell_active(
            w1.config,
            #[trigger] w1.cells@[i],
            fx,
            fy,
        ) ==> w1.has_entry_for(i),
{
    assert forall|k: int| 0 <= k < w1.entries@.len() implies ({
        let e = #[trigger] w1.entries@[k];
        &&& e.cell < w1.cells@.len()
        &&& cell_active(w1.config, w1.cells@[e.cell as int], fx, fy)
        &&& e.collider == w1.config.collider_of(w1.cells@[e.cell as int])
    }) by {
        assert(w1.entry_ok(k));
        let c = w1.entries@[k].cell as int;
        assert(w1.cells@[c].loaded.is_some());
        assert(same_cell_shape(w1.cells@[c], w0.cells@[c]));
        assert(cell_active(w0.config, w0.cells@[c], fx, fy));
    }
    assert forall|i: int|
        0 <= i < w1.cells@.len() && cell_active(w1.config, #[trigger] w1.cells@[i], fx, fy)
            implies w1.has_entry_for(i) by {
        assert(same_cell_shape(w1.cells@[i], w0.cells@[i]));
        assert(cell_active(w0.config, w0.cells@[i], fx, fy));
        assert(w1.cells@[i].loaded.is_some());
    }
}

/// A cell's world position stays inside the world budget.
pub proof fn lemma_cell_pos_bounds(cfg: StreamConfig, gx: u32, gy: u32)
    requires
        cfg.wf(),
        gx < GRID_LIMIT,
        gy < GRID_LIMIT,
    ensures
        coord_ok(cfg.cell_x(gx)),
        coord_ok(cfg.cell_y(gy)),
{
    assert(0 <= gx * cfg.tile_size <= ORIGIN_LIMIT as int) by (nonlinear_arith)
        requires
            0 <= gx < GRID_LIMIT as int,
            1 <= cfg.tile_size <= TILE_SIZE_LIMIT as int,
    ;
    assert(0 <= gy * cfg.tile_size <= ORIGIN_LIMIT as int) by (nonlinear_arith)
        requires
            0 <= gy < GRID_LIMIT as int,
            1 <= cfg.tile_size <= TILE_SIZE_LIMIT as int,
    ;
}

/// A live collider instance: its stable handle, the cell it came from, the
/// sprite frame its tile names, and the collider the resolver reads.
#[derive(Clone, Copy, PartialEq, Eq, Debug)]
pub struct ArenaEntry {
    pub id: u64,
    pub cell: usize,
    pub sprite: u32,
    pub collider: TerrainCollider,
}

/// The spatial streaming cache: keeps a collider instance for exactly the
/// map cells near the focal point, re-evaluated only when the debounce
/// timer fires and the focal point has moved. `entries` is the arena of
/// live instances; `cells[i].loaded` is the single source of truth for
/// which cells own one.
#[derive(Clone, PartialEq, Eq, Debug)]
pub struct StreamingWindow {
    pub config: StreamConfig,
    pub center_x: i32,
    pub center_y: i32,
    pub timer: TickTimer,
    pub cells: Vec<GridCell>,
    pub next_id: u64,
    pub entries: Vec<ArenaEntry>,
}

impl StreamingWindow {
    /// Every cell's shape is inside the grid budget.
    pub open spec fn cells_wf(self) -> bool {
        forall|i: int| 0 <= i < self.cells@.len() ==> cell_shape_wf(#[trigger] self.cells@[i])
    }

    /// Handles are unique and below the allocation cursor.
    pub open spec fn ids_wf(self) -> bool {
        &&& forall|k: int| 0 <= k < self.entries@.len() ==> (#[trigger] self.entries@[k]).id
            < self.next_id
        &&& forall|k1: int, k2: int|
            #![trigger self.entries@[k1], self.entries@[k2]]
            0 <= k1 < k2 < self.entries@.len() ==> self.entries@[k1].id != self.entries@[k2].id
    }

    /// Entry `k` points back at a loaded cell and carries that cell's
    /// collider and sprite frame.
    pub open spec fn entry_ok(self, k: int) -> bool {
        let e = self.entries@[k];
        &&& e.cell < self.cells@.len()
        &&& self.cells@[e.cell as int].loaded == Some(e.id)
        &&& e.collider == self.config.collider_of(self.cells@[e.cell as int])
        &&& e.sprite == (self.cells@[e.cell as int].tile - 1) as u32
    }

    /// Cell `i` owns a live arena entry under its recorded handle.
    pub open spec fn has_entry_for(self, i: int) -> bool {
        exists|k: int|
            0 <= k < self.entries@.len() && (#[trigger] self.entries@[k]).cell == i && Some(
                self.entries@[k].id,
            ) == self.cells@[i].loaded
    }

    /// The arena and the `loaded` mapping agree: every entry belongs to a
    /// loaded cell, and every loaded cell owns an entry.
    pub open spec fn linked(self) -> bool {
        &&& forall|k: int| 0 <= k < self.entries@.len() ==> #[trigger] self.entry_ok(k)
        &&& forall|i: int|
            0 <= i < self.cells@.len() && (#[trigger] self.cells@[i]).loaded.is_some()
                ==> self.has_entry_for(i)
    }

    /// The window's full well-formedness.
    pub open spec fn wf(self) -> bool {
        &&& self.config.wf()
        &&& coord_ok(self.center_x as int)
        &&& coord_ok(self.center_y as int)
        &&& self.cells_wf()
        &&& self.ids_wf()
        &&& self.linked()
    }

    /// Well-formedness reads nothing but the config, the focal point's
    /// budget, the cells and the arena: it survives a timer tick and a
    /// recorded focal point.
    proof fn lemma_wf_ignores_timer(a: StreamingWindow, b: StreamingWindow)
        requires
            b.wf(),
            a.config == b.config,
            a.cells == b.cells,
            a.entries == b.entries,
            a.next_id == b.next_id,
            coord_ok(a.center_x as int),
            coord_ok(a.center_y as int),
        ensures
            a.wf(),
    {
        assert forall|k: int| 0 <= k < a.entries@.len() implies #[trigger] a.entry_ok(k) by {
            assert(b.entry_ok(k));
        }
        assert forall|i: int|
            0 <= i < a.cells@.len() && (#[trigger] a.cells@[i]).loaded.is_some()
                implies a.has_entry_for(i) by {
            let k = choose|k: int|
                0 <= k < b.entries@.len() && (#[trigger] b.entries@[k]).cell == i && Some(
                    b.entries@[k].id,
                ) == b.cells@[i].loaded;
            assert(a.entries@[k].cell == i && Some(a.entries@[k].id) == a.cells@[i].loaded);
        }
    }

    /// A fresh window around a focal point, with nothing loaded yet.
    pub fn new(
        config: StreamConfig,
        center_x: i32,
        center_y: i32,
        debounce: u32,
        cells: Vec<GridCell>,
    ) -> (w: StreamingWindow)
        requires
            config.wf(),
            coord_ok(center_x as int),
            coord_ok(center_y as int),
            forall|i: int| 0 <= i < cells@.len() ==> cell_shape_wf(#[trigger] cells@[i])
                && cells@[i].loaded.is_none(),
        ensures
            w.wf(),
            w.config == config,
            w.center_x == center_x,
            w.center_y == center_y,
            w.timer == (TickTimer { elapsed: 0, duration: debounce, repeating: true }),
            w.cells == cells,
            w.next_id == 0,
            w.entries@.len() == 0,
    {
        StreamingWindow {
            config,
            center_x,
            center_y,
            timer: TickTimer::new(debounce, true),
            cells,
            next_id: 0,
            entries: Vec::new(),
        }
    }

    /// The live colliders, in arena order, for the collision resolver.
    pub fn colliders(&self) -> (v: Vec<TerrainCollider>)
        requires
            self.wf(),
        ensures
            v@ == self.entries@.map_values(|e: ArenaEntry| e.collider),
            forall|k: int| 0 <= k < v@.len() ==> (#[trigger] v@[k]).wf(),
    {
        let mut v: Vec<TerrainCollider> = Vec::new();
        let mut k: usize = 0;
        while k < self.entries.len()
            invariant
                k <= self.entries@.len(),
                self.wf(),
                v@ == self.entries@.take(k as int).map_values(|e: ArenaEntry| e.collider),
                forall|j: int| 0 <= j < v@.len() ==> (#[trigger] v@[j]).wf(),
            decreases self.entries@.len() - k,
        {
            let e = self.entries[k];
            proof {
                assert(self.entry_ok(k as int));
                let c = self.cells@[e.cell as int];
                lemma_cell_pos_bounds(self.config, c.grid_x, c.grid_y);
                assert(self.entries@.take(k as int + 1).map_values(
                    |en: ArenaEntry| en.collider,
                ) =~= self.entries@.take(k as int).map_values(|en: ArenaEntry| en.collider).push(
                    e.collider,
                ));
            }
            v.push(e.collider);
            k += 1;
        }
        proof {
            assert(self.entries@.take(self.entries@.len() as int) =~= self.entries@);
        }
        v
    }

    /// Re-evaluates the streaming window around the focal point.
    ///
    /// The debounce timer always advances. Nothing else happens unless it
    /// fires and the focal point has moved since the last evaluation; a
    /// repeated focal point is a no-op (streaming idempotence). A settled
    /// pass loads exactly the cells inside the activation bounds
    /// (streaming completeness), keeping the handle of every cell that was
    /// already loaded and despawning every instance that fell outside.
    pub fn update(&mut self, focal_x: i32, focal_y: i32, dt: u32) -> (settled: bool)
        requires
            old(self).wf(),
            coord_ok(focal_x as int),
            coord_ok(focal_y as int),
            old(self).next_id + old(self).cells@.len() <= u64::MAX,
        ensures
            final(self).wf(),
            updated(*old(self), *final(self), focal_x as int, focal_y as int, dt),
            settled == (old(self).timer.fires(dt) && !(old(self).center_x == focal_x
                && old(self).center_y == focal_y)),
    {
        let fired = self.timer.tick(dt);
        if !fired {
            proof {
                Self::lemma_wf_ignores_timer(*self, *old(self));
            }
            return false;
        }
        if self.center_x == focal_x && self.center_y == focal_y {
            proof {
                Self::lemma_wf_ignores_timer(*self, *old(self));
            }
            return false;
        }
        self.center_x = focal_x;
        self.center_y = focal_y;

        let min_x: i64 = focal_x as i64 - self.config.ext_x as i64;
        let min_y: i64 = focal_y as i64 - self.config.ext_y as i64;
        let max_x: i64 = focal_x as i64 + self.config.ext_x as i64;
        let max_y: i64 = focal_y as i64 + self.config.ext_y as i64;

        let ghost w0 = *old(self);
        proof {
            Self::lemma_wf_ignores_timer(*self, w0);
        }
        let mut i: usize = 0;
        while i < self.cells.len()
            invariant
                i <= self.cells@.len(),
                self.config == w0.config,
                self.config.wf(),
                self.center_x == focal_x,
                self.center_y == focal_y,
                coord_ok(focal_x as int),
                coord_ok(focal_y as int),
                self.timer == w0.timer.after_tick(dt),
                min_x == focal_x - self.config.ext_x,
                min_y == focal_y - self.config.ext_y,
                max_x == focal_x + self.config.ext_x,
                max_y == focal_y + self.config.ext_y,
                self.cells@.len() == w0.cells@.len(),
                w0.next_id + w0.cells@.len() <= u64::MAX,
                w0.next_id <= self.next_id <= w0.next_id + i,
                forall|j: int| i <= j < self.cells@.len() ==> #[trigger] self.cells@[j]
                    == w0.cells@[j],
                forall|j: int| 0 <= j < i ==> same_cell_shape(
                    #[trigger] self.cells@[j],
                    w0.cells@[j],
                ),
                forall|j: int| 0 <= j < i ==> ((#[trigger] self.cells@[j]).loaded.is_some()
                    <==> cell_active(w0.config, w0.cells@[j], focal_x as int, focal_y as int)),
                forall|j: int| 0 <= j < i && cell_active(
                    w0.config,
                    w0.cells@[j],
                    focal_x as int,
                    focal_y as int,
                ) && (#[trigger] w0.cells@[j]).loaded.is_some() ==> self.cells@[j].loaded
                    == w0.cells@[j].loaded,
                self.cells_wf(),
                self.ids_wf(),
                self.linked(),
            decreases self.cells@.len() - i,
        {
            let c = self.cells[i];
            proof {
                assert(0 <= (c.grid_x as int) * (self.config.tile_size as int) <= ORIGIN_LIMIT
                    as int && 0 <= (c.grid_y as int) * (self.config.tile_size as int)
                    <= ORIGIN_LIMIT as int) by (nonlinear_arith)
                    requires
                        0 <= c.grid_x < GRID_LIMIT as int,
                        0 <= c.grid_y < GRID_LIMIT as int,
                        1 <= self.config.tile_size <= TILE_SIZE_LIMIT as int,
                ;
            }
            let wx: i64 = self.config.origin_x as i64 + (c.grid_x as i64) * (
            self.config.tile_size as i64);
            let wy: i64 = self.config.origin_y as i64 - (c.grid_y as i64) * (
            self.config.tile_size as i64);
            proof {
                assert(wx as int == self.config.cell_x(c.grid_x));
                assert(wy as int == self.config.cell_y(c.grid_y));
            }
            let active = wx >= min_x && wx < max_x && wy >= min_y && wy < max_y;
            let ghost pre = *self;
            if active {
                if c.loaded.is_none() {
                    let id = self.next_id;
                    self.next_id = id + 1;
                    let collider = TerrainCollider {
                        grid_x: c.grid_x,
                        grid_y: c.grid_y,
                        x: wx as i32,
                        y: wy as i32,
                        w: self.config.tile_size,
                        h: self.config.tile_size,
                        collision: true,
                    };
                    self.entries.push(
                        ArenaEntry { id, cell: i, sprite: c.tile - 1, collider },
                    );
                    self.cells[i] = GridCell { loaded: Some(id), ..c };
                    proof {
                        let n = self.entries@.len() - 1;
                        assert forall|k: int| 0 <= k < self.entries@.len() implies #[trigger] self.entry_ok(
                            k,
                        ) by {
                            if k < n {
                                assert(pre.entry_ok(k));
                                assert(self.entries@[k] == pre.entries@[k]);
                                assert(self.entries@[k].cell != i);
                            } else {
                                assert(self.entries@[k].cell == i);
                            }
                        }
                        assert forall|j: int|
                            0 <= j < self.cells@.len() && (#[trigger] self.cells@[j]).loaded.is_some()
                                implies self.has_entry_for(j) by {
                            if j == i {
                                assert(self.entries@[n].cell == i && Some(self.entries@[n].id)
                                    == self.cells@[i as int].loaded);
                            } else {
                                assert(pre.cells@[j] == self.cells@[j]);
                                let k = choose|k: int|
                                    0 <= k < pre.entries@.len() && (#[trigger] pre.entries@[k]).cell
                                        == j && Some(pre.entries@[k].id) == pre.cells@[j].loaded;
                                assert(self.entries@[k].cell == j && Some(self.entries@[k].id)
                                    == self.cells@[j].loaded);
                            }
                        }
                    }
                }
            } else {
                if let Some(id) = c.loaded {
                    self.cells[i] = GridCell { loaded: None, ..c };
                    proof {
                        assert(pre.has_entry_for(i as int));
                    }
                    remove_entry(&mut self.entries, id);
                    proof {
                        let k = choose|k: int|
                            0 <= k < pre.entries@.len() && (#[trigger] pre.entries@[k]).id == id
                                && self.entries@ == pre.entries@.remove(k);
                        assert(pre.entry_ok(k));
                        assert(pre.entries@[k].cell == i) by {
                            let kc = choose|kc: int|
                                0 <= kc < pre.entries@.len() && (#[trigger] pre.entries@[kc]).cell
                                    == i as int && Some(pre.entries@[kc].id) == pre.cells@[
                                i as int].loaded;
                            assert(pre.entries@[kc].id == id);
                            if k != kc {
                                assert(false);
                            }
                        }
                        assert forall|m: int| 0 <= m < self.entries@.len() implies #[trigger] self.entry_ok(
                            m,
                        ) by {
                            let o = if m < k {
                                m
                            } else {
                                m + 1
                            };
                            assert(self.entries@[m] == pre.entries@[o]);
                            assert(pre.entry_ok(o));
                            assert(pre.entries@[o].cell != i);
                        }
                        assert forall|j: int|
                            0 <= j < self.cells@.len() && (#[trigger] self.cells@[j]).loaded.is_some()
                                implies self.has_entry_for(j) by {
                            assert(j != i);
                            let kj = choose|kj: int|
                                0 <= kj < pre.entries@.len() && (#[trigger] pre.entries@[kj]).cell
                                    == j && Some(pre.entries@[kj].id) == pre.cells@[j].loaded;
                            assert(pre.entry_ok(kj));
                            assert(kj != k);
                            let m = if kj < k {
                                kj
                            } else {
                                kj - 1
                            };
                            assert(self.entries@[m] == pre.entries@[kj]);
                            assert(self.entries@[m].cell == j && Some(self.entries@[m].id)
                                == self.cells@[j].loaded);
                        }
                        assert forall|k1: int, k2: int|
                            #![trigger self.entries@[k1], self.entries@[k2]]
                            0 <= k1 < k2 < self.entries@.len() implies self.entries@[k1].id
                            != self.entries@[k2].id by {
                            let o1 = if k1 < k {
                                k1
                            } else {
                                k1 + 1
                            };
                            let o2 = if k2 < k {
                                k2
                            } else {
                                k2 + 1
                            };
                            assert(self.entries@[k1] == pre.entries@[o1]);
                            assert(self.entries@[k2] == pre.entries@[o2]);
                        }
                    }
                }
            }
            i += 1;
        }
        true
    }

    /// The handles among `positions` (recorded as `(handle, x, y)`) whose
    /// position lies outside the activation bounds around the recorded
    /// focal point: the same pass that despawns far terrain also despawns
    /// these ephemeral entities.
    pub fn cull_outside(&self, positions: &Vec<(u64, i32, i32)>) -> (r: Vec<u64>)
        requires
            self.config.wf(),
            coord_ok(self.center_x as int),
            coord_ok(self.center_y as int),
        ensures
            r@ == culled_ids(
                positions@,
                self.center_x - self.config.ext_x,
                self.center_y - self.config.ext_y,
                self.center_x + self.config.ext_x,
                self.center_y + self.config.ext_y,
            ),
    {
        let min_x: i64 = self.center_x as i64 - self.config.ext_x as i64;
        let min_y: i64 = self.center_y as i64 - self.config.ext_y as i64;
        let max_x: i64 = self.center_x as i64 + self.config.ext_x as i64;
        let max_y: i64 = self.center_y as i64 + self.config.ext_y as i64;
        let mut r: Vec<u64> = Vec::new();
        let mut i: usize = 0;
        while i < positions.len()
            invariant
                i <= positions@.len(),
                min_x == self.center_x - self.config.ext_x,
                min_y == self.center_y - self.config.ext_y,
                max_x == self.center_x + self.config.ext_x,
                max_y == self.center_y + self.config.ext_y,
                r@ == culled_ids(
                    positions@.take(i as int),
                    min_x as int,
                    min_y as int,
                    max_x as int,
                    max_y as int,
                ),
            decreases positions@.len() - i,
        {
            proof {
                assert(positions@.take(i as int + 1).drop_last() =~= positions@.take(i as int));
                assert(positions@.take(i as int + 1).last() == positions@[i as int]);
            }
            let (id, px, py) = positions[i];
            let inside = px as i64 >= min_x && (px as i64) < max_x && py as i64 >= min_y && (
            py as i64) < max_y;
            if !inside {
                r.push(id);
            }
            i += 1;
        }
        proof {
            assert(positions@.take(positions@.len() as int) =~= positions@);
        }
        r
    }
}

/// The handles among `ps` whose position lies outside the half-open
/// bounds, in order.
pub open spec fn culled_ids(
    ps: Seq<(u64, i32, i32)>,
    min_x: int,
    min_y: int,
    max_x: int,
    max_y: int,
) -> Seq<u64>
    decreases ps.len(),
{
    if ps.len() == 0 {
        Seq::empty()
    } else {
        culled_ids(ps.drop_last(), min_x, min_y, max_x, max_y) + if !point_in_bounds(
            ps.last().1 as int,
            ps.last().2 as int,
            min_x,
            min_y,
            max_x,
            max_y,
        ) {
            seq![ps.last().0]
        } else {
            Seq::empty()
        }
    }
}

/// Removes the arena entry carrying `id`; entries keep their order.
fn remove_entry(entries: &mut Vec<ArenaEntry>, id: u64) -> (found: bool)
    ensures
        (exists|k: int| 0 <= k < old(entries)@.len() && (#[trigger] old(entries)@[k]).id == id)
            ==> found && exists|k: int|
            0 <= k < old(entries)@.len() && (#[trigger] old(entries)@[k]).id == id
                && final(entries)@ == old(entries)@.remove(k),
        !(exists|k: int| 0 <= k < old(entries)@.len() && (#[trigger] old(entries)@[k]).id == id)
            ==> !found && final(entries)@ == old(entries)@,
{
    let mut k: usize = 0;
    while k < entries.len()
        invariant
            k <= entries@.len(),
            entries@ == old(entries)@,
            forall|j: int| 0 <= j < k ==> (#[trigger] entries@[j]).id != id,
        decreases entries@.len() - k,
    {
        if entries[k].id == id {
            entries.remove(k);
            proof {
                assert(entries@ == old(entries)@.remove(k as int));
            }
            return true;
        }
        k += 1;
    }
    false
}

} // verus!
