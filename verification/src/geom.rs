use vstd::prelude::*;

verus! {

/// Largest magnitude accepted for a world coordinate, an extent or a per-tick
/// velocity. Keeping every input inside this budget lets the collision
/// arithmetic run in `i64` without overflow and still store results in `i32`.
pub const COORD_LIMIT: i32 = 0x2000_0000;

/// An axis-aligned rectangle in world space. `left`/`bottom` are inclusive,
/// `right`/`top` exclusive; a body anchored at `(x, y)` spans
/// `[x, x + w) x [y, y + h)`.
#[derive(Clone, Copy, PartialEq, Eq, Structural, Debug)]
pub struct Rect {
    pub left: i32,
    pub right: i32,
    pub bottom: i32,
    pub top: i32,
}

/// The same rectangle, over unbounded integers; the model that contracts
/// speak of.
pub struct RectModel {
    pub left: int,
    pub right: int,
    pub bottom: int,
    pub top: int,
}

impl View for Rect {
    type V = RectModel;

    open spec fn view(&self) -> RectModel {
        RectModel {
            left: self.left as int,
            right: self.right as int,
            bottom: self.bottom as int,
            top: self.top as int,
        }
    }
}

/// The rectangle of a body anchored at `(x, y)` with extent `(w, h)`.
pub open spec fn rect_model(x: int, y: int, w: int, h: int) -> RectModel {
    RectModel { left: x, right: x + w, bottom: y, top: y + h }
}

/// Two rectangles overlap when no separating side exists: each one's left
/// edge lies strictly below the other's right edge on both axes. Touching
/// edges do not count as overlap.
pub open spec fn overlaps(a: RectModel, b: RectModel) -> bool {
    !(a.right <= b.left || b.right <= a.left || a.top <= b.bottom || b.top <= a.bottom)
}

/// Whether the point `(px, py)` lies inside the half-open bounds
/// `[min_x, max_x) x [min_y, max_y)`.
pub open spec fn point_in_bounds(
    px: int,
    py: int,
    min_x: int,
    min_y: int,
    max_x: int,
    max_y: int,
) -> bool {
    min_x <= px && px < max_x && min_y <= py && py < max_y
}

/// Whether a coordinate magnitude stays inside the world budget.
pub open spec fn coord_ok(v: int) -> bool {
    -(COORD_LIMIT as int) <= v && v <= COORD_LIMIT as int
}

/// A coordinate clamped into the world budget.
pub open spec fn clamp_coord(v: int) -> int {
    if v < -(COORD_LIMIT as int) {
        -(COORD_LIMIT as int)
    } else if v > COORD_LIMIT as int {
        COORD_LIMIT as int
    } else {
        v
    }
}

/// Builds the world rectangle of a body anchored at `(x, y)` with extent
/// `(w, h)`.
pub fn to_rect(x: i32, y: i32, w: i32, h: i32) -> (r: Rect)
    requires
        coord_ok(x as int),
        coord_ok(y as int),
        0 <= w <= COORD_LIMIT as int,
        0 <= h <= COORD_LIMIT as int,
    ensures
        r@ == rect_model(x as int, y as int, w as int, h as int),
{
    Rect { left: x, right: x + w, bottom: y, top: y + h }
}

} // verus!
