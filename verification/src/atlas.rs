use vstd::prelude::*;

verus! {

/// One packed frame of a sprite atlas, in texture space.
#[derive(Clone, Copy, PartialEq, Eq, Structural, Debug)]
pub struct FrameRect {
    pub min_x: i32,
    pub min_y: i32,
    pub max_x: i32,
    pub max_y: i32,
}

/// A declarative sprite-atlas packer: walks a sheet of `dim` pixels in
/// steps of one `size` cell, applies offset and padding, and collects
/// every frame that fits, row by row. All geometry is integer pixels,
/// already scaled.
#[derive(Clone, Copy, PartialEq, Eq, Structural, Debug)]
pub struct AtlasBuilder {
    pub size_w: i32,
    pub size_h: i32,
    pub dim_w: i32,
    pub dim_h: i32,
    pub off_x: i32,
    pub off_y: i32,
    pub pad_x: i32,
    pub pad_y: i32,
}

/// Pixel budget for atlas geometry.
pub const ATLAS_LIMIT: i32 = 0x1000_0000;

impl AtlasBuilder {
    /// Sane geometry: positive cells, padding at most half a cell, and a
    /// sheet wide enough for the first column, without which the walk
    /// would never advance.
    pub open spec fn wf(self) -> bool {
        &&& 1 <= self.size_w <= ATLAS_LIMIT
        &&& 1 <= self.size_h <= ATLAS_LIMIT
        &&& 0 <= self.dim_w <= ATLAS_LIMIT
        &&& 0 <= self.dim_h <= ATLAS_LIMIT
        &&& 0 <= self.off_x <= ATLAS_LIMIT
        &&& 0 <= self.off_y <= ATLAS_LIMIT
        &&& 0 <= self.pad_x && 2 * self.pad_x <= self.size_w
        &&& 0 <= self.pad_y && 2 * self.pad_y <= self.size_h
        &&& self.off_x - self.pad_x + self.size_w <= self.dim_w
    }

    /// The frame cut at cell position `(x, y)`.
    pub open spec fn frame_at(self, x: int, y: int) -> FrameRect {
        FrameRect {
            min_x: (x + self.pad_x + self.off_x) as i32,
            min_y: (y + self.pad_y + self.off_y) as i32,
            max_x: (x + self.off_x - self.pad_x + self.size_w) as i32,
            max_y: (y + self.off_y - self.pad_y + self.size_h) as i32,
        }
    }

    /// The frames of the row at pixel `y`, from cell position `x` on:
    /// frames advance one cell at a time until one would cross the sheet's
    /// right edge.
    pub open spec fn row_frames(self, y: int, x: int) -> Seq<FrameRect>
        decreases self.dim_w + self.size_w - x
            when 1 <= self.size_w && 0 <= self.off_x && 0 <= self.pad_x && 2 * self.pad_x <= self.size_w
    {
        if x + self.off_x - self.pad_x + self.size_w > self.dim_w {
            Seq::empty()
        } else {
            seq![self.frame_at(x, y)] + self.row_frames(y, x + self.size_w)
        }
    }

    /// The frames of every row from pixel `y` down: rows advance one cell
    /// at a time until one would cross the sheet's bottom edge.
    pub open spec fn sheet_frames_from(self, y: int) -> Seq<FrameRect>
        decreases self.dim_h + self.size_h - y
            when 1 <= self.size_h && 0 <= self.off_y && 0 <= self.pad_y && 2 * self.pad_y <= self.size_h
    {
        if y + self.off_y - self.pad_y + self.size_h > self.dim_h {
            Seq::empty()
        } else {
            self.row_frames(y, 0) + self.sheet_frames_from(y + self.size_h)
        }
    }

    /// A builder for a sheet of `dim` pixels cut into `size` cells, with
    /// no offset and no padding yet.
    pub fn load(size_w: i32, size_h: i32, dim_w: i32, dim_h: i32) -> (r: AtlasBuilder)
        ensures
            r == (AtlasBuilder {
                size_w,
                size_h,
                dim_w,
                dim_h,
                off_x: 0,
                off_y: 0,
                pad_x: 0,
                pad_y: 0,
            }),
    {
        AtlasBuilder { size_w, size_h, dim_w, dim_h, off_x: 0, off_y: 0, pad_x: 0, pad_y: 0 }
    }

    /// The same builder with its cut origin moved.
    pub fn offset(self, off_x: i32, off_y: i32) -> (r: AtlasBuilder)
        ensures
            r == (AtlasBuilder { off_x, off_y, ..self }),
    {
        AtlasBuilder { off_x, off_y, ..self }
    }

    /// The same builder with a margin shaved off each frame.
    pub fn padding(self, pad_x: i32, pad_y: i32) -> (r: AtlasBuilder)
        ensures
            r == (AtlasBuilder { pad_x, pad_y, ..self }),
    {
        AtlasBuilder { pad_x, pad_y, ..self }
    }

    /// Cuts the sheet: every frame that fits, rows left to right, top row
    /// first.
    pub fn build(&self) -> (r: Vec<FrameRect>)
        requires
            self.wf(),
        ensures
            r@ == self.sheet_frames_from(0),
    {
        let mut out: Vec<FrameRect> = Vec::new();
        let mut y: i32 = 0;
        proof {
            assert(out@ + self.sheet_frames_from(0) =~= self.sheet_frames_from(0));
        }
        while y + self.off_y - self.pad_y + self.size_h <= self.dim_h
            invariant
                self.wf(),
                0 <= y <= self.dim_h + self.size_h,
                self.sheet_frames_from(0) == out@ + self.sheet_frames_from(y as int),
            decreases self.dim_h + self.size_h - y,
        {
            let ghost out_row = out@;
            let mut x: i32 = 0;
            while x + self.off_x - self.pad_x + self.size_w <= self.dim_w
                invariant
                    self.wf(),
                    0 <= y <= self.dim_h + self.size_h,
                    y + self.off_y - self.pad_y + self.size_h <= self.dim_h,
                    0 <= x <= self.dim_w + self.size_w,
                    out_row + self.row_frames(y as int, 0) == out@ + self.row_frames(
                        y as int,
                        x as int,
                    ),
                decreases self.dim_w + self.size_w - x,
            {
                let ghost out_pre = out@;
                let frame = FrameRect {
                    min_x: x + self.pad_x + self.off_x,
                    min_y: y + self.pad_y + self.off_y,
                    max_x: x + self.off_x - self.pad_x + self.size_w,
                    max_y: y + self.off_y - self.pad_y + self.size_h,
                };
                out.push(frame);
                proof {
                    assert(frame == self.frame_at(x as int, y as int));
                    assert(self.row_frames(y as int, x as int) == seq![frame]
                        + self.row_frames(y as int, x + self.size_w));
                    assert(out@ + self.row_frames(y as int, x + self.size_w) =~= out_pre + (
                    seq![frame] + self.row_frames(y as int, x + self.size_w)));
                }
                x += self.size_w;
            }
            proof {
                assert(self.row_frames(y as int, x as int) =~= Seq::<FrameRect>::empty());
                assert(out_row + self.row_frames(y as int, 0) =~= out@);
                assert(self.sheet_frames_from(y as int) == self.row_frames(y as int, 0)
                    + self.sheet_frames_from(y + self.size_h));
                assert(out_row + self.sheet_frames_from(y as int) =~= out@
                    + self.sheet_frames_from(y + self.size_h));
            }
            y += self.size_h;
        }
        proof {
            assert(self.sheet_frames_from(y as int) =~= Seq::<FrameRect>::empty());
            assert(out@ + Seq::<FrameRect>::empty() =~= out@);
        }
        out
    }
}

} // verus!
