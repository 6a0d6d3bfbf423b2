use vstd::prelude::*;

verus! {

/// One non-empty cell of the tile map. `tile` is the raw map value, always
/// positive here: the sprite frame it names is `tile - 1`. `loaded` holds
/// the handle of this cell's collider instance while one exists.
#[derive(Clone, Copy, PartialEq, Eq, Debug)]
pub struct GridCell {
    pub grid_x: u32,
    pub grid_y: u32,
    pub tile: u32,
    pub loaded: Option<u64>,
}

/// The immutable 2D grid of tile identifiers, ordered rows of ordered
/// cells; value `0` means empty, `v > 0` names atlas frame `v - 1`.
#[derive(Clone, PartialEq, Eq, Debug)]
pub struct TileMap {
    pub map: Vec<Vec<u32>>,
}

/// The rows of the map as mathematical sequences.
pub open spec fn rows_of(map: Seq<Vec<u32>>) -> Seq<Seq<u32>> {
    map.map_values(|r: Vec<u32>| r@)
}

/// The streaming cells contributed by one row, in cell order: one unloaded
/// cell for each non-zero entry.
pub open spec fn row_cells(row: Seq<u32>, y: u32) -> Seq<GridCell>
    decreases row.len(),
{
    if row.len() == 0 {
        Seq::empty()
    } else {
        row_cells(row.drop_last(), y) + if row.last() != 0 {
            seq![GridCell {
                grid_x: (row.len() - 1) as u32,
                grid_y: y,
                tile: row.last(),
                loaded: None,
            }]
        } else {
            Seq::empty()
        }
    }
}

/// The streaming cells of the whole map, rows in order.
pub open spec fn map_cells(rows: Seq<Seq<u32>>) -> Seq<GridCell>
    decreases rows.len(),
{
    if rows.len() == 0 {
        Seq::empty()
    } else {
        map_cells(rows.drop_last()) + row_cells(rows.last(), (rows.len() - 1) as u32)
    }
}

impl TileMap {
    /// Builds the streaming cell list: exactly one unloaded cell per
    /// non-zero map entry, rows in order, cells in order within a row.
    pub fn cells(&self) -> (r: Vec<GridCell>)
        requires
            self.map@.len() <= u32::MAX,
            forall|y: int| 0 <= y < self.map@.len() ==> (#[trigger] self.map@[y])@.len()
                <= u32::MAX,
        ensures
            r@ == map_cells(rows_of(self.map@)),
    {
        let ghost rows = rows_of(self.map@);
        let mut out: Vec<GridCell> = Vec::new();
        let mut y: usize = 0;
        while y < self.map.len()
            invariant
                y <= self.map@.len(),
                self.map@.len() <= u32::MAX,
                forall|i: int| 0 <= i < self.map@.len() ==> (#[trigger] self.map@[i])@.len()
                    <= u32::MAX,
                rows == rows_of(self.map@),
                out@ == map_cells(rows.take(y as int)),
            decreases self.map@.len() - y,
        {
            let row = &self.map[y];
            let mut x: usize = 0;
            while x < row.len()
                invariant
                    x <= row@.len(),
                    row@.len() <= u32::MAX,
                    y < self.map@.len(),
                    self.map@.len() <= u32::MAX,
                    row == &self.map@[y as int],
                    rows == rows_of(self.map@),
                    out@ == map_cells(rows.take(y as int)) + row_cells(
                        rows[y as int].take(x as int),
                        y as u32,
                    ),
                decreases row@.len() - x,
            {
                proof {
                    assert(rows[y as int].take(x as int + 1).drop_last() =~= rows[y as int].take(
                        x as int,
                    ));
                    assert(rows[y as int].take(x as int + 1).last() == rows[y as int][x as int]);
                }
                let tile = row[x];
                if tile != 0 {
                    out.push(
                        GridCell { grid_x: x as u32, grid_y: y as u32, tile, loaded: None },
                    );
                }
                x += 1;
            }
            proof {
                assert(rows[y as int].take(row@.len() as int) =~= rows[y as int]);
                assert(rows.take(y as int + 1).drop_last() =~= rows.take(y as int));
                assert(rows.take(y as int + 1).last() == rows[y as int]);
            }
            y += 1;
        }
        proof {
            assert(rows.take(self.map@.len() as int) =~= rows);
        }
        out
    }
}

} // verus!
