//! The layout of the collage of posters that the `watch` command shows: a
//! grid that is as close to a square as the number of posters allows.

use vstd::prelude::*;

verus! {

/// The width of a poster.
pub const IMAGE_WIDTH: u32 = 250;

/// The height of a poster.
pub const IMAGE_HEIGHT: u32 = 350;

/// The space between posters.
pub const PADDING: u32 = 20;

/// The thickness of the frame round a poster.
pub const FRAME_THICKNESS: u32 = 10;

/// The width of one cell of the grid.
pub const CELL_WIDTH: u32 = 290;

/// The height of one cell of the grid.
pub const CELL_HEIGHT: u32 = 390;

/// The grid for a number of posters.
#[derive(Clone, Copy, Debug, PartialEq, Eq, Structural)]
pub struct Grid {
    pub columns: u32,
    pub rows: u32,
}

/// Whether `c` columns are the columns for `count` posters: the least
/// number whose square is at least `count`.
pub open spec fn is_column_count(count: int, c: int) -> bool {
    &&& 0 <= c
    &&& c * c >= count
    &&& forall|d: int| 0 <= d < c ==> #[trigger] (d * d) < count
}

/// The rows that `count` posters fill in `columns` columns; 0 where there
/// are no columns.
pub open spec fn row_count(count: int, columns: int) -> int {
    if columns <= 0 {
        0
    } else {
        (count + columns - 1) / columns
    }
}

/// The number of columns for `count` posters.
pub fn grid_columns(count: u32) -> (c: u32)
    ensures
        is_column_count(count as int, c as int),
        c <= 65536,
{
    let mut c: u32 = 0;
    let mut square: u64 = 0;
    while square < count as u64
        invariant
            c <= 65536,
            square == c * c,
            forall|d: int| 0 <= d < c ==> #[trigger] (d * d) < count,
        decreases 65536 - c,
    {
        proof {
            assert(c < 65536) by (nonlinear_arith)
                requires
                    c <= 65536,
                    c * c < count,
                    count <= 0xffff_ffff,
            ;
            assert((c + 1) * (c + 1) <= 0x1_0000_0000) by (nonlinear_arith)
                requires
                    c < 65536,
            ;
        }
        c += 1;
        square = (c as u64) * (c as u64);
    }
    c
}

/// The grid for `count` posters.
pub fn grid_for(count: u32) -> (g: Grid)
    ensures
        is_column_count(count as int, g.columns as int),
        g.rows == row_count(count as int, g.columns as int),
        g.rows <= g.columns <= 65536,
        g.columns * g.rows >= count,
{
    let columns = grid_columns(count);
    if columns == 0 {
        return Grid { columns: 0, rows: 0 };
    }
    let rows: u64 = (count as u64 + columns as u64 - 1) / (columns as u64);
    proof {
        assert(rows <= columns) by (nonlinear_arith)
            requires
                rows == (count + columns - 1) / (columns as int),
                columns * columns >= count,
                columns > 0,
        ;
        assert(columns * rows >= count) by (nonlinear_arith)
            requires
                rows == (count + columns - 1) / (columns as int),
                columns > 0,
        ;
    }
    Grid { columns, rows: rows as u32 }
}

impl Grid {
    /// The width of the canvas.
    pub fn canvas_width(&self) -> (w: u32)
        requires
            self.columns <= 65536,
        ensures
            w == self.columns * CELL_WIDTH,
    {
        self.columns * CELL_WIDTH
    }

    /// The height of the canvas.
    pub fn canvas_height(&self) -> (h: u32)
        requires
            self.rows <= 65536,
        ensures
            h == self.rows * CELL_HEIGHT,
    {
        self.rows * CELL_HEIGHT
    }

    /// Where the poster at `index` is drawn: the corner of its cell, moved in
    /// by the frame. Posters fill the grid row by row.
    pub fn poster_origin(&self, index: u32) -> (r: (u32, u32))
        requires
            0 < self.columns <= 65536,
            index / self.columns <= 65536,
        ensures
            r.0 == (index % self.columns) * CELL_WIDTH + FRAME_THICKNESS,
            r.1 == (index / self.columns) * CELL_HEIGHT + FRAME_THICKNESS,
    {
        let column: u32 = index % self.columns;
        let row: u32 = index / self.columns;
        (column * CELL_WIDTH + FRAME_THICKNESS, row * CELL_HEIGHT + FRAME_THICKNESS)
    }
}

} // verus!
