//! Runtime map grid.
//!
//! `1` is a wall and `0` is empty floor. Cells are stored row by row in a
//! flat vector.

use vstd::prelude::*;

verus! {

/// Index of cell `(x, y)` in a row-major grid of the given width.
pub open spec fn flat_index(width: int, x: int, y: int) -> int {
    y * width + x
}

/// The flat index of an in-bounds cell lies inside the cell vector.
pub proof fn lemma_flat_index_bounds(width: int, height: int, x: int, y: int)
    requires
        0 <= x < width,
        0 <= y < height,
    ensures
        0 <= y * width <= flat_index(width, x, y) < width * height,
{
    assert(0 <= y * width) by (nonlinear_arith)
        requires
            0 <= y,
            0 <= width,
    ;
    assert(y * width + x < width * height) by (nonlinear_arith)
        requires
            0 <= x < width,
            0 <= y < height,
    ;
}

/// Two in-bounds cells share a flat index only when they are the same cell.
pub proof fn lemma_flat_index_injective(width: int, x1: int, y1: int, x2: int, y2: int)
    requires
        0 <= x1 < width,
        0 <= x2 < width,
        0 <= y1,
        0 <= y2,
        flat_index(width, x1, y1) == flat_index(width, x2, y2),
    ensures
        x1 == x2,
        y1 == y2,
{
    if y1 < y2 {
        assert(y1 * width + width <= y2 * width) by (nonlinear_arith)
            requires
                y1 < y2,
                0 <= width,
        ;
    } else if y2 < y1 {
        assert(y2 * width + width <= y1 * width) by (nonlinear_arith)
            requires
                y2 < y1,
                0 <= width,
        ;
    }
}

#[derive(Clone, Debug)]
pub struct MapGrid {
    pub width: usize,
    pub height: usize,
    pub cells: Vec<u8>,
}

impl MapGrid {
    /// The cell vector holds exactly one entry per cell.
    pub open spec fn wf(&self) -> bool {
        self.cells@.len() == self.width * self.height
    }

    pub open spec fn in_bounds(&self, x: int, y: int) -> bool {
        0 <= x < self.width && 0 <= y < self.height
    }

    /// What `get` reads: the stored value inside the grid, `0` outside.
    pub open spec fn cell(&self, x: int, y: int) -> u8 {
        if self.in_bounds(x, y) {
            self.cells@[flat_index(self.width as int, x, y)]
        } else {
            0
        }
    }

    /// What `tile_at` reads: the stored value inside the grid; everything
    /// outside the grid counts as wall.
    pub open spec fn tile(&self, x: int, y: int) -> u8 {
        if self.in_bounds(x, y) {
            self.cell(x, y)
        } else {
            1
        }
    }

    /// `after` is `before` with cell `(x, y)` overwritten by `value` when that
    /// cell lies inside the grid, and equal to `before` otherwise.
    pub open spec fn written(before: MapGrid, after: MapGrid, x: int, y: int, value: u8) -> bool {
        &&& after.wf()
        &&& after.width == before.width
        &&& after.height == before.height
        &&& forall|i: int, j: int|
            #[trigger] after.cell(i, j) == if i == x && j == y && before.in_bounds(x, y) {
                value
            } else {
                before.cell(i, j)
            }
    }

    /// Creates an all-empty grid of `width * height` cells.
    pub fn new(width: usize, height: usize) -> (grid: MapGrid)
        requires
            width * height <= usize::MAX,
        ensures
            grid.wf(),
            grid.width == width,
            grid.height == height,
            forall|i: int, j: int| #[trigger] grid.cell(i, j) == 0,
    {
        let grid = MapGrid { width, height, cells: vec![0u8; width * height] };
        assert forall|i: int, j: int| #[trigger] grid.cell(i, j) == 0 by {
            if grid.in_bounds(i, j) {
                lemma_flat_index_bounds(width as int, height as int, i, j);
            }
        }
        grid
    }

    /// Writes `value` at `(x, y)`; a write outside the grid changes nothing.
    pub fn set(&mut self, x: usize, y: usize, value: u8)
        requires
            old(self).wf(),
        ensures
            MapGrid::written(*old(self), *final(self), x as int, y as int, value),
    {
        if x >= self.width || y >= self.height {
            return;
        }
        let _cell_count = self.cells.len();
        proof {
            lemma_flat_index_bounds(self.width as int, self.height as int, x as int, y as int);
        }
        let index = y * self.width + x;
        self.cells.set(index, value);
        proof {
            let before = *old(self);
            let after = *self;
            assert forall|i: int, j: int|
                #[trigger] after.cell(i, j) == if i == x && j == y && before.in_bounds(
                    x as int,
                    y as int,
                ) {
                    value
                } else {
                    before.cell(i, j)
                } by {
                if after.in_bounds(i, j) {
                    lemma_flat_index_bounds(after.width as int, after.height as int, i, j);
                    if flat_index(after.width as int, i, j) == index {
                        lemma_flat_index_injective(
                            after.width as int,
                            i,
                            j,
                            x as int,
                            y as int,
                        );
                    }
                }
            }
        }
    }

    /// Reads the cell at `(x, y)`; `0` outside the grid.
    pub fn get(&self, x: usize, y: usize) -> (value: u8)
        requires
            self.wf(),
        ensures
            value == self.cell(x as int, y as int),
    {
        if x >= self.width || y >= self.height {
            return 0;
        }
        let _cell_count = self.cells.len();
        proof {
            lemma_flat_index_bounds(self.width as int, self.height as int, x as int, y as int);
        }
        self.cells[y * self.width + x]
    }

    /// Tile under the cell `(x, y)`, the coordinates being already floored
    /// to whole cells; anything outside the grid, negative coordinates
    /// included, is a wall.
    pub fn tile_at(&self, x: i64, y: i64) -> (value: u8)
        requires
            self.wf(),
        ensures
            value == self.tile(x as int, y as int),
    {
        if x < 0 || y < 0 {
            return 1;
        }
        if (x as u64) >= (self.width as u64) || (y as u64) >= (self.height as u64) {
            return 1;
        }
        self.get(x as usize, y as usize)
    }

    /// Whether the cell `(x, y)` is a wall (outside the grid always is).
    pub fn is_wall(&self, x: i64, y: i64) -> (wall: bool)
        requires
            self.wf(),
        ensures
            wall == (self.tile(x as int, y as int) == 1),
    {
        self.tile_at(x, y) == 1
    }

    /// Texture of the wall at `(x, y)`: `(x + y) mod 30 + 1`, in `1..=30`.
    pub fn wall_texture_index(&self, x: i32, y: i32) -> (index: usize)
        requires
            i32::MIN <= x + y <= i32::MAX,
        ensures
            index == (x + y) % 30 + 1,
            1 <= index <= 30,
    {
        let sum: i32 = x + y;
        let rem: i32 = match sum.checked_rem_euclid(30) {
            Some(r) => r,
            None => 0,
        };
        rem as usize + 1
    }
}

/// Law: a grid made by `new` is empty everywhere, and reading outside it
/// through `tile_at` always meets a wall.
pub proof fn law_new_grid_is_empty(grid: MapGrid, width: usize, height: usize, x: int, y: int)
    requires
        grid.wf(),
        grid.width == width,
        grid.height == height,
        forall|i: int, j: int| #[trigger] grid.cell(i, j) == 0,
    ensures
        grid.cell(x, y) == 0,
        grid.in_bounds(x, y) ==> grid.tile(x, y) == 0,
        !grid.in_bounds(x, y) ==> grid.tile(x, y) == 1,
{
    assert(grid.cell(x, y) == 0);
}

/// Law: after `set(x, y, value)` inside the grid, `get(x, y)` gives `value`
/// back and every other cell keeps what it held; a `set` outside the grid
/// leaves every cell as it was.
pub proof fn law_get_after_set(
    before: MapGrid,
    after: MapGrid,
    x: int,
    y: int,
    value: u8,
    i: int,
    j: int,
)
    requires
        before.wf(),
        MapGrid::written(before, after, x, y, value),
    ensures
        before.in_bounds(x, y) ==> after.cell(x, y) == value,
        !(i == x && j == y) ==> after.cell(i, j) == before.cell(i, j),
        !before.in_bounds(x, y) ==> after.cell(i, j) == before.cell(i, j),
{
    assert(after.cell(x, y) == (if before.in_bounds(x, y) { value } else { before.cell(x, y) }));
    assert(after.cell(i, j) == (if i == x && j == y && before.in_bounds(x, y) {
        value
    } else {
        before.cell(i, j)
    }));
}

/// Law: the wall texture index repeats every 30 cells along either axis.
pub proof fn law_wall_texture_periodic(x: int, y: int)
    ensures
        (x + 30 + y) % 30 + 1 == (x + y) % 30 + 1,
        (x + (y + 30)) % 30 + 1 == (x + y) % 30 + 1,
        1 <= (x + y) % 30 + 1 <= 30,
{
    assert((x + 30 + y) % 30 == (x + y) % 30) by (nonlinear_arith);
    assert((x + (y + 30)) % 30 == (x + y) % 30) by (nonlinear_arith);
}

} // verus!
