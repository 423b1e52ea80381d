//! The three playable levels: their wall layouts, where the player starts and
//! where the hoops hang.

use vstd::prelude::*;
use crate::map::MapGrid;

verus! {

/// A point of the map in half-cell units: the world coordinate is
/// `half_x / 2` along x and `half_y / 2` along y, so `(3, 3)` is the centre
/// `(1.5, 1.5)` of cell `(1, 1)`.
#[derive(Clone, Copy, Debug, PartialEq, Eq, Structural)]
pub struct HalfPoint {
    pub half_x: u32,
    pub half_y: u32,
}

impl HalfPoint {
    /// Column of the cell that holds the point.
    pub open spec fn cell_x(self) -> int {
        self.half_x as int / 2
    }

    /// Row of the cell that holds the point.
    pub open spec fn cell_y(self) -> int {
        self.half_y as int / 2
    }
}

#[derive(Debug)]
pub struct Level {
    pub grid: MapGrid,
    pub player_start: HalfPoint,
    /// Facing direction at the start, in degrees.
    pub player_start_angle_deg: i32,
    pub hoop_positions: Vec<HalfPoint>,
    pub hoops_required: usize,
    pub level_number: u32,
    pub level_name: String,
}

/// Cell `(i, j)` lies on the outer ring of a `width` x `height` grid.
pub open spec fn on_border(width: int, height: int, i: int, j: int) -> bool {
    &&& 0 <= i < width
    &&& 0 <= j < height
    &&& (i == 0 || i == width - 1 || j == 0 || j == height - 1)
}

/// Cell `(i, j)` belongs to the row segment `x_start..=x_end` of row `y`,
/// leaving out the gap column when there is one.
pub open spec fn in_row_segment(
    i: int,
    j: int,
    y: int,
    x_start: int,
    x_end: int,
    gap_x: Option<usize>,
) -> bool {
    &&& j == y
    &&& x_start <= i <= x_end
    &&& match gap_x {
        Some(g) => i != g,
        None => true,
    }
}

/// Cell `(i, j)` belongs to the column segment `y_start..=y_end` of column
/// `x`, leaving out the gap row when there is one.
pub open spec fn in_column_segment(
    i: int,
    j: int,
    x: int,
    y_start: int,
    y_end: int,
    gap_y: Option<usize>,
) -> bool {
    &&& i == x
    &&& y_start <= j <= y_end
    &&& match gap_y {
        Some(g) => j != g,
        None => true,
    }
}

/// Grid width of level `number`.
pub open spec fn level_width(number: u32) -> usize {
    if number == 1 {
        20
    } else if number == 2 {
        30
    } else {
        40
    }
}

/// Grid height of level `number`.
pub open spec fn level_height(number: u32) -> usize {
    if number == 1 {
        16
    } else if number == 2 {
        22
    } else {
        28
    }
}

/// The inner walls of level `number`.
pub open spec fn level_inner_wall(number: u32, i: int, j: int) -> bool {
    if number == 1 {
        ||| in_row_segment(i, j, 5, 3, 13, Some(8))
        ||| in_column_segment(i, j, 10, 5, 10, Some(8))
        ||| in_row_segment(i, j, 10, 5, 15, Some(12))
    } else if number == 2 {
        ||| in_row_segment(i, j, 6, 4, 24, Some(11))
        ||| in_column_segment(i, j, 12, 3, 17, Some(10))
        ||| in_row_segment(i, j, 14, 8, 27, Some(19))
        ||| in_column_segment(i, j, 22, 7, 20, Some(15))
    } else {
        ||| in_row_segment(i, j, 13, 2, 31, Some(9))
        ||| in_row_segment(i, j, 13, 2, 31, Some(17))
        ||| in_row_segment(i, j, 13, 2, 31, Some(25))
        ||| in_column_segment(i, j, 10, 2, 23, Some(8))
        ||| in_column_segment(i, j, 28, 4, 25, Some(18))
        ||| in_row_segment(i, j, 7, 5, 24, Some(13))
        ||| in_row_segment(i, j, 20, 14, 35, Some(26))
    }
}

/// Whether cell `(i, j)` of level `number` is a wall: the border ring plus
/// the inner walls, inside the grid.
pub open spec fn level_wall(number: u32, i: int, j: int) -> bool {
    let w = level_width(number) as int;
    let h = level_height(number) as int;
    &&& 0 <= i < w
    &&& 0 <= j < h
    &&& (on_border(w, h, i, j) || level_inner_wall(number, i, j))
}

/// Start point of level `number`.
pub open spec fn level_start(number: u32) -> HalfPoint {
    if number == 1 {
        HalfPoint { half_x: 3, half_y: 3 }
    } else {
        HalfPoint { half_x: 5, half_y: 5 }
    }
}

/// Hoop positions of level `number`.
pub open spec fn level_hoops(number: u32) -> Seq<HalfPoint> {
    if number == 1 {
        seq![HalfPoint { half_x: 35, half_y: 25 }]
    } else if number == 2 {
        seq![HalfPoint { half_x: 11, half_y: 37 }, HalfPoint { half_x: 53, half_y: 9 }]
    } else {
        seq![
            HalfPoint { half_x: 71, half_y: 9 },
            HalfPoint { half_x: 37, half_y: 29 },
            HalfPoint { half_x: 13, half_y: 49 },
        ]
    }
}

/// Name of level `number`.
pub open spec fn level_name_of(number: u32) -> Seq<char> {
    if number == 1 {
        "First Quarter Warmup"@
    } else if number == 2 {
        "Second Quarter Run"@
    } else {
        "Championship Circuit"@
    }
}

/// The point stands on a cell that is not a wall.
pub open spec fn point_is_open(grid: MapGrid, p: HalfPoint) -> bool {
    grid.tile(p.cell_x(), p.cell_y()) != 1
}

impl Level {
    /// The start point and every hoop stand on open floor.
    pub open spec fn playable(&self) -> bool {
        &&& point_is_open(self.grid, self.player_start)
        &&& forall|k: int|
            0 <= k < self.hoop_positions@.len() ==> point_is_open(
                self.grid,
                #[trigger] self.hoop_positions@[k],
            )
    }

    /// This is exactly level `number` (1, 2 or 3) as `build_level` lays it out.
    pub open spec fn is_level(&self, number: u32) -> bool {
        &&& self.grid.wf()
        &&& self.grid.width == level_width(number)
        &&& self.grid.height == level_height(number)
        &&& forall|i: int, j: int|
            #[trigger] self.grid.cell(i, j) == if level_wall(number, i, j) {
                1u8
            } else {
                0u8
            }
        &&& self.player_start == level_start(number)
        &&& self.player_start_angle_deg == 0
        &&& self.hoop_positions@ == level_hoops(number)
        &&& self.hoops_required == level_hoops(number).len()
        &&& self.level_number == number
        &&& self.level_name@ == level_name_of(number)
    }
}

/// Law: every level is closed in by walls: each cell of its outer ring is a
/// wall, so nothing that moves cell by cell from inside can leave the map
/// without meeting a wall.
pub proof fn law_levels_are_enclosed(level: Level, number: u32, i: int, j: int)
    requires
        1 <= number <= 3,
        level.is_level(number),
        on_border(level.grid.width as int, level.grid.height as int, i, j),
    ensures
        level.grid.cell(i, j) == 1,
        level.grid.tile(i, j) == 1,
{
    assert(level.grid.cell(i, j) == if level_wall(number, i, j) { 1u8 } else { 0u8 });
}

/// Law: the fixed data of each level. Level 1 is 20 x 16 with the player
/// starting at (1.5, 1.5) and one hoop at (17.5, 12.5); level 2 is 30 x 22,
/// start (2.5, 2.5), hoops at (5.5, 18.5) and (26.5, 4.5); level 3 is
/// 40 x 28, start (2.5, 2.5), hoops at (35.5, 4.5), (18.5, 14.5) and
/// (6.5, 24.5). Every level starts facing angle 0 and asks for all its hoops.
pub proof fn law_level_data(level: Level, number: u32)
    requires
        1 <= number <= 3,
        level.is_level(number),
    ensures
        level.level_number == number,
        level.player_start_angle_deg == 0,
        level.hoops_required == level.hoop_positions@.len(),
        number == 1 ==> {
            &&& level.grid.width == 20 && level.grid.height == 16
            &&& level.player_start == HalfPoint { half_x: 3, half_y: 3 }
            &&& level.hoop_positions@.len() == 1
            &&& level.hoop_positions@[0] == HalfPoint { half_x: 35, half_y: 25 }
        },
        number == 2 ==> {
            &&& level.grid.width == 30 && level.grid.height == 22
            &&& level.player_start == HalfPoint { half_x: 5, half_y: 5 }
            &&& level.hoop_positions@.len() == 2
            &&& level.hoop_positions@[0] == HalfPoint { half_x: 11, half_y: 37 }
            &&& level.hoop_positions@[1] == HalfPoint { half_x: 53, half_y: 9 }
        },
        number == 3 ==> {
            &&& level.grid.width == 40 && level.grid.height == 28
            &&& level.player_start == HalfPoint { half_x: 5, half_y: 5 }
            &&& level.hoop_positions@.len() == 3
            &&& level.hoop_positions@[0] == HalfPoint { half_x: 71, half_y: 9 }
            &&& level.hoop_positions@[1] == HalfPoint { half_x: 37, half_y: 29 }
            &&& level.hoop_positions@[2] == HalfPoint { half_x: 13, half_y: 49 }
        },
{
}

/// Law: a playable level has its start and every one of its hoops, the first
/// one included, on a cell that is not a wall: for each hoop `k`, the tile
/// at `(half_x / 2, half_y / 2)` is not 1. Conversely, a level whose start
/// and every hoop stand on such cells is playable.
pub proof fn law_playable_means_every_hoop_open(level: Level)
    ensures
        level.playable() ==> level.grid.tile(
            level.player_start.half_x as int / 2,
            level.player_start.half_y as int / 2,
        ) != 1,
        level.playable() ==> forall|k: int|
            0 <= k < level.hoop_positions@.len() ==> level.grid.tile(
                (#[trigger] level.hoop_positions@[k]).half_x as int / 2,
                level.hoop_positions@[k].half_y as int / 2,
            ) != 1,
        (level.grid.tile(
            level.player_start.half_x as int / 2,
            level.player_start.half_y as int / 2,
        ) != 1 && forall|k: int|
            0 <= k < level.hoop_positions@.len() ==> level.grid.tile(
                (#[trigger] level.hoop_positions@[k]).half_x as int / 2,
                level.hoop_positions@[k].half_y as int / 2,
            ) != 1) ==> level.playable(),
{
    if level.playable() {
        assert forall|k: int| 0 <= k < level.hoop_positions@.len() implies level.grid.tile(
            (#[trigger] level.hoop_positions@[k]).half_x as int / 2,
            level.hoop_positions@[k].half_y as int / 2,
        ) != 1 by {
            assert(point_is_open(level.grid, level.hoop_positions@[k]));
        }
    }
}

/// Builds level `index`; only levels 1, 2 and 3 exist.
pub fn build_level(index: u32) -> (level: Level)
    requires
        1 <= index <= 3,
    ensures
        level.is_level(index),
        level.playable(),
{
    match index {
        1 => build_level_1(),
        2 => build_level_2(),
        _ => build_level_3(),
    }
}

pub fn build_level_1() -> (level: Level)
    ensures
        level.is_level(1),
        level.playable(),
{
    let mut grid = MapGrid::new(20, 16);
    add_border(&mut grid);

    fill_horizontal_segment(&mut grid, 5, 3, 13, Some(8));
    fill_vertical_segment(&mut grid, 10, 5, 10, Some(8));
    fill_horizontal_segment(&mut grid, 10, 5, 15, Some(12));

    let mut hoops: Vec<HalfPoint> = Vec::new();
    hoops.push(HalfPoint { half_x: 35, half_y: 25 });
    assert(hoops@ =~= level_hoops(1));

    let level = build_level_from_parts(
        1,
        "First Quarter Warmup",
        grid,
        HalfPoint { half_x: 3, half_y: 3 },
        0,
        hoops,
    );
    assert(level.is_level(1));
    let ok = verify_level(&level);
    assert(ok);
    level
}

pub fn build_level_2() -> (level: Level)
    ensures
        level.is_level(2),
        level.playable(),
{
    let mut grid = MapGrid::new(30, 22);
    add_border(&mut grid);

    fill_horizontal_segment(&mut grid, 6, 4, 24, Some(11));
    fill_vertical_segment(&mut grid, 12, 3, 17, Some(10));
    fill_horizontal_segment(&mut grid, 14, 8, 27, Some(19));
    fill_vertical_segment(&mut grid, 22, 7, 20, Some(15));

    let mut hoops: Vec<HalfPoint> = Vec::new();
    hoops.push(HalfPoint { half_x: 11, half_y: 37 });
    hoops.push(HalfPoint { half_x: 53, half_y: 9 });
    assert(hoops@ =~= level_hoops(2));

    let level = build_level_from_parts(
        2,
        "Second Quarter Run",
        grid,
        HalfPoint { half_x: 5, half_y: 5 },
        0,
        hoops,
    );
    assert(level.is_level(2));
    let ok = verify_level(&level);
    assert(ok);
    level
}

pub fn build_level_3() -> (level: Level)
    ensures
        level.is_level(3),
        level.playable(),
{
    let mut grid = MapGrid::new(40, 28);
    add_border(&mut grid);

    // A long decorated corridor that shows every wall texture.
    fill_horizontal_segment(&mut grid, 13, 2, 31, Some(9));
    fill_horizontal_segment(&mut grid, 13, 2, 31, Some(17));
    fill_horizontal_segment(&mut grid, 13, 2, 31, Some(25));

    fill_vertical_segment(&mut grid, 10, 2, 23, Some(8));
    fill_vertical_segment(&mut grid, 28, 4, 25, Some(18));
    fill_horizontal_segment(&mut grid, 7, 5, 24, Some(13));
    fill_horizontal_segment(&mut grid, 20, 14, 35, Some(26));

    let mut hoops: Vec<HalfPoint> = Vec::new();
    hoops.push(HalfPoint { half_x: 71, half_y: 9 });
    hoops.push(HalfPoint { half_x: 37, half_y: 29 });
    hoops.push(HalfPoint { half_x: 13, half_y: 49 });
    assert(hoops@ =~= level_hoops(3));

    let level = build_level_from_parts(
        3,
        "Championship Circuit",
        grid,
        HalfPoint { half_x: 5, half_y: 5 },
        0,
        hoops,
    );
    assert(level.is_level(3));
    let ok = verify_level(&level);
    assert(ok);
    level
}

/// Puts a level together; the number of hoops to score is the number of
/// hoops placed.
pub fn build_level_from_parts(
    level_number: u32,
    level_name: &str,
    grid: MapGrid,
    player_start: HalfPoint,
    player_start_angle_deg: i32,
    hoop_positions: Vec<HalfPoint>,
) -> (level: Level)
    ensures
        level.grid == grid,
        level.player_start == player_start,
        level.player_start_angle_deg == player_start_angle_deg,
        level.hoop_positions@ == hoop_positions@,
        level.hoops_required == hoop_positions@.len(),
        level.level_number == level_number,
        level.level_name@ == level_name@,
{
    Level {
        hoops_required: hoop_positions.len(),
        grid,
        player_start,
        player_start_angle_deg,
        hoop_positions,
        level_number,
        level_name: level_name.to_owned(),
    }
}

/// Whether the point stands on open floor of the grid.
fn point_open(grid: &MapGrid, p: HalfPoint) -> (open: bool)
    requires
        grid.wf(),
    ensures
        open == point_is_open(*grid, p),
{
    !grid.is_wall((p.half_x / 2) as i64, (p.half_y / 2) as i64)
}

/// Checks that the start point and every hoop of the level stand on open
/// floor.
pub fn verify_level(level: &Level) -> (ok: bool)
    requires
        level.grid.wf(),
    ensures
        ok == level.playable(),
{
    if !point_open(&level.grid, level.player_start) {
        return false;
    }
    let n = level.hoop_positions.len();
    let mut k: usize = 0;
    while k < n
        invariant
            level.grid.wf(),
            n == level.hoop_positions@.len(),
            k <= n,
            point_is_open(level.grid, level.player_start),
            forall|m: int| 0 <= m < k ==> point_is_open(level.grid, #[trigger] level.hoop_positions@[m]),
        decreases n - k,
    {
        if !point_open(&level.grid, level.hoop_positions[k]) {
            return false;
        }
        k += 1;
    }
    true
}

/// Turns the outer ring of the grid into walls.
pub fn add_border(grid: &mut MapGrid)
    requires
        old(grid).wf(),
        (old(grid).width == 0) == (old(grid).height == 0),
    ensures
        final(grid).wf(),
        final(grid).width == old(grid).width,
        final(grid).height == old(grid).height,
        forall|i: int, j: int|
            #[trigger] final(grid).cell(i, j) == if on_border(
                old(grid).width as int,
                old(grid).height as int,
                i,
                j,
            ) {
                1u8
            } else {
                old(grid).cell(i, j)
            },
{
    let width = grid.width;
    let height = grid.height;
    let ghost start = *grid;

    let mut x: usize = 0;
    while x < width
        invariant
            grid.wf(),
            grid.width == width,
            grid.height == height,
            start.width == width,
            start.height == height,
            x <= width,
            width > 0 ==> height > 0,
            forall|i: int, j: int|
                #[trigger] grid.cell(i, j) == if 0 <= i < x && 0 <= j < height && (j == 0 || j
                    == height - 1) {
                    1u8
                } else {
                    start.cell(i, j)
                },
        decreases width - x,
    {
        grid.set(x, 0, 1);
        grid.set(x, height - 1, 1);
        x += 1;
    }

    let mut y: usize = 0;
    while y < height
        invariant
            grid.wf(),
            grid.width == width,
            grid.height == height,
            start.width == width,
            start.height == height,
            y <= height,
            height > 0 ==> width > 0,
            forall|i: int, j: int|
                #[trigger] grid.cell(i, j) == if (0 <= i < width && 0 <= j < height && (j == 0
                    || j == height - 1)) || (0 <= j < y && 0 <= i < width && (i == 0 || i == width
                    - 1)) {
                    1u8
                } else {
                    start.cell(i, j)
                },
        decreases height - y,
    {
        grid.set(0, y, 1);
        grid.set(width - 1, y, 1);
        y += 1;
    }
}

/// Turns the cells `x_start..=x_end` of row `y` into walls, skipping the gap
/// column if one is given; cells outside the grid are left alone.
pub fn fill_horizontal_segment(
    grid: &mut MapGrid,
    y: usize,
    x_start: usize,
    x_end: usize,
    gap_x: Option<usize>,
)
    requires
        old(grid).wf(),
    ensures
        final(grid).wf(),
        final(grid).width == old(grid).width,
        final(grid).height == old(grid).height,
        forall|i: int, j: int|
            #[trigger] final(grid).cell(i, j) == if old(grid).in_bounds(i, j) && in_row_segment(
                i,
                j,
                y as int,
                x_start as int,
                x_end as int,
                gap_x,
            ) {
                1u8
            } else {
                old(grid).cell(i, j)
            },
{
    if x_start > x_end {
        return;
    }
    let ghost start = *grid;
    let mut x: usize = x_start;
    loop
        invariant_except_break
            x_start <= x <= x_end,
            forall|i: int, j: int|
                #[trigger] grid.cell(i, j) == if start.in_bounds(i, j) && in_row_segment(
                    i,
                    j,
                    y as int,
                    x_start as int,
                    x - 1,
                    gap_x,
                ) {
                    1u8
                } else {
                    start.cell(i, j)
                },
        invariant
            grid.wf(),
            grid.width == start.width,
            grid.height == start.height,
        ensures
            forall|i: int, j: int|
                #[trigger] grid.cell(i, j) == if start.in_bounds(i, j) && in_row_segment(
                    i,
                    j,
                    y as int,
                    x_start as int,
                    x_end as int,
                    gap_x,
                ) {
                    1u8
                } else {
                    start.cell(i, j)
                },
        decreases x_end - x,
    {
        let skip = match gap_x {
            Some(g) => g == x,
            None => false,
        };
        if !skip {
            grid.set(x, y, 1);
        }
        if x == x_end {
            break;
        }
        x += 1;
    }
}

/// Turns the cells `y_start..=y_end` of column `x` into walls, skipping the
/// gap row if one is given; cells outside the grid are left alone.
pub fn fill_vertical_segment(
    grid: &mut MapGrid,
    x: usize,
    y_start: usize,
    y_end: usize,
    gap_y: Option<usize>,
)
    requires
        old(grid).wf(),
    ensures
        final(grid).wf(),
        final(grid).width == old(grid).width,
        final(grid).height == old(grid).height,
        forall|i: int, j: int|
            #[trigger] final(grid).cell(i, j) == if old(grid).in_bounds(i, j)
                && in_column_segment(i, j, x as int, y_start as int, y_end as int, gap_y) {
                1u8
            } else {
                old(grid).cell(i, j)
            },
{
    if y_start > y_end {
        return;
    }
    let ghost start = *grid;
    let mut y: usize = y_start;
    loop
        invariant_except_break
            y_start <= y <= y_end,
            forall|i: int, j: int|
                #[trigger] grid.cell(i, j) == if start.in_bounds(i, j) && in_column_segment(
                    i,
                    j,
                    x as int,
                    y_start as int,
                    y - 1,
                    gap_y,
                ) {
                    1u8
                } else {
                    start.cell(i, j)
                },
        invariant
            grid.wf(),
            grid.width == start.width,
            grid.height == start.height,
        ensures
            forall|i: int, j: int|
                #[trigger] grid.cell(i, j) == if start.in_bounds(i, j) && in_column_segment(
                    i,
                    j,
                    x as int,
                    y_start as int,
                    y_end as int,
                    gap_y,
                ) {
                    1u8
                } else {
                    start.cell(i, j)
                },
        decreases y_end - y,
    {
        let skip = match gap_y {
            Some(g) => g == y,
            None => false,
        };
        if !skip {
            grid.set(x, y, 1);
        }
        if y == y_end {
            break;
        }
        y += 1;
    }
}

} // verus!
