//! Grid stepping of the classic DDA raycaster (as in Wolfenstein 3D).
//!
//! A ray moves cell by cell, each time crossing the nearest vertical or
//! horizontal grid line, until it enters a wall. Which line is nearer is a
//! question about distances along the ray and is answered by the caller; the
//! step itself, and whether the new cell stops the ray, is decided here.

use vstd::prelude::*;
use crate::map::MapGrid;

verus! {

/// Most cells a ray crosses before it gives up, so that a malformed map can
/// never make it run forever.
pub const MAX_RAY_STEPS: u32 = 200;

/// The cell a ray has just entered.
#[derive(Clone, Copy, Debug, PartialEq, Eq, Structural)]
pub struct RayStep {
    pub map_x: i32,
    pub map_y: i32,
    /// The ray crossed a vertical grid line (it moved along x).
    pub vertical_wall: bool,
    /// The new cell is a wall (anything outside the map is).
    pub hit: bool,
}

/// Moves the ray from cell `(map_x, map_y)` one cell along x by `step_x`
/// when `along_x`, otherwise one cell along y by `step_y`, and reports
/// whether it entered a wall.
pub fn advance_ray(
    map: &MapGrid,
    map_x: i32,
    map_y: i32,
    step_x: i32,
    step_y: i32,
    along_x: bool,
) -> (step: RayStep)
    requires
        map.wf(),
        along_x ==> i32::MIN <= map_x + step_x <= i32::MAX,
        !along_x ==> i32::MIN <= map_y + step_y <= i32::MAX,
    ensures
        along_x ==> step.map_x == map_x + step_x && step.map_y == map_y && step.vertical_wall,
        !along_x ==> step.map_x == map_x && step.map_y == map_y + step_y && !step.vertical_wall,
        step.hit == (map.tile(step.map_x as int, step.map_y as int) == 1),
{
    let (next_x, next_y, vertical_wall) = if along_x {
        (map_x + step_x, map_y, true)
    } else {
        (map_x, map_y + step_y, false)
    };
    let hit = map.is_wall(next_x as i64, next_y as i64);
    RayStep { map_x: next_x, map_y: next_y, vertical_wall, hit }
}

/// Law: a ray that starts inside a map whose outer ring is all wall, and
/// moves one cell at a time, enters a wall at the latest when it reaches the
/// ring; it can never walk out of the map without a hit.
pub proof fn law_ray_stops_at_border(map: MapGrid, x: int, y: int)
    requires
        map.wf(),
        forall|i: int, j: int|
            map.in_bounds(i, j) && (i == 0 || j == 0 || i == map.width - 1 || j == map.height - 1)
                ==> #[trigger] map.cell(i, j) == 1,
        !map.in_bounds(x, y) || x == 0 || y == 0 || x == map.width - 1 || y == map.height - 1,
    ensures
        map.tile(x, y) == 1,
{
    if map.in_bounds(x, y) {
        assert(map.cell(x, y) == 1);
    }
}

} // verus!
