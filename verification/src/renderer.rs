//! Integer geometry of the pseudo-3D view: which rows of a screen column a
//! wall covers, which texel each pixel shows, where the minimap and the HUD
//! panel go. Pixels themselves are drawn by the caller.

use vstd::prelude::*;
use crate::map::MapGrid;

verus! {

pub const MINIMAP_CELL_SIZE: i32 = 4;
pub const MINIMAP_MAX_SIZE: i32 = 180;
pub const MINIMAP_PADDING: i32 = 8;
pub const MINIMAP_BORDER: i32 = 2;

/// An axis-aligned rectangle on screen, in pixels.
#[derive(Clone, Copy, Debug, PartialEq, Eq, Structural)]
pub struct ScreenRect {
    pub x: i32,
    pub y: i32,
    pub width: i32,
    pub height: i32,
}

/// Integer division rounding toward zero, as Rust's `/` does.
pub open spec fn trunc_div(a: int, b: int) -> int {
    let q = if a >= 0 {
        a
    } else {
        -a
    } / if b >= 0 {
        b
    } else {
        -b
    };
    if (a < 0) != (b < 0) {
        -q
    } else {
        q
    }
}

/// Law: for a positive divisor, `trunc_div` is division rounded toward zero:
/// `q * b` never passes `a`, lies on the same side of 0 as `a`, and is less
/// than `b` away from it.
pub proof fn law_trunc_div_rounds_toward_zero(a: int, b: int)
    requires
        b > 0,
    ensures
        a >= 0 ==> 0 <= trunc_div(a, b) * b <= a < trunc_div(a, b) * b + b,
        a < 0 ==> trunc_div(a, b) * b - b < a <= trunc_div(a, b) * b <= 0,
{
    if a >= 0 {
        let q = a / b;
        assert(0 <= q * b <= a < q * b + b) by (nonlinear_arith)
            requires
                q == a / b,
                a >= 0,
                b > 0,
        ;
    } else {
        let q = (-a) / b;
        assert(0 <= q * b <= -a < q * b + b) by (nonlinear_arith)
            requires
                q == (-a) / b,
                -a > 0,
                b > 0,
        ;
        assert((-q) * b == -(q * b)) by (nonlinear_arith);
    }
}

/// `value` brought into `lo..=hi`.
pub open spec fn clamp_int(value: int, lo: int, hi: int) -> int {
    if value < lo {
        lo
    } else if value > hi {
        hi
    } else {
        value
    }
}

fn clamp_i32(value: i32, lo: i32, hi: i32) -> (r: i32)
    requires
        lo <= hi,
    ensures
        r == clamp_int(value as int, lo as int, hi as int),
{
    if value < lo {
        lo
    } else if value > hi {
        hi
    } else {
        value
    }
}

/// The larger side of the map, at least 1.
pub open spec fn map_max_dim(width: usize, height: usize) -> usize {
    let m = if width >= height {
        width
    } else {
        height
    };
    if m >= 1 {
        m
    } else {
        1
    }
}

/// Side of a minimap cell in pixels: as large as fits the minimap into 180
/// pixels, but within `2..=4`.
pub open spec fn minimap_cell_size_of(width: usize, height: usize) -> i32 {
    clamp_int(trunc_div(180, map_max_dim(width, height) as i32 as int), 2, 4) as i32
}

/// Side of a minimap cell in pixels for this map.
pub fn minimap_cell_size(map: &MapGrid) -> (size: i32)
    requires
        map_max_dim(map.width, map.height) as i32 != 0,
    ensures
        size == minimap_cell_size_of(map.width, map.height),
        2 <= size <= 4,
{
    let mut max_dim = if map.width >= map.height {
        map.width
    } else {
        map.height
    };
    if max_dim < 1 {
        max_dim = 1;
    }
    let divisor = max_dim as i32;
    assert(divisor == map_max_dim(map.width, map.height) as i32);
    if divisor > 0 {
        clamp_i32(MINIMAP_MAX_SIZE / divisor, 2, MINIMAP_CELL_SIZE)
    } else {
        // A negative divisor gives a quotient of at most 0, clamped up to 2.
        assert(trunc_div(180, divisor as int) <= 0);
        2
    }
}

/// Law: the minimap cell size looks only at the larger side of the map (a
/// `w` x `h` map and an `h` x `w` map get the same size); it is always within
/// `2..=4`, and the whole minimap fits in 180 pixels whenever cells of 2
/// pixels would: `size * max(width, height) <= 180` when
/// `2 * max(width, height) <= 180`. A map at most 45 cells on a side gets the
/// largest cells, 4 pixels.
pub proof fn law_minimap_cell_size(width: usize, height: usize)
    requires
        width <= i32::MAX,
        height <= i32::MAX,
    ensures
        minimap_cell_size_of(width, height) == minimap_cell_size_of(height, width),
        2 <= minimap_cell_size_of(width, height) <= 4,
        ({
            let m: int = if width >= height {
                width as int
            } else {
                height as int
            };
            &&& 1 <= m && 2 * m <= 180 ==> minimap_cell_size_of(width, height) * m <= 180
            &&& m <= 45 ==> minimap_cell_size_of(width, height) == 4
        }),
{
    let m: int = if width >= height {
        width as int
    } else {
        height as int
    };
    let d = map_max_dim(width, height);
    assert(map_max_dim(width, height) == map_max_dim(height, width));
    assert(1 <= d <= i32::MAX);
    assert(d as i32 as int == d as int);
    let q = 180int / (d as int);
    assert(trunc_div(180, d as int) == q);
    let c = clamp_int(q, 2, 4);
    assert(2 <= c <= 4);
    assert(minimap_cell_size_of(width, height) as int == c);
    if 1 <= m && 2 * m <= 180 {
        assert(d as int == m);
        assert(q * m <= 180 && q >= 2) by (nonlinear_arith)
            requires
                q == 180int / m,
                1 <= m <= 90,
        ;
        assert(c <= q);
        assert(c * m <= q * m) by (nonlinear_arith)
            requires
                c <= q,
                m >= 1,
        ;
    }
    if m <= 45 {
        assert(q >= 4) by (nonlinear_arith)
            requires
                q == 180int / (d as int),
                1 <= d <= 45,
        ;
        assert(c == 4);
    }
}

/// What the minimap draws for the walls: an orange frame, a background and
/// one square per wall cell.
#[derive(Debug)]
pub struct MinimapLayout {
    pub cell_size: i32,
    pub frame: ScreenRect,
    pub background: ScreenRect,
    pub walls: Vec<ScreenRect>,
}

/// Square of minimap cell `(x, y)`.
pub open spec fn minimap_cell_rect(cell_size: int, x: int, y: int) -> ScreenRect {
    ScreenRect {
        x: (MINIMAP_PADDING + x * cell_size) as i32,
        y: (MINIMAP_PADDING + y * cell_size) as i32,
        width: cell_size as i32,
        height: cell_size as i32,
    }
}

/// Squares of the wall cells among the first `n` cells of row `y`, left to
/// right.
pub open spec fn minimap_row_walls(map: MapGrid, cell_size: int, y: int, n: int) -> Seq<ScreenRect>
    decreases n,
{
    if n <= 0 {
        Seq::empty()
    } else {
        minimap_row_walls(map, cell_size, y, n - 1) + if map.cell(n - 1, y) == 1 {
            seq![minimap_cell_rect(cell_size, n - 1, y)]
        } else {
            Seq::empty()
        }
    }
}

/// Squares of the wall cells of the first `rows` rows, row by row.
pub open spec fn minimap_walls(map: MapGrid, cell_size: int, rows: int) -> Seq<ScreenRect>
    decreases rows,
{
    if rows <= 0 {
        Seq::empty()
    } else {
        minimap_walls(map, cell_size, rows - 1) + minimap_row_walls(
            map,
            cell_size,
            rows - 1,
            map.width as int,
        )
    }
}

/// The square of a wall cell of the row shows up in the row's squares, and
/// each square of the row belongs to a wall cell of it.
proof fn lemma_minimap_row_walls(map: MapGrid, cell_size: int, y: int, n: int)
    requires
        0 <= n,
    ensures
        forall|x: int|
            0 <= x < n && map.cell(x, y) == 1 ==> minimap_row_walls(map, cell_size, y, n).contains(
                #[trigger] minimap_cell_rect(cell_size, x, y),
            ),
        forall|k: int|
            #![trigger minimap_row_walls(map, cell_size, y, n)[k]]
            0 <= k < minimap_row_walls(map, cell_size, y, n).len() ==> exists|x: int|
                0 <= x < n && map.cell(x, y) == 1 && minimap_row_walls(
                    map,
                    cell_size,
                    y,
                    n,
                )[k] == #[trigger] minimap_cell_rect(cell_size, x, y),
    decreases n,
{
    if n > 0 {
        lemma_minimap_row_walls(map, cell_size, y, n - 1);
        let prev = minimap_row_walls(map, cell_size, y, n - 1);
        let cur = minimap_row_walls(map, cell_size, y, n);
        assert forall|x: int|
            0 <= x < n && map.cell(x, y) == 1 implies cur.contains(
            #[trigger] minimap_cell_rect(cell_size, x, y),
        ) by {
            if x < n - 1 {
                let j = choose|j: int| 0 <= j < prev.len() && prev[j] == minimap_cell_rect(cell_size, x, y);
                assert(cur[j] == prev[j]);
            } else {
                assert(cur[cur.len() - 1] == minimap_cell_rect(cell_size, x, y));
            }
        }
        assert forall|k: int| #![trigger cur[k]] 0 <= k < cur.len() implies exists|x: int|
            0 <= x < n && map.cell(x, y) == 1 && cur[k] == #[trigger] minimap_cell_rect(
                cell_size,
                x,
                y,
            ) by {
            if k < prev.len() {
                assert(cur[k] == prev[k]);
                let x = choose|x: int|
                    0 <= x < n - 1 && map.cell(x, y) == 1 && prev[k]
                        == #[trigger] minimap_cell_rect(cell_size, x, y);
                assert(0 <= x < n && map.cell(x, y) == 1 && cur[k] == minimap_cell_rect(cell_size, x, y));
            } else {
                assert(cur[k] == minimap_cell_rect(cell_size, n - 1, y));
            }
        }
    }
}

/// The rectangle is the minimap square of a wall cell among the first `rows`
/// rows of the map.
pub open spec fn is_wall_square(map: MapGrid, cell_size: int, rows: int, rect: ScreenRect) -> bool {
    exists|x: int, y: int|
        0 <= x < map.width && 0 <= y < rows && map.cell(x, y) == 1 && rect
            == #[trigger] minimap_cell_rect(cell_size, x, y)
}

/// Law: the minimap shows exactly the walls: the square of every wall cell
/// of the map is among the drawn squares, and every drawn square is the
/// square of a wall cell of the map.
pub proof fn law_minimap_shows_exactly_the_walls(map: MapGrid, cell_size: int, rows: int)
    requires
        0 <= rows,
    ensures
        forall|x: int, y: int|
            0 <= x < map.width && 0 <= y < rows && map.cell(x, y) == 1 ==> minimap_walls(
                map,
                cell_size,
                rows,
            ).contains(#[trigger] minimap_cell_rect(cell_size, x, y)),
        forall|k: int|
            0 <= k < minimap_walls(map, cell_size, rows).len() ==> is_wall_square(
                map,
                cell_size,
                rows,
                #[trigger] minimap_walls(map, cell_size, rows)[k],
            ),
    decreases rows,
{
    if rows > 0 {
        law_minimap_shows_exactly_the_walls(map, cell_size, rows - 1);
        lemma_minimap_row_walls(map, cell_size, rows - 1, map.width as int);
        let prev = minimap_walls(map, cell_size, rows - 1);
        let row = minimap_row_walls(map, cell_size, rows - 1, map.width as int);
        let cur = minimap_walls(map, cell_size, rows);
        assert(cur == prev + row);
        assert forall|x: int, y: int|
            0 <= x < map.width && 0 <= y < rows && map.cell(x, y) == 1 implies cur.contains(
            #[trigger] minimap_cell_rect(cell_size, x, y),
        ) by {
            if y < rows - 1 {
                let j = choose|j: int| 0 <= j < prev.len() && prev[j] == minimap_cell_rect(cell_size, x, y);
                assert(cur[j] == prev[j]);
            } else {
                assert(row.contains(minimap_cell_rect(cell_size, x, y)));
                let j = choose|j: int| 0 <= j < row.len() && row[j] == minimap_cell_rect(cell_size, x, y);
                assert(cur[prev.len() + j] == row[j]);
            }
        }
        assert forall|k: int| 0 <= k < cur.len() implies is_wall_square(
            map,
            cell_size,
            rows,
            #[trigger] cur[k],
        ) by {
            if k < prev.len() {
                assert(cur[k] == prev[k]);
                assert(is_wall_square(map, cell_size, rows - 1, prev[k]));
                let (x, y) = choose|x: int, y: int|
                    0 <= x < map.width && 0 <= y < rows - 1 && map.cell(x, y) == 1 && prev[k]
                        == #[trigger] minimap_cell_rect(cell_size, x, y);
                assert(0 <= x < map.width && 0 <= y < rows && map.cell(x, y) == 1 && cur[k]
                    == minimap_cell_rect(cell_size, x, y));
            } else {
                let r = k - prev.len();
                assert(cur[k] == row[r]);
                let x = choose|x: int|
                    0 <= x < map.width && map.cell(x, rows - 1) == 1 && row[r]
                        == #[trigger] minimap_cell_rect(cell_size, x, rows - 1);
                assert(0 <= x < map.width && 0 <= rows - 1 < rows && map.cell(x, rows - 1) == 1
                    && cur[k] == minimap_cell_rect(cell_size, x, rows - 1));
            }
        }
    }
}

/// The minimap fits the `i32` pixel space.
pub open spec fn minimap_fits(map: MapGrid) -> bool {
    let cs = minimap_cell_size_of(map.width, map.height) as int;
    &&& map.width * cs + MINIMAP_PADDING + 2 * MINIMAP_BORDER <= i32::MAX
    &&& map.height * cs + MINIMAP_PADDING + 2 * MINIMAP_BORDER <= i32::MAX
}

/// Lays out the walls of the minimap in the top-left corner.
pub fn minimap_layout(map: &MapGrid) -> (layout: MinimapLayout)
    requires
        map.wf(),
        minimap_fits(*map),
    ensures
        ({
            let cs = minimap_cell_size_of(map.width, map.height) as int;
            &&& layout.cell_size == cs
            &&& layout.frame == ScreenRect {
                x: (MINIMAP_PADDING - MINIMAP_BORDER) as i32,
                y: (MINIMAP_PADDING - MINIMAP_BORDER) as i32,
                width: (map.width * cs + 2 * MINIMAP_BORDER) as i32,
                height: (map.height * cs + 2 * MINIMAP_BORDER) as i32,
            }
            &&& layout.background == ScreenRect {
                x: MINIMAP_PADDING,
                y: MINIMAP_PADDING,
                width: (map.width * cs) as i32,
                height: (map.height * cs) as i32,
            }
            &&& layout.walls@ == minimap_walls(*map, cs, map.height as int)
        }),
{
    proof {
        let spec_cs = minimap_cell_size_of(map.width, map.height) as int;
        assert(2 <= spec_cs <= 4);
        assert(map.width <= i32::MAX && map.height <= i32::MAX) by (nonlinear_arith)
            requires
                map.width * spec_cs + 12 <= i32::MAX,
                map.height * spec_cs + 12 <= i32::MAX,
                spec_cs >= 2,
        ;
    }
    let cell_size = minimap_cell_size(map);
    let ghost cs = cell_size as int;
    let w = map.width as i32;
    let h = map.height as i32;
    proof {
        assert(0 <= w * cs <= map.width * cs) by (nonlinear_arith)
            requires
                w == map.width,
                cs >= 2,
        ;
        assert(0 <= h * cs <= map.height * cs) by (nonlinear_arith)
            requires
                h == map.height,
                cs >= 2,
        ;
    }
    let map_width_px = w * cell_size;
    let map_height_px = h * cell_size;
    let frame = ScreenRect {
        x: MINIMAP_PADDING - MINIMAP_BORDER,
        y: MINIMAP_PADDING - MINIMAP_BORDER,
        width: map_width_px + MINIMAP_BORDER * 2,
        height: map_height_px + MINIMAP_BORDER * 2,
    };
    let background = ScreenRect {
        x: MINIMAP_PADDING,
        y: MINIMAP_PADDING,
        width: map_width_px,
        height: map_height_px,
    };

    let mut walls: Vec<ScreenRect> = Vec::new();
    let mut y: usize = 0;
    while y < map.height
        invariant
            map.wf(),
            minimap_fits(*map),
            cs == minimap_cell_size_of(map.width, map.height),
            cell_size == cs,
            2 <= cs <= 4,
            map.width <= i32::MAX,
            map.height <= i32::MAX,
            y <= map.height,
            walls@ == minimap_walls(*map, cs, y as int),
        decreases map.height - y,
    {
        let mut x: usize = 0;
        while x < map.width
            invariant
                map.wf(),
                minimap_fits(*map),
                cs == minimap_cell_size_of(map.width, map.height),
                cell_size == cs,
                2 <= cs <= 4,
                map.width <= i32::MAX,
                map.height <= i32::MAX,
                y < map.height,
                x <= map.width,
                walls@ == minimap_walls(*map, cs, y as int) + minimap_row_walls(
                    *map,
                    cs,
                    y as int,
                    x as int,
                ),
            decreases map.width - x,
        {
            if map.get(x, y) == 1 {
                proof {
                    assert(0 <= x * cs <= map.width * cs) by (nonlinear_arith)
                        requires
                            x < map.width,
                            cs >= 2,
                    ;
                    assert(0 <= y * cs <= map.height * cs) by (nonlinear_arith)
                        requires
                            y < map.height,
                            cs >= 2,
                    ;
                }
                let rect = ScreenRect {
                    x: MINIMAP_PADDING + (x as i32) * cell_size,
                    y: MINIMAP_PADDING + (y as i32) * cell_size,
                    width: cell_size,
                    height: cell_size,
                };
                walls.push(rect);
            }
            proof {
                assert(minimap_row_walls(*map, cs, y as int, x + 1) == minimap_row_walls(
                    *map,
                    cs,
                    y as int,
                    x as int,
                ) + if map.cell(x as int, y as int) == 1 {
                    seq![minimap_cell_rect(cs, x as int, y as int)]
                } else {
                    Seq::<ScreenRect>::empty()
                });
            }
            x += 1;
        }
        y += 1;
    }
    MinimapLayout { cell_size, frame, background, walls }
}

/// Which texture of `texture_count` covers the wall at `(x, y)`: the wall's
/// texture index counted from 0, wrapped around the textures loaded.
pub fn wall_texture_slot(map: &MapGrid, x: i32, y: i32, texture_count: usize) -> (slot: usize)
    requires
        texture_count > 0,
        i32::MIN <= x + y <= i32::MAX,
    ensures
        slot == ((x + y) % 30) % (texture_count as int),
        slot < texture_count,
{
    (map.wall_texture_index(x, y) - 1) % texture_count
}

/// Rows `start..end` of a screen column of `screen_height` rows covered by a
/// wall `wall_height` rows tall, centred on the horizon and cut to the
/// screen.
pub open spec fn wall_span_of(wall_height: int, screen_height: int) -> (int, int) {
    let half = trunc_div(screen_height, 2);
    let start = -trunc_div(wall_height, 2) + half;
    let end = trunc_div(wall_height, 2) + half;
    (
        if start > 0 {
            start
        } else {
            0
        },
        if end < screen_height {
            end
        } else {
            screen_height
        },
    )
}

/// Law: a wall slice never leaves the screen column, and as long as it is no
/// taller than the screen it is centred on the horizon and covers its height
/// rounded down to an even number of rows.
pub proof fn law_wall_span_centred(wall_height: int, screen_height: int)
    requires
        0 <= wall_height,
        0 <= screen_height,
    ensures
        0 <= wall_span_of(wall_height, screen_height).0,
        wall_span_of(wall_height, screen_height).1 <= screen_height,
        wall_height <= screen_height ==> wall_span_of(wall_height, screen_height).1
            - wall_span_of(wall_height, screen_height).0 == wall_height - wall_height % 2,
        wall_height <= screen_height ==> wall_span_of(wall_height, screen_height).0
            + wall_span_of(wall_height, screen_height).1 == screen_height - screen_height % 2,
{
    assert(trunc_div(wall_height, 2) == wall_height / 2);
    assert(trunc_div(screen_height, 2) == screen_height / 2);
}

/// Rows a wall slice covers on screen (see [`wall_span_of`]); an empty span
/// has `end <= start`.
pub fn wall_span(wall_height: i32, screen_height: i32) -> (span: (i32, i32))
    requires
        i32::MIN <= trunc_div(wall_height as int, 2) + trunc_div(screen_height as int, 2)
            <= i32::MAX,
        i32::MIN <= -trunc_div(wall_height as int, 2) + trunc_div(screen_height as int, 2)
            <= i32::MAX,
    ensures
        span == (wall_span_of(wall_height as int, screen_height as int).0 as i32, wall_span_of(
            wall_height as int,
            screen_height as int,
        ).1 as i32),
{
    let half_height = screen_height / 2;
    let half_wall = wall_height / 2;
    let start = -half_wall + half_height;
    let end = half_wall + half_height;
    let draw_start = if start > 0 {
        start
    } else {
        0
    };
    let draw_end = if end < screen_height {
        end
    } else {
        screen_height
    };
    (draw_start, draw_end)
}

/// A texel coordinate brought into `0..size`.
pub fn clamp_texel(raw: i32, size: i32) -> (texel: i32)
    requires
        size >= 1,
    ensures
        texel == clamp_int(raw as int, 0, size - 1),
        0 <= texel < size,
{
    clamp_i32(raw, 0, size - 1)
}

/// Texture column of a wall slice: the raw column brought into the texture,
/// then mirrored when the wall is seen from the side that would show it
/// backwards.
pub fn wall_texel_column(raw: i32, tex_w: i32, mirror: bool) -> (column: i32)
    requires
        tex_w >= 1,
    ensures
        column == if mirror {
            tex_w - 1 - clamp_int(raw as int, 0, tex_w - 1)
        } else {
            clamp_int(raw as int, 0, tex_w - 1)
        },
        0 <= column < tex_w,
{
    let column = clamp_texel(raw, tex_w);
    if mirror {
        tex_w - column - 1
    } else {
        column
    }
}

/// Texture row shown at screen row `y` of a wall slice drawn from
/// `draw_start` over `visible_height` rows: the slice is stretched over the
/// whole texture height.
pub fn wall_texel_row(y: i32, draw_start: i32, visible_height: i32, tex_h: i32) -> (row: u32)
    requires
        visible_height > 0,
        tex_h >= 1,
        i32::MIN <= y - draw_start <= i32::MAX,
        i32::MIN <= (y - draw_start) * tex_h <= i32::MAX,
    ensures
        row == clamp_int(
            trunc_div((y - draw_start) * tex_h, visible_height as int),
            0,
            tex_h - 1,
        ),
        row < tex_h,
{
    let offset = y - draw_start;
    let scaled = offset * tex_h;
    clamp_texel(scaled / visible_height, tex_h) as u32
}

/// Where the HUD panel and its texts go.
#[derive(Clone, Copy, Debug, PartialEq, Eq, Structural)]
pub struct HudLayout {
    /// The orange outer panel.
    pub panel: ScreenRect,
    /// The dark inside of the panel.
    pub inner: ScreenRect,
    pub level_text_x: i32,
    pub level_text_y: i32,
    pub score_text_x: i32,
    pub score_text_y: i32,
}

/// Width of the HUD panel: the wider text plus padding on both sides.
pub open spec fn hud_panel_width(level_text_width: int, score_text_width: int) -> int {
    (if level_text_width >= score_text_width {
        level_text_width
    } else {
        score_text_width
    }) + 24
}

/// The HUD layout for the given screen width and text widths.
pub open spec fn hud_layout_of(screen_width: u32, level_text_width: int, score_text_width: int) -> HudLayout {
    let w = hud_panel_width(level_text_width, score_text_width);
    let x = screen_width as i32 - 10 - w;
    HudLayout {
        panel: ScreenRect { x: x as i32, y: 10, width: w as i32, height: 62 },
        inner: ScreenRect { x: (x + 2) as i32, y: 12, width: (w - 4) as i32, height: 58 },
        level_text_x: (x + 12) as i32,
        level_text_y: 18,
        score_text_x: (x + 12) as i32,
        score_text_y: 38,
    }
}

/// The HUD arithmetic stays within `i32`.
pub open spec fn hud_fits(screen_width: u32, level_text_width: int, score_text_width: int) -> bool {
    let w = hud_panel_width(level_text_width, score_text_width);
    &&& w <= i32::MAX
    &&& i32::MIN + 4 <= w
    &&& i32::MIN + 10 <= screen_width as i32
    &&& i32::MIN <= screen_width as i32 - 10 - w
    &&& screen_width as i32 - 10 - w + 12 <= i32::MAX
}

/// Law: the HUD panel's right edge is 10 pixels from the right of the screen
/// and its top 10 pixels from the top; it is 24 pixels wider than the wider
/// of its two texts; its dark inside is inset by 2 pixels on every side; both
/// texts start 12 pixels in from its left edge, the level line 8 pixels below
/// its top and the score 20 pixels below the level line.
pub proof fn law_hud_panel_hugs_corner(screen_width: u32, level_text_width: i32, score_text_width: i32)
    requires
        hud_fits(screen_width, level_text_width as int, score_text_width as int),
    ensures
        ({
            let l = hud_layout_of(screen_width, level_text_width as int, score_text_width as int);
            &&& l.panel.x + l.panel.width == screen_width as i32 - 10
            &&& l.panel.y == 10
            &&& l.panel.width >= level_text_width + 24
            &&& l.panel.width >= score_text_width + 24
            &&& (l.panel.width == level_text_width + 24 || l.panel.width == score_text_width + 24)
            &&& l.inner.x == l.panel.x + 2
            &&& l.inner.y == l.panel.y + 2
            &&& l.inner.x + l.inner.width == l.panel.x + l.panel.width - 2
            &&& l.inner.y + l.inner.height == l.panel.y + l.panel.height - 2
            &&& l.level_text_x == l.panel.x + 12
            &&& l.score_text_x == l.panel.x + 12
            &&& l.level_text_y == l.panel.y + 8
            &&& l.score_text_y == l.level_text_y + 20
        }),
{
}

/// Lays out the HUD panel in the top-right corner, 10 pixels from the edges,
/// wide enough for the level line and the score.
pub fn hud_layout(screen_width: u32, level_text_width: i32, score_text_width: i32) -> (layout:
    HudLayout)
    requires
        hud_panel_width(level_text_width as int, score_text_width as int) <= i32::MAX,
        i32::MIN + 4 <= hud_panel_width(level_text_width as int, score_text_width as int),
        i32::MIN + 10 <= screen_width as i32,
        i32::MIN <= screen_width as i32 - 10 - hud_panel_width(
            level_text_width as int,
            score_text_width as int,
        ),
        screen_width as i32 - 10 - hud_panel_width(level_text_width as int, score_text_width as int)
            + 12 <= i32::MAX,
    ensures
        ({
            let w = hud_panel_width(level_text_width as int, score_text_width as int);
            let x = screen_width as i32 - 10 - w;
            &&& layout.panel == ScreenRect { x: x as i32, y: 10, width: w as i32, height: 62 }
            &&& layout.inner == ScreenRect {
                x: (x + 2) as i32,
                y: 12,
                width: (w - 4) as i32,
                height: 58,
            }
            &&& layout.level_text_x == x + 12
            &&& layout.level_text_y == 18
            &&& layout.score_text_x == x + 12
            &&& layout.score_text_y == 38
        }),
        layout == hud_layout_of(screen_width, level_text_width as int, score_text_width as int),
{
    let panel_margin: i32 = 10;
    let panel_padding: i32 = 12;
    let panel_height: i32 = 62;
    let widest = if level_text_width >= score_text_width {
        level_text_width
    } else {
        score_text_width
    };
    let panel_width = widest + panel_padding * 2;
    let screen_w = screen_width as i32;
    assert(screen_w == screen_width as i32);
    let panel_x = screen_w - panel_margin - panel_width;
    let panel_y = panel_margin;
    HudLayout {
        panel: ScreenRect { x: panel_x, y: panel_y, width: panel_width, height: panel_height },
        inner: ScreenRect {
            x: panel_x + 2,
            y: panel_y + 2,
            width: panel_width - 4,
            height: panel_height - 4,
        },
        level_text_x: panel_x + panel_padding,
        level_text_y: panel_y + 8,
        score_text_x: panel_x + panel_padding,
        score_text_y: panel_y + 28,
    }
}

} // verus!
