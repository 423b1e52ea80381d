use nba_raycaster::level_data::{
    add_border, build_level, build_level_1, build_level_2, build_level_3, build_level_from_parts,
    fill_horizontal_segment, fill_vertical_segment, verify_level, HalfPoint,
};
use nba_raycaster::map::MapGrid;

#[test]
fn new_grid_is_empty() {
    let grid = MapGrid::new(4, 3);
    assert_eq!(grid.width, 4);
    assert_eq!(grid.height, 3);
    assert_eq!(grid.cells.len(), 12);
    for y in 0..3 {
        for x in 0..4 {
            assert_eq!(grid.get(x, y), 0);
        }
    }
}

#[test]
fn set_then_get_reads_back() {
    let mut grid = MapGrid::new(5, 4);
    grid.set(3, 2, 7);
    assert_eq!(grid.get(3, 2), 7);
    assert_eq!(grid.cells[2 * 5 + 3], 7);
    assert_eq!(grid.get(2, 3), 0);
    assert_eq!(grid.get(3, 1), 0);
}

#[test]
fn set_outside_grid_changes_nothing() {
    let mut grid = MapGrid::new(2, 2);
    grid.set(2, 0, 1);
    grid.set(0, 2, 1);
    assert_eq!(grid.cells, vec![0, 0, 0, 0]);
}

#[test]
fn get_outside_grid_is_zero() {
    let mut grid = MapGrid::new(2, 2);
    grid.set(1, 1, 1);
    assert_eq!(grid.get(5, 1), 0);
    assert_eq!(grid.get(1, 9), 0);
}

#[test]
fn tile_outside_grid_is_wall() {
    let mut grid = MapGrid::new(3, 3);
    grid.set(1, 1, 1);
    assert_eq!(grid.tile_at(-1, 0), 1);
    assert_eq!(grid.tile_at(0, -1), 1);
    assert_eq!(grid.tile_at(3, 0), 1);
    assert_eq!(grid.tile_at(0, 3), 1);
    assert_eq!(grid.tile_at(i64::MAX, 0), 1);
    assert_eq!(grid.tile_at(0, 0), 0);
    assert_eq!(grid.tile_at(1, 1), 1);
    assert!(grid.is_wall(1, 1));
    assert!(!grid.is_wall(2, 2));
    assert!(grid.is_wall(-5, 2));
}

#[test]
fn wall_texture_index_wraps_every_thirty() {
    let grid = MapGrid::new(1, 1);
    assert_eq!(grid.wall_texture_index(0, 0), 1);
    assert_eq!(grid.wall_texture_index(29, 0), 30);
    assert_eq!(grid.wall_texture_index(30, 0), 1);
    assert_eq!(grid.wall_texture_index(31, 0), 2);
    assert_eq!(grid.wall_texture_index(-1, 0), 30);
    assert_eq!(grid.wall_texture_index(-30, -1), 30);
    assert_eq!(grid.wall_texture_index(7, 5), grid.wall_texture_index(37, 5));
    assert_eq!(grid.wall_texture_index(7, 5), grid.wall_texture_index(7, 35));
}

#[test]
fn border_surrounds_grid() {
    let mut grid = MapGrid::new(4, 3);
    add_border(&mut grid);
    for x in 0..4 {
        assert_eq!(grid.get(x, 0), 1);
        assert_eq!(grid.get(x, 2), 1);
    }
    assert_eq!(grid.get(0, 1), 1);
    assert_eq!(grid.get(3, 1), 1);
    assert_eq!(grid.get(1, 1), 0);
    assert_eq!(grid.get(2, 1), 0);
}

#[test]
fn border_of_empty_grid_is_nothing() {
    let mut grid = MapGrid::new(0, 0);
    add_border(&mut grid);
    assert!(grid.cells.is_empty());
}

#[test]
fn segments_leave_their_gap_open() {
    let mut grid = MapGrid::new(6, 6);
    fill_horizontal_segment(&mut grid, 2, 1, 4, Some(3));
    assert_eq!(grid.get(0, 2), 0);
    assert_eq!(grid.get(1, 2), 1);
    assert_eq!(grid.get(2, 2), 1);
    assert_eq!(grid.get(3, 2), 0);
    assert_eq!(grid.get(4, 2), 1);
    assert_eq!(grid.get(5, 2), 0);
    fill_vertical_segment(&mut grid, 5, 0, 5, None);
    for y in 0..6 {
        assert_eq!(grid.get(5, y), 1);
    }
    // A reversed range fills nothing; a segment running off the grid stops there.
    fill_horizontal_segment(&mut grid, 4, 3, 1, None);
    assert_eq!(grid.get(2, 4), 0);
    fill_vertical_segment(&mut grid, 0, 3, 40, Some(4));
    assert_eq!(grid.get(0, 3), 1);
    assert_eq!(grid.get(0, 4), 0);
    assert_eq!(grid.get(0, 5), 1);
}

#[test]
fn level_one_layout() {
    let level = build_level_1();
    assert_eq!(level.level_number, 1);
    assert_eq!(level.level_name, "First Quarter Warmup");
    assert_eq!((level.grid.width, level.grid.height), (20, 16));
    assert_eq!(level.player_start, HalfPoint { half_x: 3, half_y: 3 });
    assert_eq!(level.player_start_angle_deg, 0);
    assert_eq!(level.hoop_positions, vec![HalfPoint { half_x: 35, half_y: 25 }]);
    assert_eq!(level.hoops_required, 1);
    assert_eq!(level.grid.cells.iter().filter(|c| **c == 1).count(), 91);
    assert_eq!(level.grid.get(8, 5), 0);
    assert_eq!(level.grid.get(7, 5), 1);
    assert_eq!(level.grid.get(10, 8), 0);
    assert_eq!(level.grid.get(10, 7), 1);
    assert_eq!(level.grid.get(12, 10), 0);
}

#[test]
fn level_two_layout() {
    let level = build_level_2();
    assert_eq!(level.level_name, "Second Quarter Run");
    assert_eq!((level.grid.width, level.grid.height), (30, 22));
    assert_eq!(level.player_start, HalfPoint { half_x: 5, half_y: 5 });
    assert_eq!(
        level.hoop_positions,
        vec![HalfPoint { half_x: 11, half_y: 37 }, HalfPoint { half_x: 53, half_y: 9 }]
    );
    assert_eq!(level.hoops_required, 2);
    assert_eq!(level.grid.get(11, 6), 0);
    assert_eq!(level.grid.get(12, 9), 1);
    assert_eq!(level.grid.get(12, 10), 0);
    assert_eq!(level.grid.get(22, 15), 0);
    assert_eq!(level.grid.get(22, 16), 1);
}

#[test]
fn level_three_layout() {
    let level = build_level_3();
    assert_eq!(level.level_number, 3);
    assert_eq!(level.level_name, "Championship Circuit");
    assert_eq!((level.grid.width, level.grid.height), (40, 28));
    assert_eq!(level.hoops_required, 3);
    // The three overlapping corridor walls leave no gap between them.
    for x in 2..=31 {
        assert_eq!(level.grid.get(x, 13), 1);
    }
    assert_eq!(level.grid.get(32, 13), 0);
    assert_eq!(level.grid.get(28, 18), 0);
}

#[test]
fn every_level_is_enclosed_and_playable() {
    for index in 1..=3 {
        let level = build_level(index);
        assert_eq!(level.level_number, index);
        assert!(verify_level(&level));
        let (w, h) = (level.grid.width, level.grid.height);
        for x in 0..w {
            assert_eq!(level.grid.get(x, 0), 1);
            assert_eq!(level.grid.get(x, h - 1), 1);
        }
        for y in 0..h {
            assert_eq!(level.grid.get(0, y), 1);
            assert_eq!(level.grid.get(w - 1, y), 1);
        }
        let start = level.player_start;
        assert!(!level.grid.is_wall((start.half_x / 2) as i64, (start.half_y / 2) as i64));
    }
}

#[test]
fn level_with_start_in_wall_fails_check() {
    let mut grid = MapGrid::new(4, 4);
    add_border(&mut grid);
    let level = build_level_from_parts(
        9,
        "Broken",
        grid,
        HalfPoint { half_x: 1, half_y: 3 },
        0,
        vec![HalfPoint { half_x: 3, half_y: 3 }],
    );
    assert_eq!(level.hoops_required, 1);
    assert_eq!(level.level_name, "Broken");
    assert!(!verify_level(&level));
}

#[test]
fn level_with_hoop_in_wall_fails_check() {
    let mut grid = MapGrid::new(4, 4);
    add_border(&mut grid);
    let level = build_level_from_parts(
        9,
        "Broken hoop",
        grid,
        HalfPoint { half_x: 3, half_y: 3 },
        0,
        vec![HalfPoint { half_x: 5, half_y: 5 }, HalfPoint { half_x: 7, half_y: 3 }],
    );
    assert!(!verify_level(&level));
}
