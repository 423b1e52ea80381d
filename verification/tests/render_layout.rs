use nba_raycaster::assets::{
    hoop_net_lines, is_supported_image_extension, net_alpha, score_frame_alpha,
};
use nba_raycaster::level_data::build_level_1;
use nba_raycaster::map::MapGrid;
use nba_raycaster::raycaster::{advance_ray, RayStep};
use nba_raycaster::renderer::{
    clamp_texel, hud_layout, minimap_cell_size, minimap_layout, wall_span, wall_texel_column,
    wall_texel_row, wall_texture_slot, HudLayout, ScreenRect,
};
use nba_raycaster::screens::{centered_x, level_card_x, level_card_y, marker_row, screen_percent};

#[test]
fn ray_steps_along_chosen_axis() {
    let level = build_level_1();
    let step = advance_ray(&level.grid, 1, 1, 1, -1, true);
    assert_eq!(step, RayStep { map_x: 2, map_y: 1, vertical_wall: true, hit: false });
    let step = advance_ray(&level.grid, 1, 1, 1, -1, false);
    assert_eq!(step, RayStep { map_x: 1, map_y: 0, vertical_wall: false, hit: true });
    let step = advance_ray(&level.grid, 7, 4, 1, 1, false);
    assert_eq!(step, RayStep { map_x: 7, map_y: 5, vertical_wall: false, hit: true });
    let step = advance_ray(&level.grid, 0, 3, -1, 1, true);
    assert_eq!(step, RayStep { map_x: -1, map_y: 3, vertical_wall: true, hit: true });
}

#[test]
fn ray_from_inside_always_hits_border() {
    let level = build_level_1();
    let (mut x, mut y) = (1, 1);
    let mut hit = false;
    for _ in 0..200 {
        let step = advance_ray(&level.grid, x, y, 1, 1, true);
        x = step.map_x;
        y = step.map_y;
        if step.hit {
            hit = true;
            break;
        }
    }
    assert!(hit);
    assert_eq!((x, y), (19, 1));
}

#[test]
fn minimap_cell_size_fits_map() {
    assert_eq!(minimap_cell_size(&MapGrid::new(20, 16)), 4);
    assert_eq!(minimap_cell_size(&MapGrid::new(40, 28)), 4);
    assert_eq!(minimap_cell_size(&MapGrid::new(60, 10)), 3);
    assert_eq!(minimap_cell_size(&MapGrid::new(100, 3)), 2);
    assert_eq!(minimap_cell_size(&MapGrid::new(0, 0)), 4);
}

#[test]
fn minimap_draws_each_wall_cell() {
    let level = build_level_1();
    let layout = minimap_layout(&level.grid);
    assert_eq!(layout.cell_size, 4);
    assert_eq!(layout.frame, ScreenRect { x: 6, y: 6, width: 84, height: 68 });
    assert_eq!(layout.background, ScreenRect { x: 8, y: 8, width: 80, height: 64 });
    assert_eq!(layout.walls.len(), 91);
    assert_eq!(layout.walls[0], ScreenRect { x: 8, y: 8, width: 4, height: 4 });
    assert_eq!(layout.walls[1], ScreenRect { x: 12, y: 8, width: 4, height: 4 });
    assert_eq!(layout.walls[90], ScreenRect { x: 84, y: 68, width: 4, height: 4 });
}

#[test]
fn wall_texture_slot_wraps_loaded_textures() {
    let grid = MapGrid::new(1, 1);
    assert_eq!(wall_texture_slot(&grid, 0, 0, 30), 0);
    assert_eq!(wall_texture_slot(&grid, 29, 0, 30), 29);
    assert_eq!(wall_texture_slot(&grid, 12, 3, 10), 5);
    assert_eq!(wall_texture_slot(&grid, 12, 3, 1), 0);
}

#[test]
fn wall_span_is_centred_and_cut() {
    assert_eq!(wall_span(100, 600), (250, 350));
    assert_eq!(wall_span(2000, 600), (0, 600));
    assert_eq!(wall_span(0, 600), (300, 300));
    assert_eq!(wall_span(101, 601), (250, 350));
}

#[test]
fn texels_stay_inside_texture() {
    assert_eq!(clamp_texel(-3, 64), 0);
    assert_eq!(clamp_texel(70, 64), 63);
    assert_eq!(clamp_texel(12, 64), 12);
    assert_eq!(wall_texel_column(10, 64, false), 10);
    assert_eq!(wall_texel_column(10, 64, true), 53);
    assert_eq!(wall_texel_column(99, 64, true), 0);
    assert_eq!(wall_texel_row(250, 250, 100, 64), 0);
    assert_eq!(wall_texel_row(300, 250, 100, 64), 32);
    assert_eq!(wall_texel_row(349, 250, 100, 64), 63);
}

#[test]
fn hud_panel_hugs_top_right_corner() {
    let layout = hud_layout(800, 150, 40);
    assert_eq!(
        layout,
        HudLayout {
            panel: ScreenRect { x: 616, y: 10, width: 174, height: 62 },
            inner: ScreenRect { x: 618, y: 12, width: 170, height: 58 },
            level_text_x: 628,
            level_text_y: 18,
            score_text_x: 628,
            score_text_y: 38,
        }
    );
    assert_eq!(hud_layout(800, 10, 60).panel.width, 84);
}

#[test]
fn menu_layout_positions() {
    assert_eq!(centered_x(800, 100), 350);
    assert_eq!(centered_x(100, 301), -100);
    assert_eq!(screen_percent(600, 13), 78);
    assert_eq!(screen_percent(600, 82), 492);
    assert_eq!(level_card_x(800, 1), 196);
    assert_eq!(level_card_x(800, 3), 484);
    assert_eq!(level_card_y(600, 224), 236);
    assert_eq!(marker_row(3, 20, 18, 0, 800), vec![342, 400, 458]);
    assert_eq!(marker_row(1, 6, 10, 196, 120), vec![256]);
    assert_eq!(marker_row(0, 6, 10, 196, 120), Vec::<i32>::new());
}

#[test]
fn image_extensions_ignore_case() {
    assert!(is_supported_image_extension("png"));
    assert!(is_supported_image_extension("PNG"));
    assert!(is_supported_image_extension("Jpg"));
    assert!(is_supported_image_extension("jpeg"));
    assert!(!is_supported_image_extension("gif"));
    assert!(!is_supported_image_extension("jpg "));
    assert!(!is_supported_image_extension(""));
    assert!(!is_supported_image_extension("pngx"));
}

#[test]
fn stand_in_hoop_sprites() {
    assert_eq!(score_frame_alpha(0), 255);
    assert_eq!(score_frame_alpha(2), 150);
    assert_eq!(net_alpha(255), 225);
    assert_eq!(net_alpha(20), 0);
    let idle = hoop_net_lines(0, false);
    assert_eq!(idle[0], (22, 28, 26, 44));
    assert_eq!(idle[2], (32, 28, 32, 48));
    let swing = hoop_net_lines(1, true);
    assert_eq!(swing[4], (42, 28, 40, 46));
    let back = hoop_net_lines(2, true);
    assert_eq!(back[1], (27, 28, 28, 49));
}
