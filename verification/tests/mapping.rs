use goban_render::errors::ConfigError;
use goban_render::geometry::{
    default_geometry, game_space_to_px, grid_to_pixel, pixel_to_grid, pixel_to_world, GridPosition,
};

#[test]
fn grid_to_pixel_origin_and_neighbor() {
    assert_eq!(game_space_to_px(0, 0), (66, 66));
    assert_eq!(game_space_to_px(1, 0), (170, 66));
    assert_eq!(game_space_to_px(0, 1), (66, 170));
}

#[test]
fn grid_to_pixel_deterministic() {
    let geo = default_geometry();
    let p = GridPosition { col: 7, row: 11 };
    let a = grid_to_pixel(&geo, p);
    let b = grid_to_pixel(&geo, p);
    assert_eq!(a, b);
    assert_eq!(game_space_to_px(7, 11), game_space_to_px(7, 11));
}

#[test]
fn grid_to_pixel_last_square() {
    // 18 squares and 19 lines before it, plus the margin.
    assert_eq!(game_space_to_px(18, 18), (18 * 99 + 5 * 19 + 61, 18 * 99 + 5 * 19 + 61));
}

#[test]
fn pixel_to_world_normalizes() {
    let w = pixel_to_world(66, 66, 2000, 2000).unwrap();
    assert_eq!(w.x_num, 2 * 66 - 2000);
    assert_eq!(w.x_den, 2000);
    assert_eq!(w.y_num, 2000 - 2 * 66);
    assert_eq!(w.y_den, 2000);

    // The viewport corners map to the clip-space corners.
    let top_left = pixel_to_world(0, 0, 640, 480).unwrap();
    assert_eq!(top_left.x_num, -640);
    assert_eq!(top_left.y_num, 480);
    let bottom_right = pixel_to_world(640, 480, 640, 480).unwrap();
    assert_eq!(bottom_right.x_num, 640);
    assert_eq!(bottom_right.y_num, -480);
}

#[test]
fn pixel_to_world_rejects_zero_viewport() {
    assert_eq!(pixel_to_world(5, 5, 0, 480), Err(ConfigError::ZeroViewport));
    assert_eq!(pixel_to_world(5, 5, 640, 0), Err(ConfigError::ZeroViewport));
}

#[test]
fn hit_test_inverts_pixel_mapping() {
    let geo = default_geometry();
    for col in [0u16, 1, 9, 18] {
        for row in [0u16, 2, 18] {
            let p = GridPosition { col, row };
            let (px, py) = grid_to_pixel(&geo, p);
            assert_eq!(pixel_to_grid(&geo, px, py), Some(p));
        }
    }
}

#[test]
fn hit_test_misses_margin_and_lines() {
    let geo = default_geometry();
    // Before the first square: margin plus the first line ends at 66.
    assert_eq!(pixel_to_grid(&geo, 0, 66), None);
    assert_eq!(pixel_to_grid(&geo, 65, 66), None);
    // The line gap between the first and second squares: 66 + 99 = 165.
    assert_eq!(pixel_to_grid(&geo, 165, 66), None);
    assert_eq!(pixel_to_grid(&geo, 169, 66), None);
    assert_eq!(pixel_to_grid(&geo, 170, 66), Some(GridPosition { col: 1, row: 0 }));
    // Beyond the last square.
    assert_eq!(pixel_to_grid(&geo, 19 * 104 + 61, 66), None);
}
