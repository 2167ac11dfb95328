use goban_render::errors::ConfigError;
use goban_render::geometry::{
    default_geometry, grid_to_pixel, pixel_to_world, BoardGeometry, GridPosition,
};
use goban_render::piece::Piece;
use goban_render::scene::{PieceColor, SceneGraph};

#[test]
fn place_then_remove_leaves_empty() {
    let mut scene = SceneGraph::new(default_geometry()).unwrap();
    let pos = GridPosition { col: 3, row: 3 };
    scene.place_piece(pos, PieceColor::Black).unwrap();
    assert_eq!(scene.piece_count(), 1);
    assert!(scene.remove_piece(pos));
    assert!(scene.instances().is_empty());
}

#[test]
fn overwrite_keeps_one_instance_with_second_color() {
    let mut scene = SceneGraph::new(default_geometry()).unwrap();
    let pos = GridPosition { col: 5, row: 5 };
    scene.place_piece(pos, PieceColor::Black).unwrap();
    scene.place_piece(pos, PieceColor::White).unwrap();
    let at_pos: Vec<_> = scene.instances().iter().filter(|p| p.pos == pos).collect();
    assert_eq!(at_pos.len(), 1);
    assert_eq!(at_pos[0].color, PieceColor::White);
    assert_eq!(scene.piece_count(), 1);
}

#[test]
fn placement_keeps_insertion_order() {
    let mut scene = SceneGraph::new(default_geometry()).unwrap();
    let a = GridPosition { col: 1, row: 1 };
    let b = GridPosition { col: 2, row: 2 };
    let c = GridPosition { col: 3, row: 3 };
    scene.place_piece(a, PieceColor::Black).unwrap();
    scene.place_piece(b, PieceColor::White).unwrap();
    scene.place_piece(c, PieceColor::Black).unwrap();
    // Overwriting the middle entry keeps its slot.
    scene.place_piece(b, PieceColor::Black).unwrap();
    let order: Vec<_> = scene.instances().iter().map(|p| p.pos).collect();
    assert_eq!(order, vec![a, b, c]);
    // Removing the middle entry keeps the order of the rest.
    scene.remove_piece(b);
    let order: Vec<_> = scene.instances().iter().map(|p| p.pos).collect();
    assert_eq!(order, vec![a, c]);
}

#[test]
fn remove_absent_is_a_noop() {
    let mut scene = SceneGraph::new(default_geometry()).unwrap();
    scene.place_piece(GridPosition { col: 0, row: 0 }, PieceColor::Black).unwrap();
    assert!(!scene.remove_piece(GridPosition { col: 9, row: 9 }));
    assert_eq!(scene.piece_count(), 1);
}

#[test]
fn out_of_bounds_placement_is_rejected() {
    let mut scene = SceneGraph::new(default_geometry()).unwrap();
    let r = scene.place_piece(GridPosition { col: 19, row: 0 }, PieceColor::Black);
    assert_eq!(r, Err(ConfigError::OutOfBounds));
    assert_eq!(scene.piece_count(), 0);
}

#[test]
fn piece_world_anchor_matches_cursor_mapping() {
    let geo = default_geometry();
    let mut scene = SceneGraph::new(geo).unwrap();
    let pos = GridPosition { col: 4, row: 7 };
    scene.place_piece(pos, PieceColor::White).unwrap();
    let (px, py) = grid_to_pixel(&geo, pos);
    let w = pixel_to_world(px, py, geo.board_px, geo.board_px).unwrap();
    assert_eq!(scene.instances()[0].world, w);
}

#[test]
fn unusable_geometry_is_rejected() {
    let no_board = BoardGeometry { board_size: 0, ..default_geometry() };
    assert!(matches!(SceneGraph::new(no_board), Err(ConfigError::BadGeometry)));
    let huge = BoardGeometry {
        board_size: u16::MAX,
        square_px: u16::MAX,
        line_px: u16::MAX,
        margin_px: u16::MAX,
        board_px: 1,
    };
    assert!(matches!(SceneGraph::new(huge), Err(ConfigError::BadGeometry)));
}

#[test]
fn warp_overwrites_both_coordinates() {
    let mut piece = Piece { x: 3, y: 4 };
    piece.warp(10, 12);
    assert_eq!(piece, Piece { x: 10, y: 12 });
}
