use vstd::prelude::*;

use crate::errors::ConfigError;

verus! {

use vstd::arithmetic::mul::lemma_mul_inequality;
use vstd::arithmetic::div_mod::{lemma_div_multiples_vanish, lemma_mod_multiples_basic};

/// Number of playable columns (and rows) of the default board.
pub const BOARD_SIZE: u16 = 19;

/// Side of one board square of the default board, in pixels.
pub const BOARD_SQUARE_SIZE_PX: u16 = 99;

/// Thickness of a grid line of the default board, in pixels.
pub const BOARD_LINE_THICKNESS_PX: u16 = 5;

/// Offset from the board image's edge to the first grid line, in pixels.
pub const MARGIN_OFFSET_PIXELS: u16 = 61;

/// Side of the square board image, in pixels.
pub const BOARD_PIXELS: u32 = 2000;

/// Board geometry constants, injected at construction rather than read
/// from globals, so board size and scale are swappable.
#[derive(Clone, Copy, Debug, PartialEq, Eq, Structural)]
pub struct BoardGeometry {
    /// Number of playable columns (and rows); the board is square.
    pub board_size: u16,
    /// Side of one square, in pixels.
    pub square_px: u16,
    /// Thickness of one grid line, in pixels.
    pub line_px: u16,
    /// Offset from the image edge to the first line, in pixels.
    pub margin_px: u16,
    /// Side of the square board image, in pixels.
    pub board_px: u32,
}

impl BoardGeometry {
    /// Usable geometry: a non-empty board of non-empty squares whose
    /// largest pixel coordinate fits the pixel type.
    pub open spec fn wf(self) -> bool {
        &&& self.board_size > 0
        &&& self.square_px > 0
        &&& self.board_px > 0
        &&& (self.board_size - 1) * self.square_px + self.board_size * self.line_px
            + self.margin_px <= u32::MAX
    }

    /// Pixel coordinate of grid coordinate `c` along one axis:
    /// `c` squares, the `c + 1` lines before and between them, and the margin.
    pub open spec fn axis_to_pixel(self, c: int) -> int {
        c * self.square_px + self.line_px * (c + 1) + self.margin_px
    }

    /// Inverse hit-test along one axis: the grid coordinate whose square
    /// covers pixel `p`, or `None` when `p` falls on the margin, on a
    /// grid line, or beyond the last square.
    pub open spec fn axis_to_grid(self, p: int) -> Option<int> {
        let pitch = self.square_px + self.line_px;
        let base = self.margin_px + self.line_px;
        if p < base {
            None
        } else {
            let c = (p - base) / pitch;
            if c < self.board_size && (p - base) % pitch < self.square_px {
                Some(c)
            } else {
                None
            }
        }
    }
}

/// Geometry of the board the renderer ships with: a 19 by 19 grid on a
/// 2000-pixel image.
pub open spec fn default_geometry_spec() -> BoardGeometry {
    BoardGeometry {
        board_size: BOARD_SIZE,
        square_px: BOARD_SQUARE_SIZE_PX,
        line_px: BOARD_LINE_THICKNESS_PX,
        margin_px: MARGIN_OFFSET_PIXELS,
        board_px: BOARD_PIXELS,
    }
}

/// Returns the default board geometry.
pub fn default_geometry() -> (g: BoardGeometry)
    ensures
        g == default_geometry_spec(),
        g.wf(),
{
    BoardGeometry {
        board_size: BOARD_SIZE,
        square_px: BOARD_SQUARE_SIZE_PX,
        line_px: BOARD_LINE_THICKNESS_PX,
        margin_px: MARGIN_OFFSET_PIXELS,
        board_px: BOARD_PIXELS,
    }
}

/// A grid position: 0-indexed column and row on the board.
#[derive(Clone, Copy, Debug, PartialEq, Eq, Structural)]
pub struct GridPosition {
    pub col: u16,
    pub row: u16,
}

impl GridPosition {
    /// Within the bounds of the given board.
    pub open spec fn valid(self, geo: BoardGeometry) -> bool {
        self.col < geo.board_size && self.row < geo.board_size
    }
}

/// A clip-space coordinate pair, each axis an exact rational
/// `num / den` in `[-1, 1]`; kept as a rational so that the viewport
/// inversion is the exact algebraic inverse of the pixel mapping.
#[derive(Clone, Copy, Debug, PartialEq, Eq, Structural)]
pub struct WorldPos {
    pub x_num: i64,
    pub x_den: u32,
    pub y_num: i64,
    pub y_den: u32,
}

impl WorldPos {
    /// A usable rational: both denominators are non-zero.
    pub open spec fn wf(self) -> bool {
        self.x_den > 0 && self.y_den > 0
    }
}

/// Clip-space point of pixel `(px, py)` in a `vw` by `vh` viewport:
/// x grows rightward from -1 at the left edge, y grows upward from -1
/// at the bottom edge, matching the background quad's corners.
pub open spec fn world_of_pixel(px: int, py: int, vw: int, vh: int) -> WorldPos {
    WorldPos {
        x_num: (2 * px - vw) as i64,
        x_den: vw as u32,
        y_num: (vh - 2 * py) as i64,
        y_den: vh as u32,
    }
}

/// Clip-space point, on the board image, where a piece at `pos` is
/// anchored: the piece pass draws there, and the cursor hit-test of the
/// same square's pixel must land on exactly this point.
pub open spec fn grid_world(geo: BoardGeometry, pos: GridPosition) -> WorldPos {
    WorldPos {
        x_num: (2 * geo.axis_to_pixel(pos.col as int) - geo.board_px) as i64,
        x_den: geo.board_px as u32,
        y_num: (geo.board_px - 2 * geo.axis_to_pixel(pos.row as int)) as i64,
        y_den: geo.board_px as u32,
    }
}

/// Pixel coordinate of grid coordinate `c` along one axis.
fn axis_px(geo: &BoardGeometry, c: u16) -> (r: u32)
    requires
        geo.wf(),
        c < geo.board_size,
    ensures
        r == geo.axis_to_pixel(c as int),
{
    proof {
        assert((c as int) * (geo.square_px as int) < 0x1_0000_0000) by (nonlinear_arith)
            requires
                c < 0x1_0000,
                geo.square_px < 0x1_0000,
        ;
        assert((geo.line_px as int) * (c as int + 1) < 0x1_0000_0000) by (nonlinear_arith)
            requires
                c < 0x1_0000,
                geo.line_px < 0x1_0000,
        ;
        lemma_mul_inequality(c as int, geo.board_size - 1, geo.square_px as int);
        lemma_mul_inequality(c as int + 1, geo.board_size as int, geo.line_px as int);
        assert((geo.line_px as int) * (c as int + 1) <= (geo.board_size as int) * (
        geo.line_px as int)) by (nonlinear_arith)
            requires
                (c as int + 1) * (geo.line_px as int) <= (geo.board_size as int) * (
                geo.line_px as int),
        ;
    }
    let wide: u64 = (c as u64) * (geo.square_px as u64) + (geo.line_px as u64) * (c as u64 + 1)
        + (geo.margin_px as u64);
    wide as u32
}

/// Maps a grid position to the pixel coordinates of its square on the
/// board image. Pure and total over the valid grid range; callers must
/// validate bounds first.
pub fn grid_to_pixel(geo: &BoardGeometry, pos: GridPosition) -> (r: (u32, u32))
    requires
        geo.wf(),
        pos.valid(*geo),
    ensures
        r.0 == geo.axis_to_pixel(pos.col as int),
        r.1 == geo.axis_to_pixel(pos.row as int),
{
    (axis_px(geo, pos.col), axis_px(geo, pos.row))
}

/// Pixel coordinates of grid position `(x, y)` on the default board.
pub fn game_space_to_px(x: u16, y: u16) -> (r: (u32, u32))
    requires
        x < BOARD_SIZE,
        y < BOARD_SIZE,
    ensures
        r.0 == default_geometry_spec().axis_to_pixel(x as int),
        r.1 == default_geometry_spec().axis_to_pixel(y as int),
{
    let geo = default_geometry();
    grid_to_pixel(&geo, GridPosition { col: x, row: y })
}

/// Normalizes a pixel position in a `vw` by `vh` viewport to the
/// clip-space convention of the background quad, inverting the viewport
/// transform exactly. A zero viewport dimension is a reported
/// configuration error, not a silent divide by zero.
pub fn pixel_to_world(px: u32, py: u32, vw: u32, vh: u32) -> (r: Result<WorldPos, ConfigError>)
    ensures
        r is Err <==> vw == 0 || vh == 0,
        r is Err ==> r == Err::<WorldPos, ConfigError>(ConfigError::ZeroViewport),
        r is Ok ==> r == Ok::<WorldPos, ConfigError>(
            world_of_pixel(px as int, py as int, vw as int, vh as int),
        ),
        r is Ok ==> r->Ok_0.wf(),
{
    if vw == 0 || vh == 0 {
        Err(ConfigError::ZeroViewport)
    } else {
        Ok(WorldPos {
            x_num: 2 * (px as i64) - (vw as i64),
            x_den: vw,
            y_num: (vh as i64) - 2 * (py as i64),
            y_den: vh,
        })
    }
}

/// Hit-test: the grid position whose square covers pixel `(px, py)` of
/// the board image, or `None` when the pixel falls on the margin, on a
/// grid line, or outside the grid.
pub fn pixel_to_grid(geo: &BoardGeometry, px: u32, py: u32) -> (r: Option<GridPosition>)
    requires
        geo.wf(),
    ensures
        (match r {
            Some(p) => {
                &&& geo.axis_to_grid(px as int) == Some(p.col as int)
                &&& geo.axis_to_grid(py as int) == Some(p.row as int)
                &&& p.valid(*geo)
            },
            None => geo.axis_to_grid(px as int) is None || geo.axis_to_grid(py as int) is None,
        }),
{
    let col = axis_grid(geo, px);
    let row = axis_grid(geo, py);
    match (col, row) {
        (Some(c), Some(w)) => Some(GridPosition { col: c, row: w }),
        _ => None,
    }
}

/// Hit-test along one axis.
fn axis_grid(geo: &BoardGeometry, p: u32) -> (r: Option<u16>)
    requires
        geo.wf(),
    ensures
        (match r {
            Some(c) => geo.axis_to_grid(p as int) == Some(c as int) && c < geo.board_size,
            None => geo.axis_to_grid(p as int) is None,
        }),
{
    let pitch: u32 = geo.square_px as u32 + geo.line_px as u32;
    let base: u32 = geo.margin_px as u32 + geo.line_px as u32;
    if p < base {
        None
    } else {
        let rel: u32 = p - base;
        let c: u32 = rel / pitch;
        if c < geo.board_size as u32 && rel % pitch < geo.square_px as u32 {
            Some(c as u16)
        } else {
            None
        }
    }
}

/// The grid-to-pixel mapping is deterministic: any two results computed
/// from the same geometry and position are identical, because the
/// contract of `grid_to_pixel` pins the result to one value.
pub proof fn lemma_grid_to_pixel_deterministic(
    geo: BoardGeometry,
    pos: GridPosition,
    r1: (u32, u32),
    r2: (u32, u32),
)
    requires
        r1.0 == geo.axis_to_pixel(pos.col as int),
        r1.1 == geo.axis_to_pixel(pos.row as int),
        r2.0 == geo.axis_to_pixel(pos.col as int),
        r2.1 == geo.axis_to_pixel(pos.row as int),
    ensures
        r1 == r2,
{
}

/// The pixel mapping and the hit-test invert each other: the pixel of a
/// valid grid coordinate hit-tests back to exactly that coordinate.
pub proof fn lemma_pixel_to_grid_inverts(geo: BoardGeometry, c: int)
    requires
        geo.wf(),
        0 <= c < geo.board_size,
    ensures
        geo.axis_to_grid(geo.axis_to_pixel(c)) == Some(c),
{
    let pitch = geo.square_px + geo.line_px as int;
    let base = geo.margin_px + geo.line_px as int;
    let p = geo.axis_to_pixel(c);
    assert(p - base == c * pitch) by (nonlinear_arith)
        requires
            p == c * geo.square_px + geo.line_px * (c + 1) + geo.margin_px,
            pitch == geo.square_px + geo.line_px,
            base == geo.margin_px + geo.line_px,
    ;
    assert(c * pitch >= 0) by (nonlinear_arith)
        requires
            c >= 0,
            pitch > 0,
    ;
    lemma_div_multiples_vanish(c, pitch);
    lemma_mod_multiples_basic(c, pitch);
}

/// Round trip between piece placement and cursor hit-testing: for a
/// valid grid position, normalizing its board pixel back to clip space
/// with `world_of_pixel` yields exactly the clip-space anchor a piece
/// placed there is given — the inversion is exact, not approximate.
pub proof fn lemma_world_round_trip(geo: BoardGeometry, pos: GridPosition)
    requires
        geo.wf(),
        pos.valid(geo),
    ensures
        world_of_pixel(
            geo.axis_to_pixel(pos.col as int),
            geo.axis_to_pixel(pos.row as int),
            geo.board_px as int,
            geo.board_px as int,
        ) == grid_world(geo, pos),
{
}

} // verus!
