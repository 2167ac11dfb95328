use vstd::prelude::*;

use crate::errors::ConfigError;
use crate::geometry::{grid_to_pixel, grid_world, pixel_to_world, BoardGeometry, GridPosition};
use crate::geometry::WorldPos;

verus! {

/// Colour variant of a placed piece.
#[derive(Clone, Copy, Debug, PartialEq, Eq, Structural)]
pub enum PieceColor {
    Black,
    White,
}

/// One renderable piece: its grid position, colour, and the clip-space
/// anchor derived from the position when it was placed.
#[derive(Clone, Copy, Debug, PartialEq, Eq, Structural)]
pub struct PieceInstance {
    pub pos: GridPosition,
    pub color: PieceColor,
    pub world: WorldPos,
}

/// No two instances share a grid position.
pub open spec fn unique_positions(s: Seq<PieceInstance>) -> bool {
    forall|i: int, j: int|
        0 <= i < s.len() && 0 <= j < s.len() && i != j ==> s[i].pos != s[j].pos
}

/// Some instance sits at `pos`.
pub open spec fn has_piece_at(s: Seq<PieceInstance>, pos: GridPosition) -> bool {
    exists|i: int| 0 <= i < s.len() && s[i].pos == pos
}

/// The index of the instance at `pos`; meaningful when `has_piece_at`
/// holds and positions are unique.
pub open spec fn index_of_pos(s: Seq<PieceInstance>, pos: GridPosition) -> int {
    choose|i: int| 0 <= i < s.len() && s[i].pos == pos
}

/// The instance list after placing `piece`: last write wins, so an
/// instance already at the position is overwritten in place and
/// otherwise the piece is appended, keeping draw order deterministic.
pub open spec fn placed(s: Seq<PieceInstance>, piece: PieceInstance) -> Seq<PieceInstance> {
    if has_piece_at(s, piece.pos) {
        s.update(index_of_pos(s, piece.pos), piece)
    } else {
        s.push(piece)
    }
}

/// The instance list after removing the piece at `pos`; unchanged when
/// no piece is there.
pub open spec fn removed(s: Seq<PieceInstance>, pos: GridPosition) -> Seq<PieceInstance> {
    if has_piece_at(s, pos) {
        s.remove(index_of_pos(s, pos))
    } else {
        s
    }
}

/// The renderable entities of the current frame: the variable-length
/// piece list, placed against one board geometry. The background and
/// highlight quads carry no per-entity state, so the piece list is the
/// whole variable part of the scene.
#[derive(Debug)]
pub struct SceneGraph {
    geometry: BoardGeometry,
    pieces: Vec<PieceInstance>,
}

impl SceneGraph {
    /// The board the scene is placed on, for contracts.
    pub closed spec fn spec_geometry(self) -> BoardGeometry {
        self.geometry
    }

    /// The instance list in draw order, for contracts.
    pub closed spec fn spec_pieces(self) -> Seq<PieceInstance> {
        self.pieces@
    }

    /// Scene invariant: usable geometry, every instance on the board
    /// with the clip-space anchor its position derives, and at most one
    /// instance per position.
    pub open spec fn wf(self) -> bool {
        &&& self.spec_geometry().wf()
        &&& unique_positions(self.spec_pieces())
        &&& forall|i: int|
            0 <= i < self.spec_pieces().len() ==> (#[trigger] self.spec_pieces()[i]).pos.valid(
                self.spec_geometry(),
            ) && self.spec_pieces()[i].world == grid_world(
                self.spec_geometry(),
                self.spec_pieces()[i].pos,
            )
    }

    /// An empty scene on the given board. Unusable geometry — an empty
    /// board, zero-sized squares, or pixel coordinates that overflow the
    /// pixel type — is a reported configuration error.
    pub fn new(geometry: BoardGeometry) -> (r: Result<SceneGraph, ConfigError>)
        ensures
            r is Ok <==> geometry.wf(),
            r is Err ==> r == Err::<SceneGraph, ConfigError>(ConfigError::BadGeometry),
            r is Ok ==> r->Ok_0.wf() && r->Ok_0.spec_geometry() == geometry
                && r->Ok_0.spec_pieces() =~= Seq::<PieceInstance>::empty(),
    {
        if geometry.board_size == 0 || geometry.square_px == 0 || geometry.board_px == 0 {
            return Err(ConfigError::BadGeometry);
        }
        proof {
            assert((geometry.board_size as int - 1) * (geometry.square_px as int)
                < 0x1_0000_0000) by (nonlinear_arith)
                requires
                    0 < geometry.board_size < 0x1_0000,
                    geometry.square_px < 0x1_0000,
            ;
            assert((geometry.board_size as int) * (geometry.line_px as int)
                < 0x1_0000_0000) by (nonlinear_arith)
                requires
                    geometry.board_size < 0x1_0000,
                    geometry.line_px < 0x1_0000,
            ;
        }
        let max_px: u64 = (geometry.board_size as u64 - 1) * (geometry.square_px as u64) + (
        geometry.board_size as u64) * (geometry.line_px as u64) + (geometry.margin_px as u64);
        if max_px > u32::MAX as u64 {
            Err(ConfigError::BadGeometry)
        } else {
            Ok(SceneGraph { geometry, pieces: Vec::new() })
        }
    }

    /// Validates bounds, derives the piece's clip-space anchor, and
    /// places it: the entry at an already-occupied position is
    /// overwritten (last write wins), a new position is appended. An
    /// out-of-range position is rejected and changes nothing.
    pub fn place_piece(&mut self, pos: GridPosition, color: PieceColor) -> (r: Result<
        (),
        ConfigError,
    >)
        requires
            old(self).wf(),
        ensures
            final(self).wf(),
            final(self).spec_geometry() == old(self).spec_geometry(),
            r is Ok <==> pos.valid(old(self).spec_geometry()),
            r is Err ==> r == Err::<(), ConfigError>(ConfigError::OutOfBounds)
                && final(self).spec_pieces() == old(self).spec_pieces(),
            r is Ok ==> final(self).spec_pieces() == placed(
                old(self).spec_pieces(),
                PieceInstance { pos, color, world: grid_world(old(self).spec_geometry(), pos) },
            ),
    {
        if pos.col >= self.geometry.board_size || pos.row >= self.geometry.board_size {
            return Err(ConfigError::OutOfBounds);
        }
        let (px, py) = grid_to_pixel(&self.geometry, pos);
        let world = match pixel_to_world(px, py, self.geometry.board_px, self.geometry.board_px) {
            Ok(w) => w,
            Err(_) => { return unreached(); },
        };
        let piece = PieceInstance { pos, color, world };
        match find_piece_index(&self.pieces, pos) {
            Some(i) => {
                proof {
                    let s = old(self).spec_pieces();
                    assert(has_piece_at(s, pos));
                    let k = index_of_pos(s, pos);
                    assert(0 <= k < s.len() && s[k].pos == pos);
                    assert(k == i as int);
                }
                self.pieces[i] = piece;
            },
            None => {
                self.pieces.push(piece);
            },
        }
        Ok(())
    }

    /// Removes the instance at `pos` if one is there, keeping the order
    /// of the others; a no-op, not an error, when the position is empty.
    /// Returns whether a piece was removed.
    pub fn remove_piece(&mut self, pos: GridPosition) -> (was_present: bool)
        requires
            old(self).wf(),
        ensures
            final(self).wf(),
            final(self).spec_geometry() == old(self).spec_geometry(),
            was_present <==> has_piece_at(old(self).spec_pieces(), pos),
            final(self).spec_pieces() == removed(old(self).spec_pieces(), pos),
    {
        match find_piece_index(&self.pieces, pos) {
            Some(i) => {
                proof {
                    let s = old(self).spec_pieces();
                    assert(has_piece_at(s, pos));
                    let k = index_of_pos(s, pos);
                    assert(0 <= k < s.len() && s[k].pos == pos);
                    assert(k == i as int);
                }
                self.pieces.remove(i);
                true
            },
            None => false,
        }
    }

    /// The ordered instance list the draw orchestrator reads: a stable
    /// snapshot for the duration of one frame build, since nothing else
    /// can mutate the scene while the borrow lives.
    pub fn instances(&self) -> (r: &Vec<PieceInstance>)
        ensures
            r@ == self.spec_pieces(),
    {
        &self.pieces
    }

    /// Number of placed pieces.
    pub fn piece_count(&self) -> (n: usize)
        ensures
            n == self.spec_pieces().len(),
    {
        self.pieces.len()
    }

    /// The board geometry the scene was created with.
    pub fn geometry(&self) -> (g: BoardGeometry)
        ensures
            g == self.spec_geometry(),
    {
        self.geometry
    }
}

/// Index of the instance at `pos`, or `None` when no instance is there.
fn find_piece_index(pieces: &Vec<PieceInstance>, pos: GridPosition) -> (r: Option<usize>)
    ensures
        (match r {
            Some(i) => i < pieces@.len() && pieces@[i as int].pos == pos,
            None => !has_piece_at(pieces@, pos),
        }),
{
    let mut i: usize = 0;
    let n = pieces.len();
    while i < n
        invariant
            i <= n,
            n == pieces@.len(),
            forall|j: int| 0 <= j < i ==> pieces@[j].pos != pos,
        decreases n - i,
    {
        if pieces[i].pos == pos {
            return Some(i);
        }
        i += 1;
    }
    None
}

/// Placing keeps positions unique and leaves the placed piece as the one
/// instance at its position.
pub proof fn lemma_placed_unique(s: Seq<PieceInstance>, piece: PieceInstance)
    requires
        unique_positions(s),
    ensures
        unique_positions(placed(s, piece)),
        has_piece_at(placed(s, piece), piece.pos),
        placed(s, piece)[index_of_pos(placed(s, piece), piece.pos)] == piece,
{
    let s2 = placed(s, piece);
    if has_piece_at(s, piece.pos) {
        let k = index_of_pos(s, piece.pos);
        assert(0 <= k < s.len() && s[k].pos == piece.pos);
        assert(s2[k] == piece);
        assert(unique_positions(s2)) by {
            assert forall|i: int, j: int|
                0 <= i < s2.len() && 0 <= j < s2.len() && i != j implies s2[i].pos
                != s2[j].pos by {
                if i != k && j != k {
                    assert(s2[i] == s[i] && s2[j] == s[j]);
                }
            }
        }
        let m = index_of_pos(s2, piece.pos);
        assert(0 <= m < s2.len() && s2[m].pos == piece.pos);
        if m != k {
            assert(s2[m] == s[m]);
            assert(s[m].pos == s[k].pos);
        }
    } else {
        let k = s.len() as int;
        assert(s2[k] == piece);
        assert(unique_positions(s2)) by {
            assert forall|i: int, j: int|
                0 <= i < s2.len() && 0 <= j < s2.len() && i != j implies s2[i].pos
                != s2[j].pos by {
                if i < k && j < k {
                    assert(s2[i] == s[i] && s2[j] == s[j]);
                } else if i == k {
                    assert(s2[j] == s[j]);
                    assert(!(0 <= j < s.len() && s[j].pos == piece.pos));
                } else {
                    assert(s2[i] == s[i]);
                    assert(!(0 <= i < s.len() && s[i].pos == piece.pos));
                }
            }
        }
        let m = index_of_pos(s2, piece.pos);
        assert(0 <= m < s2.len() && s2[m].pos == piece.pos);
        if m != k {
            assert(s2[m] == s[m]);
            assert(!(0 <= m < s.len() && s[m].pos == piece.pos));
        }
    }
}

/// Piece overwrite: placing two pieces at the same position, one after
/// the other, leaves exactly one instance at that position, and it is
/// the second piece — same colour, same derived anchor.
pub proof fn lemma_piece_overwrite(s: Seq<PieceInstance>, p1: PieceInstance, p2: PieceInstance)
    requires
        unique_positions(s),
        p1.pos == p2.pos,
    ensures
        ({
            let s2 = placed(placed(s, p1), p2);
            &&& has_piece_at(s2, p2.pos)
            &&& s2[index_of_pos(s2, p2.pos)] == p2
            &&& forall|i: int, j: int|
                0 <= i < s2.len() && 0 <= j < s2.len() && s2[i].pos == p2.pos && s2[j].pos
                    == p2.pos ==> i == j
        }),
{
    let s1 = placed(s, p1);
    lemma_placed_unique(s, p1);
    lemma_placed_unique(s1, p2);
}

} // verus!
