use vstd::prelude::*;

verus! {

/// A movable piece marker: bare grid coordinates, as game logic outside
/// the renderer tracks them before handing positions to the scene.
#[derive(Clone, Copy, Debug, PartialEq, Eq, Structural)]
pub struct Piece {
    pub x: usize,
    pub y: usize,
}

impl Piece {
    /// Moves the marker to the given grid coordinates, overwriting both.
    pub fn warp(&mut self, x: usize, y: usize)
        ensures
            final(self).x == x,
            final(self).y == y,
    {
        self.x = x;
        self.y = y;
    }
}

} // verus!
