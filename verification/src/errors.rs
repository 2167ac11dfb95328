use vstd::prelude::*;

verus! {

/// A configuration error: rejected synchronously at the call that
/// introduced it, never silently clamped.
#[derive(Clone, Copy, Debug, PartialEq, Eq, Structural)]
pub enum ConfigError {
    /// A grid position lies outside the board.
    OutOfBounds,
    /// A viewport dimension is zero.
    ZeroViewport,
    /// Board geometry constants are unusable (empty board, zero-sized
    /// squares, or pixel coordinates that cannot fit the pixel type).
    BadGeometry,
    /// The vertical field of view is not strictly between 0 and 180 degrees.
    InvalidFovY,
    /// The near/far planes do not satisfy `0 < near < far`.
    InvalidNearFar,
}

/// A violation of the per-frame draw protocol. Each variant names the
/// step that was attempted out of turn; the session state is left
/// unchanged when one is returned.
#[derive(Clone, Copy, Debug, PartialEq, Eq, Structural)]
pub enum DrawError {
    /// `begin_frame` while a frame was already begun.
    MidFrame,
    /// A pass was issued with no frame begun.
    NotInFrame,
    /// A pass was issued before the frame's uniforms were flushed.
    UniformsNotFlushed,
    /// A pass was issued out of the fixed background/highlight/pieces order.
    OutOfOrder,
    /// `end_frame` before all passes of the frame were issued.
    PassesIncomplete,
    /// A present outcome was reported with no submitted frame pending.
    NothingSubmitted,
}

} // verus!
