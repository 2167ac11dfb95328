//! Verified core of a board-game renderer: grid/pixel/world coordinate
//! mapping, camera parameter validation, per-frame uniform staging, the
//! scene's piece list, and the fixed-order draw protocol.
//!
//! Everything that talks to a window or a GPU lives outside this crate;
//! the library works on plain values (integers, rationals for clip-space
//! coordinates, IEEE bit patterns for matrix words) and states what each
//! operation does in its contract.

pub mod camera;
pub mod errors;
pub mod frame;
pub mod geometry;
pub mod input;
pub mod orchestrator;
pub mod piece;
pub mod scene;
pub mod session;
