use vstd::prelude::*;

use crate::camera::Mat4Bits;
use crate::geometry::WorldPos;

verus! {

/// The per-frame uniform record the GPU reads: elapsed time, cursor
/// position in clip space, and the view-projection matrix. Allocated
/// once at session start and replaced as a whole on every flush, so a
/// draw always sees one internally consistent snapshot, never a torn
/// update.
#[derive(Clone, Copy, Debug)]
pub struct FrameUniforms {
    /// Accumulated elapsed time, in nanoseconds.
    pub elapsed_ns: u64,
    /// Cursor position in clip space.
    pub cursor: WorldPos,
    /// View-projection matrix bit patterns.
    pub view_proj: Mat4Bits,
}

/// Staged per-frame state: time accumulator, cursor and camera uniforms.
/// Mutators only touch the staged copy; `flush` is the single point
/// where the staged snapshot becomes the uploaded one.
#[derive(Clone, Copy, Debug)]
pub struct FrameState {
    last_ns: u64,
    staged: FrameUniforms,
    uploaded: FrameUniforms,
    staged_since_flush: bool,
}

/// The elapsed accumulator after a clock reading of `now`: the delta
/// since `last` is added, clamped to zero when the clock went backward,
/// and the sum saturates at the accumulator's maximum.
pub open spec fn advanced_elapsed(elapsed: u64, last: u64, now: u64) -> u64 {
    let delta: int = if now >= last {
        now - last
    } else {
        0
    };
    if elapsed + delta <= u64::MAX {
        (elapsed + delta) as u64
    } else {
        u64::MAX
    }
}

impl FrameState {
    /// The clock reading of the last `advance_time` call, for contracts.
    pub closed spec fn spec_last_ns(self) -> u64 {
        self.last_ns
    }

    /// The staged (CPU-side, not yet pushed) snapshot, for contracts.
    pub closed spec fn spec_staged(self) -> FrameUniforms {
        self.staged
    }

    /// The snapshot most recently handed out for upload, for contracts.
    pub closed spec fn spec_uploaded(self) -> FrameUniforms {
        self.uploaded
    }

    /// Whether anything was staged since the last flush, for contracts.
    pub closed spec fn spec_dirty(self) -> bool {
        self.staged_since_flush
    }

    /// The state after `advance_time(now_ns)`: only the clock and the
    /// staged elapsed time change.
    pub closed spec fn advanced(self, now_ns: u64) -> FrameState {
        FrameState {
            last_ns: now_ns,
            staged: FrameUniforms {
                elapsed_ns: advanced_elapsed(self.staged.elapsed_ns, self.last_ns, now_ns),
                ..self.staged
            },
            staged_since_flush: true,
            ..self
        }
    }

    /// The state after `set_cursor`: only the staged cursor moves.
    pub closed spec fn cursor_staged(self, cursor: WorldPos) -> FrameState {
        FrameState {
            staged: FrameUniforms { cursor, ..self.staged },
            staged_since_flush: true,
            ..self
        }
    }

    /// The state after `set_camera_matrix`: only the staged matrix moves.
    pub closed spec fn matrix_staged(self, view_proj: Mat4Bits) -> FrameState {
        FrameState {
            staged: FrameUniforms { view_proj, ..self.staged },
            staged_since_flush: true,
            ..self
        }
    }

    /// The state after `flush`: the staged snapshot becomes the uploaded
    /// one and nothing else moves.
    pub closed spec fn flushed(self) -> FrameState {
        FrameState { uploaded: self.staged, staged_since_flush: false, ..self }
    }

    /// A fresh frame state at session start: clock at zero, nothing
    /// elapsed, and both snapshots holding the initial cursor and
    /// matrix, matching the buffer contents the session was created
    /// with.
    pub fn new(cursor: WorldPos, view_proj: Mat4Bits) -> (s: FrameState)
        ensures
            s.spec_last_ns() == 0,
            (s.spec_staged() == FrameUniforms { elapsed_ns: 0, cursor, view_proj }),
            s.spec_uploaded() == s.spec_staged(),
            !s.spec_dirty(),
    {
        let initial = FrameUniforms { elapsed_ns: 0, cursor, view_proj };
        FrameState { last_ns: 0, staged: initial, uploaded: initial, staged_since_flush: false }
    }

    /// Accumulates the time since the previous call and stages the new
    /// elapsed value. Monotonic: a clock reading that went backward
    /// contributes a zero delta, never a negative one, so the staged
    /// elapsed time never decreases.
    pub fn advance_time(&mut self, now_ns: u64)
        ensures
            *final(self) == old(self).advanced(now_ns),
            final(self).spec_last_ns() == now_ns,
            final(self).spec_staged().elapsed_ns == advanced_elapsed(
                old(self).spec_staged().elapsed_ns,
                old(self).spec_last_ns(),
                now_ns,
            ),
            final(self).spec_staged().elapsed_ns >= old(self).spec_staged().elapsed_ns,
            final(self).spec_staged().cursor == old(self).spec_staged().cursor,
            final(self).spec_staged().view_proj == old(self).spec_staged().view_proj,
            final(self).spec_uploaded() == old(self).spec_uploaded(),
            final(self).spec_dirty(),
    {
        let delta: u64 = if now_ns >= self.last_ns {
            now_ns - self.last_ns
        } else {
            0
        };
        self.staged.elapsed_ns = if delta <= u64::MAX - self.staged.elapsed_ns {
            self.staged.elapsed_ns + delta
        } else {
            u64::MAX
        };
        self.last_ns = now_ns;
        self.staged_since_flush = true;
    }

    /// Stages the cursor uniform, overwriting the previous position
    /// wholesale.
    pub fn set_cursor(&mut self, cursor: WorldPos)
        ensures
            *final(self) == old(self).cursor_staged(cursor),
            (final(self).spec_staged() == FrameUniforms { cursor, ..old(self).spec_staged() }),
            final(self).spec_uploaded() == old(self).spec_uploaded(),
            final(self).spec_last_ns() == old(self).spec_last_ns(),
            final(self).spec_dirty(),
    {
        self.staged.cursor = cursor;
        self.staged_since_flush = true;
    }

    /// Stages the camera uniform; called whenever the camera recomputes
    /// its matrix.
    pub fn set_camera_matrix(&mut self, view_proj: Mat4Bits)
        ensures
            *final(self) == old(self).matrix_staged(view_proj),
            (final(self).spec_staged() == FrameUniforms { view_proj, ..old(self).spec_staged() }),
            final(self).spec_uploaded() == old(self).spec_uploaded(),
            final(self).spec_last_ns() == old(self).spec_last_ns(),
            final(self).spec_dirty(),
    {
        self.staged.view_proj = view_proj;
        self.staged_since_flush = true;
    }

    /// The single point where staged values become the uploaded
    /// snapshot. Returns the complete snapshot to push to the
    /// GPU-visible buffer: it reflects every staged value exactly once,
    /// and flushing again with nothing staged returns the same snapshot.
    pub fn flush(&mut self) -> (snapshot: FrameUniforms)
        ensures
            snapshot == old(self).spec_staged(),
            *final(self) == old(self).flushed(),
            final(self).spec_uploaded() == snapshot,
            final(self).spec_staged() == old(self).spec_staged(),
            final(self).spec_last_ns() == old(self).spec_last_ns(),
            !final(self).spec_dirty(),
    {
        self.uploaded = self.staged;
        self.staged_since_flush = false;
        self.staged
    }

    /// The staged elapsed time, in nanoseconds.
    pub fn elapsed_ns(&self) -> (t: u64)
        ensures
            t == self.spec_staged().elapsed_ns,
    {
        self.staged.elapsed_ns
    }
}

/// The frame state after a whole sequence of clock readings, first
/// reading first.
pub open spec fn advanced_over(s: FrameState, times: Seq<u64>) -> FrameState
    decreases times.len(),
{
    if times.len() == 0 {
        s
    } else {
        advanced_over(s.advanced(times[0]), times.skip(1))
    }
}

/// Monotonic time: over any sequence of clock readings — increasing,
/// repeating or going backward — the staged elapsed time never
/// decreases.
pub proof fn lemma_elapsed_monotonic(s: FrameState, times: Seq<u64>)
    ensures
        advanced_over(s, times).spec_staged().elapsed_ns >= s.spec_staged().elapsed_ns,
    decreases times.len(),
{
    if times.len() > 0 {
        lemma_elapsed_monotonic(s.advanced(times[0]), times.skip(1));
    }
}

/// Idempotent flush: a second flush with no staging in between hands
/// out the same snapshot and leaves the uploaded snapshot unchanged.
pub proof fn lemma_flush_idempotent(s: FrameState)
    ensures
        s.flushed().flushed() == s.flushed(),
        s.flushed().spec_staged() == s.spec_staged(),
        s.flushed().flushed().spec_uploaded() == s.flushed().spec_uploaded(),
{
}

} // verus!
