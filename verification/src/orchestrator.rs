use vstd::prelude::*;

use crate::errors::DrawError;

verus! {

/// What acquiring the next presentable surface texture came to; handed
/// in by the frame loop, which owns the surface.
#[derive(Clone, Copy, Debug, PartialEq, Eq, Structural)]
pub enum AcquireOutcome {
    /// A texture was acquired; the frame can be drawn.
    Acquired,
    /// The surface was lost; it must be reconfigured before the next try.
    Lost,
    /// The surface is outdated (typically after a resize); reconfigure
    /// and retry next tick.
    Outdated,
    /// Acquisition timed out; skip this frame and try again.
    Timeout,
}

/// What the frame loop should do next, decided from an acquire outcome.
#[derive(Clone, Copy, Debug, PartialEq, Eq, Structural)]
pub enum FrameAction {
    /// Record and submit the frame's passes.
    Render,
    /// Reconfigure the surface, then retry next tick.
    Reconfigure,
    /// Draw nothing this tick and retry next tick.
    Skip,
}

/// One bound-pipeline draw operation within a frame, in the fixed
/// compositing order: ordering is the only depth cue, so the background
/// must never be issued after the pieces.
#[derive(Clone, Copy, Debug, PartialEq, Eq, Structural)]
pub enum PassKind {
    Background,
    Highlight,
    Pieces,
}

/// Where the orchestrator stands within the current frame.
#[derive(Clone, Copy, Debug, PartialEq, Eq, Structural)]
pub enum FramePhase {
    /// No frame is being built.
    Idle,
    /// A target texture is held and passes are being issued.
    FrameBegun,
    /// All passes of the frame are recorded, nothing submitted yet.
    PassesIssued,
    /// The frame is submitted and not yet reported presented.
    Submitted,
}

/// The pass issued at position `i` of a frame: background first, then
/// the cursor highlight, then the pieces, each drawing over the last
/// with alpha blending.
pub open spec fn pass_order(i: int) -> PassKind {
    if i == 0 {
        PassKind::Background
    } else if i == 1 {
        PassKind::Highlight
    } else {
        PassKind::Pieces
    }
}

/// Number of passes in one frame.
pub const PASS_COUNT: u8 = 3;

/// Composes a frame: tracks the per-frame state machine
/// `Idle -> FrameBegun -> PassesIssued -> Submitted -> Idle` and refuses
/// any pass issued out of turn, before the frame's uniforms were
/// flushed, or outside a frame.
#[derive(Clone, Copy, Debug)]
pub struct DrawOrchestrator {
    phase: FramePhase,
    passes_issued: u8,
    uniforms_flushed: bool,
    frames_submitted: u64,
    frames_presented: u64,
}

impl DrawOrchestrator {
    /// The frame phase, for contracts.
    pub closed spec fn spec_phase(self) -> FramePhase {
        self.phase
    }

    /// How many passes of the current frame are issued, for contracts.
    pub closed spec fn spec_passes_issued(self) -> u8 {
        self.passes_issued
    }

    /// Whether this frame's uniforms were flushed, for contracts.
    pub closed spec fn spec_uniforms_flushed(self) -> bool {
        self.uniforms_flushed
    }

    /// Frames submitted so far, for contracts.
    pub closed spec fn spec_frames_submitted(self) -> u64 {
        self.frames_submitted
    }

    /// Frames reported presented so far, for contracts.
    pub closed spec fn spec_frames_presented(self) -> u64 {
        self.frames_presented
    }

    /// Orchestrator invariant: the pass counter only ever counts passes
    /// of a begun frame and never passes its fixed total, and no more
    /// frames were presented than submitted.
    pub open spec fn wf(self) -> bool {
        &&& self.spec_passes_issued() < PASS_COUNT
        &&& self.spec_phase() != FramePhase::FrameBegun ==> self.spec_passes_issued() == 0
        &&& self.spec_frames_presented() <= self.spec_frames_submitted()
    }

    /// A fresh orchestrator: idle, nothing issued, nothing submitted.
    pub fn new() -> (o: DrawOrchestrator)
        ensures
            o.wf(),
            o.spec_phase() == FramePhase::Idle,
            o.spec_passes_issued() == 0,
            !o.spec_uniforms_flushed(),
            o.spec_frames_submitted() == 0,
            o.spec_frames_presented() == 0,
    {
        DrawOrchestrator {
            phase: FramePhase::Idle,
            passes_issued: 0,
            uniforms_flushed: false,
            frames_submitted: 0,
            frames_presented: 0,
        }
    }

    /// Starts a frame from the outcome of acquiring the surface texture.
    /// Only a held texture begins a frame; a lost or outdated surface
    /// asks the loop to reconfigure and a timeout asks it to skip — both
    /// recoverable, neither ends the session. Out of turn, the call is
    /// refused and changes nothing.
    pub fn begin_frame(&mut self, acquired: AcquireOutcome) -> (r: Result<FrameAction, DrawError>)
        requires
            old(self).wf(),
        ensures
            final(self).wf(),
            r is Ok <==> old(self).spec_phase() == FramePhase::Idle,
            r is Err ==> *final(self) == *old(self) && r == Err::<FrameAction, DrawError>(
                DrawError::MidFrame,
            ),
            final(self).spec_frames_submitted() == old(self).spec_frames_submitted(),
            final(self).spec_frames_presented() == old(self).spec_frames_presented(),
            r is Ok ==> (match acquired {
                AcquireOutcome::Acquired => r == Ok::<FrameAction, DrawError>(FrameAction::Render)
                    && final(self).spec_phase() == FramePhase::FrameBegun && final(self).spec_passes_issued() == 0 && !final(self).spec_uniforms_flushed(),
                AcquireOutcome::Lost => r == Ok::<FrameAction, DrawError>(FrameAction::Reconfigure)
                    && *final(self) == *old(self),
                AcquireOutcome::Outdated => r == Ok::<FrameAction, DrawError>(
                    FrameAction::Reconfigure,
                ) && *final(self) == *old(self),
                AcquireOutcome::Timeout => r == Ok::<FrameAction, DrawError>(FrameAction::Skip)
                    && *final(self) == *old(self),
            }),
    {
        if !matches!(self.phase, FramePhase::Idle) {
            return Err(DrawError::MidFrame);
        }
        match acquired {
            AcquireOutcome::Acquired => {
                self.phase = FramePhase::FrameBegun;
                self.passes_issued = 0;
                self.uniforms_flushed = false;
                Ok(FrameAction::Render)
            },
            AcquireOutcome::Lost => Ok(FrameAction::Reconfigure),
            AcquireOutcome::Outdated => Ok(FrameAction::Reconfigure),
            AcquireOutcome::Timeout => Ok(FrameAction::Skip),
        }
    }

    /// Records that the frame's uniform snapshot was pushed to the
    /// GPU-visible buffer; passes are refused until this has happened,
    /// so every draw of the frame reads the flushed snapshot.
    pub fn mark_uniforms_flushed(&mut self) -> (r: Result<(), DrawError>)
        requires
            old(self).wf(),
        ensures
            final(self).wf(),
            r is Ok <==> old(self).spec_phase() == FramePhase::FrameBegun,
            r is Err ==> *final(self) == *old(self) && r == Err::<(), DrawError>(
                DrawError::NotInFrame,
            ),
            r is Ok ==> final(self).spec_uniforms_flushed() && final(self).spec_phase() == old(self).spec_phase() && final(self).spec_passes_issued() == old(self).spec_passes_issued()
                && final(self).spec_frames_submitted() == old(self).spec_frames_submitted()
                && final(self).spec_frames_presented() == old(self).spec_frames_presented(),
    {
        if !matches!(self.phase, FramePhase::FrameBegun) {
            return Err(DrawError::NotInFrame);
        }
        self.uniforms_flushed = true;
        Ok(())
    }

    /// The pass the current frame expects next, or `None` outside a
    /// begun frame.
    pub fn expected_pass(&self) -> (r: Option<PassKind>)
        ensures
            (match r {
                Some(p) => self.spec_phase() == FramePhase::FrameBegun && p == pass_order(
                    self.spec_passes_issued() as int,
                ),
                None => self.spec_phase() != FramePhase::FrameBegun,
            }),
    {
        if !matches!(self.phase, FramePhase::FrameBegun) {
            return None;
        }
        if self.passes_issued == 0 {
            Some(PassKind::Background)
        } else if self.passes_issued == 1 {
            Some(PassKind::Highlight)
        } else {
            Some(PassKind::Pieces)
        }
    }

    /// Issues one pass. Accepted exactly in a begun frame whose uniforms
    /// are flushed and when `pass` is the next one of the fixed order;
    /// everything else is refused with the step that was out of turn,
    /// and changes nothing. The third accepted pass completes the frame.
    pub fn draw_pass(&mut self, pass: PassKind) -> (r: Result<(), DrawError>)
        requires
            old(self).wf(),
        ensures
            final(self).wf(),
            r is Ok <==> (old(self).spec_phase() == FramePhase::FrameBegun && old(self).spec_uniforms_flushed() && pass == pass_order(old(self).spec_passes_issued() as int)),
            r is Err ==> *final(self) == *old(self),
            old(self).spec_phase() != FramePhase::FrameBegun ==> r == Err::<(), DrawError>(
                DrawError::NotInFrame,
            ),
            old(self).spec_phase() == FramePhase::FrameBegun && !old(self).spec_uniforms_flushed()
                ==> r == Err::<(), DrawError>(DrawError::UniformsNotFlushed),
            old(self).spec_phase() == FramePhase::FrameBegun && old(self).spec_uniforms_flushed()
                && pass != pass_order(old(self).spec_passes_issued() as int) ==> r == Err::<
                (),
                DrawError,
            >(DrawError::OutOfOrder),
            r is Ok && old(self).spec_passes_issued() < PASS_COUNT - 1 ==> final(self).spec_phase()
                == FramePhase::FrameBegun && final(self).spec_passes_issued() == old(self).spec_passes_issued() + 1,
            r is Ok && old(self).spec_passes_issued() == PASS_COUNT - 1 ==> final(self).spec_phase()
                == FramePhase::PassesIssued && final(self).spec_passes_issued() == 0,
            r is Ok ==> final(self).spec_uniforms_flushed() && final(self).spec_frames_submitted()
                == old(self).spec_frames_submitted() && final(self).spec_frames_presented() == old(self).spec_frames_presented(),
    {
        if !matches!(self.phase, FramePhase::FrameBegun) {
            return Err(DrawError::NotInFrame);
        }
        if !self.uniforms_flushed {
            return Err(DrawError::UniformsNotFlushed);
        }
        let expected = if self.passes_issued == 0 {
            PassKind::Background
        } else if self.passes_issued == 1 {
            PassKind::Highlight
        } else {
            PassKind::Pieces
        };
        if !pass_eq(pass, expected) {
            return Err(DrawError::OutOfOrder);
        }
        if self.passes_issued == PASS_COUNT - 1 {
            self.phase = FramePhase::PassesIssued;
            self.passes_issued = 0;
        } else {
            self.passes_issued = self.passes_issued + 1;
        }
        Ok(())
    }

    /// Finalizes the recorded passes into one submission. Accepted
    /// exactly when every pass of the frame was issued; an incomplete
    /// frame is refused and changes nothing.
    pub fn end_frame(&mut self) -> (r: Result<(), DrawError>)
        requires
            old(self).wf(),
        ensures
            final(self).wf(),
            r is Ok <==> old(self).spec_phase() == FramePhase::PassesIssued,
            r is Err && old(self).spec_phase() == FramePhase::FrameBegun ==> r == Err::<
                (),
                DrawError,
            >(DrawError::PassesIncomplete),
            r is Err && old(self).spec_phase() != FramePhase::FrameBegun ==> r == Err::<
                (),
                DrawError,
            >(DrawError::NotInFrame),
            r is Err ==> *final(self) == *old(self),
            r is Ok ==> final(self).spec_phase() == FramePhase::Submitted,
            r is Ok ==> final(self).spec_passes_issued() == 0 && final(self).spec_frames_presented()
                == old(self).spec_frames_presented() && final(self).spec_uniforms_flushed() == old(self).spec_uniforms_flushed(),
            r is Ok && old(self).spec_frames_submitted() < u64::MAX ==> final(self).spec_frames_submitted() == old(self).spec_frames_submitted() + 1,
            final(self).spec_frames_submitted() >= old(self).spec_frames_submitted(),
    {
        match self.phase {
            FramePhase::PassesIssued => {
                self.phase = FramePhase::Submitted;
                if self.frames_submitted < u64::MAX {
                    self.frames_submitted = self.frames_submitted + 1;
                }
                Ok(())
            },
            FramePhase::FrameBegun => Err(DrawError::PassesIncomplete),
            _ => Err(DrawError::NotInFrame),
        }
    }

    /// Reports whether presenting the submitted frame succeeded. Either
    /// way the orchestrator returns to idle: a failed present is
    /// reported, never fatal, and the next `begin_frame` simply starts a
    /// new frame.
    pub fn report_present(&mut self, presented: bool) -> (r: Result<(), DrawError>)
        requires
            old(self).wf(),
        ensures
            final(self).wf(),
            r is Ok <==> old(self).spec_phase() == FramePhase::Submitted,
            r is Err ==> *final(self) == *old(self) && r == Err::<(), DrawError>(
                DrawError::NothingSubmitted,
            ),
            r is Ok ==> final(self).spec_phase() == FramePhase::Idle,
            r is Ok ==> final(self).spec_frames_submitted() == old(self).spec_frames_submitted(),
            r is Ok && presented && old(self).spec_frames_presented() < old(self).spec_frames_submitted() ==> final(self).spec_frames_presented() == old(self).spec_frames_presented() + 1,
            r is Ok && !presented ==> final(self).spec_frames_presented() == old(self).spec_frames_presented(),
    {
        if !matches!(self.phase, FramePhase::Submitted) {
            return Err(DrawError::NothingSubmitted);
        }
        self.phase = FramePhase::Idle;
        if presented && self.frames_presented < self.frames_submitted {
            self.frames_presented = self.frames_presented + 1;
        }
        Ok(())
    }

    /// The current frame phase.
    pub fn phase(&self) -> (p: FramePhase)
        ensures
            p == self.spec_phase(),
    {
        self.phase
    }

    /// Frames submitted so far.
    pub fn frames_submitted(&self) -> (n: u64)
        ensures
            n == self.spec_frames_submitted(),
    {
        self.frames_submitted
    }

    /// Frames reported presented so far.
    pub fn frames_presented(&self) -> (n: u64)
        ensures
            n == self.spec_frames_presented(),
    {
        self.frames_presented
    }
}

/// Structural equality of pass kinds.
fn pass_eq(a: PassKind, b: PassKind) -> (r: bool)
    ensures
        r <==> a == b,
{
    match (a, b) {
        (PassKind::Background, PassKind::Background) => true,
        (PassKind::Highlight, PassKind::Highlight) => true,
        (PassKind::Pieces, PassKind::Pieces) => true,
        _ => false,
    }
}

/// The background pass is accepted only as the first pass of a frame:
/// once any later pass was issued, drawing the background again is out
/// of order, so it can never be composited over the pieces.
pub proof fn lemma_background_only_first(i: int)
    requires
        0 <= i < PASS_COUNT,
    ensures
        pass_order(i) == PassKind::Background <==> i == 0,
{
}

} // verus!
