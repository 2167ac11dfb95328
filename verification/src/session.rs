use vstd::prelude::*;

use crate::camera::{Camera, CameraParams, Mat4Bits};
use crate::errors::{ConfigError, DrawError};
use crate::frame::{FrameState, FrameUniforms};
use crate::geometry::{world_of_pixel, BoardGeometry, GridPosition};
use crate::input::{with_key, Controller, EventAction, InputEvent, KeyName};
use crate::orchestrator::{
    pass_order, AcquireOutcome, DrawOrchestrator, FrameAction, FramePhase, PassKind,
};
use crate::scene::{has_piece_at, placed, removed, PieceColor, PieceInstance, SceneGraph};
use crate::geometry::{grid_world, pixel_to_world};

verus! {

/// Everything a session is built from, gathered before anything is
/// allocated: the board, the initial camera, the matrix computed from
/// that camera, and the controller speed.
#[derive(Clone, Copy, Debug)]
pub struct SessionConfig {
    pub geometry: BoardGeometry,
    pub camera: CameraParams,
    /// View-projection matrix computed from `camera`.
    pub view_proj: Mat4Bits,
    /// Controller speed, in thousandths of a world unit per tick.
    pub velocity_milli: u32,
}

/// One rendering session: owns the camera, the per-frame uniform state,
/// the scene and the draw orchestrator, so that every mutation goes
/// through its methods and no field is ever read before it is set.
/// Built in one explicit step from a full configuration; there is no
/// partially initialized session.
#[derive(Debug)]
pub struct RenderSession {
    camera: Camera,
    frame: FrameState,
    scene: SceneGraph,
    orch: DrawOrchestrator,
    controller: Controller,
    running: bool,
}

impl RenderSession {
    /// The camera, for contracts.
    pub closed spec fn spec_camera(self) -> Camera {
        self.camera
    }

    /// The per-frame uniform state, for contracts.
    pub closed spec fn spec_frame(self) -> FrameState {
        self.frame
    }

    /// The scene, for contracts.
    pub closed spec fn spec_scene(self) -> SceneGraph {
        self.scene
    }

    /// The draw orchestrator, for contracts.
    pub closed spec fn spec_orch(self) -> DrawOrchestrator {
        self.orch
    }

    /// The controller, for contracts.
    pub closed spec fn spec_controller(self) -> Controller {
        self.controller
    }

    /// Whether the event loop should keep running, for contracts.
    pub closed spec fn spec_running(self) -> bool {
        self.running
    }

    /// Session invariant: a valid camera, a well-formed scene and a
    /// well-formed orchestrator.
    pub open spec fn wf(self) -> bool {
        &&& self.spec_camera().wf()
        &&& self.spec_scene().wf()
        &&& self.spec_orch().wf()
    }

    /// Builds a fully populated session from the configuration, or
    /// rejects it: unusable board geometry first, then the camera rules,
    /// each with the exact error of the first rule broken. On success
    /// the session starts idle and running, with an empty board, the
    /// cursor at the window origin, and both uniform snapshots holding
    /// the configured matrix.
    pub fn initialize(config: SessionConfig) -> (r: Result<RenderSession, ConfigError>)
        ensures
            r is Ok <==> config.geometry.wf() && config.camera.valid(),
            !config.geometry.wf() ==> r == Err::<RenderSession, ConfigError>(
                ConfigError::BadGeometry,
            ),
            config.geometry.wf() && !config.camera.valid() ==> Some(r->Err_0)
                == config.camera.first_violation(),
            r is Ok ==> ({
                let s = r->Ok_0;
                &&& s.wf()
                &&& s.spec_camera().spec_params() == config.camera
                &&& s.spec_camera().spec_view_proj() == config.view_proj
                &&& s.spec_scene().spec_geometry() == config.geometry
                &&& s.spec_scene().spec_pieces() =~= Seq::<PieceInstance>::empty()
                &&& s.spec_orch().spec_phase() == FramePhase::Idle
                &&& s.spec_orch().spec_frames_submitted() == 0
                &&& s.spec_frame().spec_last_ns() == 0
                &&& (s.spec_frame().spec_staged() == FrameUniforms {
                    elapsed_ns: 0,
                    cursor: world_of_pixel(
                        0,
                        0,
                        config.camera.viewport_w as int,
                        config.camera.viewport_h as int,
                    ),
                    view_proj: config.view_proj,
                })
                &&& s.spec_frame().spec_uploaded() == s.spec_frame().spec_staged()
                &&& (s.spec_controller() == Controller {
                    up_pressed: false,
                    down_pressed: false,
                    left_pressed: false,
                    right_pressed: false,
                    velocity_milli: config.velocity_milli,
                })
                &&& s.spec_running()
            }),
    {
        let scene = match SceneGraph::new(config.geometry) {
            Ok(s) => s,
            Err(e) => {
                return Err(e);
            },
        };
        let camera = match Camera::new(config.camera, config.view_proj) {
            Ok(c) => c,
            Err(e) => {
                return Err(e);
            },
        };
        let cursor = match pixel_to_world(0, 0, config.camera.viewport_w, config.camera.viewport_h)
            {
            Ok(w) => w,
            Err(_) => {
                return unreached();
            },
        };
        let frame = FrameState::new(cursor, config.view_proj);
        Ok(
            RenderSession {
                camera,
                frame,
                scene,
                orch: DrawOrchestrator::new(),
                controller: Controller::new(config.velocity_milli),
                running: true,
            },
        )
    }

    /// Applies one input notification as a pure state transition and
    /// says what the loop should do next: close requests and the escape
    /// key end the loop, movement keys update the controller flags, a
    /// pointer move restages the cursor uniform, and a resize asks the
    /// loop to reconfigure — after rejecting a zero-sized viewport as a
    /// configuration error that changes nothing.
    pub fn handle_event(&mut self, event: InputEvent) -> (r: Result<EventAction, ConfigError>)
        requires
            old(self).wf(),
        ensures
            final(self).wf(),
            final(self).spec_camera() == old(self).spec_camera(),
            final(self).spec_scene() == old(self).spec_scene(),
            final(self).spec_orch() == old(self).spec_orch(),
            r is Err <==> (event matches InputEvent::Resized(w, h) && (w == 0 || h == 0)),
            r is Err ==> r == Err::<EventAction, ConfigError>(ConfigError::ZeroViewport) && final(self).spec_frame() == old(self).spec_frame() && final(self).spec_controller() == old(self).spec_controller() && final(self).spec_running() == old(self).spec_running(),
            r is Ok ==> (match event {
                InputEvent::CloseRequested => r == Ok::<EventAction, ConfigError>(EventAction::Exit)
                    && !final(self).spec_running() && final(self).spec_frame() == old(self).spec_frame() && final(self).spec_controller() == old(self).spec_controller(),
                InputEvent::KeyDown(key) => (if key == KeyName::Escape {
                    r == Ok::<EventAction, ConfigError>(EventAction::Exit) && !final(self).spec_running() && final(self).spec_controller() == old(self).spec_controller()
                } else {
                    r == Ok::<EventAction, ConfigError>(EventAction::Continue) && final(self).spec_controller() == with_key(old(self).spec_controller(), key, true) && final(self).spec_running() == old(self).spec_running()
                }) && final(self).spec_frame() == old(self).spec_frame(),
                InputEvent::KeyUp(key) => r == Ok::<EventAction, ConfigError>(EventAction::Continue)
                    && final(self).spec_controller() == with_key(
                    old(self).spec_controller(),
                    key,
                    false,
                ) && final(self).spec_running() == old(self).spec_running() && final(self).spec_frame() == old(self).spec_frame(),
                InputEvent::PointerMoved(x, y) => r == Ok::<EventAction, ConfigError>(
                    EventAction::Continue,
                ) && final(self).spec_frame() == old(self).spec_frame().cursor_staged(
                    world_of_pixel(
                        x as int,
                        y as int,
                        old(self).spec_camera().spec_params().viewport_w as int,
                        old(self).spec_camera().spec_params().viewport_h as int,
                    ),
                ) && final(self).spec_controller() == old(self).spec_controller() && final(self).spec_running() == old(self).spec_running(),
                InputEvent::Resized(_w, _h) => r == Ok::<EventAction, ConfigError>(
                    EventAction::Reconfigure,
                ) && final(self).spec_frame() == old(self).spec_frame() && final(self).spec_controller() == old(self).spec_controller() && final(self).spec_running()
                    == old(self).spec_running(),
            }),
    {
        match event {
            InputEvent::CloseRequested => {
                self.running = false;
                Ok(EventAction::Exit)
            },
            InputEvent::KeyDown(key) => {
                if matches!(key, KeyName::Escape) {
                    self.running = false;
                    Ok(EventAction::Exit)
                } else {
                    let _ = self.controller.process_key(key, true);
                    Ok(EventAction::Continue)
                }
            },
            InputEvent::KeyUp(key) => {
                let _ = self.controller.process_key(key, false);
                Ok(EventAction::Continue)
            },
            InputEvent::PointerMoved(x, y) => {
                let p = self.camera.params();
                match pixel_to_world(x, y, p.viewport_w, p.viewport_h) {
                    Ok(w) => {
                        self.frame.set_cursor(w);
                        Ok(EventAction::Continue)
                    },
                    Err(_) => unreached(),
                }
            },
            InputEvent::Resized(w, h) => {
                if w == 0 || h == 0 {
                    Err(ConfigError::ZeroViewport)
                } else {
                    Ok(EventAction::Reconfigure)
                }
            },
        }
    }

    /// Replaces the camera — parameters and recomputed matrix together,
    /// atomically — and stages the new matrix as the camera uniform, so
    /// the next flush uploads it. Invalid parameters are rejected with
    /// the first rule broken and change nothing.
    pub fn set_camera(&mut self, params: CameraParams, view_proj: Mat4Bits) -> (r: Result<
        (),
        ConfigError,
    >)
        requires
            old(self).wf(),
        ensures
            final(self).wf(),
            r is Ok <==> params.valid(),
            r is Err ==> Some(r->Err_0) == params.first_violation() && final(self).spec_camera()
                == old(self).spec_camera() && final(self).spec_frame() == old(self).spec_frame(),
            r is Ok ==> final(self).spec_camera().spec_params() == params && final(self).spec_camera().spec_view_proj() == view_proj && final(self).spec_frame() == old(self).spec_frame().matrix_staged(view_proj),
            final(self).spec_scene() == old(self).spec_scene(),
            final(self).spec_orch() == old(self).spec_orch(),
            final(self).spec_controller() == old(self).spec_controller(),
            final(self).spec_running() == old(self).spec_running(),
    {
        match self.camera.set_parameters(params, view_proj) {
            Ok(()) => {
                self.frame.set_camera_matrix(view_proj);
                Ok(())
            },
            Err(e) => Err(e),
        }
    }

    /// Accumulates elapsed time from a clock reading, staging the new
    /// time uniform; a reading that went backward contributes nothing.
    pub fn advance_time(&mut self, now_ns: u64)
        requires
            old(self).wf(),
        ensures
            final(self).wf(),
            final(self).spec_frame() == old(self).spec_frame().advanced(now_ns),
            final(self).spec_frame().spec_staged().elapsed_ns >= old(self).spec_frame().spec_staged().elapsed_ns,
            final(self).spec_camera() == old(self).spec_camera(),
            final(self).spec_scene() == old(self).spec_scene(),
            final(self).spec_orch() == old(self).spec_orch(),
            final(self).spec_controller() == old(self).spec_controller(),
            final(self).spec_running() == old(self).spec_running(),
    {
        self.frame.advance_time(now_ns);
    }

    /// Places a piece, overwriting any piece already at the position;
    /// an out-of-range position is rejected and changes nothing.
    pub fn place_piece(&mut self, pos: GridPosition, color: PieceColor) -> (r: Result<
        (),
        ConfigError,
    >)
        requires
            old(self).wf(),
        ensures
            final(self).wf(),
            r is Ok <==> pos.valid(old(self).spec_scene().spec_geometry()),
            r is Err ==> r == Err::<(), ConfigError>(ConfigError::OutOfBounds) && final(self).spec_scene().spec_pieces() == old(self).spec_scene().spec_pieces(),
            r is Ok ==> final(self).spec_scene().spec_pieces() == placed(
                old(self).spec_scene().spec_pieces(),
                PieceInstance {
                    pos,
                    color,
                    world: grid_world(old(self).spec_scene().spec_geometry(), pos),
                },
            ),
            final(self).spec_scene().spec_geometry() == old(self).spec_scene().spec_geometry(),
            final(self).spec_camera() == old(self).spec_camera(),
            final(self).spec_frame() == old(self).spec_frame(),
            final(self).spec_orch() == old(self).spec_orch(),
            final(self).spec_controller() == old(self).spec_controller(),
            final(self).spec_running() == old(self).spec_running(),
    {
        self.scene.place_piece(pos, color)
    }

    /// Removes the piece at the position; a no-op when none is there.
    pub fn remove_piece(&mut self, pos: GridPosition) -> (was_present: bool)
        requires
            old(self).wf(),
        ensures
            final(self).wf(),
            was_present <==> has_piece_at(old(self).spec_scene().spec_pieces(), pos),
            final(self).spec_scene().spec_pieces() == removed(
                old(self).spec_scene().spec_pieces(),
                pos,
            ),
            final(self).spec_scene().spec_geometry() == old(self).spec_scene().spec_geometry(),
            final(self).spec_camera() == old(self).spec_camera(),
            final(self).spec_frame() == old(self).spec_frame(),
            final(self).spec_orch() == old(self).spec_orch(),
            final(self).spec_controller() == old(self).spec_controller(),
            final(self).spec_running() == old(self).spec_running(),
    {
        self.scene.remove_piece(pos)
    }

    /// Starts a frame from the outcome of acquiring the surface texture.
    /// A lost or outdated surface asks for a reconfigure and a timeout
    /// asks to skip the tick — recoverable outcomes that leave the
    /// session running and idle, never ending it.
    pub fn begin_frame(&mut self, acquired: AcquireOutcome) -> (r: Result<FrameAction, DrawError>)
        requires
            old(self).wf(),
        ensures
            final(self).wf(),
            r is Ok <==> old(self).spec_orch().spec_phase() == FramePhase::Idle,
            r is Err ==> r == Err::<FrameAction, DrawError>(DrawError::MidFrame) && final(self).spec_orch() == old(self).spec_orch(),
            r is Ok ==> (match acquired {
                AcquireOutcome::Acquired => r == Ok::<FrameAction, DrawError>(FrameAction::Render)
                    && final(self).spec_orch().spec_phase() == FramePhase::FrameBegun && final(self).spec_orch().spec_passes_issued() == 0 && !final(self).spec_orch().spec_uniforms_flushed(),
                AcquireOutcome::Lost => r == Ok::<FrameAction, DrawError>(FrameAction::Reconfigure)
                    && final(self).spec_orch() == old(self).spec_orch(),
                AcquireOutcome::Outdated => r == Ok::<FrameAction, DrawError>(
                    FrameAction::Reconfigure,
                ) && final(self).spec_orch() == old(self).spec_orch(),
                AcquireOutcome::Timeout => r == Ok::<FrameAction, DrawError>(FrameAction::Skip)
                    && final(self).spec_orch() == old(self).spec_orch(),
            }),
            final(self).spec_orch().spec_frames_submitted() == old(self).spec_orch().spec_frames_submitted(),
            final(self).spec_camera() == old(self).spec_camera(),
            final(self).spec_frame() == old(self).spec_frame(),
            final(self).spec_scene() == old(self).spec_scene(),
            final(self).spec_controller() == old(self).spec_controller(),
            final(self).spec_running() == old(self).spec_running(),
    {
        self.orch.begin_frame(acquired)
    }

    /// The single point where the staged uniforms become the uploaded
    /// snapshot of the current frame. Returns the complete snapshot for
    /// the caller to push to the GPU-visible buffer before any pass of
    /// the frame is issued; outside a begun frame the call is refused
    /// and changes nothing.
    pub fn flush_frame(&mut self) -> (r: Result<FrameUniforms, DrawError>)
        requires
            old(self).wf(),
        ensures
            final(self).wf(),
            r is Ok <==> old(self).spec_orch().spec_phase() == FramePhase::FrameBegun,
            r is Err ==> r == Err::<FrameUniforms, DrawError>(DrawError::NotInFrame) && final(self).spec_frame() == old(self).spec_frame() && final(self).spec_orch() == old(self).spec_orch(),
            r is Ok ==> r == Ok::<FrameUniforms, DrawError>(old(self).spec_frame().spec_staged())
                && final(self).spec_frame() == old(self).spec_frame().flushed() && final(self).spec_orch().spec_uniforms_flushed() && final(self).spec_orch().spec_phase() == old(self).spec_orch().spec_phase() && final(self).spec_orch().spec_passes_issued() == old(self).spec_orch().spec_passes_issued(),
            final(self).spec_camera() == old(self).spec_camera(),
            final(self).spec_scene() == old(self).spec_scene(),
            final(self).spec_controller() == old(self).spec_controller(),
            final(self).spec_running() == old(self).spec_running(),
    {
        match self.orch.mark_uniforms_flushed() {
            Ok(()) => Ok(self.frame.flush()),
            Err(_) => Err(DrawError::NotInFrame),
        }
    }

    /// Issues one draw pass of the current frame; accepted exactly in
    /// the fixed order, after the frame's uniforms were flushed.
    pub fn draw_pass(&mut self, pass: PassKind) -> (r: Result<(), DrawError>)
        requires
            old(self).wf(),
        ensures
            final(self).wf(),
            r is Ok <==> (old(self).spec_orch().spec_phase() == FramePhase::FrameBegun && old(self).spec_orch().spec_uniforms_flushed() && pass == pass_order(
                old(self).spec_orch().spec_passes_issued() as int,
            )),
            r is Err ==> final(self).spec_orch() == old(self).spec_orch(),
            r is Ok && old(self).spec_orch().spec_passes_issued() < 2 ==> final(self).spec_orch().spec_phase() == FramePhase::FrameBegun && final(self).spec_orch().spec_passes_issued() == old(self).spec_orch().spec_passes_issued() + 1,
            r is Ok && old(self).spec_orch().spec_passes_issued() == 2 ==> final(self).spec_orch().spec_phase() == FramePhase::PassesIssued,
            final(self).spec_camera() == old(self).spec_camera(),
            final(self).spec_frame() == old(self).spec_frame(),
            final(self).spec_scene() == old(self).spec_scene(),
            final(self).spec_controller() == old(self).spec_controller(),
            final(self).spec_running() == old(self).spec_running(),
    {
        self.orch.draw_pass(pass)
    }

    /// Finalizes the frame's recorded passes into one submission;
    /// refused while passes are missing.
    pub fn end_frame(&mut self) -> (r: Result<(), DrawError>)
        requires
            old(self).wf(),
        ensures
            final(self).wf(),
            r is Ok <==> old(self).spec_orch().spec_phase() == FramePhase::PassesIssued,
            r is Err ==> final(self).spec_orch() == old(self).spec_orch(),
            r is Ok ==> final(self).spec_orch().spec_phase() == FramePhase::Submitted,
            r is Ok && old(self).spec_orch().spec_frames_submitted() < u64::MAX ==> final(self).spec_orch().spec_frames_submitted() == old(self).spec_orch().spec_frames_submitted()
                + 1,
            final(self).spec_camera() == old(self).spec_camera(),
            final(self).spec_frame() == old(self).spec_frame(),
            final(self).spec_scene() == old(self).spec_scene(),
            final(self).spec_controller() == old(self).spec_controller(),
            final(self).spec_running() == old(self).spec_running(),
    {
        self.orch.end_frame()
    }

    /// Reports whether presenting the submitted frame succeeded; either
    /// way the session returns to idle and the next frame can begin — a
    /// failed present never ends the session.
    pub fn report_present(&mut self, presented: bool) -> (r: Result<(), DrawError>)
        requires
            old(self).wf(),
        ensures
            final(self).wf(),
            r is Ok <==> old(self).spec_orch().spec_phase() == FramePhase::Submitted,
            r is Err ==> final(self).spec_orch() == old(self).spec_orch(),
            r is Ok ==> final(self).spec_orch().spec_phase() == FramePhase::Idle,
            final(self).spec_camera() == old(self).spec_camera(),
            final(self).spec_frame() == old(self).spec_frame(),
            final(self).spec_scene() == old(self).spec_scene(),
            final(self).spec_controller() == old(self).spec_controller(),
            final(self).spec_running() == old(self).spec_running(),
    {
        self.orch.report_present(presented)
    }

    /// The ordered piece instances the draw passes render.
    pub fn instances(&self) -> (r: &Vec<PieceInstance>)
        ensures
            r@ == self.spec_scene().spec_pieces(),
    {
        self.scene.instances()
    }

    /// The current camera parameters.
    pub fn camera_params(&self) -> (p: CameraParams)
        ensures
            p == self.spec_camera().spec_params(),
    {
        self.camera.params()
    }

    /// The view-projection matrix of the current camera.
    pub fn view_projection_matrix(&self) -> (m: Mat4Bits)
        ensures
            m == self.spec_camera().spec_view_proj(),
    {
        self.camera.view_projection_matrix()
    }

    /// The staged elapsed time, in nanoseconds.
    pub fn elapsed_ns(&self) -> (t: u64)
        ensures
            t == self.spec_frame().spec_staged().elapsed_ns,
    {
        self.frame.elapsed_ns()
    }

    /// Where the orchestrator stands within the current frame.
    pub fn phase(&self) -> (p: FramePhase)
        ensures
            p == self.spec_orch().spec_phase(),
    {
        self.orch.phase()
    }

    /// The movement direction the controller flags select.
    pub fn move_direction(&self) -> (d: (i32, i32))
        ensures
            d.0 == crate::input::axis_unit(
                self.spec_controller().right_pressed,
                self.spec_controller().left_pressed,
            ),
            d.1 == crate::input::axis_unit(
                self.spec_controller().up_pressed,
                self.spec_controller().down_pressed,
            ),
    {
        self.controller.move_direction()
    }

    /// Whether the event loop should keep running.
    pub fn is_running(&self) -> (b: bool)
        ensures
            b == self.spec_running(),
    {
        self.running
    }
}

} // verus!
