use goban_render::camera::{CameraParams, Mat4Bits, Vec3Milli};
use goban_render::errors::{ConfigError, DrawError};
use goban_render::geometry::{default_geometry, BoardGeometry, GridPosition};
use goban_render::input::{EventAction, InputEvent, KeyName};
use goban_render::orchestrator::{AcquireOutcome, DrawOrchestrator, FrameAction, FramePhase, PassKind};
use goban_render::scene::PieceColor;
use goban_render::session::{RenderSession, SessionConfig};

fn camera_params() -> CameraParams {
    CameraParams {
        eye: Vec3Milli { x: 8400, y: 25000, z: -8400 },
        target: Vec3Milli { x: 0, y: 0, z: 0 },
        up: Vec3Milli { x: 0, y: 1000, z: 0 },
        fov_y_millideg: 90_000,
        viewport_w: 600,
        viewport_h: 600,
        near_milli: 100,
        far_milli: 100_000,
    }
}

fn config() -> SessionConfig {
    SessionConfig {
        geometry: default_geometry(),
        camera: camera_params(),
        view_proj: Mat4Bits { words: [0; 16] },
        velocity_milli: 500,
    }
}

#[test]
fn initialize_builds_a_running_idle_session() {
    let s = RenderSession::initialize(config()).unwrap();
    assert!(s.is_running());
    assert_eq!(s.phase(), FramePhase::Idle);
    assert_eq!(s.elapsed_ns(), 0);
    assert!(s.instances().is_empty());
    assert_eq!(s.camera_params(), camera_params());
}

#[test]
fn initialize_rejects_bad_configuration() {
    let mut c = config();
    c.geometry = BoardGeometry { board_size: 0, ..c.geometry };
    assert_eq!(RenderSession::initialize(c).err(), Some(ConfigError::BadGeometry));

    let mut c = config();
    c.camera.fov_y_millideg = 180_000;
    assert_eq!(RenderSession::initialize(c).err(), Some(ConfigError::InvalidFovY));

    let mut c = config();
    c.camera.near_milli = 0;
    assert_eq!(RenderSession::initialize(c).err(), Some(ConfigError::InvalidNearFar));

    let mut c = config();
    c.camera.far_milli = c.camera.near_milli;
    assert_eq!(RenderSession::initialize(c).err(), Some(ConfigError::InvalidNearFar));

    let mut c = config();
    c.camera.viewport_h = 0;
    assert_eq!(RenderSession::initialize(c).err(), Some(ConfigError::ZeroViewport));
}

#[test]
fn elapsed_time_never_decreases() {
    let mut s = RenderSession::initialize(config()).unwrap();
    s.advance_time(100);
    assert_eq!(s.elapsed_ns(), 100);
    // The clock goes backward: the delta clamps to zero.
    s.advance_time(50);
    assert_eq!(s.elapsed_ns(), 100);
    // Forward again, measured from the backward reading.
    s.advance_time(120);
    assert_eq!(s.elapsed_ns(), 170);
    // A repeated reading adds nothing.
    s.advance_time(120);
    assert_eq!(s.elapsed_ns(), 170);
}

#[test]
fn draw_protocol_enforces_flush_and_order() {
    let mut s = RenderSession::initialize(config()).unwrap();
    assert_eq!(s.begin_frame(AcquireOutcome::Acquired), Ok(FrameAction::Render));
    // No pass before the uniforms are flushed.
    assert_eq!(s.draw_pass(PassKind::Background), Err(DrawError::UniformsNotFlushed));
    s.flush_frame().unwrap();
    // Fixed order: background, highlight, pieces.
    assert_eq!(s.draw_pass(PassKind::Highlight), Err(DrawError::OutOfOrder));
    assert_eq!(s.draw_pass(PassKind::Background), Ok(()));
    assert_eq!(s.draw_pass(PassKind::Background), Err(DrawError::OutOfOrder));
    assert_eq!(s.draw_pass(PassKind::Highlight), Ok(()));
    assert_eq!(s.end_frame(), Err(DrawError::PassesIncomplete));
    assert_eq!(s.draw_pass(PassKind::Pieces), Ok(()));
    assert_eq!(s.phase(), FramePhase::PassesIssued);
    assert_eq!(s.draw_pass(PassKind::Background), Err(DrawError::NotInFrame));
    assert_eq!(s.end_frame(), Ok(()));
    assert_eq!(s.phase(), FramePhase::Submitted);
    assert_eq!(s.begin_frame(AcquireOutcome::Acquired), Err(DrawError::MidFrame));
    assert_eq!(s.report_present(true), Ok(()));
    assert_eq!(s.phase(), FramePhase::Idle);
}

#[test]
fn flush_is_idempotent_within_a_frame() {
    let mut s = RenderSession::initialize(config()).unwrap();
    s.advance_time(42);
    s.handle_event(InputEvent::PointerMoved(300, 150)).unwrap();
    s.begin_frame(AcquireOutcome::Acquired).unwrap();
    let snap1 = s.flush_frame().unwrap();
    // The snapshot reflects every staged value.
    assert_eq!(snap1.elapsed_ns, 42);
    assert_eq!(snap1.cursor.x_num, 2 * 300 - 600);
    assert_eq!(snap1.cursor.y_num, 600 - 2 * 150);
    // A second flush with nothing staged uploads the same data.
    let snap2 = s.flush_frame().unwrap();
    assert_eq!(snap2.elapsed_ns, snap1.elapsed_ns);
    assert_eq!(snap2.cursor, snap1.cursor);
    assert_eq!(snap2.view_proj.words, snap1.view_proj.words);
}

#[test]
fn flush_outside_a_frame_is_refused() {
    let mut s = RenderSession::initialize(config()).unwrap();
    assert_eq!(s.flush_frame().err(), Some(DrawError::NotInFrame));
}

#[test]
fn outdated_surface_reconfigures_and_recovers() {
    let mut s = RenderSession::initialize(config()).unwrap();
    // The acquire outcomes of three consecutive ticks.
    let mut reconfigures = 0;
    for outcome in [AcquireOutcome::Outdated, AcquireOutcome::Timeout, AcquireOutcome::Acquired] {
        match s.begin_frame(outcome).unwrap() {
            FrameAction::Render => {
                s.flush_frame().unwrap();
                s.draw_pass(PassKind::Background).unwrap();
                s.draw_pass(PassKind::Highlight).unwrap();
                s.draw_pass(PassKind::Pieces).unwrap();
                s.end_frame().unwrap();
                s.report_present(true).unwrap();
            }
            FrameAction::Reconfigure => reconfigures += 1,
            FrameAction::Skip => {}
        }
        assert!(s.is_running());
    }
    assert_eq!(reconfigures, 1);
    assert_eq!(s.phase(), FramePhase::Idle);
}

#[test]
fn lost_surface_also_asks_for_reconfigure() {
    let mut o = DrawOrchestrator::new();
    assert_eq!(o.begin_frame(AcquireOutcome::Lost), Ok(FrameAction::Reconfigure));
    assert_eq!(o.phase(), FramePhase::Idle);
    assert_eq!(o.begin_frame(AcquireOutcome::Timeout), Ok(FrameAction::Skip));
    assert_eq!(o.frames_submitted(), 0);
    assert_eq!(o.frames_presented(), 0);
}

#[test]
fn present_failure_is_reported_but_not_fatal() {
    let mut s = RenderSession::initialize(config()).unwrap();
    s.begin_frame(AcquireOutcome::Acquired).unwrap();
    s.flush_frame().unwrap();
    s.draw_pass(PassKind::Background).unwrap();
    s.draw_pass(PassKind::Highlight).unwrap();
    s.draw_pass(PassKind::Pieces).unwrap();
    s.end_frame().unwrap();
    s.report_present(false).unwrap();
    assert_eq!(s.phase(), FramePhase::Idle);
    assert!(s.is_running());
    // The next frame simply begins.
    assert_eq!(s.begin_frame(AcquireOutcome::Acquired), Ok(FrameAction::Render));
}

#[test]
fn escape_and_close_end_the_loop() {
    let mut s = RenderSession::initialize(config()).unwrap();
    assert_eq!(s.handle_event(InputEvent::KeyDown(KeyName::Escape)), Ok(EventAction::Exit));
    assert!(!s.is_running());

    let mut s = RenderSession::initialize(config()).unwrap();
    assert_eq!(s.handle_event(InputEvent::CloseRequested), Ok(EventAction::Exit));
    assert!(!s.is_running());
}

#[test]
fn movement_keys_steer_the_controller() {
    let mut s = RenderSession::initialize(config()).unwrap();
    assert_eq!(s.move_direction(), (0, 0));
    s.handle_event(InputEvent::KeyDown(KeyName::Up)).unwrap();
    s.handle_event(InputEvent::KeyDown(KeyName::Right)).unwrap();
    assert_eq!(s.move_direction(), (1, 1));
    s.handle_event(InputEvent::KeyUp(KeyName::Right)).unwrap();
    s.handle_event(InputEvent::KeyDown(KeyName::Left)).unwrap();
    assert_eq!(s.move_direction(), (-1, 1));
    s.handle_event(InputEvent::KeyDown(KeyName::Down)).unwrap();
    assert_eq!(s.move_direction(), (-1, 0));
    // Space is acknowledged and changes nothing.
    assert_eq!(s.handle_event(InputEvent::KeyDown(KeyName::Space)), Ok(EventAction::Continue));
    assert_eq!(s.move_direction(), (-1, 0));
}

#[test]
fn resize_asks_for_reconfigure_and_rejects_zero() {
    let mut s = RenderSession::initialize(config()).unwrap();
    assert_eq!(s.handle_event(InputEvent::Resized(800, 600)), Ok(EventAction::Reconfigure));
    assert_eq!(s.handle_event(InputEvent::Resized(0, 600)), Err(ConfigError::ZeroViewport));
    assert!(s.is_running());
}

#[test]
fn set_camera_is_atomic() {
    let mut s = RenderSession::initialize(config()).unwrap();
    let new_matrix = Mat4Bits { words: [7; 16] };
    let mut new_params = camera_params();
    new_params.viewport_w = 800;

    // An invalid replacement changes nothing.
    let mut bad = new_params;
    bad.fov_y_millideg = 0;
    assert_eq!(s.set_camera(bad, new_matrix), Err(ConfigError::InvalidFovY));
    assert_eq!(s.camera_params(), camera_params());
    assert_eq!(s.view_projection_matrix().words, [0; 16]);

    // A valid one replaces parameters and matrix together and stages the
    // matrix for the next flush.
    s.set_camera(new_params, new_matrix).unwrap();
    assert_eq!(s.camera_params(), new_params);
    assert_eq!(s.view_projection_matrix().words, [7; 16]);
    s.begin_frame(AcquireOutcome::Acquired).unwrap();
    let snap = s.flush_frame().unwrap();
    assert_eq!(snap.view_proj.words, [7; 16]);
}

#[test]
fn session_places_and_removes_pieces() {
    let mut s = RenderSession::initialize(config()).unwrap();
    let pos = GridPosition { col: 3, row: 3 };
    s.place_piece(pos, PieceColor::Black).unwrap();
    assert_eq!(s.instances().len(), 1);
    assert!(s.remove_piece(pos));
    assert!(s.instances().is_empty());
    assert_eq!(
        s.place_piece(GridPosition { col: 30, row: 0 }, PieceColor::White),
        Err(ConfigError::OutOfBounds)
    );
}
