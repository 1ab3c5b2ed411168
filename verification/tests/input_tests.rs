use cubeview::camera::{Camera, Vec3Fix, DEFAULT_PITCH, DEFAULT_YAW, DEFAULT_ZOOM};
use cubeview::fixed::{TURN, UNIT};
use cubeview::input::{
    DragState, HeldKeys, HostCommand, MotionCommand, PointerButton, Stage, SurfaceSize,
    TrackedKey, ViewState, WindowInput,
};

fn ready_state() -> ViewState {
    let mut s = ViewState::default();
    s.on_resumed();
    s
}

#[test]
fn initial_state_is_uninitialized_and_home() {
    let s = ViewState::default();
    assert_eq!(s.stage, Stage::Uninitialized);
    assert_eq!(s.live, Camera::default());
    assert_eq!(s.smoothed, Camera::default());
    assert_eq!(s.dragging, DragState::NotDragging);
    assert!(!s.keys.key_w && !s.keys.shift_left && !s.keys.alt_right);
}

#[test]
fn lifecycle_transitions() {
    let mut s = ViewState::default();
    s.on_resumed();
    assert_eq!(s.stage, Stage::Ready);
    assert_eq!(s.live, Camera::default());
    s.on_exiting();
    assert_eq!(s.stage, Stage::Uninitialized);
}

#[test]
fn resize_asks_for_surface_configuration() {
    let mut s = ready_state();
    let cmd = s.window_input(WindowInput::SurfaceResized { width: 800, height: 600 });
    assert_eq!(cmd, HostCommand::ConfigureSurface { width: 800, height: 600 });
    assert_eq!(s, ready_state());
}

#[test]
fn redraw_asks_for_a_frame() {
    let mut s = ready_state();
    let cmd = s.window_input(WindowInput::RedrawRequested);
    assert_eq!(cmd, HostCommand::RenderFrame);
    assert_eq!(s, ready_state());
}

#[test]
fn close_and_escape_exit() {
    let mut s = ready_state();
    assert_eq!(s.window_input(WindowInput::CloseRequested), HostCommand::Exit);
    let press = WindowInput::KeyInput {
        key: TrackedKey::EscapeKey,
        pressed: true,
        repeat: false,
    };
    assert_eq!(s.window_input(press), HostCommand::Exit);
    // Escape exits on release too, but not when auto-repeated.
    let release = WindowInput::KeyInput {
        key: TrackedKey::EscapeKey,
        pressed: false,
        repeat: false,
    };
    assert_eq!(s.window_input(release), HostCommand::Exit);
    let repeated = WindowInput::KeyInput {
        key: TrackedKey::EscapeKey,
        pressed: true,
        repeat: true,
    };
    assert_eq!(s.window_input(repeated), HostCommand::DoNothing);
    assert_eq!(s, ready_state());
}

#[test]
fn drag_state_machine() {
    let mut s = ready_state();
    s.window_input(WindowInput::PointerPressed { button: PointerButton::LeftButton });
    assert_eq!(s.dragging, DragState::Dragging(PointerButton::LeftButton));
    s.window_input(WindowInput::PointerPressed { button: PointerButton::RightButton });
    assert_eq!(s.dragging, DragState::Dragging(PointerButton::RightButton));
    s.window_input(WindowInput::PointerReleased { button: PointerButton::RightButton });
    assert_eq!(s.dragging, DragState::NotDragging);
    s.window_input(WindowInput::PointerPressed { button: PointerButton::OtherButton });
    assert_eq!(s.dragging, DragState::Dragging(PointerButton::OtherButton));
    s.window_input(WindowInput::FocusLost);
    assert_eq!(s.dragging, DragState::NotDragging);
}

#[test]
fn back_button_resets_the_live_camera() {
    let mut s = ready_state();
    s.window_input(WindowInput::ScrollPixels { dx: 100_000_000, dy: 0 });
    s.window_input(WindowInput::Pinch { delta: 250_000 });
    assert_ne!(s.live, Camera::default());
    let cmd = s.window_input(WindowInput::PointerPressed { button: PointerButton::BackButton });
    assert_eq!(cmd, HostCommand::DoNothing);
    assert_eq!(s.live, Camera::default());
    // The drag state is untouched by a Back press.
    assert_eq!(s.dragging, DragState::NotDragging);
}

#[test]
fn pixel_scroll_orbits_at_a_hundredth_per_pixel() {
    let mut s = ready_state();
    // 200 pixels right, 50 pixels down, in micro-pixels.
    let cmd = s.window_input(WindowInput::ScrollPixels { dx: 200_000_000, dy: 50_000_000 });
    assert_eq!(cmd, HostCommand::DoNothing);
    assert_eq!(s.live.yaw, DEFAULT_YAW + 2_000_000);
    assert_eq!(s.live.pitch, DEFAULT_PITCH + 500_000);
    assert_eq!(s.live.zoom, DEFAULT_ZOOM);
}

#[test]
fn line_scroll_zooms_out_a_fifth_per_line() {
    let mut s = ready_state();
    // One wheel line, in micro-lines: zoom moves by minus a fifth.
    s.window_input(WindowInput::ScrollLines { amount: 1_000_000 });
    assert_eq!(s.live.zoom, DEFAULT_ZOOM - 200_000);
    s.window_input(WindowInput::ScrollLines { amount: -2_000_000 });
    assert_eq!(s.live.zoom, DEFAULT_ZOOM - 200_000 + 400_000);
}

#[test]
fn pinch_zooms_by_its_delta() {
    let mut s = ready_state();
    s.window_input(WindowInput::Pinch { delta: 330_000 });
    assert_eq!(s.live.zoom, DEFAULT_ZOOM + 330_000);
    s.window_input(WindowInput::Pinch { delta: -30_000 });
    assert_eq!(s.live.zoom, DEFAULT_ZOOM + 300_000);
}

#[test]
fn keys_are_tracked_unless_repeated() {
    let mut s = ready_state();
    s.window_input(WindowInput::KeyInput { key: TrackedKey::KeyW, pressed: true, repeat: false });
    assert!(s.keys.key_w);
    s.window_input(WindowInput::KeyInput {
        key: TrackedKey::KeyW,
        pressed: false,
        repeat: true,
    });
    assert!(s.keys.key_w, "auto-repeat must not change the key state");
    s.window_input(WindowInput::KeyInput {
        key: TrackedKey::KeyW,
        pressed: false,
        repeat: false,
    });
    assert!(!s.keys.key_w);
    s.window_input(WindowInput::KeyInput {
        key: TrackedKey::OtherKey,
        pressed: true,
        repeat: false,
    });
    assert_eq!(s, ready_state());
}

#[test]
fn left_drag_orbits() {
    let mut s = ready_state();
    s.window_input(WindowInput::PointerPressed { button: PointerButton::LeftButton });
    // 30 pixels right, 10 pixels down.
    let cmd = s.motion_input(30_000_000, 10_000_000);
    assert_eq!(cmd, MotionCommand::NoMotion);
    assert_eq!(s.live.yaw, DEFAULT_YAW + 300_000);
    assert_eq!(s.live.pitch, DEFAULT_PITCH + 100_000);
}

#[test]
fn right_drag_asks_for_a_pan() {
    let mut s = ready_state();
    s.window_input(WindowInput::PointerPressed { button: PointerButton::RightButton });
    let cmd = s.motion_input(30_000_000, 10_000_000);
    // Rightwards a hundredth per pixel; upwards the same with the sign
    // flipped (screen y grows downwards).
    assert_eq!(cmd, MotionCommand::PanBy { rightwards: 300_000, upwards: -100_000 });
    assert_eq!(s.live, Camera::default());
}

#[test]
fn motion_without_drag_does_nothing() {
    let mut s = ready_state();
    let cmd = s.motion_input(30_000_000, 10_000_000);
    assert_eq!(cmd, MotionCommand::NoMotion);
    s.window_input(WindowInput::PointerPressed { button: PointerButton::OtherButton });
    let cmd2 = s.motion_input(30_000_000, 10_000_000);
    assert_eq!(cmd2, MotionCommand::NoMotion);
    assert_eq!(s.live, Camera::default());
}

#[test]
fn first_frame_snaps_smoothed_to_live() {
    let mut s = ready_state();
    s.window_input(WindowInput::Pinch { delta: 700_000 });
    assert_ne!(s.smoothed, s.live);
    s.frame_step(true, 0, Vec3Fix { x: 0, y: 0, z: 0 });
    assert_eq!(s.smoothed, s.live);
    assert_eq!(s.live.zoom, DEFAULT_ZOOM + 700_000);
}

#[test]
fn later_frames_translate_then_smooth() {
    let mut s = ready_state();
    s.frame_step(true, 0, Vec3Fix { x: 0, y: 0, z: 0 });
    s.window_input(WindowInput::Pinch { delta: 1_000_000 });
    let translation = Vec3Fix { x: 10_000, y: 0, z: -10_000 };
    s.frame_step(false, 500_000, translation);
    // The live camera moved first, then the smoothed one covered half
    // the distance toward it.
    assert_eq!(s.live.origin, Vec3Fix { x: 10_000, y: 0, z: -10_000 });
    assert_eq!(s.live.zoom, DEFAULT_ZOOM + 1_000_000);
    assert_eq!(s.smoothed.origin, Vec3Fix { x: 5_000, y: 0, z: -5_000 });
    assert_eq!(s.smoothed.zoom, DEFAULT_ZOOM + 500_000);
    assert_eq!(s.smoothed.yaw, DEFAULT_YAW);
}

#[test]
fn movement_steps_oppose() {
    let mut keys = HeldKeys {
        key_w: true,
        key_a: false,
        key_s: false,
        key_d: true,
        key_q: true,
        key_e: true,
        shift_left: false,
        shift_right: false,
        alt_left: false,
        alt_right: false,
    };
    assert_eq!(keys.forward_step(), 1);
    assert_eq!(keys.side_step(), -1);
    assert_eq!(keys.vertical_step(), 0);
    keys.key_s = true;
    assert_eq!(keys.forward_step(), 0);
}

#[test]
fn speed_modifiers() {
    let mut keys = HeldKeys {
        key_w: false,
        key_a: false,
        key_s: false,
        key_d: false,
        key_q: false,
        key_e: false,
        shift_left: false,
        shift_right: false,
        alt_left: false,
        alt_right: false,
    };
    assert_eq!(keys.speed_boost(), 1);
    assert_eq!(keys.speed_damp(), 1);
    keys.shift_right = true;
    assert_eq!(keys.speed_boost(), 4);
    keys.alt_left = true;
    assert_eq!(keys.speed_damp(), 4);
}

#[test]
fn translation_intent_combines_axes() {
    let mut s = ready_state();
    for key in [TrackedKey::KeyW, TrackedKey::KeyA, TrackedKey::KeyQ] {
        s.window_input(WindowInput::KeyInput { key, pressed: true, repeat: false });
    }
    // An orientation whose inverse sends forward to (0.6, 0.2, 0.8) and
    // right to (0.8, -0.1, -0.6); the vertical parts are dropped.
    let inv_forward = Vec3Fix { x: 600_000, y: 200_000, z: 800_000 };
    let inv_right = Vec3Fix { x: 800_000, y: -100_000, z: -600_000 };
    let t = s.keys.translation_intent(inv_forward, inv_right);
    assert_eq!(t.x, 600_000 + 800_000);
    assert_eq!(t.y, UNIT);
    assert_eq!(t.z, 800_000 - 600_000);
}

#[test]
fn zero_sized_resize_is_refused() {
    let mut size = SurfaceSize { width: 640, height: 480 };
    assert!(!size.apply_resize(0, 100));
    assert!(!size.apply_resize(100, 0));
    assert_eq!(size, SurfaceSize { width: 640, height: 480 });
    assert!(size.apply_resize(1024, 768));
    assert_eq!(size, SurfaceSize { width: 1024, height: 768 });
}

#[test]
fn whole_session_scenario() {
    // Resume, resize, a few inputs, two frames, reset, escape.
    let mut s = ViewState::default();
    s.on_resumed();
    assert_eq!(
        s.window_input(WindowInput::SurfaceResized { width: 320, height: 200 }),
        HostCommand::ConfigureSurface { width: 320, height: 200 }
    );
    s.window_input(WindowInput::ScrollPixels { dx: 0, dy: -50_000_000 });
    assert_eq!(s.window_input(WindowInput::RedrawRequested), HostCommand::RenderFrame);
    s.frame_step(true, 0, Vec3Fix { x: 0, y: 0, z: 0 });
    assert_eq!(s.smoothed.pitch, DEFAULT_PITCH - 500_000);
    s.window_input(WindowInput::ScrollPixels { dx: 0, dy: 50_000_000 + TURN * 100 });
    s.frame_step(false, UNIT, Vec3Fix { x: 0, y: 0, z: 0 });
    assert_eq!(s.smoothed, s.live);
    s.window_input(WindowInput::PointerPressed { button: PointerButton::BackButton });
    assert_eq!(s.live.pitch, DEFAULT_PITCH + TURN);
    assert_eq!(s.live.yaw, DEFAULT_YAW);
    assert_eq!(
        s.window_input(WindowInput::KeyInput {
            key: TrackedKey::EscapeKey,
            pressed: true,
            repeat: false,
        }),
        HostCommand::Exit
    );
    s.on_exiting();
    assert_eq!(s.stage, Stage::Uninitialized);
}
