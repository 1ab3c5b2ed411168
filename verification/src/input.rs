//! The input mapper and per-frame update rules: every decision the
//! viewer takes between a raw host event and a camera mutation.
//!
//! The host (window system, GPU, clock) converts event payloads to plain
//! micro-unit integers at its boundary and performs what the commands
//! returned here ask for; everything in between -- which event drives
//! which camera motion, the sensitivity scales, the drag and key state,
//! the two-stage lifecycle, and the order of the per-frame update -- is
//! verified here.

use crate::camera::{Camera, Vec3Fix};
use crate::fixed::{div_trunc, div_trunc_i64, TURN, UNIT};
use vstd::prelude::*;

verus! {

/// Pointer buttons the viewer distinguishes; every other button is
/// `OtherButton` (it still starts a drag, which then pans or orbits
/// nothing).
#[derive(Clone, Copy, Debug, PartialEq, Eq, Structural)]
pub enum PointerButton {
    LeftButton,
    RightButton,
    BackButton,
    OtherButton,
}

/// Keys the viewer reads. Any further key is `OtherKey`: pressing or
/// releasing it never changes what the viewer does.
#[derive(Clone, Copy, Debug, PartialEq, Eq, Structural)]
pub enum TrackedKey {
    KeyW,
    KeyA,
    KeyS,
    KeyD,
    KeyQ,
    KeyE,
    ShiftLeft,
    ShiftRight,
    AltLeft,
    AltRight,
    EscapeKey,
    OtherKey,
}

/// Whether a pointer drag is in progress, and with which button.
#[derive(Clone, Copy, Debug, PartialEq, Eq, Structural)]
pub enum DragState {
    NotDragging,
    Dragging(PointerButton),
}

/// The two-stage lifecycle of the viewer: the window and renderer exist
/// only after the platform delivers its resume signal.
#[derive(Clone, Copy, Debug, PartialEq, Eq, Structural)]
pub enum Stage {
    Uninitialized,
    Ready,
}

/// Which of the tracked movement and modifier keys are held.
#[derive(Clone, Copy, Debug, PartialEq, Eq, Structural)]
pub struct HeldKeys {
    pub key_w: bool,
    pub key_a: bool,
    pub key_s: bool,
    pub key_d: bool,
    pub key_q: bool,
    pub key_e: bool,
    pub shift_left: bool,
    pub shift_right: bool,
    pub alt_left: bool,
    pub alt_right: bool,
}

/// The step a pair of opposing keys asks for: 1, -1, or 0.
pub open spec fn step_val(pos: bool, neg: bool) -> int {
    (if pos {
        1int
    } else {
        0
    }) - (if neg {
        1int
    } else {
        0
    })
}

impl HeldKeys {
    /// No key held.
    pub open spec fn released_spec() -> HeldKeys {
        HeldKeys {
            key_w: false,
            key_a: false,
            key_s: false,
            key_d: false,
            key_q: false,
            key_e: false,
            shift_left: false,
            shift_right: false,
            alt_left: false,
            alt_right: false,
        }
    }

    /// The key state after pressing or releasing one key: only the
    /// matching field changes; `EscapeKey` and `OtherKey` change nothing.
    pub open spec fn set_spec(self, key: TrackedKey, pressed: bool) -> HeldKeys {
        HeldKeys {
            key_w: if key is KeyW {
                pressed
            } else {
                self.key_w
            },
            key_a: if key is KeyA {
                pressed
            } else {
                self.key_a
            },
            key_s: if key is KeyS {
                pressed
            } else {
                self.key_s
            },
            key_d: if key is KeyD {
                pressed
            } else {
                self.key_d
            },
            key_q: if key is KeyQ {
                pressed
            } else {
                self.key_q
            },
            key_e: if key is KeyE {
                pressed
            } else {
                self.key_e
            },
            shift_left: if key is ShiftLeft {
                pressed
            } else {
                self.shift_left
            },
            shift_right: if key is ShiftRight {
                pressed
            } else {
                self.shift_right
            },
            alt_left: if key is AltLeft {
                pressed
            } else {
                self.alt_left
            },
            alt_right: if key is AltRight {
                pressed
            } else {
                self.alt_right
            },
        }
    }

    /// Records one key press or release.
    pub fn set_key(&mut self, key: TrackedKey, pressed: bool)
        ensures
            *final(self) == old(self).set_spec(key, pressed),
    {
        match key {
            TrackedKey::KeyW => self.key_w = pressed,
            TrackedKey::KeyA => self.key_a = pressed,
            TrackedKey::KeyS => self.key_s = pressed,
            TrackedKey::KeyD => self.key_d = pressed,
            TrackedKey::KeyQ => self.key_q = pressed,
            TrackedKey::KeyE => self.key_e = pressed,
            TrackedKey::ShiftLeft => self.shift_left = pressed,
            TrackedKey::ShiftRight => self.shift_right = pressed,
            TrackedKey::AltLeft => self.alt_left = pressed,
            TrackedKey::AltRight => self.alt_right = pressed,
            TrackedKey::EscapeKey => (),
            TrackedKey::OtherKey => (),
        }
    }

    /// The forward step asked for by W against S.
    pub fn forward_step(&self) -> (r: i32)
        ensures
            r as int == step_val(self.key_w, self.key_s),
    {
        (if self.key_w {
            1
        } else {
            0
        }) - (if self.key_s {
            1
        } else {
            0
        })
    }

    /// The sideways step asked for by A against D.
    pub fn side_step(&self) -> (r: i32)
        ensures
            r as int == step_val(self.key_a, self.key_d),
    {
        (if self.key_a {
            1
        } else {
            0
        }) - (if self.key_d {
            1
        } else {
            0
        })
    }

    /// The vertical step asked for by Q against E.
    pub fn vertical_step(&self) -> (r: i32)
        ensures
            r as int == step_val(self.key_q, self.key_e),
    {
        (if self.key_q {
            1
        } else {
            0
        }) - (if self.key_e {
            1
        } else {
            0
        })
    }

    /// The speed multiplier: 4 while either shift key is held, else 1.
    pub fn speed_boost(&self) -> (m: u32)
        ensures
            m == if self.shift_left || self.shift_right {
                4u32
            } else {
                1u32
            },
    {
        if self.shift_left || self.shift_right {
            4
        } else {
            1
        }
    }

    /// The speed divisor: 4 while either alt key is held, else 1.
    pub fn speed_damp(&self) -> (d: u32)
        ensures
            d == if self.alt_left || self.alt_right {
                4u32
            } else {
                1u32
            },
    {
        if self.alt_left || self.alt_right {
            4
        } else {
            1
        }
    }

    /// The fly-through direction asked for by the held keys, before the
    /// host normalizes and scales it: the forward and sideways steps move
    /// along the camera's unrotated forward and right axes (their
    /// vertical components dropped, so horizontal flight stays
    /// horizontal), and the vertical step moves along the world up axis.
    /// `inv_forward` and `inv_right` are the inverse camera orientation
    /// applied to the world forward and right unit vectors, in
    /// micro-units.
    pub fn translation_intent(&self, inv_forward: Vec3Fix, inv_right: Vec3Fix) -> (t: Vec3Fix)
        requires
            -2 * UNIT <= inv_forward.x <= 2 * UNIT,
            -2 * UNIT <= inv_forward.z <= 2 * UNIT,
            -2 * UNIT <= inv_right.x <= 2 * UNIT,
            -2 * UNIT <= inv_right.z <= 2 * UNIT,
        ensures
            t.x == step_val(self.key_w, self.key_s) * inv_forward.x + step_val(
                self.key_a,
                self.key_d,
            ) * inv_right.x,
            t.y == step_val(self.key_q, self.key_e) * UNIT,
            t.z == step_val(self.key_w, self.key_s) * inv_forward.z + step_val(
                self.key_a,
                self.key_d,
            ) * inv_right.z,
    {
        let forward: i32 = self.forward_step();
        let side: i32 = self.side_step();
        let vertical: i32 = self.vertical_step();
        Vec3Fix {
            x: scale_step(forward, inv_forward.x) + scale_step(side, inv_right.x),
            y: scale_step(vertical, UNIT),
            z: scale_step(forward, inv_forward.z) + scale_step(side, inv_right.z),
        }
    }
}

/// A window event, with payloads already converted by the host to plain
/// values: lengths in micro-pixels, wheel lines in micro-lines, pinch
/// deltas in micro-units of log-distance.
#[derive(Clone, Copy, Debug, PartialEq, Eq, Structural)]
pub enum WindowInput {
    SurfaceResized { width: u32, height: u32 },
    RedrawRequested,
    CloseRequested,
    PointerPressed { button: PointerButton },
    PointerReleased { button: PointerButton },
    FocusLost,
    ScrollPixels { dx: i64, dy: i64 },
    ScrollLines { amount: i64 },
    Pinch { delta: i64 },
    KeyInput { key: TrackedKey, pressed: bool, repeat: bool },
}

/// What the host must do after an event was handled.
#[derive(Clone, Copy, Debug, PartialEq, Eq, Structural)]
pub enum HostCommand {
    DoNothing,
    ConfigureSurface { width: u32, height: u32 },
    RenderFrame,
    Exit,
}

/// What the host must do after a pointer-motion event.
#[derive(Clone, Copy, Debug, PartialEq, Eq, Structural)]
pub enum MotionCommand {
    NoMotion,
    PanBy { rightwards: i64, upwards: i64 },
}

/// The viewer's whole input-facing state: the lifecycle stage, the live
/// camera that input drives, the smoothed camera that is rendered, the
/// drag state, and the held keys.
#[derive(Clone, Copy, Debug, PartialEq, Eq, Structural)]
pub struct ViewState {
    pub stage: Stage,
    pub live: Camera,
    pub smoothed: Camera,
    pub dragging: DragState,
    pub keys: HeldKeys,
}

impl ViewState {
    /// The state before the platform resumes the viewer: home cameras,
    /// no drag, no key held, window and renderer not yet created.
    pub open spec fn initial_spec() -> ViewState {
        ViewState {
            stage: Stage::Uninitialized,
            live: Camera::home_spec(),
            smoothed: Camera::home_spec(),
            dragging: DragState::NotDragging,
            keys: HeldKeys::released_spec(),
        }
    }

    /// The machine-limit conditions under which an event can be applied:
    /// the camera field the event moves must not leave the 64-bit
    /// micro-unit range (the host clamps its deltas to guarantee this).
    pub open spec fn input_ok(self, input: WindowInput) -> bool {
        match input {
            WindowInput::PointerPressed { button } => button is BackButton ==> {
                &&& i64::MIN + 2 * TURN < self.live.yaw < i64::MAX - 2 * TURN
                &&& i64::MIN + 2 * TURN < self.live.pitch < i64::MAX - 2 * TURN
            },
            WindowInput::ScrollPixels { dx, dy } => {
                &&& i64::MIN <= self.live.yaw + div_trunc(dx as int, 100) <= i64::MAX
                &&& i64::MIN <= self.live.pitch + div_trunc(dy as int, 100) <= i64::MAX
            },
            WindowInput::ScrollLines { amount } => i64::MIN <= self.live.zoom + div_trunc(
                -(amount as int),
                5,
            ) <= i64::MAX,
            WindowInput::Pinch { delta } => i64::MIN <= self.live.zoom + delta <= i64::MAX,
            _ => true,
        }
    }

    /// The state after a window event: the Back button resets the live
    /// camera; any other press starts a drag and any release or focus
    /// loss ends it; pixel scrolling orbits at one hundredth of a radian
    /// per pixel; line scrolling zooms out a fifth of a unit per line;
    /// pinching zooms by its own delta; a non-repeated key stroke updates
    /// the held keys. Everything else leaves the state alone.
    pub open spec fn window_next(s: ViewState, input: WindowInput) -> ViewState {
        match input {
            WindowInput::PointerPressed { button } => if button is BackButton {
                ViewState { live: Camera::reset_spec(s.live), ..s }
            } else {
                ViewState { dragging: DragState::Dragging(button), ..s }
            },
            WindowInput::PointerReleased { .. } => ViewState {
                dragging: DragState::NotDragging,
                ..s
            },
            WindowInput::FocusLost => ViewState { dragging: DragState::NotDragging, ..s },
            WindowInput::ScrollPixels { dx, dy } => ViewState {
                live: Camera::orbit_spec(
                    s.live,
                    div_trunc(dx as int, 100),
                    div_trunc(dy as int, 100),
                ),
                ..s
            },
            WindowInput::ScrollLines { amount } => ViewState {
                live: Camera::zoom_spec(s.live, div_trunc(-(amount as int), 5)),
                ..s
            },
            WindowInput::Pinch { delta } => ViewState {
                live: Camera::zoom_spec(s.live, delta as int),
                ..s
            },
            WindowInput::KeyInput { key, pressed, repeat } => if repeat {
                s
            } else {
                ViewState { keys: s.keys.set_spec(key, pressed), ..s }
            },
            _ => s,
        }
    }

    /// The command a window event asks of the host: reconfigure the
    /// surface on a resize, render on a redraw request, exit on a close
    /// request or a non-repeated escape stroke.
    pub open spec fn window_command(input: WindowInput) -> HostCommand {
        match input {
            WindowInput::SurfaceResized { width, height } => HostCommand::ConfigureSurface {
                width,
                height,
            },
            WindowInput::RedrawRequested => HostCommand::RenderFrame,
            WindowInput::CloseRequested => HostCommand::Exit,
            WindowInput::KeyInput { key, pressed, repeat } => if key is EscapeKey && !repeat {
                HostCommand::Exit
            } else {
                HostCommand::DoNothing
            },
            _ => HostCommand::DoNothing,
        }
    }

    /// Handles one window event: applies [`ViewState::window_next`] to
    /// the state and returns [`ViewState::window_command`]. Resizes and
    /// redraws may only arrive once the viewer is ready (the host owns a
    /// window and renderer).
    pub fn window_input(&mut self, input: WindowInput) -> (cmd: HostCommand)
        requires
            old(self).input_ok(input),
            input is SurfaceResized || input is RedrawRequested ==> (old(self).stage is Ready),
        ensures
            *final(self) == ViewState::window_next(*old(self), input),
            cmd == ViewState::window_command(input),
    {
        match input {
            WindowInput::SurfaceResized { width, height } => HostCommand::ConfigureSurface {
                width,
                height,
            },
            WindowInput::RedrawRequested => HostCommand::RenderFrame,
            WindowInput::CloseRequested => HostCommand::Exit,
            WindowInput::PointerPressed { button } => {
                match button {
                    PointerButton::BackButton => self.live.reset(),
                    _ => self.dragging = DragState::Dragging(button),
                }
                HostCommand::DoNothing
            },
            WindowInput::PointerReleased { .. } => {
                self.dragging = DragState::NotDragging;
                HostCommand::DoNothing
            },
            WindowInput::FocusLost => {
                self.dragging = DragState::NotDragging;
                HostCommand::DoNothing
            },
            WindowInput::ScrollPixels { dx, dy } => {
                let delta_yaw: i64 = div_trunc_i64(dx, 100);
                let delta_pitch: i64 = div_trunc_i64(dy, 100);
                self.live.orbit(delta_yaw, delta_pitch);
                HostCommand::DoNothing
            },
            WindowInput::ScrollLines { amount } => {
                let delta: i64 = -div_trunc_i64(amount, 5);
                self.live.zoom(delta);
                HostCommand::DoNothing
            },
            WindowInput::Pinch { delta } => {
                self.live.zoom(delta);
                HostCommand::DoNothing
            },
            WindowInput::KeyInput { key, pressed, repeat } => {
                if repeat {
                    HostCommand::DoNothing
                } else {
                    match key {
                        TrackedKey::EscapeKey => HostCommand::Exit,
                        _ => {
                            self.keys.set_key(key, pressed);
                            HostCommand::DoNothing
                        },
                    }
                }
            },
        }
    }

    /// The machine-limit condition for a pointer-motion event while
    /// orbit-dragging.
    pub open spec fn motion_ok(self, dx: int, dy: int) -> bool {
        self.dragging == DragState::Dragging(PointerButton::LeftButton) ==> {
            &&& i64::MIN <= self.live.yaw + div_trunc(dx, 100) <= i64::MAX
            &&& i64::MIN <= self.live.pitch + div_trunc(dy, 100) <= i64::MAX
        }
    }

    /// Handles pointer motion (deltas in micro-pixels): a left drag
    /// orbits at one hundredth of a radian per pixel; a right drag asks
    /// the host for a screen-relative pan of the same scale (the host
    /// computes the rotated camera axes and calls [`Camera::pan`]); any
    /// other state moves nothing.
    pub fn motion_input(&mut self, dx: i64, dy: i64) -> (cmd: MotionCommand)
        requires
            old(self).motion_ok(dx as int, dy as int),
        ensures
            old(self).dragging == DragState::Dragging(PointerButton::LeftButton) ==> {
                &&& *final(self) == (ViewState {
                    live: Camera::orbit_spec(
                        old(self).live,
                        div_trunc(dx as int, 100),
                        div_trunc(dy as int, 100),
                    ),
                    ..*old(self)
                })
                &&& (cmd is NoMotion)
            },
            old(self).dragging == DragState::Dragging(PointerButton::RightButton) ==> {
                &&& *final(self) == *old(self)
                &&& cmd == (MotionCommand::PanBy {
                    rightwards: div_trunc(dx as int, 100) as i64,
                    upwards: div_trunc(-(dy as int), 100) as i64,
                })
            },
            old(self).dragging != DragState::Dragging(PointerButton::LeftButton) && old(
                self,
            ).dragging != DragState::Dragging(PointerButton::RightButton) ==> {
                &&& *final(self) == *old(self)
                &&& (cmd is NoMotion)
            },
    {
        match self.dragging {
            DragState::Dragging(PointerButton::LeftButton) => {
                let delta_yaw: i64 = div_trunc_i64(dx, 100);
                let delta_pitch: i64 = div_trunc_i64(dy, 100);
                self.live.orbit(delta_yaw, delta_pitch);
                MotionCommand::NoMotion
            },
            DragState::Dragging(PointerButton::RightButton) => {
                let rightwards: i64 = div_trunc_i64(dx, 100);
                let upwards: i64 = -div_trunc_i64(dy, 100);
                MotionCommand::PanBy { rightwards, upwards }
            },
            _ => MotionCommand::NoMotion,
        }
    }

    /// One frame's camera work, in the order the smoothing model
    /// requires: all pending input is already in the live camera, then
    /// the fly-through translation moves it, then the smoothed camera
    /// advances toward it; only then may the host read the smoothed
    /// camera's state to build its view matrix. On the very first frame
    /// there is no elapsed time yet: the smoothed camera snaps to the
    /// live one and nothing moves.
    pub fn frame_step(&mut self, first: bool, alpha: i64, translation: Vec3Fix)
        requires
            0 <= alpha <= UNIT,
            !first ==> {
                &&& i64::MIN <= old(self).live.origin.x + translation.x <= i64::MAX
                &&& i64::MIN <= old(self).live.origin.y + translation.y <= i64::MAX
                &&& i64::MIN <= old(self).live.origin.z + translation.z <= i64::MAX
            },
        ensures
            first ==> *final(self) == (ViewState { smoothed: old(self).live, ..*old(self) }),
            !first ==> *final(self) == (ViewState {
                live: Camera::translate_spec(old(self).live, translation),
                smoothed: Camera::lerp_spec(
                    old(self).smoothed,
                    Camera::translate_spec(old(self).live, translation),
                    alpha as int,
                ),
                ..*old(self)
            }),
    {
        if first {
            self.smoothed = self.live;
        } else {
            self.live.translate(translation);
            self.smoothed.lerp_exp(&self.live, alpha);
        }
    }

    /// Marks the viewer ready: the platform has resumed it and the host
    /// has created the window and renderer.
    pub fn on_resumed(&mut self)
        ensures
            *final(self) == (ViewState { stage: Stage::Ready, ..*old(self) }),
    {
        self.stage = Stage::Ready;
    }

    /// Marks the viewer uninitialized again: the platform is exiting and
    /// the host has dropped the window and renderer.
    pub fn on_exiting(&mut self)
        ensures
            *final(self) == (ViewState { stage: Stage::Uninitialized, ..*old(self) }),
    {
        self.stage = Stage::Uninitialized;
    }
}

impl Default for ViewState {
    /// The state before the platform resumes the viewer.
    fn default() -> (s: ViewState)
        ensures
            s == ViewState::initial_spec(),
    {
        ViewState {
            stage: Stage::Uninitialized,
            live: Camera::default(),
            smoothed: Camera::default(),
            dragging: DragState::NotDragging,
            keys: HeldKeys {
                key_w: false,
                key_a: false,
                key_s: false,
                key_d: false,
                key_q: false,
                key_e: false,
                shift_left: false,
                shift_right: false,
                alt_left: false,
                alt_right: false,
            },
        }
    }
}

/// The renderer's surface size. Reconfiguring to a zero width or height
/// is refused: such a resize must leave the surface untouched.
#[derive(Clone, Copy, Debug, PartialEq, Eq, Structural)]
pub struct SurfaceSize {
    pub width: u32,
    pub height: u32,
}

impl SurfaceSize {
    /// Applies a resize, refusing zero dimensions.
    pub fn apply_resize(&mut self, width: u32, height: u32) -> (changed: bool)
        ensures
            changed <==> width > 0 && height > 0,
            changed ==> *final(self) == (SurfaceSize { width, height }),
            !changed ==> *final(self) == *old(self),
    {
        if width == 0 || height == 0 {
            false
        } else {
            self.width = width;
            self.height = height;
            true
        }
    }
}

/// A component scaled by a step of -1, 0, or 1.
fn scale_step(step: i32, c: i64) -> (r: i64)
    requires
        -1 <= step <= 1,
        -2 * UNIT <= c <= 2 * UNIT,
    ensures
        r as int == step * c,
        -2 * UNIT <= r <= 2 * UNIT,
{
    if step == 1 {
        c
    } else if step == -1 {
        proof {
            vstd::arithmetic::mul::lemma_mul_unary_negation(1, c as int);
        }
        -c
    } else {
        proof {
            vstd::arithmetic::mul::lemma_mul_by_zero_is_zero(c as int);
        }
        0
    }
}

} // verus!
