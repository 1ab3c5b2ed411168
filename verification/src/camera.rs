//! The orbit camera: state, input mutators, exponential smoothing, and
//! the reset-to-home rule.
//!
//! All scalars are fixed-point micro-units (see [`crate::fixed`]): angles
//! in micro-radians, the pan offset in micro-world-units, and the zoom as
//! a micro-scaled log-distance (the actual distance from the pivot is
//! `exp(zoom / UNIT)`, which the rendering host evaluates).
//!
//! Convention: the camera's orientation is the yaw rotation about the
//! world up axis composed after the pitch rotation about the camera's
//! local right axis (`yaw * pitch`), and its view transform is
//! `translate(origin) * rotate(orientation) * translate(0, 0, exp(zoom))`.
//! The host builds that matrix; everything the matrix depends on is the
//! state verified here.

use crate::fixed::{
    dist, div_trunc, lemma_lerp_compose, lemma_lerp_monotonic, lerp_fix, lerp_step, round_div,
    round_div_i64, div_trunc_wide, TURN, UNIT,
};
use vstd::prelude::*;

verus! {

/// Home-view yaw angle in micro-radians.
pub const DEFAULT_YAW: i64 = 1_000_000;

/// Home-view pitch angle in micro-radians.
pub const DEFAULT_PITCH: i64 = -500_000;

/// Home-view log-distance in micro-units (distance `exp(2)` from the pivot).
pub const DEFAULT_ZOOM: i64 = 2_000_000;

/// A three-component vector in micro-units.
#[derive(Clone, Copy, Debug, PartialEq, Eq, Structural)]
pub struct Vec3Fix {
    pub x: i64,
    pub y: i64,
    pub z: i64,
}

impl Vec3Fix {
    /// The zero vector.
    pub open spec fn zero_spec() -> Vec3Fix {
        Vec3Fix { x: 0, y: 0, z: 0 }
    }

    /// Builds the zero vector.
    pub fn zero() -> (v: Vec3Fix)
        ensures
            v == Vec3Fix::zero_spec(),
    {
        Vec3Fix { x: 0, y: 0, z: 0 }
    }
}

/// The camera state: pan offset of the orbit pivot, orbit angles, and
/// log-distance from the pivot. A value type; the viewer keeps two
/// instances, the live input target and the smoothed one it renders.
#[derive(Clone, Copy, Debug, PartialEq, Eq, Structural)]
pub struct Camera {
    pub origin: Vec3Fix,
    pub yaw: i64,
    pub pitch: i64,
    pub zoom: i64,
}

/// One component of the screen-relative pan offset: the rightward and
/// upward amounts weighted by the corresponding component of the camera's
/// rotated right and up axes, scaled back down from the micro-unit
/// product.
pub open spec fn pan_component(rightwards: int, upwards: int, right_c: int, up_c: int) -> int {
    div_trunc(rightwards * right_c + upwards * up_c, UNIT as int)
}

impl Camera {
    /// The camera after [`Camera::orbit`]: the angle deltas added in.
    pub open spec fn orbit_spec(c: Camera, delta_yaw: int, delta_pitch: int) -> Camera {
        Camera {
            origin: c.origin,
            yaw: (c.yaw + delta_yaw) as i64,
            pitch: (c.pitch + delta_pitch) as i64,
            zoom: c.zoom,
        }
    }

    /// The camera after [`Camera::zoom`]: the log-distance delta added in.
    pub open spec fn zoom_spec(c: Camera, delta: int) -> Camera {
        Camera { origin: c.origin, yaw: c.yaw, pitch: c.pitch, zoom: (c.zoom + delta) as i64 }
    }

    /// The camera after [`Camera::translate`]: the offset added to the origin.
    pub open spec fn translate_spec(c: Camera, delta: Vec3Fix) -> Camera {
        Camera {
            origin: Vec3Fix {
                x: (c.origin.x + delta.x) as i64,
                y: (c.origin.y + delta.y) as i64,
                z: (c.origin.z + delta.z) as i64,
            },
            yaw: c.yaw,
            pitch: c.pitch,
            zoom: c.zoom,
        }
    }

    /// The home view.
    pub open spec fn home_spec() -> Camera {
        Camera {
            origin: Vec3Fix::zero_spec(),
            yaw: DEFAULT_YAW,
            pitch: DEFAULT_PITCH,
            zoom: DEFAULT_ZOOM,
        }
    }

    /// The camera after a reset: each orbit angle snaps to its nearest
    /// whole number of turns plus the home angle (so a reset never spins
    /// back through accumulated turns), and the pan offset and zoom
    /// return to the home values.
    pub open spec fn reset_spec(c: Camera) -> Camera {
        Camera {
            origin: Vec3Fix::zero_spec(),
            yaw: (TURN * round_div(c.yaw as int, TURN as int) + DEFAULT_YAW) as i64,
            pitch: (TURN * round_div(c.pitch as int, TURN as int) + DEFAULT_PITCH) as i64,
            zoom: DEFAULT_ZOOM,
        }
    }

    /// The camera after one smoothing step: every scalar field moves
    /// toward the target's by the fraction `alpha / UNIT` of the
    /// remaining difference.
    pub open spec fn lerp_spec(c: Camera, target: Camera, alpha: int) -> Camera {
        Camera {
            origin: Vec3Fix {
                x: lerp_fix(c.origin.x as int, target.origin.x as int, alpha) as i64,
                y: lerp_fix(c.origin.y as int, target.origin.y as int, alpha) as i64,
                z: lerp_fix(c.origin.z as int, target.origin.z as int, alpha) as i64,
            },
            yaw: lerp_fix(c.yaw as int, target.yaw as int, alpha) as i64,
            pitch: lerp_fix(c.pitch as int, target.pitch as int, alpha) as i64,
            zoom: lerp_fix(c.zoom as int, target.zoom as int, alpha) as i64,
        }
    }

    /// Adds the given deltas to the orbit angles. No clamping: a full
    /// vertical flip is allowed by design.
    pub fn orbit(&mut self, delta_yaw: i64, delta_pitch: i64)
        requires
            i64::MIN <= old(self).yaw + delta_yaw <= i64::MAX,
            i64::MIN <= old(self).pitch + delta_pitch <= i64::MAX,
        ensures
            final(self).yaw == old(self).yaw + delta_yaw,
            final(self).pitch == old(self).pitch + delta_pitch,
            final(self).zoom == old(self).zoom,
            final(self).origin == old(self).origin,
    {
        self.yaw = self.yaw + delta_yaw;
        self.pitch = self.pitch + delta_pitch;
    }

    /// Adds the given delta to the log-distance. A positive delta moves
    /// the camera away from the pivot.
    pub fn zoom(&mut self, delta: i64)
        requires
            i64::MIN <= old(self).zoom + delta <= i64::MAX,
        ensures
            final(self).zoom == old(self).zoom + delta,
            final(self).yaw == old(self).yaw,
            final(self).pitch == old(self).pitch,
            final(self).origin == old(self).origin,
    {
        self.zoom = self.zoom + delta;
    }

    /// Adds a world-space vector directly to the pan offset (fly-through
    /// style movement).
    pub fn translate(&mut self, delta: Vec3Fix)
        requires
            i64::MIN <= old(self).origin.x + delta.x <= i64::MAX,
            i64::MIN <= old(self).origin.y + delta.y <= i64::MAX,
            i64::MIN <= old(self).origin.z + delta.z <= i64::MAX,
        ensures
            final(self).origin.x == old(self).origin.x + delta.x,
            final(self).origin.y == old(self).origin.y + delta.y,
            final(self).origin.z == old(self).origin.z + delta.z,
            final(self).yaw == old(self).yaw,
            final(self).pitch == old(self).pitch,
            final(self).zoom == old(self).zoom,
    {
        self.origin.x = self.origin.x + delta.x;
        self.origin.y = self.origin.y + delta.y;
        self.origin.z = self.origin.z + delta.z;
    }

    /// Offsets the pan origin by the input vector rotated into camera
    /// space, so pan motion follows the current on-screen right and up
    /// directions. The host supplies `right_axis` and `up_axis`: the
    /// camera orientation applied to the world right and up unit vectors,
    /// in micro-units (so each component is at most one unit; the bound
    /// below allows twice that).
    pub fn pan(&mut self, rightwards: i64, upwards: i64, right_axis: Vec3Fix, up_axis: Vec3Fix)
        requires
            -2 * UNIT <= right_axis.x <= 2 * UNIT,
            -2 * UNIT <= right_axis.y <= 2 * UNIT,
            -2 * UNIT <= right_axis.z <= 2 * UNIT,
            -2 * UNIT <= up_axis.x <= 2 * UNIT,
            -2 * UNIT <= up_axis.y <= 2 * UNIT,
            -2 * UNIT <= up_axis.z <= 2 * UNIT,
            i64::MIN <= old(self).origin.x + pan_component(
                rightwards as int,
                upwards as int,
                right_axis.x as int,
                up_axis.x as int,
            ) <= i64::MAX,
            i64::MIN <= old(self).origin.y + pan_component(
                rightwards as int,
                upwards as int,
                right_axis.y as int,
                up_axis.y as int,
            ) <= i64::MAX,
            i64::MIN <= old(self).origin.z + pan_component(
                rightwards as int,
                upwards as int,
                right_axis.z as int,
                up_axis.z as int,
            ) <= i64::MAX,
        ensures
            final(self).origin.x == old(self).origin.x + pan_component(
                rightwards as int,
                upwards as int,
                right_axis.x as int,
                up_axis.x as int,
            ),
            final(self).origin.y == old(self).origin.y + pan_component(
                rightwards as int,
                upwards as int,
                right_axis.y as int,
                up_axis.y as int,
            ),
            final(self).origin.z == old(self).origin.z + pan_component(
                rightwards as int,
                upwards as int,
                right_axis.z as int,
                up_axis.z as int,
            ),
            final(self).yaw == old(self).yaw,
            final(self).pitch == old(self).pitch,
            final(self).zoom == old(self).zoom,
    {
        self.origin.x = pan_shift(self.origin.x, rightwards, upwards, right_axis.x, up_axis.x);
        self.origin.y = pan_shift(self.origin.y, rightwards, upwards, right_axis.y, up_axis.y);
        self.origin.z = pan_shift(self.origin.z, rightwards, upwards, right_axis.z, up_axis.z);
    }

    /// Returns the orbit angles to the nearest whole turn plus the home
    /// angles and restores the pan offset and zoom to the home values.
    pub fn reset(&mut self)
        requires
            i64::MIN + 2 * TURN < old(self).yaw < i64::MAX - 2 * TURN,
            i64::MIN + 2 * TURN < old(self).pitch < i64::MAX - 2 * TURN,
        ensures
            *final(self) == Camera::reset_spec(*old(self)),
    {
        let turns_yaw: i64 = round_div_i64(self.yaw, TURN);
        let turns_pitch: i64 = round_div_i64(self.pitch, TURN);
        proof {
            crate::fixed::lemma_round_div_near(old(self).yaw as int, TURN as int);
            crate::fixed::lemma_round_div_near(old(self).pitch as int, TURN as int);
        }
        self.origin = Vec3Fix::zero();
        self.yaw = ((TURN as i128) * (turns_yaw as i128) + (DEFAULT_YAW as i128)) as i64;
        self.pitch = ((TURN as i128) * (turns_pitch as i128) + (DEFAULT_PITCH as i128)) as i64;
        self.zoom = DEFAULT_ZOOM;
    }

    /// Advances this camera toward `other` by the interpolant `alpha`
    /// (in micro-units of one): every scalar field moves by the fraction
    /// `alpha / UNIT` of the remaining difference. The host derives
    /// `alpha = (1 - exp(-rate * dt)) * UNIT` from the frame interval, so
    /// repeated calls are frame-rate independent; `alpha == 0` (a zero
    /// interval) changes nothing and `alpha == UNIT` lands on `other`.
    pub fn lerp_exp(&mut self, other: &Camera, alpha: i64)
        requires
            0 <= alpha <= UNIT,
        ensures
            *final(self) == Camera::lerp_spec(*old(self), *other, alpha as int),
            alpha == 0 ==> *final(self) == *old(self),
            alpha == UNIT ==> *final(self) == *other,
    {
        self.yaw = lerp_step(self.yaw, other.yaw, alpha);
        self.pitch = lerp_step(self.pitch, other.pitch, alpha);
        self.zoom = lerp_step(self.zoom, other.zoom, alpha);
        self.origin.x = lerp_step(self.origin.x, other.origin.x, alpha);
        self.origin.y = lerp_step(self.origin.y, other.origin.y, alpha);
        self.origin.z = lerp_step(self.origin.z, other.origin.z, alpha);
    }
}

/// One component of a pan: `base + (rightwards * right_c + upwards * up_c)
/// / UNIT`, truncated toward zero.
fn pan_shift(base: i64, rightwards: i64, upwards: i64, right_c: i64, up_c: i64) -> (r: i64)
    requires
        -2 * UNIT <= right_c <= 2 * UNIT,
        -2 * UNIT <= up_c <= 2 * UNIT,
        i64::MIN <= base + pan_component(
            rightwards as int,
            upwards as int,
            right_c as int,
            up_c as int,
        ) <= i64::MAX,
    ensures
        r as int == base + pan_component(
            rightwards as int,
            upwards as int,
            right_c as int,
            up_c as int,
        ),
{
    proof {
        assert({
            let p1 = (rightwards as int) * (right_c as int);
            let p2 = (upwards as int) * (up_c as int);
            -0x800_0000_0000_0000_0000_0000 <= p1 <= 0x800_0000_0000_0000_0000_0000
                && -0x800_0000_0000_0000_0000_0000 <= p2 <= 0x800_0000_0000_0000_0000_0000
        }) by (nonlinear_arith)
            requires
                -2_000_000 <= right_c as int <= 2_000_000,
                -2_000_000 <= up_c as int <= 2_000_000,
                -0x8000_0000_0000_0000 <= rightwards as int <= 0x8000_0000_0000_0000,
                -0x8000_0000_0000_0000 <= upwards as int <= 0x8000_0000_0000_0000,
        ;
    }
    let total: i128 = (rightwards as i128) * (right_c as i128) + (upwards as i128) * (up_c
        as i128);
    let shift: i128 = div_trunc_wide(total, UNIT);
    ((base as i128) + shift) as i64
}

impl Default for Camera {
    /// The home view: pan offset zero, yaw one radian, pitch half a
    /// radian downward, log-distance two.
    fn default() -> (c: Camera)
        ensures
            c == Camera::home_spec(),
    {
        Camera {
            origin: Vec3Fix::zero(),
            yaw: DEFAULT_YAW,
            pitch: DEFAULT_PITCH,
            zoom: DEFAULT_ZOOM,
        }
    }
}

/// The scalar fields of a camera, indexed so that laws about smoothing
/// can speak about every field at once: yaw, pitch, zoom, then the three
/// pan offset components.
pub open spec fn cam_field(c: Camera, i: int) -> int {
    if i == 0 {
        c.yaw as int
    } else if i == 1 {
        c.pitch as int
    } else if i == 2 {
        c.zoom as int
    } else if i == 3 {
        c.origin.x as int
    } else if i == 4 {
        c.origin.y as int
    } else {
        c.origin.z as int
    }
}

/// Law: smoothing never overshoots and is monotone in the interpolant.
/// On every scalar field, one smoothing step lands between the start and
/// the target; a larger interpolant lands at least as close to the
/// target, and strictly closer whenever the interpolant difference moves
/// the truncated step by at least one micro-unit.
pub proof fn lemma_lerp_exp_monotonic(c: Camera, target: Camera, a1: int, a2: int)
    requires
        0 <= a1 <= a2 <= UNIT,
    ensures
        forall|i: int|
            0 <= i < 6 ==> dist(#[trigger] cam_field(Camera::lerp_spec(c, target, a1), i), cam_field(target, i))
                <= dist(cam_field(c, i), cam_field(target, i)),
        forall|i: int|
            0 <= i < 6 ==> dist(#[trigger] cam_field(Camera::lerp_spec(c, target, a2), i), cam_field(target, i))
                <= dist(cam_field(Camera::lerp_spec(c, target, a1), i), cam_field(target, i)),
        forall|i: int|
            0 <= i < 6 && (a2 - a1) * dist(cam_field(c, i), cam_field(target, i)) >= UNIT
                ==> dist(#[trigger] cam_field(Camera::lerp_spec(c, target, a2), i), cam_field(target, i))
                < dist(cam_field(Camera::lerp_spec(c, target, a1), i), cam_field(target, i)),
{
    assert forall|i: int| 0 <= i < 6 implies {
        &&& dist(#[trigger] cam_field(Camera::lerp_spec(c, target, a1), i), cam_field(target, i))
            <= dist(cam_field(c, i), cam_field(target, i))
        &&& dist(cam_field(Camera::lerp_spec(c, target, a2), i), cam_field(target, i))
            <= dist(cam_field(Camera::lerp_spec(c, target, a1), i), cam_field(target, i))
        &&& (a2 - a1) * dist(cam_field(c, i), cam_field(target, i)) >= UNIT
            ==> dist(cam_field(Camera::lerp_spec(c, target, a2), i), cam_field(target, i))
            < dist(cam_field(Camera::lerp_spec(c, target, a1), i), cam_field(target, i))
    } by {
        let a: int = cam_field(c, i);
        let b: int = cam_field(target, i);
        lemma_lerp_monotonic(a, b, a1, a2);
        lemma_lerp_monotonic(a, b, a2, a2);
        assert(cam_field(Camera::lerp_spec(c, target, a1), i) == lerp_fix(a, b, a1));
        assert(cam_field(Camera::lerp_spec(c, target, a2), i) == lerp_fix(a, b, a2));
    }
}

/// Law: smoothing is frame-rate independent up to truncation. On every
/// scalar field, two successive smoothing steps with interpolants `a1`
/// and `a2` land within `dist / UNIT + 2` micro-units (`dist` the
/// field's initial distance to the target) of a single step whose
/// interpolant combines them as continuous exponential decay does
/// (`1 - (1-a1)(1-a2)` in units of one, scaled to micro-units, one
/// micro-unit of rounding allowed).
#[verifier::rlimit(60)]
pub proof fn lemma_lerp_exp_compose(c: Camera, target: Camera, a1: int, a2: int, ac: int)
    requires
        0 <= a1 <= UNIT,
        0 <= a2 <= UNIT,
        0 <= ac <= UNIT,
        dist(ac * (UNIT as int), a1 * (UNIT as int) + a2 * (UNIT as int) - a1 * a2) <= UNIT,
    ensures
        forall|i: int|
            0 <= i < 6 ==> dist(
                #[trigger] cam_field(
                    Camera::lerp_spec(Camera::lerp_spec(c, target, a1), target, a2),
                    i,
                ),
                cam_field(Camera::lerp_spec(c, target, ac), i),
            ) <= dist(cam_field(c, i), cam_field(target, i)) / (UNIT as int) + 2,
{
    assert forall|i: int| 0 <= i < 6 implies dist(
        #[trigger] cam_field(Camera::lerp_spec(Camera::lerp_spec(c, target, a1), target, a2), i),
        cam_field(Camera::lerp_spec(c, target, ac), i),
    ) <= dist(cam_field(c, i), cam_field(target, i)) / (UNIT as int) + 2 by {
        let a: int = cam_field(c, i);
        let b: int = cam_field(target, i);
        lemma_lerp_monotonic(a, b, a1, a1);
        lemma_lerp_monotonic(a, b, ac, ac);
        lemma_lerp_monotonic(lerp_fix(a, b, a1), b, a2, a2);
        lemma_lerp_compose(a, b, a1, a2, ac);
        assert(cam_field(Camera::lerp_spec(c, target, a1), i) == lerp_fix(a, b, a1));
        assert(cam_field(Camera::lerp_spec(c, target, ac), i) == lerp_fix(a, b, ac));
        assert(cam_field(Camera::lerp_spec(Camera::lerp_spec(c, target, a1), target, a2), i)
            == lerp_fix(lerp_fix(a, b, a1), b, a2));
    }
}

/// Law: resetting after any sequence of orbits whose yaw and pitch deltas
/// sum to whole turns leaves both angles exactly where they are (the home
/// orientation plus those whole turns) and returns the pan offset and
/// zoom to the home values.
pub proof fn lemma_reset_after_whole_turns(c: Camera, turns_yaw: int, turns_pitch: int)
    requires
        c.yaw == DEFAULT_YAW + turns_yaw * TURN,
        c.pitch == DEFAULT_PITCH + turns_pitch * TURN,
    ensures
        Camera::reset_spec(c).yaw == c.yaw,
        Camera::reset_spec(c).pitch == c.pitch,
        Camera::reset_spec(c).origin == Vec3Fix::zero_spec(),
        Camera::reset_spec(c).zoom == DEFAULT_ZOOM,
{
    crate::fixed::lemma_round_div_multiple(turns_yaw, DEFAULT_YAW as int, TURN as int);
    crate::fixed::lemma_round_div_multiple(turns_pitch, DEFAULT_PITCH as int, TURN as int);
}

} // verus!

