use cubeview::camera::{Camera, Vec3Fix, DEFAULT_PITCH, DEFAULT_YAW, DEFAULT_ZOOM};
use cubeview::fixed::{TURN, UNIT};

fn home() -> Camera {
    Camera::default()
}

#[test]
fn default_camera_is_home() {
    let c = home();
    assert_eq!(c.origin, Vec3Fix { x: 0, y: 0, z: 0 });
    assert_eq!(c.yaw, DEFAULT_YAW);
    assert_eq!(c.pitch, DEFAULT_PITCH);
    assert_eq!(c.zoom, DEFAULT_ZOOM);
    assert_eq!(c.yaw, 1_000_000);
    assert_eq!(c.pitch, -500_000);
    assert_eq!(c.zoom, 2_000_000);
}

#[test]
fn orbit_adds_deltas() {
    let mut c = home();
    c.orbit(250_000, -125_000);
    assert_eq!(c.yaw, 1_250_000);
    assert_eq!(c.pitch, -625_000);
    assert_eq!(c.zoom, DEFAULT_ZOOM);
    assert_eq!(c.origin, Vec3Fix { x: 0, y: 0, z: 0 });
    c.orbit(-250_000, 125_000);
    assert_eq!(c, home());
}

#[test]
fn orbit_zero_is_identity() {
    let mut c = home();
    c.orbit(0, 0);
    assert_eq!(c, home());
}

#[test]
fn zoom_adds_delta_on_log_scale() {
    let mut c = home();
    // ln 2 in micro-units: doubling the distance adds this once.
    c.zoom(693_147);
    assert_eq!(c.zoom, 2_693_147);
    assert_eq!(c.yaw, DEFAULT_YAW);
    c.zoom(-693_147);
    assert_eq!(c, home());
}

#[test]
fn translate_adds_world_vector() {
    let mut c = home();
    c.translate(Vec3Fix { x: 10_000, y: -20_000, z: 30_000 });
    c.translate(Vec3Fix { x: 1, y: 2, z: 3 });
    assert_eq!(c.origin, Vec3Fix { x: 10_001, y: -19_998, z: 30_003 });
    assert_eq!(c.yaw, DEFAULT_YAW);
    assert_eq!(c.pitch, DEFAULT_PITCH);
    assert_eq!(c.zoom, DEFAULT_ZOOM);
}

#[test]
fn pan_follows_given_axes() {
    let mut c = home();
    // Identity orientation: right is +x, up is +y, both one unit long.
    let right = Vec3Fix { x: UNIT, y: 0, z: 0 };
    let up = Vec3Fix { x: 0, y: UNIT, z: 0 };
    c.pan(3_000_000, -1_500_000, right, up);
    assert_eq!(c.origin, Vec3Fix { x: 3_000_000, y: -1_500_000, z: 0 });
    assert_eq!(c.yaw, DEFAULT_YAW);
}

#[test]
fn pan_truncates_toward_zero() {
    let mut c = home();
    // An axis a hair short of one unit: one micro-unit of pan rounds to zero.
    let right = Vec3Fix { x: 999_999, y: 0, z: 0 };
    let up = Vec3Fix { x: 0, y: UNIT, z: 0 };
    c.pan(1, 0, right, up);
    assert_eq!(c.origin, Vec3Fix { x: 0, y: 0, z: 0 });
    c.pan(-1, 0, right, up);
    assert_eq!(c.origin, Vec3Fix { x: 0, y: 0, z: 0 });
    c.pan(2, 0, right, up);
    assert_eq!(c.origin, Vec3Fix { x: 1, y: 0, z: 0 });
}

#[test]
fn pan_mixes_both_axes() {
    let mut c = home();
    let right = Vec3Fix { x: 800_000, y: 0, z: -600_000 };
    let up = Vec3Fix { x: 0, y: UNIT, z: 0 };
    c.pan(1_000_000, 2_000_000, right, up);
    assert_eq!(c.origin, Vec3Fix { x: 800_000, y: 2_000_000, z: -600_000 });
}

#[test]
fn reset_restores_home_from_small_angles() {
    let mut c = home();
    c.orbit(300_000, 100_000);
    c.zoom(500_000);
    c.translate(Vec3Fix { x: 7, y: 8, z: 9 });
    c.reset();
    assert_eq!(c, home());
}

#[test]
fn reset_keeps_whole_turns() {
    // Orbits summing to whole turns: reset returns exactly to the home
    // orientation, the accumulated turns left in place.
    let mut c = home();
    c.orbit(2 * TURN, -3 * TURN);
    c.zoom(123);
    c.translate(Vec3Fix { x: 1, y: 1, z: 1 });
    c.reset();
    assert_eq!(c.yaw, DEFAULT_YAW + 2 * TURN);
    assert_eq!(c.pitch, DEFAULT_PITCH - 3 * TURN);
    assert_eq!(c.zoom, DEFAULT_ZOOM);
    assert_eq!(c.origin, Vec3Fix { x: 0, y: 0, z: 0 });
}

#[test]
fn reset_snaps_to_nearest_turn() {
    let mut c = home();
    // Just under one full turn of extra yaw: the nearest turn is one.
    c.orbit(TURN - 100, 0);
    c.reset();
    assert_eq!(c.yaw, DEFAULT_YAW + TURN);
    assert_eq!(c.pitch, DEFAULT_PITCH);

    let mut d = home();
    // Total yaw just under half a turn: the nearest turn is zero.
    d.orbit(TURN / 2 - DEFAULT_YAW - 1_000, 0);
    d.reset();
    assert_eq!(d.yaw, DEFAULT_YAW);

    let mut e = home();
    // One and three quarter turns backwards: the nearest turn is minus two.
    e.orbit(-TURN - (3 * TURN) / 4, 0);
    e.reset();
    assert_eq!(e.yaw, DEFAULT_YAW - 2 * TURN);
}

#[test]
fn lerp_with_zero_interpolant_changes_nothing() {
    let mut s = Camera {
        origin: Vec3Fix { x: 11, y: -22, z: 33 },
        yaw: 123_456,
        pitch: -654_321,
        zoom: 42,
    };
    let before = s;
    let t = Camera {
        origin: Vec3Fix { x: -5, y: 44, z: 1_000_000_000 },
        yaw: 9_999_999,
        pitch: 1,
        zoom: -7,
    };
    s.lerp_exp(&t, 0);
    assert_eq!(s, before);
}

#[test]
fn lerp_with_full_interpolant_reaches_target() {
    let mut s = home();
    let t = Camera {
        origin: Vec3Fix { x: -5, y: 44, z: 17 },
        yaw: 9_999_999,
        pitch: 1,
        zoom: -7,
    };
    s.lerp_exp(&t, UNIT);
    assert_eq!(s, t);
}

#[test]
fn lerp_halfway_is_exact() {
    let mut s = home();
    let t = Camera {
        origin: Vec3Fix { x: 2_000_000, y: 0, z: 0 },
        yaw: 3_000_000,
        pitch: -500_000,
        zoom: 4_000_000,
    };
    s.lerp_exp(&t, 500_000);
    assert_eq!(s.yaw, 2_000_000);
    assert_eq!(s.pitch, -500_000);
    assert_eq!(s.zoom, 3_000_000);
    assert_eq!(s.origin, Vec3Fix { x: 1_000_000, y: 0, z: 0 });
}

#[test]
fn lerp_truncates_toward_zero() {
    let mut s = home();
    let mut t = home();
    t.yaw = s.yaw - 3;
    s.lerp_exp(&t, 500_000);
    // Half of -3 truncates to -1, not -2.
    assert_eq!(s.yaw, DEFAULT_YAW - 1);
}

#[test]
fn lerp_distance_shrinks_monotonically() {
    let t = Camera {
        origin: Vec3Fix { x: 0, y: 0, z: 0 },
        yaw: 5_000_000,
        pitch: 0,
        zoom: 0,
    };
    let mut last = i64::MAX;
    for alpha in [0_i64, 100_000, 300_000, 600_000, 900_000, 1_000_000] {
        let mut s = home();
        s.lerp_exp(&t, alpha);
        let d = (t.yaw - s.yaw).abs();
        assert!(d <= (t.yaw - home().yaw).abs());
        if alpha > 0 {
            assert!(d < last, "larger interpolant must land strictly closer");
        }
        last = d;
    }
    assert_eq!(last, 0);
}

/// The interpolant the host derives from a frame interval `dt` (seconds),
/// with the reference stiffness of one quarter per frame at 60 frames a
/// second, in micro-units.
fn interpolant(dt: f64) -> i64 {
    let rate = -60.0_f64 * (1.0_f64 - 0.25).ln();
    let alpha = 1.0 - (-rate * dt).exp();
    (alpha * 1e6).round() as i64
}

#[test]
fn lerp_interpolant_ends() {
    assert_eq!(interpolant(0.0), 0);
    assert!(interpolant(1e9) == 1_000_000);
}

#[test]
fn lerp_is_frame_rate_independent() {
    // Two frames of 1/120 s against one frame of 1/60 s: the results
    // agree within the proven bound of dist / UNIT + 2 micro-units.
    let t = Camera {
        origin: Vec3Fix { x: 40_000_000, y: -10_000_000, z: 0 },
        yaw: 21_000_000,
        pitch: 500_000,
        zoom: -3_000_000,
    };
    let a_half = interpolant(1.0 / 120.0);
    let a_full = interpolant(1.0 / 60.0);

    let mut twice = home();
    twice.lerp_exp(&t, a_half);
    twice.lerp_exp(&t, a_half);

    let mut once = home();
    once.lerp_exp(&t, a_full);

    let fields = |c: &Camera| [c.yaw, c.pitch, c.zoom, c.origin.x, c.origin.y, c.origin.z];
    let start = fields(&home());
    let target = fields(&t);
    let a = fields(&twice);
    let b = fields(&once);
    for i in 0..6 {
        let bound = (target[i] - start[i]).abs() / 1_000_000 + 2;
        assert!(
            (a[i] - b[i]).abs() <= bound,
            "field {}: {} vs {} exceeds bound {}",
            i,
            a[i],
            b[i],
            bound
        );
    }
}
