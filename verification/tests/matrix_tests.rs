//! Scenario tests for the rendering host's view-matrix convention:
//! the matrix is built from the verified camera state exactly as the
//! host builds it, `translate(origin) * rotate(yaw * pitch) *
//! translate(0, 0, exp(zoom))`, and checked against the distances the
//! log-zoom model promises.

use cubeview::camera::Camera;
use glam::{Mat4, Quat, Vec3};

fn to_seconds(micro: i64) -> f32 {
    micro as f32 / 1e6
}

fn view_matrix(c: &Camera) -> Mat4 {
    let yaw = to_seconds(c.yaw);
    let pitch = to_seconds(c.pitch);
    let rotation = Quat::from_rotation_y(yaw) * Quat::from_rotation_x(pitch);
    let origin = Vec3::new(
        to_seconds(c.origin.x),
        to_seconds(c.origin.y),
        to_seconds(c.origin.z),
    );
    let zoom = to_seconds(c.zoom).exp();
    Mat4::from_translation(origin)
        * Mat4::from_quat(rotation)
        * Mat4::from_translation(Vec3::new(0.0, 0.0, zoom))
}

#[test]
fn default_camera_sits_at_log_distance_two() {
    // With the home pan offset of zero, the matrix places the camera at
    // distance exp(2) from the pivot, along its rotated forward axis.
    let c = Camera::default();
    let m = view_matrix(&c);
    let translation = m.w_axis.truncate();
    let expected = (2.0_f32).exp();
    assert!(
        (translation.length() - expected).abs() < 1e-3,
        "distance {} differs from {}",
        translation.length(),
        expected
    );
    assert!((expected - 7.389_056).abs() < 1e-3);
}

#[test]
fn zero_orbit_leaves_the_matrix_unchanged() {
    let c = Camera::default();
    let mut d = Camera::default();
    d.orbit(0, 0);
    assert_eq!(c, d);
    assert_eq!(view_matrix(&c), view_matrix(&d));
}

#[test]
fn zooming_by_ln_two_doubles_the_distance() {
    let c = Camera::default();
    let before = view_matrix(&c).w_axis.truncate().length();
    let mut d = c;
    // ln 2 in micro-units.
    d.zoom(693_147);
    let after = view_matrix(&d).w_axis.truncate().length();
    assert!(
        (after / before - 2.0).abs() < 1e-4,
        "ratio {} is not a doubling",
        after / before
    );
}

#[test]
fn pan_offset_shifts_the_matrix_translation() {
    let c = Camera::default();
    let mut d = c;
    d.translate(cubeview::camera::Vec3Fix { x: 1_000_000, y: 2_000_000, z: -500_000 });
    let shift = view_matrix(&d).w_axis.truncate() - view_matrix(&c).w_axis.truncate();
    assert!((shift - Vec3::new(1.0, 2.0, -0.5)).length() < 1e-4);
}
