//! Projection validation and the atomic camera mutators, together with the
//! matrix derivation the embedding layer performs over them.

use cgmath::SquareMatrix;
use sphere_viewer::camera::{Camera, Projection, Vec3};
use sphere_viewer::scalar::Scalar;
use sphere_viewer::GeometryError;

fn s(x: f32) -> Scalar {
    Scalar { bits: x.to_bits() }
}

fn v3(x: f32, y: f32, z: f32) -> Vec3 {
    Vec3 { x: s(x), y: s(y), z: s(z) }
}

fn f(x: Scalar) -> f32 {
    f32::from_bits(x.bits)
}

/// The fixed clip-space correction of the render backend: wgpu's depth
/// range is [0, 1] where OpenGL's is [-1, 1]. Column-major, so the last
/// column carries the depth remap.
const OPENGL_TO_WGPU_MATRIX: cgmath::Matrix4<f32> = cgmath::Matrix4::new(
    1.0, 0.0, 0.0, 0.0, // x column
    0.0, 1.0, 0.0, 0.0, // y column
    0.0, 0.0, 0.5, 0.0, // z column, depth scaled to half range
    0.0, 0.0, 0.5, 1.0, // w column, depth shifted into [0, 1]
);

/// Derives the composed view-projection matrix from the camera state, as
/// the embedding layer does each time a mutator succeeds.
fn view_projection_matrix(camera: &Camera) -> cgmath::Matrix4<f32> {
    let p = &camera.projection;
    let aspect = p.width as f32 / p.height as f32;
    let projection =
        cgmath::perspective(cgmath::Deg(f(p.fovy)), aspect, f(p.znear), f(p.zfar));
    let eye = cgmath::Point3::new(f(camera.eye.x), f(camera.eye.y), f(camera.eye.z));
    let target = cgmath::Point3::new(f(camera.target.x), f(camera.target.y), f(camera.target.z));
    let up = cgmath::Vector3::new(f(camera.up.x), f(camera.up.y), f(camera.up.z));
    let view = cgmath::Matrix4::look_at_rh(eye, target, up);
    OPENGL_TO_WGPU_MATRIX * projection * view
}

fn sample_projection() -> Projection {
    Projection::new(800, 600, s(45.0), s(0.1), s(1000.0)).expect("valid projection")
}

#[test]
fn projection_new_accepts_valid_parameters() {
    let p = sample_projection();
    assert_eq!(p.width, 800);
    assert_eq!(p.height, 600);
    assert_eq!(f(p.fovy), 45.0);
    assert_eq!(f(p.znear), 0.1);
    assert_eq!(f(p.zfar), 1000.0);
    let aspect = p.width as f32 / p.height as f32;
    assert!((aspect - 1.333).abs() < 1e-3);
}

#[test]
fn projection_new_rejects_bad_parameters() {
    let bad = [
        Projection::new(0, 600, s(45.0), s(0.1), s(1000.0)),
        Projection::new(800, 0, s(45.0), s(0.1), s(1000.0)),
        Projection::new(800, 600, s(45.0), s(1000.0), s(0.1)),
        Projection::new(800, 600, s(45.0), s(0.1), s(0.1)),
        Projection::new(800, 600, s(45.0), s(-0.1), s(1000.0)),
        Projection::new(800, 600, s(45.0), s(0.0), s(1000.0)),
        Projection::new(800, 600, s(45.0), s(f32::NAN), s(1000.0)),
        Projection::new(800, 600, s(45.0), s(0.1), s(f32::INFINITY)),
    ];
    for r in bad {
        assert_eq!(r, Err(GeometryError::InvalidParameter));
    }
}

#[test]
fn set_aspect_updates_ratio_and_matrix() {
    let mut p = sample_projection();
    let aspect_before = p.width as f32 / p.height as f32;
    let matrix_before =
        cgmath::perspective(cgmath::Deg(f(p.fovy)), aspect_before, f(p.znear), f(p.zfar));
    p.set_aspect(1600, 600).expect("valid viewport");
    assert_eq!((p.width, p.height), (1600, 600));
    let aspect_after = p.width as f32 / p.height as f32;
    assert!((aspect_before - 1.333).abs() < 1e-3);
    assert!((aspect_after - 2.667).abs() < 1e-3);
    let matrix_after =
        cgmath::perspective(cgmath::Deg(f(p.fovy)), aspect_after, f(p.znear), f(p.zfar));
    assert_ne!(matrix_before, matrix_after);
    // Depth range and field of view are untouched.
    assert_eq!(f(p.znear), 0.1);
    assert_eq!(f(p.zfar), 1000.0);
    assert_eq!(f(p.fovy), 45.0);
}

#[test]
fn set_aspect_rejects_zero_viewport() {
    let mut p = sample_projection();
    let before = p;
    assert_eq!(p.set_aspect(0, 600), Err(GeometryError::InvalidParameter));
    assert_eq!(p, before);
    assert_eq!(p.set_aspect(800, 0), Err(GeometryError::InvalidParameter));
    assert_eq!(p, before);
}

#[test]
fn camera_new_looks_up_along_y() {
    let p = sample_projection();
    let camera = Camera::new(v3(0.0, 0.0, 2.0), v3(0.0, 0.0, 0.0), &p);
    assert_eq!(camera.eye, v3(0.0, 0.0, 2.0));
    assert_eq!(camera.target, v3(0.0, 0.0, 0.0));
    assert_eq!(camera.up, v3(0.0, 1.0, 0.0));
    assert_eq!(camera.projection, p);
}

#[test]
fn mutators_change_exactly_one_input() {
    let p = sample_projection();
    let mut camera = Camera::new(v3(0.0, 0.0, 2.0), v3(0.0, 0.0, 0.0), &p);
    let before = camera;

    camera.set_eye(v3(1.0, 2.0, 3.0));
    assert_eq!(camera.eye, v3(1.0, 2.0, 3.0));
    assert_eq!(camera.target, before.target);
    assert_eq!(camera.up, before.up);
    assert_eq!(camera.projection, before.projection);

    camera.set_target(v3(0.5, 0.0, 0.0));
    assert_eq!(camera.target, v3(0.5, 0.0, 0.0));
    assert_eq!(camera.eye, v3(1.0, 2.0, 3.0));

    camera.set_up(v3(0.0, 0.0, 1.0));
    assert_eq!(camera.up, v3(0.0, 0.0, 1.0));

    camera.set_aspect(1024, 768).expect("valid viewport");
    assert_eq!((camera.projection.width, camera.projection.height), (1024, 768));
    assert_eq!(camera.eye, v3(1.0, 2.0, 3.0));
    assert_eq!(camera.target, v3(0.5, 0.0, 0.0));
    assert_eq!(camera.up, v3(0.0, 0.0, 1.0));

    let unchanged = camera;
    assert_eq!(
        camera.set_aspect(0, 768),
        Err(GeometryError::InvalidParameter)
    );
    assert_eq!(camera, unchanged);
}

#[test]
fn view_projection_matrix_tracks_every_mutator() {
    let p = sample_projection();
    let mut camera = Camera::new(v3(0.0, 0.0, 2.0), v3(0.0, 0.0, 0.0), &p);

    let m0 = view_projection_matrix(&camera);
    assert!(!m0.is_identity());
    // No mutation: the derivation is a pure function of the camera state.
    assert_eq!(m0, view_projection_matrix(&camera));

    camera.set_eye(v3(0.0, 1.0, 2.0));
    let m1 = view_projection_matrix(&camera);
    assert_ne!(m0, m1);

    camera.set_target(v3(0.25, 0.0, 0.0));
    let m2 = view_projection_matrix(&camera);
    assert_ne!(m1, m2);

    camera.set_up(v3(1.0, 0.0, 0.0));
    let m3 = view_projection_matrix(&camera);
    assert_ne!(m2, m3);

    camera.set_aspect(1600, 600).expect("valid viewport");
    let m4 = view_projection_matrix(&camera);
    assert_ne!(m3, m4);
}
