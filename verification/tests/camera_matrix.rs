use cgmath::{Deg, Matrix4, Point3, SquareMatrix, Vector3};
use goban_render::camera::{CameraParams, Mat4Bits, Vec3Milli};

fn milli_to_f32(v: i64) -> f32 {
    v as f32 / 1000.0
}

/// The view-projection computation the embedding program runs on
/// validated camera parameters: a look-at view composed with a
/// perspective projection.
fn view_projection(params: &CameraParams) -> Matrix4<f32> {
    let eye = Point3::new(
        milli_to_f32(params.eye.x),
        milli_to_f32(params.eye.y),
        milli_to_f32(params.eye.z),
    );
    let target = Point3::new(
        milli_to_f32(params.target.x),
        milli_to_f32(params.target.y),
        milli_to_f32(params.target.z),
    );
    let up = Vector3::new(
        milli_to_f32(params.up.x),
        milli_to_f32(params.up.y),
        milli_to_f32(params.up.z),
    );
    let view = Matrix4::look_at_rh(eye, target, up);
    let proj = cgmath::perspective(
        Deg(params.fov_y_millideg as f32 / 1000.0),
        params.viewport_w as f32 / params.viewport_h as f32,
        params.near_milli as f32 / 1000.0,
        params.far_milli as f32 / 1000.0,
    );
    proj * view
}

fn matrix_bits(m: &Matrix4<f32>) -> Mat4Bits {
    let cols: [[f32; 4]; 4] = (*m).into();
    let mut words = [0u32; 16];
    for (i, col) in cols.iter().enumerate() {
        for (j, v) in col.iter().enumerate() {
            words[i * 4 + j] = v.to_bits();
        }
    }
    Mat4Bits { words }
}

#[test]
fn view_projection_matrix_is_invertible() {
    let params = CameraParams {
        eye: Vec3Milli { x: 8400, y: 25000, z: -8400 },
        target: Vec3Milli { x: 0, y: 0, z: 0 },
        up: Vec3Milli { x: 0, y: 1000, z: 0 },
        fov_y_millideg: 90_000,
        viewport_w: 600,
        viewport_h: 600,
        near_milli: 100,
        far_milli: 100_000,
    };
    let m = view_projection(&params);
    assert!(m.determinant() != 0.0);
    assert!(m.invert().is_some());
}

#[test]
fn matrix_bits_carry_the_matrix_exactly() {
    let params = CameraParams {
        eye: Vec3Milli { x: 0, y: 10_000, z: 10_000 },
        target: Vec3Milli { x: 0, y: 0, z: 0 },
        up: Vec3Milli { x: 0, y: 1000, z: 0 },
        fov_y_millideg: 45_000,
        viewport_w: 800,
        viewport_h: 600,
        near_milli: 1000,
        far_milli: 50_000,
    };
    let m = view_projection(&params);
    let bits = matrix_bits(&m);
    // Reconstructing from the bit patterns gives the identical matrix.
    let mut cols = [[0.0f32; 4]; 4];
    for i in 0..4 {
        for j in 0..4 {
            cols[i][j] = f32::from_bits(bits.words[i * 4 + j]);
        }
    }
    let back: Matrix4<f32> = cols.into();
    assert_eq!(m, back);
}
