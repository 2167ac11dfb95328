use vstd::prelude::*;

use crate::errors::ConfigError;

verus! {

/// A world-space vector in thousandths of a world unit, the resolution
/// the camera parameters are configured at.
#[derive(Clone, Copy, Debug, PartialEq, Eq, Structural)]
pub struct Vec3Milli {
    pub x: i64,
    pub y: i64,
    pub z: i64,
}

/// A 4x4 single-precision matrix carried as the IEEE-754 bit patterns of
/// its 16 words, in column-major order. The library never interprets the
/// bits; it only guarantees which matrix is staged, uploaded and drawn
/// with, so two matrices are the same exactly when their bits are.
#[derive(Clone, Copy, Debug)]
pub struct Mat4Bits {
    pub words: [u32; 16],
}

/// Everything the view-projection computation depends on. Replaced only
/// as a whole; never partially updated.
#[derive(Clone, Copy, Debug, PartialEq, Eq, Structural)]
pub struct CameraParams {
    /// Eye position, in thousandths of a world unit.
    pub eye: Vec3Milli,
    /// Look-at target, in thousandths of a world unit.
    pub target: Vec3Milli,
    /// Up direction, in thousandths of a world unit.
    pub up: Vec3Milli,
    /// Vertical field of view, in thousandths of a degree; must lie
    /// strictly between 0 and 180 degrees.
    pub fov_y_millideg: u32,
    /// Viewport width in pixels; with the height it fixes the aspect ratio.
    pub viewport_w: u32,
    /// Viewport height in pixels.
    pub viewport_h: u32,
    /// Near plane distance, in thousandths of a world unit; must satisfy
    /// `0 < near < far`.
    pub near_milli: u32,
    /// Far plane distance, in thousandths of a world unit.
    pub far_milli: u32,
}

impl CameraParams {
    /// The configuration rules: a non-degenerate viewport, a vertical
    /// field of view strictly between 0 and 180 degrees, and planes with
    /// `0 < near < far`.
    pub open spec fn valid(self) -> bool {
        &&& self.viewport_w > 0
        &&& self.viewport_h > 0
        &&& 0 < self.fov_y_millideg < 180_000
        &&& 0 < self.near_milli < self.far_milli
    }

    /// The first configuration rule `self` breaks, or `None` when it is
    /// valid: viewport first, then field of view, then planes.
    pub open spec fn first_violation(self) -> Option<ConfigError> {
        if self.viewport_w == 0 || self.viewport_h == 0 {
            Some(ConfigError::ZeroViewport)
        } else if !(0 < self.fov_y_millideg < 180_000) {
            Some(ConfigError::InvalidFovY)
        } else if !(0 < self.near_milli < self.far_milli) {
            Some(ConfigError::InvalidNearFar)
        } else {
            None
        }
    }
}

/// Checks the configuration rules on `params`, reporting the first one
/// broken. `Ok` exactly when `params.valid()`.
pub fn validate_params(params: &CameraParams) -> (r: Result<(), ConfigError>)
    ensures
        r is Ok <==> params.valid(),
        r is Err ==> Some(r->Err_0) == params.first_violation(),
{
    if params.viewport_w == 0 || params.viewport_h == 0 {
        Err(ConfigError::ZeroViewport)
    } else if params.fov_y_millideg == 0 || params.fov_y_millideg >= 180_000 {
        Err(ConfigError::InvalidFovY)
    } else if params.near_milli == 0 || params.near_milli >= params.far_milli {
        Err(ConfigError::InvalidNearFar)
    } else {
        Ok(())
    }
}

/// The camera: validated parameters and the view-projection matrix
/// computed from them, replaced together as a unit. A camera value never
/// exists without a matrix, so the matrix can never be read before it is
/// set.
#[derive(Clone, Copy, Debug)]
pub struct Camera {
    params: CameraParams,
    view_proj: Mat4Bits,
}

impl Camera {
    /// The parameters a camera holds are always valid: constructors and
    /// mutators reject invalid ones before anything is replaced.
    pub open spec fn wf(self) -> bool {
        self.spec_params().valid()
    }

    /// The parameters currently held, for contracts.
    pub closed spec fn spec_params(self) -> CameraParams {
        self.params
    }

    /// The matrix currently held, for contracts.
    pub closed spec fn spec_view_proj(self) -> Mat4Bits {
        self.view_proj
    }

    /// Builds a camera from parameters and the view-projection matrix
    /// computed from them. Rejects invalid parameters with the first
    /// rule broken; on success the camera holds exactly the pair given.
    pub fn new(params: CameraParams, view_proj: Mat4Bits) -> (r: Result<Camera, ConfigError>)
        ensures
            r is Ok <==> params.valid(),
            r is Ok ==> r->Ok_0.spec_params() == params && r->Ok_0.spec_view_proj() == view_proj
                && r->Ok_0.wf(),
            r is Err ==> Some(r->Err_0) == params.first_violation(),
    {
        match validate_params(&params) {
            Ok(()) => Ok(Camera { params, view_proj }),
            Err(e) => Err(e),
        }
    }

    /// Replaces all parameters and the matrix recomputed from them,
    /// atomically: on rejection the previous pair stays untouched, on
    /// success both are the new ones. This is the only mutator.
    pub fn set_parameters(&mut self, params: CameraParams, view_proj: Mat4Bits) -> (r: Result<
        (),
        ConfigError,
    >)
        ensures
            r is Ok <==> params.valid(),
            r is Ok ==> final(self).spec_params() == params && final(self).spec_view_proj() == view_proj,
            r is Err ==> *final(self) == *old(self) && Some(r->Err_0) == params.first_violation(),
            old(self).wf() ==> final(self).wf(),
    {
        match validate_params(&params) {
            Ok(()) => {
                self.params = params;
                self.view_proj = view_proj;
                Ok(())
            },
            Err(e) => Err(e),
        }
    }

    /// The parameters of the last successful replacement.
    pub fn params(&self) -> (p: CameraParams)
        ensures
            p == self.spec_params(),
    {
        self.params
    }

    /// The view-projection matrix of the last successful replacement.
    pub fn view_projection_matrix(&self) -> (m: Mat4Bits)
        ensures
            m == self.spec_view_proj(),
    {
        self.view_proj
    }
}

} // verus!
