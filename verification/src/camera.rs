//! Camera and projection state.
//!
//! The camera owns the view inputs — eye, target and up vectors — and the
//! perspective parameters the scene is projected through. Every mutator is
//! an exact, atomic state update: the embedding layer derives the view,
//! projection and composed view-projection matrices from these inputs (and
//! applies its fixed clip-space correction), so a derived matrix is stale
//! exactly when the inputs it was computed from have changed, and the
//! contracts here pin down precisely when that happens.

use vstd::prelude::*;

verus! {

use crate::GeometryError;
use crate::scalar::ONE_BITS;
use crate::scalar::Scalar;
use crate::scalar::ZERO_BITS;
use crate::scalar::scalar_is_positive_finite;
use crate::scalar::scalar_lt;

/// Tag for the camera entity the scene is rendered through.
pub struct PrimaryCamera;

/// A 3-component vector of opaque scalars.
#[derive(Clone, Copy, Debug, PartialEq, Eq, Structural)]
pub struct Vec3 {
    pub x: Scalar,
    pub y: Scalar,
    pub z: Scalar,
}

/// The +Y unit vector, the camera's default up direction.
pub open spec fn unit_y() -> Vec3 {
    Vec3 {
        x: Scalar { bits: ZERO_BITS },
        y: Scalar { bits: ONE_BITS },
        z: Scalar { bits: ZERO_BITS },
    }
}

/// Perspective projection parameters: viewport dimensions (the aspect ratio
/// is their quotient), vertical field of view in degrees, and the near/far
/// depth range.
#[derive(Clone, Copy, Debug, PartialEq, Eq, Structural)]
pub struct Projection {
    pub width: u32,
    pub height: u32,
    pub fovy: Scalar,
    pub znear: Scalar,
    pub zfar: Scalar,
}

impl Projection {
    /// The projection invariant: a nonempty viewport and an ordered,
    /// positive finite depth range (`0 < near < far`).
    pub open spec fn wf(self) -> bool {
        &&& self.width > 0
        &&& self.height > 0
        &&& self.znear.is_positive_finite()
        &&& self.zfar.is_positive_finite()
        &&& self.znear.spec_lt(self.zfar)
    }

    /// Builds a projection, rejecting parameters that leave the aspect
    /// ratio or the depth range undefined: a zero-sized viewport, a depth
    /// bound that is not positive finite, or an inverted depth range.
    pub fn new(width: u32, height: u32, fovy: Scalar, znear: Scalar, zfar: Scalar) -> (r: Result<
        Projection,
        GeometryError,
    >)
        ensures
            r is Ok <==> width > 0 && height > 0 && znear.is_positive_finite()
                && zfar.is_positive_finite() && znear.spec_lt(zfar),
            r matches Ok(p) ==> p == (Projection { width, height, fovy, znear, zfar }),
            r matches Ok(p) ==> p.wf(),
    {
        if width == 0 || height == 0 {
            return Err(GeometryError::InvalidParameter);
        }
        if !scalar_is_positive_finite(znear) || !scalar_is_positive_finite(zfar) {
            return Err(GeometryError::InvalidParameter);
        }
        if !scalar_lt(znear, zfar) {
            return Err(GeometryError::InvalidParameter);
        }
        Ok(Projection { width, height, fovy, znear, zfar })
    }

    /// Replaces the viewport dimensions, rejecting a zero-sized viewport;
    /// all other parameters are kept. The matrix the embedding derives from
    /// this projection must be recomputed exactly when this succeeds.
    pub fn set_aspect(&mut self, width: u32, height: u32) -> (r: Result<(), GeometryError>)
        ensures
            r is Ok <==> width > 0 && height > 0,
            r is Ok ==> *final(self) == (Projection { width, height, ..*old(self) }),
            r is Err ==> *final(self) == *old(self),
            old(self).wf() ==> final(self).wf(),
    {
        if width == 0 || height == 0 {
            return Err(GeometryError::InvalidParameter);
        }
        self.width = width;
        self.height = height;
        Ok(())
    }
}

/// The view inputs — eye, target, up — together with the projection they
/// are composed with.
#[derive(Clone, Copy, Debug, PartialEq, Eq, Structural)]
pub struct Camera {
    pub eye: Vec3,
    pub target: Vec3,
    pub up: Vec3,
    pub projection: Projection,
}

impl Camera {
    /// Builds a camera looking from `eye` at `target`, with +Y up.
    pub fn new(eye: Vec3, target: Vec3, projection: &Projection) -> (c: Camera)
        ensures
            c.eye == eye,
            c.target == target,
            c.up == unit_y(),
            c.projection == *projection,
    {
        Camera {
            eye,
            target,
            up: Vec3 {
                x: Scalar { bits: ZERO_BITS },
                y: Scalar { bits: ONE_BITS },
                z: Scalar { bits: ZERO_BITS },
            },
            projection: *projection,
        }
    }

    /// Moves the eye; no other view input changes.
    pub fn set_eye(&mut self, eye: Vec3)
        ensures
            *final(self) == (Camera { eye, ..*old(self) }),
    {
        self.eye = eye;
    }

    /// Moves the target; no other view input changes.
    pub fn set_target(&mut self, target: Vec3)
        ensures
            *final(self) == (Camera { target, ..*old(self) }),
    {
        self.target = target;
    }

    /// Replaces the up direction; no other view input changes.
    pub fn set_up(&mut self, up: Vec3)
        ensures
            *final(self) == (Camera { up, ..*old(self) }),
    {
        self.up = up;
    }

    /// Replaces the viewport dimensions of the projection; the view inputs
    /// are untouched. Rejects a zero-sized viewport and then changes
    /// nothing.
    pub fn set_aspect(&mut self, width: u32, height: u32) -> (r: Result<(), GeometryError>)
        ensures
            r is Ok <==> width > 0 && height > 0,
            r is Ok ==> *final(self) == (Camera {
                projection: Projection { width, height, ..old(self).projection },
                ..*old(self)
            }),
            r is Err ==> *final(self) == *old(self),
    {
        self.projection.set_aspect(width, height)
    }
}

} // verus!
