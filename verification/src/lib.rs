//! Verified core of an interactive sphere viewer.
//!
//! The library covers the two parts of the viewer whose behaviour is worth
//! pinning down precisely: procedural UV-sphere tessellation (vertex grid
//! layout, trigonometric-table reuse, triangle index generation with pole
//! elision) and the camera/projection state that the scene is drawn through
//! (parameter validation, atomic mutators, and the input-to-motion policy of
//! the camera controller).
//!
//! Floating-point values are carried as opaque IEEE-754 bit patterns (see
//! [`scalar`]); the embedding layer evaluates trigonometry and matrix algebra
//! and hands the samples in, while every structural decision — which sample
//! lands in which vertex, which triangles are emitted, when motion is applied
//! — is made and proved here.

use vstd::prelude::*;

pub mod camera;
pub mod controller;
pub mod mesh;
pub mod scalar;

verus! {

/// The single failure mode of the core: a caller-supplied parameter that
/// would produce degenerate geometry or an undefined transform.
///
/// All failures are deterministic functions of the inputs; no partial result
/// is ever returned alongside an error.
#[derive(Clone, Copy, Debug, PartialEq, Eq, Structural)]
pub enum GeometryError {
    InvalidParameter,
}

} // verus!
