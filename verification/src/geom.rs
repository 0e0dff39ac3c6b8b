//! Trusted geometric primitives over f64 bit patterns.
//!
//! The direction angle of a line and the affine map from the stroke's local
//! frame into world coordinates are computed by nalgebra; each result is a
//! function of the argument bits alone, which the contracts refer to
//! through an uninterpreted name.

use core::primitive::f64 as Fbin;
use vstd::prelude::*;

verus! {

/// The Euclidean length of the vector `(dx, dy)`.
pub uninterp spec fn norm_of(dx: u64, dy: u64) -> u64;

/// The angle, in radians, of the rotation taking the positive x-axis to
/// the direction of the vector `(dx, dy)`.
pub uninterp spec fn angle_of(dx: u64, dy: u64) -> u64;

/// The world-space point that the local point `(x, y)` maps to under the
/// rotation taking the x-axis to `(dx, dy)` followed by the translation to
/// `(mx, my)`.
pub uninterp spec fn placed_of(dx: u64, dy: u64, mx: u64, my: u64, x: u64, y: u64) -> (u64, u64);

/// Relies on `nalgebra::Vector2::norm`: the Euclidean length of the
/// vector, a function of the component bits.
#[verifier::external_body]
pub(crate) fn vec_norm(dx: u64, dy: u64) -> (r: u64)
    ensures
        r == norm_of(dx, dy),
{
    nalgebra::Vector2::new(Fbin::from_bits(dx), Fbin::from_bits(dy)).norm().to_bits()
}

/// Relies on `nalgebra::Rotation2::rotation_between` (from the positive
/// x-axis to `(dx, dy)`) and `Rotation2::angle`: a function of the
/// component bits.
#[verifier::external_body]
pub(crate) fn line_angle(dx: u64, dy: u64) -> (r: u64)
    ensures
        r == angle_of(dx, dy),
{
    let v = nalgebra::Vector2::new(Fbin::from_bits(dx), Fbin::from_bits(dy));
    nalgebra::Rotation2::rotation_between(&nalgebra::Vector2::x(), &v).angle().to_bits()
}

/// Relies on `nalgebra::Rotation2::rotation_between`,
/// `Isometry2::from_parts` and the isometry's application to a `Point2`:
/// rotates the local point `(x, y)` into the direction of `(dx, dy)` and
/// translates it to the midpoint `(mx, my)`; a function of the argument
/// bits.
#[verifier::external_body]
pub(crate) fn place_point(dx: u64, dy: u64, mx: u64, my: u64, x: u64, y: u64) -> (r: (u64, u64))
    ensures
        r == placed_of(dx, dy, mx, my, x, y),
{
    let v = nalgebra::Vector2::new(Fbin::from_bits(dx), Fbin::from_bits(dy));
    let rot = nalgebra::Rotation2::rotation_between(&nalgebra::Vector2::x(), &v);
    let iso = nalgebra::Isometry2::from_parts(
        nalgebra::Translation2::new(Fbin::from_bits(mx), Fbin::from_bits(my)),
        rot.into(),
    );
    let p = iso * nalgebra::Point2::new(Fbin::from_bits(x), Fbin::from_bits(y));
    (p.x.to_bits(), p.y.to_bits())
}

} // verus!
