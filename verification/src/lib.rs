//! Sector geometry for pie charts, over exact rational arithmetic.
//!
//! Each slice of a pie chart is rendered as a full circle masked by a closed
//! polygonal clip path that outlines the slice.  This crate computes those
//! clip paths: it normalizes angles, classifies the angular span of a slice
//! into one of four geometric cases, constructs tangent lines around the
//! circle, intersects them, and maps the resulting vertices to pixel
//! coordinates.  Rendering the paths into a vector-graphics document is left
//! to the caller.
//!
//! All computation is exact.  Angles are rational multiples of pi, stored as
//! [`frac::Frac`]; unit directions (the cosine/sine pair of an angle) enter
//! as rational coordinates, so the case analysis and the intersection algebra
//! carry no rounding error.  Directions for angles that are not multiples of
//! pi/2 are irrational; the caller evaluates the trigonometry and supplies a
//! rational approximation of the unit vector.

use vstd::prelude::*;

pub mod chart;
pub mod frac;
pub mod label;
pub mod line;
pub mod pie;
pub mod util;

verus! {

/// Failure of a slice-geometry computation.
#[derive(Debug, Clone, Copy, PartialEq, Eq, Structural)]
pub enum ClipError {
    /// Two tangent-construction lines that the sector algorithm expects to
    /// cross are parallel, so no unique crossing exists.
    ParallelVectorsDoNotCross,
    /// An intermediate rational exceeded the fixed-width integer range of
    /// [`frac::Frac`].
    NumericOverflow,
}

} // verus!
