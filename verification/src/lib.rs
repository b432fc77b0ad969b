//! Geospatial numerical core: geodesic grid partitioning of a polygon's
//! bounding box, and area-weighted random point sampling, specified over
//! IEEE-754 binary64 values carried as bit patterns.
//!
//! The crate performs no floating-point arithmetic itself. Values of
//! [`scalar::Binary64`] are ordered and classified exactly at the bit level;
//! every arithmetic result (an interpolated coordinate, an intersection
//! ratio, a triangle area) is handed in by the caller, and the crate's
//! contracts pin down exactly what is done with it.

use vstd::prelude::*;

pub mod coord;
pub mod format;
pub mod partition;
pub mod rng;
pub mod samplers;
pub mod scalar;
pub mod table;

verus! {

/// The ways a request to this library can fail.
#[derive(Clone, Copy, PartialEq, Eq, Structural, Debug)]
pub enum GeoError {
    /// A numeric parameter lies outside its meaningful range
    /// (an edge proportion that is not positive).
    InvalidParameter,
    /// The input geometry cannot be interpreted in the required shape
    /// (an empty exterior ring has no bounding box).
    GeometryConversionFailure,
    /// Every supplied weight is zero, so no discrete distribution exists.
    DegenerateWeights,
}

} // verus!
