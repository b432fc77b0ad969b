//! Random coordinate sampling strategies.
//!
//! The area-weighted polygon sampler owns a triangulation (supplied by the
//! caller together with each triangle's unsigned planar area) and a
//! [`WeightedTable`] over those areas. Drawing a triangle is verified here;
//! placing a point inside the drawn triangle is the caller's barycentric
//! arithmetic.

use vstd::prelude::*;
use crate::coord::{Coordinate, Rect, Triangle};
use crate::scalar::Binary64;
use crate::table::{total_weight, WeightedTable};
use crate::GeoError;

verus! {

/// Bit pattern of `-90.0`, the least latitude.
pub const MIN_LAT_BITS: u64 = 0xC056_8000_0000_0000;

/// Bit pattern of `90.0`, the greatest latitude.
pub const MAX_LAT_BITS: u64 = 0x4056_8000_0000_0000;

/// Bit pattern of `-180.0`, the least longitude.
pub const MIN_LNG_BITS: u64 = 0xC066_8000_0000_0000;

/// Bit pattern of `180.0`, the greatest longitude.
pub const MAX_LNG_BITS: u64 = 0x4066_8000_0000_0000;

/// The whole coordinate plane: longitude spanning [-180, 180] and latitude
/// [-90, 90].
pub fn world_bounds() -> (r: Rect)
    ensures
        r.min == (Coordinate {
            x: Binary64 { bits: MIN_LNG_BITS },
            y: Binary64 { bits: MIN_LAT_BITS },
        }),
        r.max == (Coordinate {
            x: Binary64 { bits: MAX_LNG_BITS },
            y: Binary64 { bits: MAX_LAT_BITS },
        }),
{
    Rect {
        min: Coordinate { x: Binary64 { bits: MIN_LNG_BITS }, y: Binary64 { bits: MIN_LAT_BITS } },
        max: Coordinate { x: Binary64 { bits: MAX_LNG_BITS }, y: Binary64 { bits: MAX_LAT_BITS } },
    }
}

/// The fallback strategy when no polygon is supplied: the caller draws
/// longitude and latitude independently and uniformly over
/// [`world_bounds`]. Uniform in coordinate space, not in area: density
/// grows toward the poles, a documented property of this mode.
#[derive(Clone, Copy, PartialEq, Eq, Structural, Debug)]
pub struct UniformSampler;

/// Samples coordinates within a polygon, with density approximately uniform
/// over its area: a triangle is drawn with probability proportional to its
/// area, then a point is placed inside the drawn triangle.
pub struct PolygonalSampler {
    triangulation: Vec<Triangle>,
    table: WeightedTable,
}

impl PolygonalSampler {
    /// The triangles this sampler draws from.
    pub closed spec fn spec_triangles(self) -> Seq<Triangle> {
        self.triangulation@
    }

    /// The sampling mass of triangle `i`: its supplied area.
    pub closed spec fn spec_area(self, i: int) -> int {
        self.table.spec_weight(i)
    }

    #[verifier::type_invariant]
    spec fn wf(self) -> bool {
        self.table.spec_len() == self.triangulation@.len()
    }

    /// Builds a sampler from a triangulation, each triangle paired with its
    /// unsigned planar area. Fails exactly when the total area is zero,
    /// since such a triangulation carries no mass to sample from.
    pub fn new(triangulation: Vec<(Triangle, u64)>) -> (r: Result<PolygonalSampler, GeoError>)
        ensures
            r matches Err(e) ==> e == GeoError::DegenerateWeights && total_weight(
                triangulation@.map_values(|p: (Triangle, u64)| p.1),
            ) == 0,
            r matches Ok(s) ==> {
                &&& total_weight(triangulation@.map_values(|p: (Triangle, u64)| p.1)) > 0
                &&& s.spec_triangles() == triangulation@.map_values(|p: (Triangle, u64)| p.0)
                &&& forall|i: int| 0 <= i < triangulation@.len() ==> s.spec_area(i)
                    == triangulation@[i].1
            },
    {
        let mut tris: Vec<Triangle> = Vec::new();
        let mut areas: Vec<u64> = Vec::new();
        let mut k: usize = 0;
        while k < triangulation.len()
            invariant
                k <= triangulation@.len(),
                tris@.len() == k,
                areas@.len() == k,
                forall|i: int| 0 <= i < k ==> #[trigger] tris@[i] == triangulation@[i].0,
                forall|i: int| 0 <= i < k ==> #[trigger] areas@[i] == triangulation@[i].1,
            decreases triangulation@.len() - k,
        {
            let (t, a) = triangulation[k];
            tris.push(t);
            areas.push(a);
            k = k + 1;
        }
        proof {
            assert(areas@ =~= triangulation@.map_values(|p: (Triangle, u64)| p.1));
            assert(tris@ =~= triangulation@.map_values(|p: (Triangle, u64)| p.0));
        }
        match WeightedTable::build(&areas) {
            Err(e) => Err(e),
            Ok(table) => Ok(PolygonalSampler { triangulation: tris, table }),
        }
    }

    pub fn num_triangles(&self) -> (n: usize)
        ensures
            n == self.spec_triangles().len(),
    {
        self.triangulation.len()
    }

    pub fn triangle(&self, i: usize) -> (t: Triangle)
        requires
            i < self.spec_triangles().len(),
        ensures
            t == self.spec_triangles()[i as int],
    {
        self.triangulation[i]
    }

    /// Draws a triangle index with probability proportional to its area; a
    /// zero-area triangle owns no mass and is never selected.
    pub fn sample_index(&self, rng: &mut rand::rngs::StdRng) -> (i: usize)
        ensures
            i < self.spec_triangles().len(),
            self.spec_area(i as int) > 0,
    {
        proof {
            use_type_invariant(self);
        }
        self.table.sample(rng)
    }

    /// The drawn triangle itself: always one of the triangulation, always
    /// of positive area.
    pub fn sample_triangle(&self, rng: &mut rand::rngs::StdRng) -> (t: Triangle)
        ensures
            exists|i: int|
                0 <= i < self.spec_triangles().len() && t == self.spec_triangles()[i]
                    && self.spec_area(i) > 0,
    {
        proof {
            use_type_invariant(self);
        }
        let i = self.sample_index(rng);
        self.triangle(i)
    }
}

} // verus!
