//! Plain geographic data: coordinates, rings, triangles, axis-aligned
//! rectangles, and the exact bounding-box fold over a ring.

use vstd::prelude::*;
use crate::scalar::Binary64;

verus! {

/// A geographic coordinate: `x` is the longitude and `y` the latitude, in
/// degrees, each carried as a binary64 bit pattern.
#[derive(Clone, Copy, PartialEq, Eq, Structural, Debug)]
pub struct Coordinate {
    pub x: Binary64,
    pub y: Binary64,
}

impl Coordinate {
    /// Both components are finite: the only intrinsic invariant a
    /// coordinate is expected to satisfy.
    pub open spec fn spec_is_finite(self) -> bool {
        self.x.spec_is_finite() && self.y.spec_is_finite()
    }

    pub fn is_finite(&self) -> (r: bool)
        ensures
            r == self.spec_is_finite(),
    {
        self.x.is_finite() && self.y.is_finite()
    }
}

/// Three coordinates produced by triangulating a polygon.
#[derive(Clone, Copy, PartialEq, Eq, Structural, Debug)]
pub struct Triangle {
    pub a: Coordinate,
    pub b: Coordinate,
    pub c: Coordinate,
}

/// A polygon as parsed by the caller: a closed exterior ring and any number
/// of interior rings (holes). The library reads only the coordinates; ring
/// validity is the parser's business.
#[derive(Clone, Debug)]
pub struct Polygon {
    pub exterior: Vec<Coordinate>,
    pub interiors: Vec<Vec<Coordinate>>,
}

/// An axis-aligned rectangle between two corners, `min` componentwise below
/// `max` in the total order.
#[derive(Clone, Copy, PartialEq, Eq, Structural, Debug)]
pub struct Rect {
    pub min: Coordinate,
    pub max: Coordinate,
}

/// The rectangle spanned by two arbitrary corners: componentwise least and
/// greatest, in the total order.
pub open spec fn spec_rect_between(p: Coordinate, q: Coordinate) -> Rect {
    Rect {
        min: Coordinate {
            x: if p.x.spec_le(q.x) { p.x } else { q.x },
            y: if p.y.spec_le(q.y) { p.y } else { q.y },
        },
        max: Coordinate {
            x: if q.x.spec_le(p.x) { p.x } else { q.x },
            y: if q.y.spec_le(p.y) { p.y } else { q.y },
        },
    }
}

impl Rect {
    pub open spec fn spec_wf(self) -> bool {
        self.min.x.spec_le(self.max.x) && self.min.y.spec_le(self.max.y)
    }

    /// Normalizes two arbitrary opposite corners into a rectangle.
    pub fn between(p: Coordinate, q: Coordinate) -> (r: Rect)
        ensures
            r == spec_rect_between(p, q),
            r.spec_wf(),
    {
        let min_x = if p.x.le(q.x) { p.x } else { q.x };
        let min_y = if p.y.le(q.y) { p.y } else { q.y };
        let max_x = if q.x.le(p.x) { p.x } else { q.x };
        let max_y = if q.y.le(p.y) { p.y } else { q.y };
        Rect { min: Coordinate { x: min_x, y: min_y }, max: Coordinate { x: max_x, y: max_y } }
    }

    /// The coordinate lies inside the rectangle, componentwise in the total
    /// order.
    pub open spec fn spec_contains(self, c: Coordinate) -> bool {
        self.min.x.spec_le(c.x) && c.x.spec_le(self.max.x) && self.min.y.spec_le(c.y)
            && c.y.spec_le(self.max.y)
    }

    pub fn contains(&self, c: Coordinate) -> (r: bool)
        ensures
            r == self.spec_contains(c),
    {
        self.min.x.le(c.x) && c.x.le(self.max.x) && self.min.y.le(c.y) && c.y.le(self.max.y)
    }

    /// The closed exterior ring of the rectangle, counter-clockwise from
    /// the lower-right corner, first point repeated at the end.
    pub open spec fn spec_ring(self) -> Seq<Coordinate> {
        seq![
            Coordinate { x: self.max.x, y: self.min.y },
            self.max,
            Coordinate { x: self.min.x, y: self.max.y },
            self.min,
            Coordinate { x: self.max.x, y: self.min.y },
        ]
    }

    pub fn ring(&self) -> (r: Vec<Coordinate>)
        ensures
            r@ == self.spec_ring(),
    {
        let v: Vec<Coordinate> = vec![
            Coordinate { x: self.max.x, y: self.min.y },
            self.max,
            Coordinate { x: self.min.x, y: self.max.y },
            self.min,
            Coordinate { x: self.max.x, y: self.min.y },
        ];
        assert(v@ =~= self.spec_ring());
        v
    }
}

/// The smaller of two values in the total order, the first on a tie.
pub open spec fn spec_min(a: Binary64, b: Binary64) -> Binary64 {
    if a.spec_le(b) {
        a
    } else {
        b
    }
}

/// The larger of two values in the total order, the first on a tie.
pub open spec fn spec_max(a: Binary64, b: Binary64) -> Binary64 {
    if b.spec_le(a) {
        a
    } else {
        b
    }
}

/// The axis-aligned bounding box of a non-empty ring: the componentwise
/// least and greatest coordinates in the total order.
pub open spec fn spec_bbox(ring: Seq<Coordinate>) -> Rect
    decreases ring.len(),
{
    if ring.len() <= 1 {
        Rect { min: ring[0], max: ring[0] }
    } else {
        let prev = spec_bbox(ring.drop_last());
        let c = ring.last();
        Rect {
            min: Coordinate { x: spec_min(prev.min.x, c.x), y: spec_min(prev.min.y, c.y) },
            max: Coordinate { x: spec_max(prev.max.x, c.x), y: spec_max(prev.max.y, c.y) },
        }
    }
}

/// Every point of a non-empty ring lies inside the ring's bounding box,
/// which is itself well-formed.
pub proof fn lemma_bbox_contains(ring: Seq<Coordinate>)
    requires
        ring.len() > 0,
    ensures
        forall|i: int| 0 <= i < ring.len() ==> spec_bbox(ring).spec_contains(#[trigger] ring[i]),
        spec_bbox(ring).spec_wf(),
    decreases ring.len(),
{
    if ring.len() > 1 {
        lemma_bbox_contains(ring.drop_last());
        assert(forall|i: int| 0 <= i < ring.len() - 1 ==> ring.drop_last()[i] == #[trigger] ring[
            i
        ]);
    }
}

/// The axis-aligned bounding box of a ring: `None` exactly on the empty
/// ring, otherwise [`spec_bbox`] of it, which every point of the ring lies
/// inside and whose four sides are each attained by some point.
pub fn bounding_box(ring: &Vec<Coordinate>) -> (r: Option<Rect>)
    ensures
        r is Some <==> ring@.len() > 0,
        r matches Some(bb) ==> bb == spec_bbox(ring@),
        r matches Some(bb) ==> {
            &&& forall|i: int| 0 <= i < ring@.len() ==> bb.spec_contains(#[trigger] ring@[i])
            &&& exists|i: int| 0 <= i < ring@.len() && #[trigger] ring@[i].x == bb.min.x
            &&& exists|i: int| 0 <= i < ring@.len() && #[trigger] ring@[i].x == bb.max.x
            &&& exists|i: int| 0 <= i < ring@.len() && #[trigger] ring@[i].y == bb.min.y
            &&& exists|i: int| 0 <= i < ring@.len() && #[trigger] ring@[i].y == bb.max.y
            &&& bb.spec_wf()
        },
{
    if ring.len() == 0 {
        return None;
    }
    let first = ring[0];
    let mut bb = Rect { min: first, max: first };
    proof {
        assert(ring@[0].x == bb.min.x);
        assert(ring@[0].x == bb.max.x);
        assert(ring@[0].y == bb.min.y);
        assert(ring@[0].y == bb.max.y);
    }
    let mut k: usize = 1;
    while k < ring.len()
        invariant
            1 <= k <= ring@.len(),
            bb == spec_bbox(ring@.take(k as int)),
            forall|i: int| 0 <= i < k ==> bb.spec_contains(#[trigger] ring@[i]),
            exists|i: int| 0 <= i < k && #[trigger] ring@[i].x == bb.min.x,
            exists|i: int| 0 <= i < k && #[trigger] ring@[i].x == bb.max.x,
            exists|i: int| 0 <= i < k && #[trigger] ring@[i].y == bb.min.y,
            exists|i: int| 0 <= i < k && #[trigger] ring@[i].y == bb.max.y,
            bb.spec_wf(),
        decreases ring@.len() - k,
    {
        let c = ring[k];
        proof {
            assert(ring@.take(k + 1).drop_last() =~= ring@.take(k as int));
            assert(ring@.take(k + 1).last() == ring@[k as int]);
        }
        bb = Rect {
            min: Coordinate { x: bb.min.x.min_with(c.x), y: bb.min.y.min_with(c.y) },
            max: Coordinate { x: bb.max.x.max_with(c.x), y: bb.max.y.max_with(c.y) },
        };
        k = k + 1;
    }
    proof {
        assert(ring@.take(k as int) =~= ring@);
    }
    Some(bb)
}

} // verus!
