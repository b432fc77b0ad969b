//! The grid-based region-partitioning sweep.
//!
//! A polygon's bounding box is tiled into a near-uniform lattice of cells.
//! The caller evaluates the geodesic interpolations that place the lattice
//! points and the geometric predicates that judge each candidate cell; this
//! module makes every decision of the sweep and is verified to do so
//! exactly: rejecting a non-positive edge proportion, returning the single
//! bounding-box cell for proportions of one or more, and otherwise keeping,
//! in sweep order, precisely the candidates the tests approve.

use vstd::prelude::*;
use vstd::arithmetic::div_mod::lemma_fundamental_div_mod_converse;
use crate::coord::{spec_bbox, spec_rect_between, bounding_box, Coordinate, Polygon, Rect};
use crate::scalar::{Binary64, ONE_BITS, ZERO_BITS};
use crate::GeoError;

verus! {

pub open spec fn spec_zero() -> Binary64 {
    Binary64 { bits: ZERO_BITS }
}

pub open spec fn spec_one() -> Binary64 {
    Binary64 { bits: ONE_BITS }
}

/// A non-positive edge proportion can never advance the sweep, so it is
/// rejected outright.
pub open spec fn spec_plan_rejects(ep: Binary64) -> bool {
    ep.spec_le(spec_zero())
}

/// An edge proportion of one or more would be a dilation: the partition is
/// the bounding box itself, as a single cell.
pub open spec fn spec_plan_whole(ep: Binary64) -> bool {
    !spec_plan_rejects(ep) && spec_one().spec_le(ep)
}

/// A proportion strictly between zero and one: a genuine grid sweep.
pub open spec fn spec_plan_grid(ep: Binary64) -> bool {
    !spec_plan_rejects(ep) && !spec_plan_whole(ep)
}

/// The decision taken on the edge proportion before any sweeping.
#[derive(Clone, Copy, PartialEq, Eq, Structural, Debug)]
pub enum SweepPlan {
    /// One cell: the bounding box itself.
    WholeBox,
    /// A sweep into a grid of near-uniform cells.
    Grid,
}

pub fn partition_plan(edge_proportion: Binary64) -> (r: Result<SweepPlan, GeoError>)
    ensures
        r == if spec_plan_rejects(edge_proportion) {
            Err::<SweepPlan, GeoError>(GeoError::InvalidParameter)
        } else if spec_plan_whole(edge_proportion) {
            Ok::<SweepPlan, GeoError>(SweepPlan::WholeBox)
        } else {
            Ok::<SweepPlan, GeoError>(SweepPlan::Grid)
        },
{
    if edge_proportion.le(Binary64::zero()) {
        Err(GeoError::InvalidParameter)
    } else if Binary64::one().le(edge_proportion) {
        Ok(SweepPlan::WholeBox)
    } else {
        Ok(SweepPlan::Grid)
    }
}

/// The rows of a lattice, as mathematical sequences.
pub open spec fn grid_view(grid: Seq<Vec<Coordinate>>) -> Seq<Seq<Coordinate>> {
    grid.map_values(|row: Vec<Coordinate>| row@)
}

/// A sweep lattice over a bounding box with `n + 1` lines of `n + 1` points
/// each: point `j` of line `i` is the caller's interpolation at height step
/// `i` and cross step `j`; line `0` lies on the box's lower edge.
pub open spec fn spec_grid_wf(g: Seq<Seq<Coordinate>>) -> bool {
    g.len() >= 1 && forall|i: int| 0 <= i < g.len() ==> (#[trigger] g[i]).len() == g.len()
}

/// Candidate cell `k` of a lattice with `n + 1` lines, in sweep order
/// (whole lines of the height sweep, cross sweep within each): the
/// rectangle between lattice points `(i, j)` and `(i + 1, j + 1)` where
/// `i == k / n` and `j == k % n`.
pub open spec fn spec_cell(g: Seq<Seq<Coordinate>>, k: int) -> Rect {
    let n = g.len() - 1;
    spec_rect_between(g[k / n][k % n], g[k / n + 1][k % n + 1])
}

/// All `n * n` candidate cells of the lattice, in sweep order.
pub open spec fn spec_cells(g: Seq<Seq<Coordinate>>) -> Seq<Rect> {
    Seq::new((((g.len() - 1) * (g.len() - 1)) as nat), |k: int| spec_cell(g, k))
}

/// Assembles every candidate cell of the lattice, in sweep order.
pub fn candidate_cells(grid: &Vec<Vec<Coordinate>>) -> (cells: Vec<Rect>)
    requires
        spec_grid_wf(grid_view(grid@)),
    ensures
        cells@ == spec_cells(grid_view(grid@)),
        forall|k: int| 0 <= k < cells@.len() ==> (#[trigger] cells@[k]).spec_wf(),
{
    let ghost g = grid_view(grid@);
    let n = grid.len() - 1;
    let mut cells: Vec<Rect> = Vec::new();
    let mut i: usize = 0;
    while i < n
        invariant
            g == grid_view(grid@),
            spec_grid_wf(g),
            g.len() == n + 1,
            i <= n,
            cells@.len() == i as int * n as int,
            forall|k: int| 0 <= k < cells@.len() ==> cells@[k] == spec_cell(g, k),
        decreases n - i,
    {
        let mut j: usize = 0;
        while j < n
            invariant
                g == grid_view(grid@),
                spec_grid_wf(g),
                g.len() == n + 1,
                i < n,
                j <= n,
                cells@.len() == i as int * n as int + j as int,
                forall|k: int| 0 <= k < cells@.len() ==> cells@[k] == spec_cell(g, k),
            decreases n - j,
        {
            let row = &grid[i];
            proof {
                assert(g[i as int] == row@);
                assert(g[i as int + 1] == grid@[i as int + 1]@);
            }
            let p = row[j];
            let next_row = &grid[i + 1];
            let q = next_row[j + 1];
            proof {
                lemma_fundamental_div_mod_converse(
                    i as int * n as int + j as int,
                    n as int,
                    i as int,
                    j as int,
                );
            }
            cells.push(crate::coord::Rect::between(p, q));
            j = j + 1;
        }
        proof {
            assert((i as int + 1) * n as int == i as int * n as int + n as int) by (nonlinear_arith);
        }
        i = i + 1;
    }
    proof {
        assert(cells@ =~= spec_cells(g));
    }
    cells
}

/// The subsequence of `cells` whose flag is set, in order.
pub open spec fn spec_filter_kept(cells: Seq<Rect>, keep: Seq<bool>) -> Seq<Rect>
    decreases cells.len(),
{
    if cells.len() == 0 {
        Seq::empty()
    } else if keep[cells.len() - 1] {
        spec_filter_kept(cells.drop_last(), keep) + seq![cells.last()]
    } else {
        spec_filter_kept(cells.drop_last(), keep)
    }
}

/// Every cell of the filtered subsequence is one of the candidates.
pub proof fn lemma_filter_kept_membership(cells: Seq<Rect>, keep: Seq<bool>)
    ensures
        forall|j: int| 0 <= j < spec_filter_kept(cells, keep).len() ==> cells.contains(
            #[trigger] spec_filter_kept(cells, keep)[j],
        ),
    decreases cells.len(),
{
    if cells.len() > 0 {
        lemma_filter_kept_membership(cells.drop_last(), keep);
        assert forall|j: int| 0 <= j < spec_filter_kept(cells, keep).len() implies cells.contains(
            #[trigger] spec_filter_kept(cells, keep)[j],
        ) by {
            let prev = spec_filter_kept(cells.drop_last(), keep);
            if j < prev.len() {
                let k = choose|k: int|
                    0 <= k < cells.drop_last().len() && cells.drop_last()[k] == prev[j];
                assert(cells[k] == prev[j]);
            } else {
                assert(cells[cells.len() - 1] == spec_filter_kept(cells, keep)[j]);
            }
        }
    }
}

/// Keeps, in order, exactly the cells whose flag is set.
pub fn select_cells(cells: &Vec<Rect>, keep: &Vec<bool>) -> (r: Vec<Rect>)
    requires
        keep@.len() == cells@.len(),
    ensures
        r@ == spec_filter_kept(cells@, keep@),
{
    let mut out: Vec<Rect> = Vec::new();
    let mut k: usize = 0;
    while k < cells.len()
        invariant
            keep@.len() == cells@.len(),
            k <= cells@.len(),
            out@ == spec_filter_kept(cells@.take(k as int), keep@),
        decreases cells@.len() - k,
    {
        proof {
            assert(cells@.take(k + 1).drop_last() =~= cells@.take(k as int));
            assert(cells@.take(k + 1).last() == cells@[k as int]);
        }
        if keep[k] {
            out.push(cells[k]);
        }
        k = k + 1;
    }
    proof {
        assert(cells@.take(k as int) =~= cells@);
    }
    out
}

/// A ratio reaches the threshold: at or above it in the total order and not
/// a NaN, which is how the floating-point `>=` judges it (a NaN ratio, from
/// a zero-area cell, reaches nothing).
pub open spec fn spec_reaches(ratio: Binary64, threshold: Binary64) -> bool {
    !ratio.spec_is_nan() && threshold.spec_le(ratio)
}

/// The area-overlap criterion: a candidate is kept when its intersection
/// ratio reaches the threshold.
pub fn threshold_flags(ratios: &Vec<Binary64>, threshold: Binary64) -> (flags: Vec<bool>)
    ensures
        flags@.len() == ratios@.len(),
        forall|i: int| 0 <= i < ratios@.len() ==> flags@[i] == spec_reaches(
            #[trigger] ratios@[i],
            threshold,
        ),
{
    let mut flags: Vec<bool> = Vec::new();
    let mut k: usize = 0;
    while k < ratios.len()
        invariant
            k <= ratios@.len(),
            flags@.len() == k,
            forall|i: int| 0 <= i < k ==> flags@[i] == spec_reaches(#[trigger] ratios@[i], threshold),
        decreases ratios@.len() - k,
    {
        let r = ratios[k];
        flags.push(!r.is_nan() && threshold.le(r));
        k = k + 1;
    }
    flags
}

/// The caller's verdict on each candidate cell, in sweep order.
pub enum CellTests {
    /// Whether each candidate intersects the polygon at all: the fast
    /// default criterion.
    Intersects(Vec<bool>),
    /// Each candidate's intersection-area share of its own area, kept when
    /// it reaches the given threshold.
    AreaRatio(Vec<Binary64>, Binary64),
}

/// The keep-flag each test verdict amounts to.
pub open spec fn spec_flags(t: CellTests) -> Seq<bool> {
    match t {
        CellTests::Intersects(f) => f@,
        CellTests::AreaRatio(rs, th) => rs@.map_values(|v: Binary64| spec_reaches(v, th)),
    }
}

pub open spec fn spec_tests_len(t: CellTests) -> int {
    spec_flags(t).len() as int
}

/// Partitions a polygon's bounding box into near-uniform cells.
///
/// The caller supplies the sweep lattice (its geodesic interpolations) and
/// the per-candidate test verdicts; this function makes every decision:
///   - a non-positive edge proportion is `InvalidParameter`;
///   - an empty exterior ring has no bounding box: `GeometryConversionFailure`;
///   - an edge proportion of one or more returns exactly one cell, the
///     bounding box itself;
///   - otherwise exactly the approved candidates are returned, in sweep
///     order.
pub fn partition_region(
    polygon: &Polygon,
    edge_proportion: Binary64,
    grid: &Vec<Vec<Coordinate>>,
    tests: &CellTests,
) -> (r: Result<Vec<Rect>, GeoError>)
    requires
        spec_plan_grid(edge_proportion) ==> spec_grid_wf(grid_view(grid@)) && spec_tests_len(
            *tests,
        ) == spec_cells(grid_view(grid@)).len(),
    ensures
        spec_plan_rejects(edge_proportion) ==> r == Err::<Vec<Rect>, GeoError>(
            GeoError::InvalidParameter,
        ),
        !spec_plan_rejects(edge_proportion) && polygon.exterior@.len() == 0 ==> r == Err::<
            Vec<Rect>,
            GeoError,
        >(GeoError::GeometryConversionFailure),
        spec_plan_whole(edge_proportion) && polygon.exterior@.len() > 0 ==> (r matches Ok(cs)
            && cs@ == seq![spec_bbox(polygon.exterior@)]),
        spec_plan_grid(edge_proportion) && polygon.exterior@.len() > 0 ==> (r matches Ok(cs)
            && cs@ == spec_filter_kept(spec_cells(grid_view(grid@)), spec_flags(*tests))),
        r matches Ok(cs) ==> forall|k: int| 0 <= k < cs@.len() ==> (#[trigger] cs@[k]).spec_wf(),
{
    if edge_proportion.le(Binary64::zero()) {
        return Err(GeoError::InvalidParameter);
    }
    let bb = match bounding_box(&polygon.exterior) {
        None => {
            return Err(GeoError::GeometryConversionFailure);
        },
        Some(bb) => bb,
    };
    if Binary64::one().le(edge_proportion) {
        let mut out: Vec<Rect> = Vec::new();
        out.push(bb);
        proof {
            assert(out@ =~= seq![spec_bbox(polygon.exterior@)]);
        }
        return Ok(out);
    }
    let cells = candidate_cells(grid);
    let ghost flags = spec_flags(*tests);
    proof {
        lemma_filter_kept_membership(cells@, flags);
        assert forall|k: int| 0 <= k < spec_filter_kept(cells@, flags).len() implies (
        #[trigger] spec_filter_kept(cells@, flags)[k]).spec_wf() by {
            let c = spec_filter_kept(cells@, flags)[k];
            let w = choose|w: int| 0 <= w < cells@.len() && cells@[w] == c;
            assert(cells@[w].spec_wf());
        }
    }
    let kept = match tests {
        CellTests::Intersects(flags) => select_cells(&cells, flags),
        CellTests::AreaRatio(ratios, threshold) => {
            let flags = threshold_flags(ratios, *threshold);
            proof {
                assert(flags@ =~= ratios@.map_values(
                    |v: Binary64| spec_reaches(v, *threshold),
                ));
            }
            select_cells(&cells, &flags)
        },
    };
    Ok(kept)
}

} // verus!
