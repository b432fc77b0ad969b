//! Tests for the weighted table and the polygon sampler, including the
//! statistical balance of repeated draws.

use geo::{Area, TriangulateEarcut};
use rand::RngCore;
use geo_types::{Coord, LineString, Polygon as GeoPolygon};

use geos::coord::{bounding_box, Coordinate, Triangle};
use geos::rng::create_rng;
use geos::samplers::PolygonalSampler;
use geos::scalar::Binary64;
use geos::table::WeightedTable;
use geos::GeoError;

fn b64(x: f64) -> Binary64 {
    Binary64 { bits: x.to_bits() }
}

fn val(b: Binary64) -> f64 {
    f64::from_bits(b.bits)
}

fn coordinate(lng: f64, lat: f64) -> Coordinate {
    Coordinate { x: b64(lng), y: b64(lat) }
}

fn nvec(lng: f64, lat: f64) -> (f64, f64, f64) {
    let (lng, lat) = (lng.to_radians(), lat.to_radians());
    (lng.cos() * lat.cos(), lng.sin() * lat.cos(), lat.sin())
}

fn nvec_to_lnglat(v: (f64, f64, f64)) -> (f64, f64) {
    let lat = v.2.atan2((v.0 * v.0 + v.1 * v.1).sqrt());
    let lng = v.1.atan2(v.0);
    (lng.to_degrees(), lat.to_degrees())
}

/// Square-root barycentric placement of a point inside a triangle, as the
/// application performs it after the library draws the triangle.
fn point_in_triangle(u1: f64, u2: f64, t: &Triangle) -> (f64, f64) {
    let r1 = u1.sqrt();
    let (wa, wb, wc) = (1.0 - r1, r1 * (1.0 - u2), u2 * r1);
    let na = nvec(val(t.a.x), val(t.a.y));
    let nb = nvec(val(t.b.x), val(t.b.y));
    let nc = nvec(val(t.c.x), val(t.c.y));
    let v = (
        wa * na.0 + wb * nb.0 + wc * nc.0,
        wa * na.1 + wb * nb.1 + wc * nc.1,
        wa * na.2 + wb * nb.2 + wc * nc.2,
    );
    let norm = (v.0 * v.0 + v.1 * v.1 + v.2 * v.2).sqrt();
    let s = 1.0 / (norm + 1e-8);
    nvec_to_lnglat((s * v.0, s * v.1, s * v.2))
}

/// Triangulates and quantizes areas into integer weights, as the
/// application does before handing the sampler its parts.
fn sampler_from_rings(exterior: Vec<(f64, f64)>) -> Result<PolygonalSampler, GeoError> {
    let gp = GeoPolygon::new(
        LineString::from(exterior.iter().map(|c| Coord { x: c.0, y: c.1 }).collect::<Vec<_>>()),
        vec![],
    );
    let triangles: Vec<geo_types::Triangle> = gp.earcut_triangles();
    let areas: Vec<f64> = triangles.iter().map(|t| t.unsigned_area()).collect();
    let max = areas.iter().cloned().fold(0.0f64, f64::max);
    let parts: Vec<(Triangle, u64)> = triangles
        .iter()
        .zip(areas.iter())
        .map(|(t, a)| {
            let tri = Triangle {
                a: coordinate(t.0.x, t.0.y),
                b: coordinate(t.1.x, t.1.y),
                c: coordinate(t.2.x, t.2.y),
            };
            let w = if max > 0.0 { (a / max * 4294967296.0).round() as u64 } else { 0 };
            (tri, w)
        })
        .collect();
    PolygonalSampler::new(parts)
}

#[test]
fn weighted_table_rejects_zero_total() {
    assert!(matches!(
        WeightedTable::build(&vec![0, 0, 0]),
        Err(GeoError::DegenerateWeights)
    ));
    assert!(matches!(WeightedTable::build(&vec![]), Err(GeoError::DegenerateWeights)));
}

#[test]
fn weighted_table_classifies_by_cumulative_interval() {
    let t = WeightedTable::build(&vec![2, 3, 0, 5]).unwrap();
    assert_eq!(t.len(), 4);
    assert_eq!(t.total(), 10);
    for (i, w) in [2u128, 3, 0, 5].iter().enumerate() {
        assert_eq!(t.weight(i), *w);
    }
    let expected = [0, 0, 1, 1, 1, 3, 3, 3, 3, 3];
    for (r, e) in expected.iter().enumerate() {
        assert_eq!(t.classify(r as u128), *e);
    }
}

#[test]
fn weighted_table_balanced_frequencies() {
    // Weights in the proportion 0.5 / 0.5: over 100 000 draws each index
    // must appear in very nearly half of them. The bound of one percentage
    // point is over six standard deviations, comparable to a chi-square
    // acceptance well above any common significance level.
    let t = WeightedTable::build(&vec![1, 1]).unwrap();
    let mut rng = create_rng(7);
    let n = 100_000usize;
    let mut counts = [0usize; 2];
    for _ in 0..n {
        counts[t.sample(&mut rng)] += 1;
    }
    let f0 = counts[0] as f64 / n as f64;
    assert!((f0 - 0.5).abs() < 0.01, "frequency {}", f0);
}

#[test]
fn weighted_table_never_draws_zero_weight() {
    let t = WeightedTable::build(&vec![0, 4, 0, 1]).unwrap();
    let mut rng = create_rng(11);
    for _ in 0..2000 {
        let i = t.sample(&mut rng);
        assert!(i == 1 || i == 3);
    }
}

#[test]
fn weighted_table_proportions_follow_weights() {
    let t = WeightedTable::build(&vec![1, 3]).unwrap();
    let mut rng = create_rng(13);
    let n = 100_000usize;
    let mut counts = [0usize; 2];
    for _ in 0..n {
        counts[t.sample(&mut rng)] += 1;
    }
    let f1 = counts[1] as f64 / n as f64;
    assert!((f1 - 0.75).abs() < 0.01, "frequency {}", f1);
}

#[test]
fn polygonal_sampler_rejects_zero_area() {
    // A degenerate polygon of collinear points triangulates to no area.
    let r = sampler_from_rings(vec![(0.0, 0.0), (5.0, 5.0), (10.0, 10.0), (0.0, 0.0)]);
    assert!(matches!(r, Err(GeoError::DegenerateWeights)));
    // Handing the sampler explicit zero-area parts fails the same way.
    let tri = Triangle {
        a: coordinate(0.0, 0.0),
        b: coordinate(1.0, 1.0),
        c: coordinate(2.0, 2.0),
    };
    assert!(matches!(
        PolygonalSampler::new(vec![(tri, 0), (tri, 0)]),
        Err(GeoError::DegenerateWeights)
    ));
}

#[test]
fn polygonal_sampler_stays_within_bounding_box() {
    let ring = vec![
        (-109.950142, 38.19799),
        (-109.888687, 38.236292),
        (-109.807663, 38.157237),
        (-109.929199, 38.146438),
        (-109.950142, 38.19799),
    ];
    let sampler = sampler_from_rings(ring.clone()).unwrap();
    let lib_ring: Vec<Coordinate> = ring.iter().map(|c| coordinate(c.0, c.1)).collect();
    let bb = bounding_box(&lib_ring).unwrap();
    let mut rng = create_rng(0);
    for _ in 0..2000 {
        let t = sampler.sample_triangle(&mut rng);
        let u1 = f64::from_bits(0x3FF0_0000_0000_0000 | (rng.next_u64() >> 12)) - 1.0;
        let u2 = f64::from_bits(0x3FF0_0000_0000_0000 | (rng.next_u64() >> 12)) - 1.0;
        let (lng, lat) = point_in_triangle(u1, u2, &t);
        assert!(bb.contains(coordinate(lng, lat)), "({}, {}) outside box", lng, lat);
    }
}

#[test]
fn sampled_triangles_come_from_the_triangulation() {
    let sampler = sampler_from_rings(vec![
        (0.0, 0.0),
        (10.0, 0.0),
        (10.0, 10.0),
        (0.0, 10.0),
        (0.0, 0.0),
    ])
    .unwrap();
    let n = sampler.num_triangles();
    assert!(n >= 2);
    let all: Vec<Triangle> = (0..n).map(|i| sampler.triangle(i)).collect();
    let mut rng = create_rng(3);
    for _ in 0..100 {
        let t = sampler.sample_triangle(&mut rng);
        assert!(all.iter().any(|u| *u == t));
    }
}

#[test]
fn create_rng_is_deterministic() {
    let t = WeightedTable::build(&vec![5, 5, 5, 5]).unwrap();
    let mut a = create_rng(42);
    let mut b = create_rng(42);
    for _ in 0..100 {
        assert_eq!(t.sample(&mut a), t.sample(&mut b));
    }
}

#[test]
fn draw_range_stays_below_the_bound() {
    let mut rng = create_rng(21);
    for n in [1u128, 2, 3, 7, 1000, u64::MAX as u128 + 1] {
        for _ in 0..200 {
            assert!(geos::rng::draw_range(&mut rng, n) < n);
        }
    }
}

#[test]
fn weighted_table_with_single_weight_always_draws_it() {
    let t = WeightedTable::build(&vec![9]).unwrap();
    assert_eq!(t.len(), 1);
    let mut rng = create_rng(5);
    for _ in 0..100 {
        assert_eq!(t.sample(&mut rng), 0);
    }
}

#[test]
fn polygon_sampler_spreads_over_both_halves() {
    // The unit square triangulates into two triangles of equal area, split
    // by a diagonal; with area weighting, repeated draws must land in each
    // half in very nearly half of the cases. The tolerance quantifies the
    // sampler's known small deviation from exact area uniformity.
    let sampler = sampler_from_rings(vec![
        (0.0, 0.0),
        (1.0, 0.0),
        (1.0, 1.0),
        (0.0, 1.0),
        (0.0, 0.0),
    ])
    .unwrap();
    let mut rng = create_rng(17);
    let n = 20_000usize;
    let mut above = 0usize;
    for _ in 0..n {
        let t = sampler.sample_triangle(&mut rng);
        let u1 = f64::from_bits(0x3FF0_0000_0000_0000 | (rng.next_u64() >> 12)) - 1.0;
        let u2 = f64::from_bits(0x3FF0_0000_0000_0000 | (rng.next_u64() >> 12)) - 1.0;
        let (lng, lat) = point_in_triangle(u1, u2, &t);
        if lat > lng {
            above += 1;
        }
    }
    let f = above as f64 / n as f64;
    assert!((f - 0.5).abs() < 0.02, "frequency above the diagonal {}", f);
}
