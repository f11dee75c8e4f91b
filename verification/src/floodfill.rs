//! Scanline rasterisation of polygons, with holes, under the even-odd rule.
//!
//! Every row `z` of the outer ring's bounding box is cut by the polygon's
//! non-horizontal edges (outer ring first, then each inner ring in order).
//! An edge whose lower end is at `z_lo` and upper end at `z_hi` crosses row
//! `z` when `z_lo <= z < z_hi`, at the exact rational abscissa
//! `x_lo + (z - z_lo) * (x_hi - x_lo) / (z_hi - z_lo)`. The crossings are
//! sorted from left to right and taken in pairs; each pair fills the cells
//! from the ceiling of its left crossing to the floor of its right one.

use vstd::prelude::*;
use std::time::Duration;
use std::time::Instant;
use crate::osm_parser::{ProcessedElement, ProcessedMember, ProcessedMemberRole, ProcessedWay};

verus! {

/// Largest bounding-box area, in blocks, that is filled at all.
pub const MAX_FLOOD_FILL_AREA: i64 = 30_000_000;

/// A polygon with an outer ring and any number of holes.
pub struct ComplexPolygon {
    pub outer: Vec<(i32, i32)>,
    pub inners: Vec<Vec<(i32, i32)>>,
}

#[verifier::external_type_specification]
#[verifier::external_body]
pub struct ExInstant(Instant);

/// Reads the monotonic clock (`std::time::Instant::now`). Nothing is claimed
/// of the value: it depends on the time of the call.
#[verifier::external_body]
fn clock_now() -> Instant {
    Instant::now()
}

/// The time passed since `start` (`std::time::Instant::elapsed`). Nothing is
/// claimed of the value: it depends on the time of the call.
#[verifier::external_body]
fn clock_elapsed(start: &Instant) -> Duration {
    start.elapsed()
}

/// The whole seconds of a duration (`Duration::as_secs`).
#[verifier::external_body]
fn duration_secs(d: &Duration) -> u64 {
    d.as_secs()
}

/// The nanoseconds of a duration beyond its whole seconds
/// (`Duration::subsec_nanos`).
#[verifier::external_body]
fn duration_subsec_nanos(d: &Duration) -> u32 {
    d.subsec_nanos()
}

/// Whether the duration `(secs, nanos)` is longer than `(limit_secs,
/// limit_nanos)`: durations compare by their seconds, then their
/// nanoseconds.
pub fn duration_longer(secs: u64, nanos: u32, limit_secs: u64, limit_nanos: u32) -> (b: bool)
    ensures
        b == (secs > limit_secs || (secs == limit_secs && nanos > limit_nanos)),
{
    secs > limit_secs || (secs == limit_secs && nanos > limit_nanos)
}

/// Whether more than `timeout` has passed since `start`.
fn clock_exceeded(start: &Instant, timeout: &Duration) -> bool {
    let elapsed = clock_elapsed(start);
    duration_longer(
        duration_secs(&elapsed),
        duration_subsec_nanos(&elapsed),
        duration_secs(timeout),
        duration_subsec_nanos(timeout),
    )
}

// ---------------------------------------------------------------------------
// Specification
// ---------------------------------------------------------------------------

/// A non-horizontal edge, lower end first: `(x_lo, z_lo, x_hi, z_hi)`, `z_lo < z_hi`.
pub type Edge = (i32, i32, i32, i32);

/// The edge from vertex `i` to the next vertex of a closed ring, lower end first.
pub open spec fn ring_edge(ring: Seq<(i32, i32)>, i: int) -> Edge {
    let (x1, z1) = ring[i];
    let (x2, z2) = ring[(i + 1) % ring.len() as int];
    if z1 < z2 {
        (x1, z1, x2, z2)
    } else {
        (x2, z2, x1, z1)
    }
}

/// Whether the edge leaving vertex `i` is horizontal.
pub open spec fn ring_edge_horizontal(ring: Seq<(i32, i32)>, i: int) -> bool {
    ring[i].1 == ring[(i + 1) % ring.len() as int].1
}

/// The non-horizontal edges leaving the first `n` vertices of a ring, in order.
pub open spec fn ring_edges(ring: Seq<(i32, i32)>, n: int) -> Seq<Edge>
    decreases n,
{
    if n <= 0 {
        Seq::empty()
    } else if ring_edge_horizontal(ring, n - 1) {
        ring_edges(ring, n - 1)
    } else {
        ring_edges(ring, n - 1).push(ring_edge(ring, n - 1))
    }
}

/// All edges of a ring.
pub open spec fn all_ring_edges(ring: Seq<(i32, i32)>) -> Seq<Edge> {
    ring_edges(ring, ring.len() as int)
}

/// The edges of the outer ring followed by those of the first `k` holes.
pub open spec fn polygon_edges_upto(
    outer: Seq<(i32, i32)>,
    inners: Seq<Vec<(i32, i32)>>,
    k: int,
) -> Seq<Edge>
    decreases k,
{
    if k <= 0 {
        all_ring_edges(outer)
    } else {
        polygon_edges_upto(outer, inners, k - 1) + all_ring_edges(inners[k - 1]@)
    }
}

/// All edges of a polygon, outer ring first.
pub open spec fn polygon_edges(p: &ComplexPolygon) -> Seq<Edge> {
    polygon_edges_upto(p.outer@, p.inners@, p.inners@.len() as int)
}

/// Whether an edge crosses row `z` (lower end included, upper end excluded).
pub open spec fn edge_active(e: Edge, z: int) -> bool {
    e.1 <= z < e.3
}

/// The crossing of row `z` by an edge, as a fraction `(numerator, denominator)`
/// with a positive denominator.
pub open spec fn edge_crossing(e: Edge, z: int) -> (int, int) {
    let dz = e.3 - e.1;
    (e.0 * dz + (z - e.1) * (e.2 - e.0), dz)
}

/// The crossings of row `z` by the first `n` edges, in edge order.
pub open spec fn row_crossings(edges: Seq<Edge>, z: int, n: int) -> Seq<(int, int)>
    decreases n,
{
    if n <= 0 {
        Seq::empty()
    } else if edge_active(edges[n - 1], z) {
        row_crossings(edges, z, n - 1).push(edge_crossing(edges[n - 1], z))
    } else {
        row_crossings(edges, z, n - 1)
    }
}

/// Fraction `a` lies strictly right of fraction `b` (positive denominators).
pub open spec fn frac_gt(a: (int, int), b: (int, int)) -> bool {
    a.0 * b.1 > b.0 * a.1
}

/// Inserts `x` after the last element of `t` that does not lie right of it.
pub open spec fn insert_sorted(t: Seq<(int, int)>, x: (int, int)) -> Seq<(int, int)>
    decreases t.len(),
{
    if t.len() == 0 {
        seq![x]
    } else if !frac_gt(t.last(), x) {
        t.push(x)
    } else {
        insert_sorted(t.drop_last(), x).push(t.last())
    }
}

/// Stable left-to-right order of a sequence of fractions (insertion sort).
pub open spec fn sort_fracs(s: Seq<(int, int)>) -> Seq<(int, int)>
    decreases s.len(),
{
    if s.len() == 0 {
        Seq::empty()
    } else {
        insert_sorted(sort_fracs(s.drop_last()), s.last())
    }
}

/// Largest integer not above `q`.
pub open spec fn frac_floor(q: (int, int)) -> int {
    q.0 / q.1
}

/// Smallest integer not below `q`.
pub open spec fn frac_ceil(q: (int, int)) -> int {
    -((-q.0) / q.1)
}

/// The cells `(a, z)`, `(a + 1, z)`, ..., `(b, z)`; empty when `b < a`.
pub open spec fn span(a: int, b: int, z: int) -> Seq<(i32, i32)> {
    Seq::new(if b < a { 0nat } else { (b - a + 1) as nat }, |i: int| ((a + i) as i32, z as i32))
}

/// The cells filled by the first `k` pairs of the sorted crossings `s` of row `z`.
pub open spec fn pair_spans(s: Seq<(int, int)>, z: int, k: int) -> Seq<(i32, i32)>
    decreases k,
{
    if k <= 0 {
        Seq::empty()
    } else {
        pair_spans(s, z, k - 1) + span(frac_ceil(s[2 * k - 2]), frac_floor(s[2 * k - 1]), z)
    }
}

/// The cells filled in row `z`.
pub open spec fn row_fill(edges: Seq<Edge>, z: int) -> Seq<(i32, i32)> {
    let s = sort_fracs(row_crossings(edges, z, edges.len() as int));
    pair_spans(s, z, s.len() as int / 2)
}

/// The cells filled in rows `from .. to`, row by row.
pub open spec fn rows_fill(edges: Seq<Edge>, from: int, to: int) -> Seq<(i32, i32)>
    decreases to - from,
{
    if to <= from {
        Seq::empty()
    } else {
        rows_fill(edges, from, to - 1) + row_fill(edges, to - 1)
    }
}

/// Smallest coordinate (x when `axis_x`, else z) among the first `n` points.
pub open spec fn seq_min(s: Seq<(i32, i32)>, axis_x: bool, n: int) -> int
    decreases n,
{
    let v = if axis_x { s[n - 1].0 as int } else { s[n - 1].1 as int };
    if n <= 1 {
        v
    } else {
        let m = seq_min(s, axis_x, n - 1);
        if v < m { v } else { m }
    }
}

/// Largest coordinate (x when `axis_x`, else z) among the first `n` points.
pub open spec fn seq_max(s: Seq<(i32, i32)>, axis_x: bool, n: int) -> int
    decreases n,
{
    let v = if axis_x { s[n - 1].0 as int } else { s[n - 1].1 as int };
    if n <= 1 {
        v
    } else {
        let m = seq_max(s, axis_x, n - 1);
        if v > m { v } else { m }
    }
}

pub open spec fn ring_min_x(s: Seq<(i32, i32)>) -> int {
    seq_min(s, true, s.len() as int)
}

pub open spec fn ring_max_x(s: Seq<(i32, i32)>) -> int {
    seq_max(s, true, s.len() as int)
}

pub open spec fn ring_min_z(s: Seq<(i32, i32)>) -> int {
    seq_min(s, false, s.len() as int)
}

pub open spec fn ring_max_z(s: Seq<(i32, i32)>) -> int {
    seq_max(s, false, s.len() as int)
}

/// The area of the outer ring's bounding box.
pub open spec fn outer_bbox_area(outer: Seq<(i32, i32)>) -> int {
    (ring_max_x(outer) - ring_min_x(outer) + 1) * (ring_max_z(outer) - ring_min_z(outer) + 1)
}

/// The extent of the outer ring fits the 32-bit arithmetic that measures it.
pub open spec fn outer_extent_fits(outer: Seq<(i32, i32)>) -> bool {
    &&& ring_max_x(outer) - ring_min_x(outer) + 1 <= i32::MAX
    &&& ring_max_z(outer) - ring_min_z(outer) + 1 <= i32::MAX
}

/// What the rasteriser produces, when it runs to completion, for an outer
/// ring and the polygon's edges.
pub open spec fn complete_fill_of(outer: Seq<(i32, i32)>, edges: Seq<Edge>) -> Seq<(i32, i32)> {
    if outer.len() < 3 || outer_bbox_area(outer) > MAX_FLOOD_FILL_AREA {
        Seq::empty()
    } else {
        rows_fill(edges, ring_min_z(outer), ring_max_z(outer) + 1)
    }
}

/// Cells filled between two looks at the clock.
pub const TIMEOUT_CHECK_CELLS: usize = 10000;

/// The fill stopped after a whole number of rows, holding more than
/// `TIMEOUT_CHECK_CELLS` cells (the clock is only read once that many
/// have been filled since it was last read).
pub open spec fn is_row_prefix_of(
    outer: Seq<(i32, i32)>,
    edges: Seq<Edge>,
    r: Seq<(i32, i32)>,
) -> bool {
    outer.len() >= 3 && outer_bbox_area(outer) <= MAX_FLOOD_FILL_AREA && r.len()
        > TIMEOUT_CHECK_CELLS && exists|k: int|
        ring_min_z(outer) <= k <= ring_max_z(outer) + 1 && r == rows_fill(
            edges,
            ring_min_z(outer),
            k,
        )
}

/// What the rasteriser produces for a polygon when it runs to completion.
pub open spec fn complete_fill(p: &ComplexPolygon) -> Seq<(i32, i32)> {
    complete_fill_of(p.outer@, polygon_edges(p))
}

// ---------------------------------------------------------------------------
// Lemmas
// ---------------------------------------------------------------------------

pub(crate) proof fn lemma_seq_min_max_bounds(s: Seq<(i32, i32)>, axis_x: bool, n: int)
    requires
        1 <= n <= s.len(),
    ensures
        forall|i: int|
            0 <= i < n ==> seq_min(s, axis_x, n) <= (if axis_x { (#[trigger] s[i]).0 as int } else {
                s[i].1 as int
            }) <= seq_max(s, axis_x, n),
        i32::MIN <= seq_min(s, axis_x, n) <= seq_max(s, axis_x, n) <= i32::MAX,
    decreases n,
{
    if n > 1 {
        lemma_seq_min_max_bounds(s, axis_x, n - 1);
    }
}

/// Scanning `t` from the end past every element right of `x` gives the
/// insertion point of `insert_sorted`.
proof fn lemma_insert_sorted_at(t: Seq<(int, int)>, x: (int, int), j: int)
    requires
        0 <= j <= t.len(),
        forall|k: int| j <= k < t.len() ==> frac_gt(#[trigger] t[k], x),
        j > 0 ==> !frac_gt(t[j - 1], x),
    ensures
        insert_sorted(t, x) == t.insert(j, x),
    decreases t.len(),
{
    if t.len() == 0 {
        assert(t.insert(j, x) =~= seq![x]);
    } else if !frac_gt(t.last(), x) {
        assert(j == t.len()) by {
            if j < t.len() {
                assert(frac_gt(t[t.len() - 1], x));
            }
        }
        assert(t.insert(j, x) =~= t.push(x));
    } else {
        let u = t.drop_last();
        assert(j < t.len()) by {
            if j == t.len() {
                assert(!frac_gt(t[t.len() - 1], x));
            }
        }
        assert forall|k: int| j <= k < u.len() implies frac_gt(#[trigger] u[k], x) by {
            assert(u[k] == t[k]);
        }
        if j > 0 {
            assert(u[j - 1] == t[j - 1]);
        }
        lemma_insert_sorted_at(u, x, j);
        assert(u.insert(j, x).push(t.last()) =~= t.insert(j, x));
    }
}

/// The crossing of an active edge lies between the edge's end abscissas.
pub(crate) proof fn lemma_crossing_between(e: Edge, z: int)
    requires
        edge_active(e, z),
    ensures
        ({
            let q = edge_crossing(e, z);
            let lo = if e.0 <= e.2 { e.0 as int } else { e.2 as int };
            let hi = if e.0 <= e.2 { e.2 as int } else { e.0 as int };
            &&& q.1 > 0
            &&& lo * q.1 <= q.0 <= hi * q.1
            &&& lo <= frac_ceil(q) && frac_floor(q) <= hi
        }),
{
    let q = edge_crossing(e, z);
    let dz = e.3 - e.1;
    let t = z - e.1;
    let lo = if e.0 <= e.2 { e.0 as int } else { e.2 as int };
    let hi = if e.0 <= e.2 { e.2 as int } else { e.0 as int };
    assert(0 <= t < dz);
    if e.0 <= e.2 {
        assert(0 <= t * (e.2 - e.0) <= dz * (e.2 - e.0)) by (nonlinear_arith)
            requires
                0 <= t < dz,
                e.0 <= e.2,
        ;
    } else {
        assert(dz * (e.2 - e.0) <= t * (e.2 - e.0) <= 0) by (nonlinear_arith)
            requires
                0 <= t < dz,
                e.0 > e.2,
        ;
    }
    assert(lo * dz <= q.0 <= hi * dz) by (nonlinear_arith)
        requires
            0 <= t < dz,
            q.0 == e.0 * dz + t * (e.2 - e.0),
            lo == (if e.0 <= e.2 { e.0 as int } else { e.2 as int }),
            hi == (if e.0 <= e.2 { e.2 as int } else { e.0 as int }),
    ;
    lemma_floor_ceil_between(q.0, dz, lo, hi);
}

proof fn lemma_floor_ceil_between(n: int, d: int, lo: int, hi: int)
    requires
        d > 0,
        lo * d <= n <= hi * d,
    ensures
        lo <= -((-n) / d),
        n / d <= hi,
{
    assert(n / d <= hi) by (nonlinear_arith)
        requires
            d > 0,
            n <= hi * d,
    ;
    assert(-((-n) / d) >= lo) by (nonlinear_arith)
        requires
            d > 0,
            lo * d <= n,
    ;
}

// ---------------------------------------------------------------------------
// Executable code
// ---------------------------------------------------------------------------

/// Largest integer not above `n / d`.
fn floor_div(n: i128, d: i128) -> (r: i128)
    requires
        d > 0,
        -0x1_0000_0000_0000_0000_0000_0000 < n < 0x1_0000_0000_0000_0000_0000_0000,
    ensures
        r == n / d,
        -0x1_0000_0000_0000_0000_0000_0000 < r < 0x1_0000_0000_0000_0000_0000_0000,
{
    assert(-0x1_0000_0000_0000_0000_0000_0000 < n / d < 0x1_0000_0000_0000_0000_0000_0000)
        by (nonlinear_arith)
        requires
            d > 0,
            -0x1_0000_0000_0000_0000_0000_0000 < n < 0x1_0000_0000_0000_0000_0000_0000,
    ;
    if n >= 0 {
        n / d
    } else {
        let m: i128 = -n - 1;
        let q: i128 = m / d;
        assert(q == m / d);
        assert(n / d == -q - 1) by (nonlinear_arith)
            requires
                d > 0,
                n < 0,
                m == -n - 1,
                q == m / d,
        ;
        -q - 1
    }
}

/// Appends the edges of a ring to `edges`.
fn add_ring_edges(ring: &Vec<(i32, i32)>, edges: &mut Vec<Edge>)
    ensures
        final(edges)@ == old(edges)@ + all_ring_edges(ring@),
{
    let len = ring.len();
    let ghost start = edges@;
    let mut i: usize = 0;
    while i < len
        invariant
            len == ring@.len(),
            0 <= i <= len,
            edges@ == start + ring_edges(ring@, i as int),
        decreases len - i,
    {
        let j = (i + 1) % len;
        let (x1, z1) = ring[i];
        let (x2, z2) = ring[j];
        if z1 != z2 {
            if z1 < z2 {
                edges.push((x1, z1, x2, z2));
            } else {
                edges.push((x2, z2, x1, z1));
            }
            assert(edges@ =~= start + ring_edges(ring@, i + 1));
        } else {
            assert(edges@ =~= start + ring_edges(ring@, i + 1));
        }
        i = i + 1;
    }
}

/// The edges of a polygon, outer ring first.
fn collect_edges(polygon: &ComplexPolygon) -> (edges: Vec<Edge>)
    ensures
        edges@ == polygon_edges(polygon),
{
    let mut edges: Vec<Edge> = Vec::new();
    add_ring_edges(&polygon.outer, &mut edges);
    assert(edges@ =~= polygon_edges_upto(polygon.outer@, polygon.inners@, 0));
    let n = polygon.inners.len();
    let mut k: usize = 0;
    while k < n
        invariant
            n == polygon.inners@.len(),
            0 <= k <= n,
            edges@ == polygon_edges_upto(polygon.outer@, polygon.inners@, k as int),
        decreases n - k,
    {
        add_ring_edges(&polygon.inners[k], &mut edges);
        k = k + 1;
    }
    edges
}

/// Whether fraction `a` lies strictly right of fraction `b`.
fn frac_gt_exec(a: (i128, i128), b: (i128, i128)) -> (r: bool)
    requires
        -0x1_0000_0000_0000_0000 <= a.0 <= 0x1_0000_0000_0000_0000,
        -0x1_0000_0000_0000_0000 <= b.0 <= 0x1_0000_0000_0000_0000,
        0 < a.1 <= 0x1_0000_0000,
        0 < b.1 <= 0x1_0000_0000,
    ensures
        r == frac_gt((a.0 as int, a.1 as int), (b.0 as int, b.1 as int)),
{
    assert(-0x1_0000_0000_0000_0000_0000_0000 <= a.0 * b.1 <= 0x1_0000_0000_0000_0000_0000_0000)
        by (nonlinear_arith)
        requires
            -0x1_0000_0000_0000_0000 <= a.0 <= 0x1_0000_0000_0000_0000,
            0 < b.1 <= 0x1_0000_0000,
    ;
    assert(-0x1_0000_0000_0000_0000_0000_0000 <= b.0 * a.1 <= 0x1_0000_0000_0000_0000_0000_0000)
        by (nonlinear_arith)
        requires
            -0x1_0000_0000_0000_0000 <= b.0 <= 0x1_0000_0000_0000_0000,
            0 < a.1 <= 0x1_0000_0000,
    ;
    a.0 * b.1 > b.0 * a.1
}

pub open spec fn frac_view(s: Seq<(i128, i128)>) -> Seq<(int, int)> {
    s.map_values(|q: (i128, i128)| (q.0 as int, q.1 as int))
}

pub open spec fn frac_bounded(q: (i128, i128)) -> bool {
    &&& -0x1_0000_0000_0000_0000 <= q.0 <= 0x1_0000_0000_0000_0000
    &&& 0 < q.1 <= 0x1_0000_0000
    &&& i32::MIN <= frac_ceil((q.0 as int, q.1 as int))
    &&& frac_floor((q.0 as int, q.1 as int)) <= i32::MAX
}

/// The crossings of row `z`, sorted from left to right.
fn sorted_row_crossings(edges: &Vec<Edge>, z: i32) -> (s: Vec<(i128, i128)>)
    ensures
        frac_view(s@) == sort_fracs(row_crossings(edges@, z as int, edges@.len() as int)),
        forall|i: int| 0 <= i < s@.len() ==> frac_bounded(#[trigger] s@[i]),
{
    let ghost all = row_crossings(edges@, z as int, edges@.len() as int);
    let mut sorted: Vec<(i128, i128)> = Vec::new();
    let n = edges.len();
    let mut i: usize = 0;
    while i < n
        invariant
            n == edges@.len(),
            0 <= i <= n,
            frac_view(sorted@) == sort_fracs(row_crossings(edges@, z as int, i as int)),
            forall|k: int| 0 <= k < sorted@.len() ==> frac_bounded(#[trigger] sorted@[k]),
        decreases n - i,
    {
        let (x_lo, z_lo, x_hi, z_hi) = edges[i];
        let ghost e = edges@[i as int];
        if z_lo as i64 <= z as i64 && (z as i64) < z_hi as i64 {
            let dz: i128 = z_hi as i128 - z_lo as i128;
            let t: i128 = z as i128 - z_lo as i128;
            let w: i128 = x_hi as i128 - x_lo as i128;
            assert(-0x8000_0000_0000_0000 <= x_lo as i128 * dz <= 0x8000_0000_0000_0000)
                by (nonlinear_arith)
                requires
                    i32::MIN <= x_lo <= i32::MAX,
                    0 < dz <= 0x1_0000_0000,
            ;
            assert(-0x1_0000_0000_0000_0000 <= t * w <= 0x1_0000_0000_0000_0000) by (nonlinear_arith)
                requires
                    0 <= t <= 0x1_0000_0000,
                    -0x1_0000_0000 <= w <= 0x1_0000_0000,
            ;
            let num: i128 = x_lo as i128 * dz + t * w;
            let q = (num, dz);
            proof {
                lemma_crossing_between(e, z as int);
                let lo = if e.0 <= e.2 { e.0 as int } else { e.2 as int };
                let hi = if e.0 <= e.2 { e.2 as int } else { e.0 as int };
                assert(-0x8000_0000 * dz <= lo * dz) by (nonlinear_arith)
                    requires
                        lo >= -0x8000_0000,
                        dz > 0,
                ;
                assert(hi * dz <= 0x8000_0000 * dz) by (nonlinear_arith)
                    requires
                        hi <= 0x8000_0000,
                        dz > 0,
                ;
                assert(0x8000_0000 * dz <= 0x1_0000_0000_0000_0000) by (nonlinear_arith)
                    requires
                        0 < dz <= 0x1_0000_0000,
                ;
                assert(frac_bounded(q));
            }
            // Insert after the last crossing that does not lie right of it.
            let mut j: usize = sorted.len();
            while j > 0 && frac_gt_exec(sorted[j - 1], q)
                invariant
                    0 <= j <= sorted@.len(),
                    frac_bounded(q),
                    forall|k: int| 0 <= k < sorted@.len() ==> frac_bounded(#[trigger] sorted@[k]),
                    forall|k: int|
                        j <= k < sorted@.len() ==> frac_gt(
                            #[trigger] frac_view(sorted@)[k],
                            (q.0 as int, q.1 as int),
                        ),
                decreases j,
            {
                j = j - 1;
            }
            proof {
                let qv = (q.0 as int, q.1 as int);
                assert(j > 0 ==> !frac_gt(frac_view(sorted@)[j - 1], qv));
                lemma_insert_sorted_at(frac_view(sorted@), qv, j as int);
                assert(row_crossings(edges@, z as int, i + 1) == row_crossings(
                    edges@,
                    z as int,
                    i as int,
                ).push(qv));
                assert(row_crossings(edges@, z as int, i + 1).drop_last() =~= row_crossings(
                    edges@,
                    z as int,
                    i as int,
                ));
            }
            let ghost before = sorted@;
            sorted.insert(j, q);
            proof {
                assert(frac_view(sorted@) =~= frac_view(before).insert(
                    j as int,
                    (q.0 as int, q.1 as int),
                ));
                assert forall|k: int| 0 <= k < sorted@.len() implies frac_bounded(
                    #[trigger] sorted@[k],
                ) by {
                    if k < j {
                        assert(sorted@[k] == before[k]);
                    } else if k > j {
                        assert(sorted@[k] == before[k - 1]);
                    }
                }
            }
        }
        i = i + 1;
    }
    sorted
}

/// Appends the cells `(a, z)` .. `(b, z)` to `out`.
fn push_span(out: &mut Vec<(i32, i32)>, a: i32, b: i32, z: i32)
    ensures
        final(out)@ == old(out)@ + span(a as int, b as int, z as int),
{
    let ghost start = out@;
    if b < a {
        assert(span(a as int, b as int, z as int) =~= Seq::empty());
        assert(out@ =~= start + span(a as int, b as int, z as int));
        return;
    }
    let mut x: i64 = a as i64;
    while x <= b as i64
        invariant
            a <= b,
            a <= x <= b as i64 + 1,
            out@ == start + span(a as int, (x - 1) as int, z as int),
        decreases b as i64 + 1 - x,
    {
        out.push((x as i32, z));
        proof {
            assert(span(a as int, x as int, z as int) =~= span(a as int, (x - 1) as int, z as int)
                .push((x as i32, z)));
        }
        x = x + 1;
    }
}

/// Appends the cells filled in row `z` to `out`.
fn fill_row(edges: &Vec<Edge>, z: i32, out: &mut Vec<(i32, i32)>)
    ensures
        final(out)@ == old(out)@ + row_fill(edges@, z as int),
{
    let ghost start = out@;
    let s = sorted_row_crossings(edges, z);
    let ghost sv = frac_view(s@);
    let mut k: usize = 0;
    let len = s.len();
    let pairs = len / 2;
    while k < pairs
        invariant
            len == s@.len(),
            pairs == s@.len() / 2,
            sv == frac_view(s@),
            sv == sort_fracs(row_crossings(edges@, z as int, edges@.len() as int)),
            forall|i: int| 0 <= i < s@.len() ==> frac_bounded(#[trigger] s@[i]),
            0 <= k <= pairs,
            out@ == start + pair_spans(sv, z as int, k as int),
        decreases pairs - k,
    {
        assert(k + k + 1 < s@.len()) by (nonlinear_arith)
            requires
                k < pairs,
                pairs == s@.len() / 2,
        ;
        let i2: usize = k + k;
        let left = s[i2];
        let right = s[i2 + 1];
        assert(frac_bounded(s@[2 * k as int]));
        assert(frac_bounded(s@[2 * k + 1]));
        let start_x: i128 = -floor_div(-left.0, left.1);
        let end_x: i128 = floor_div(right.0, right.1);
        proof {
            assert(sv[2 * k as int] == (left.0 as int, left.1 as int));
            assert(sv[2 * k + 1] == (right.0 as int, right.1 as int));
        }
        let ghost before = out@;
        proof {
            assert(start_x >= i32::MIN);
            assert(end_x <= i32::MAX);
        }
        if start_x <= end_x {
            push_span(out, start_x as i32, end_x as i32, z);
        } else {
            assert(span(frac_ceil(sv[2 * k as int]), frac_floor(sv[2 * k + 1]), z as int)
                =~= Seq::empty());
            assert(out@ =~= before + span(frac_ceil(sv[2 * k as int]), frac_floor(sv[2 * k + 1]), z as int));
        }
        proof {
            assert(pair_spans(sv, z as int, k + 1) == pair_spans(sv, z as int, k as int) + span(
                frac_ceil(sv[2 * k as int]),
                frac_floor(sv[2 * k + 1]),
                z as int,
            ));
            assert(out@ =~= start + pair_spans(sv, z as int, k + 1));
        }
        k = k + 1;
    }
}

/// Smallest and largest coordinates of a non-empty ring, x first then z.
fn ring_bounds(ring: &Vec<(i32, i32)>) -> (r: (i32, i32, i32, i32))
    requires
        ring@.len() >= 1,
    ensures
        r.0 == ring_min_x(ring@),
        r.1 == ring_max_x(ring@),
        r.2 == ring_min_z(ring@),
        r.3 == ring_max_z(ring@),
{
    let (x0, z0) = ring[0];
    let mut min_x = x0;
    let mut max_x = x0;
    let mut min_z = z0;
    let mut max_z = z0;
    let mut i: usize = 1;
    while i < ring.len()
        invariant
            1 <= i <= ring@.len(),
            min_x == seq_min(ring@, true, i as int),
            max_x == seq_max(ring@, true, i as int),
            min_z == seq_min(ring@, false, i as int),
            max_z == seq_max(ring@, false, i as int),
        decreases ring@.len() - i,
    {
        let (x, z) = ring[i];
        if x < min_x {
            min_x = x;
        }
        if x > max_x {
            max_x = x;
        }
        if z < min_z {
            min_z = z;
        }
        if z > max_z {
            max_z = z;
        }
        i = i + 1;
    }
    (min_x, max_x, min_z, max_z)
}

/// Rasterises a polygon with holes under the even-odd rule, row by row from
/// the lowest to the highest z of the outer ring. Nothing is filled for an
/// outer ring of fewer than three points or a bounding box of more than
/// `MAX_FLOOD_FILL_AREA` blocks. With a timeout, the rows filled before the
/// time ran out are returned.
pub fn scanline_fill_complex(polygon: &ComplexPolygon, timeout: Option<&Duration>) -> (r: Vec<
    (i32, i32),
>)
    requires
        polygon.outer@.len() >= 3 ==> outer_extent_fits(polygon.outer@),
    ensures
        timeout is None ==> r@ == complete_fill(polygon),
        timeout is Some ==> (r@ == complete_fill(polygon) || is_row_prefix_of(
            polygon.outer@,
            polygon_edges(polygon),
            r@,
        )),
{
    let start_time = clock_now();

    if polygon.outer.len() < 3 {
        return Vec::new();
    }
    let (min_x, max_x, min_z, max_z) = ring_bounds(&polygon.outer);
    proof {
        lemma_seq_min_max_bounds(polygon.outer@, true, polygon.outer@.len() as int);
        lemma_seq_min_max_bounds(polygon.outer@, false, polygon.outer@.len() as int);
    }
    let w: i64 = (max_x - min_x + 1) as i64;
    let h: i64 = (max_z - min_z + 1) as i64;
    assert(w * h <= 0x7fff_ffff * 0x7fff_ffff) by (nonlinear_arith)
        requires
            1 <= w <= 0x7fff_ffff,
            1 <= h <= 0x7fff_ffff,
    ;
    let area: i64 = w * h;
    if area > MAX_FLOOD_FILL_AREA {
        return Vec::new();
    }

    let edges = collect_edges(polygon);
    let mut filled_area: Vec<(i32, i32)> = Vec::new();
    let mut last_timeout_check: usize = 0;

    let mut z: i64 = min_z as i64;
    while z <= max_z as i64
        invariant
            min_z <= z <= max_z as i64 + 1,
            edges@ == polygon_edges(polygon),
            min_z == ring_min_z(polygon.outer@),
            max_z == ring_max_z(polygon.outer@),
            polygon.outer@.len() >= 3,
            outer_bbox_area(polygon.outer@) <= MAX_FLOOD_FILL_AREA,
            last_timeout_check <= filled_area@.len(),
            filled_area@ == rows_fill(edges@, min_z as int, z as int),
        decreases max_z as i64 + 1 - z,
    {
        if filled_area.len() - last_timeout_check > TIMEOUT_CHECK_CELLS {
            if let Some(limit) = timeout {
                if clock_exceeded(&start_time, limit) {
                    return filled_area;
                }
            }
            last_timeout_check = filled_area.len();
        }
        fill_row(&edges, z as i32, &mut filled_area);
        z = z + 1;
    }
    filled_area
}

/// The rows filled up to any row are the start of the rows filled up to a
/// later one.
pub proof fn lemma_rows_fill_prefix(edges: Seq<Edge>, from: int, k: int, to: int)
    requires
        from <= k <= to,
    ensures
        rows_fill(edges, from, k) == rows_fill(edges, from, to).subrange(0, rows_fill(edges, from, k).len() as int),
        rows_fill(edges, from, k).len() <= rows_fill(edges, from, to).len(),
    decreases to - k,
{
    if k < to {
        lemma_rows_fill_prefix(edges, from, k, to - 1);
        let a = rows_fill(edges, from, k);
        let b = rows_fill(edges, from, to - 1);
        assert(rows_fill(edges, from, to) == b + row_fill(edges, to - 1));
        assert((b + row_fill(edges, to - 1)).subrange(0, a.len() as int) =~= b.subrange(0, a.len() as int));
    } else {
        assert(rows_fill(edges, from, to).subrange(0, rows_fill(edges, from, to).len() as int) =~= rows_fill(edges, from, to));
    }
}

/// A timeout only cuts the fill short: what a fill cut at the clock
/// returns is the start of the complete fill, never a reordering or a
/// change of its cells.
pub proof fn lemma_cut_fill_is_prefix(outer: Seq<(i32, i32)>, edges: Seq<Edge>, r: Seq<(i32, i32)>)
    requires
        is_row_prefix_of(outer, edges, r),
    ensures
        r.len() <= complete_fill_of(outer, edges).len(),
        r == complete_fill_of(outer, edges).subrange(0, r.len() as int),
{
    let k = choose|k: int|
        ring_min_z(outer) <= k <= ring_max_z(outer) + 1 && r == rows_fill(edges, ring_min_z(outer), k);
    lemma_rows_fill_prefix(edges, ring_min_z(outer), k, ring_max_z(outer) + 1);
}

/// A copy of a list of points.
pub fn copy_points(v: &Vec<(i32, i32)>) -> (r: Vec<(i32, i32)>)
    ensures
        r@ == v@,
{
    let mut r: Vec<(i32, i32)> = Vec::new();
    let mut i: usize = 0;
    while i < v.len()
        invariant
            0 <= i <= v@.len(),
            r@ == v@.subrange(0, i as int),
        decreases v@.len() - i,
    {
        r.push(v[i]);
        i = i + 1;
        assert(r@ =~= v@.subrange(0, i as int));
    }
    assert(v@.subrange(0, v@.len() as int) =~= v@);
    r
}

/// Fills a simple polygon (no holes); nothing for fewer than three points.
pub fn flood_fill_area(polygon_coords: &Vec<(i32, i32)>, timeout: Option<&Duration>) -> (r: Vec<
    (i32, i32),
>)
    requires
        polygon_coords@.len() >= 3 ==> outer_extent_fits(polygon_coords@),
    ensures
        timeout is None ==> r@ == complete_fill_of(
            polygon_coords@,
            all_ring_edges(polygon_coords@),
        ),
        timeout is Some ==> (r@ == complete_fill_of(
            polygon_coords@,
            all_ring_edges(polygon_coords@),
        ) || is_row_prefix_of(polygon_coords@, all_ring_edges(polygon_coords@), r@)),
{
    if polygon_coords.len() < 3 {
        return Vec::new();
    }
    let complex_poly = ComplexPolygon { outer: copy_points(polygon_coords), inners: Vec::new() };
    assert(polygon_edges(&complex_poly) =~= all_ring_edges(polygon_coords@));
    scanline_fill_complex(&complex_poly, timeout)
}

/// The positions of a way's nodes, in order.
pub open spec fn way_ring(w: &ProcessedWay) -> Seq<(i32, i32)> {
    Seq::new(w.nodes@.len(), |i: int| (w.nodes@[i].x, w.nodes@[i].z))
}

/// The outer rings of the first `k` members, joined end to end.
pub open spec fn members_outer(m: Seq<ProcessedMember>, k: int) -> Seq<(i32, i32)>
    decreases k,
{
    if k <= 0 {
        Seq::empty()
    } else if m[k - 1].role == ProcessedMemberRole::Outer {
        members_outer(m, k - 1) + way_ring(&*m[k - 1].way)
    } else {
        members_outer(m, k - 1)
    }
}

/// The inner rings of the first `k` members, in order.
pub open spec fn members_inners(m: Seq<ProcessedMember>, k: int) -> Seq<Seq<(i32, i32)>>
    decreases k,
{
    if k <= 0 {
        Seq::empty()
    } else if m[k - 1].role == ProcessedMemberRole::Inner {
        members_inners(m, k - 1).push(way_ring(&*m[k - 1].way))
    } else {
        members_inners(m, k - 1)
    }
}

pub open spec fn rings_view(v: Seq<Vec<(i32, i32)>>) -> Seq<Seq<(i32, i32)>> {
    v.map_values(|r: Vec<(i32, i32)>| r@)
}

/// The positions of a way's nodes, in order.
pub fn way_points_of(w: &ProcessedWay) -> (r: Vec<(i32, i32)>)
    ensures
        r@ == way_ring(w),
{
    let mut r: Vec<(i32, i32)> = Vec::new();
    let mut i: usize = 0;
    while i < w.nodes.len()
        invariant
            0 <= i <= w.nodes@.len(),
            r@ == way_ring(w).subrange(0, i as int),
        decreases w.nodes@.len() - i,
    {
        r.push((w.nodes[i].x, w.nodes[i].z));
        i = i + 1;
        assert(r@ =~= way_ring(w).subrange(0, i as int));
    }
    assert(way_ring(w).subrange(0, i as int) =~= way_ring(w));
    r
}

/// The polygon that an element outlines: a way's nodes form the outer ring;
/// for a relation, the rings of its outer members are joined into the outer
/// ring and its inner members give the holes (`None` when it has no outer
/// point). A node outlines nothing.
pub fn extract_complex_polygon_from_element(element: &ProcessedElement) -> (r: Option<
    ComplexPolygon,
>)
    ensures
        match element {
            ProcessedElement::Node(_) => r is None,
            ProcessedElement::Way(w) => r matches Some(p) && p.outer@ == way_ring(&**w)
                && p.inners@.len() == 0,
            ProcessedElement::Relation(rel) => {
                let outer = members_outer(rel.members@, rel.members@.len() as int);
                if outer.len() == 0 {
                    r is None
                } else {
                    r matches Some(p) && p.outer@ == outer && rings_view(p.inners@)
                        == members_inners(rel.members@, rel.members@.len() as int)
                }
            },
        },
{
    match element {
        ProcessedElement::Way(w) => {
            let outer = way_points_of(w);
            Some(ComplexPolygon { outer, inners: Vec::new() })
        },
        ProcessedElement::Relation(rel) => {
            let mut outer_ring: Vec<(i32, i32)> = Vec::new();
            let mut inner_rings: Vec<Vec<(i32, i32)>> = Vec::new();
            let mut k: usize = 0;
            while k < rel.members.len()
                invariant
                    0 <= k <= rel.members@.len(),
                    outer_ring@ == members_outer(rel.members@, k as int),
                    rings_view(inner_rings@) == members_inners(rel.members@, k as int),
                decreases rel.members@.len() - k,
            {
                let member = &rel.members[k];
                let ring = way_points_of(&member.way);
                if member.role == ProcessedMemberRole::Outer {
                    let mut ring = ring;
                    outer_ring.append(&mut ring);
                } else if member.role == ProcessedMemberRole::Inner {
                    let ghost before = inner_rings@;
                    inner_rings.push(ring);
                    assert(rings_view(inner_rings@) =~= rings_view(before).push(
                        way_ring(&*rel.members@[k as int].way),
                    ));
                }
                k = k + 1;
            }
            if outer_ring.len() == 0 {
                None
            } else {
                Some(ComplexPolygon { outer: outer_ring, inners: inner_rings })
            }
        },
        ProcessedElement::Node(_) => None,
    }
}

} // verus!
