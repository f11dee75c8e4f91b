//! Holes in the scanline fill: a cell that the crossings of its row place
//! strictly inside the outer ring and strictly inside one hole, and outside
//! every other hole, is never filled.

use vstd::prelude::*;
use crate::floodfill::{
    all_ring_edges, complete_fill, complete_fill_of, edge_active, edge_crossing, frac_ceil,
    frac_floor, frac_gt, insert_sorted, pair_spans, polygon_edges, polygon_edges_upto, ring_edge,
    ring_edge_horizontal, ring_edges, ring_max_z, ring_min_z, row_crossings, row_fill, rows_fill,
    sort_fracs, span, ComplexPolygon, Edge,
};

verus! {

/// Fraction `q` (with a positive denominator) lies left of `x`.
pub open spec fn frac_below(q: (int, int), x: int) -> bool {
    q.0 < x * q.1
}

/// How many of the fractions `s` lie left of `x`.
pub open spec fn count_below(s: Seq<(int, int)>, x: int) -> nat
    decreases s.len(),
{
    if s.len() == 0 {
        0
    } else {
        count_below(s.drop_last(), x) + (if frac_below(s.last(), x) {
            1nat
        } else {
            0nat
        })
    }
}

/// Where the edges of a ring cross row `z`.
pub open spec fn ring_row_crossings(ring: Seq<(i32, i32)>, z: int) -> Seq<(int, int)> {
    row_crossings(all_ring_edges(ring), z, all_ring_edges(ring).len() as int)
}

/// No edge of the ring crosses row `z` exactly at `x`.
pub open spec fn clear_of(ring: Seq<(i32, i32)>, x: int, z: int) -> bool {
    forall|i: int|
        0 <= i < ring_row_crossings(ring, z).len() ==> (#[trigger] ring_row_crossings(ring, z)[i]).0
            != x * ring_row_crossings(ring, z)[i].1
}

/// Cell `(x, z)` lies strictly inside a ring by the even-odd rule: the
/// ring's edges cross its row an odd number of times left of it, and none
/// passes through it.
pub open spec fn strictly_inside(ring: Seq<(i32, i32)>, x: int, z: int) -> bool {
    clear_of(ring, x, z) && count_below(ring_row_crossings(ring, z), x) % 2 == 1
}

/// Cell `(x, z)` lies strictly outside a ring by the even-odd rule.
pub open spec fn strictly_outside(ring: Seq<(i32, i32)>, x: int, z: int) -> bool {
    clear_of(ring, x, z) && count_below(ring_row_crossings(ring, z), x) % 2 == 0
}

/// A crossing with a positive denominator whose floor and ceiling are
/// 32-bit.
pub open spec fn good_frac(q: (int, int)) -> bool {
    q.1 > 0 && i32::MIN <= frac_ceil(q) && frac_floor(q) <= i32::MAX
}

/// The fractions are in order, left to right.
pub open spec fn fracs_sorted(s: Seq<(int, int)>) -> bool {
    forall|i: int, j: int| 0 <= i < j < s.len() ==> !frac_gt(#[trigger] s[i], #[trigger] s[j])
}

/// The edges run upwards.
pub open spec fn edges_proper(e: Seq<Edge>) -> bool {
    forall|i: int| 0 <= i < e.len() ==> (#[trigger] e[i]).1 < e[i].3
}

proof fn lemma_ring_edges_proper(ring: Seq<(i32, i32)>, n: int)
    requires
        0 <= n <= ring.len(),
    ensures
        edges_proper(ring_edges(ring, n)),
    decreases n,
{
    if n > 0 {
        lemma_ring_edges_proper(ring, n - 1);
        if !ring_edge_horizontal(ring, n - 1) {
            let p = ring_edges(ring, n - 1);
            let e = ring_edge(ring, n - 1);
            assert(e.1 < e.3);
            assert forall|i: int| 0 <= i < p.push(e).len() implies (#[trigger] p.push(e)[i]).1 < p.push(e)[i].3 by {
                if i < p.len() {
                    assert(p.push(e)[i] == p[i]);
                }
            }
        }
    }
}

proof fn lemma_polygon_edges_proper(outer: Seq<(i32, i32)>, inners: Seq<Vec<(i32, i32)>>, k: int)
    requires
        0 <= k <= inners.len(),
    ensures
        edges_proper(polygon_edges_upto(outer, inners, k)),
    decreases k,
{
    if k == 0 {
        lemma_ring_edges_proper(outer, outer.len() as int);
    } else {
        lemma_polygon_edges_proper(outer, inners, k - 1);
        lemma_ring_edges_proper(inners[k - 1]@, inners[k - 1]@.len() as int);
        let a = polygon_edges_upto(outer, inners, k - 1);
        let b = all_ring_edges(inners[k - 1]@);
        assert forall|i: int| 0 <= i < (a + b).len() implies (#[trigger] (a + b)[i]).1 < (a + b)[i].3 by {
            if i < a.len() {
                assert((a + b)[i] == a[i]);
            } else {
                assert((a + b)[i] == b[i - a.len()]);
            }
        }
    }
}

/// The crossings of a row by the first `m` edges of `a + b`, for `m` within
/// `a`, are those by the first `m` edges of `a`.
proof fn lemma_row_crossings_prefix(a: Seq<Edge>, b: Seq<Edge>, z: int, m: int)
    requires
        0 <= m <= a.len(),
    ensures
        row_crossings(a + b, z, m) == row_crossings(a, z, m),
    decreases m,
{
    if m > 0 {
        lemma_row_crossings_prefix(a, b, z, m - 1);
        assert((a + b)[m - 1] == a[m - 1]);
    }
}

/// The crossings of a row by `a + b` are those by `a`, then those by `b`.
proof fn lemma_row_crossings_concat(a: Seq<Edge>, b: Seq<Edge>, z: int, n: int)
    requires
        0 <= n <= b.len(),
    ensures
        row_crossings(a + b, z, a.len() + n) == row_crossings(a, z, a.len() as int) + row_crossings(b, z, n),
    decreases n,
{
    if n == 0 {
        lemma_row_crossings_prefix(a, b, z, a.len() as int);
        assert(row_crossings(a, z, a.len() as int) + row_crossings(b, z, 0) =~= row_crossings(a, z, a.len() as int));
    } else {
        lemma_row_crossings_concat(a, b, z, n - 1);
        assert((a + b)[a.len() + n - 1] == b[n - 1]);
        let p = row_crossings(a, z, a.len() as int);
        let q = row_crossings(b, z, n - 1);
        if edge_active(b[n - 1], z) {
            assert((p + q).push(edge_crossing(b[n - 1], z)) =~= p + q.push(edge_crossing(b[n - 1], z)));
        }
    }
}

proof fn lemma_count_concat(a: Seq<(int, int)>, b: Seq<(int, int)>, x: int)
    ensures
        count_below(a + b, x) == count_below(a, x) + count_below(b, x),
    decreases b.len(),
{
    if b.len() == 0 {
        assert(a + b =~= a);
    } else {
        lemma_count_concat(a, b.drop_last(), x);
        assert((a + b).drop_last() =~= a + b.drop_last());
        assert((a + b).last() == b.last());
    }
}

proof fn lemma_crossings_good(e: Seq<Edge>, z: int, n: int)
    requires
        0 <= n <= e.len(),
        edges_proper(e),
    ensures
        forall|i: int| 0 <= i < row_crossings(e, z, n).len() ==> good_frac(#[trigger] row_crossings(e, z, n)[i]),
    decreases n,
{
    if n > 0 {
        lemma_crossings_good(e, z, n - 1);
        if edge_active(e[n - 1], z) {
            let p = row_crossings(e, z, n - 1);
            let q = edge_crossing(e[n - 1], z);
            crate::floodfill::lemma_crossing_between(e[n - 1], z);
            assert(good_frac(q));
            assert(row_crossings(e, z, n) == p.push(q));
            assert forall|i: int| 0 <= i < p.push(q).len() implies good_frac(#[trigger] p.push(q)[i]) by {
                if i < p.len() {
                    assert(p.push(q)[i] == p[i]);
                    assert(good_frac(row_crossings(e, z, n - 1)[i]));
                }
            }
        } else {
            assert(row_crossings(e, z, n) == row_crossings(e, z, n - 1));
        }
    }
}

/// Every element of `insert_sorted(t, q)` is `q` or an element of `t`, so
/// any property they all have, it has.
proof fn lemma_insert_keeps(t: Seq<(int, int)>, q: (int, int), p: spec_fn((int, int)) -> bool)
    requires
        forall|i: int| 0 <= i < t.len() ==> p(#[trigger] t[i]),
        p(q),
    ensures
        forall|i: int| 0 <= i < insert_sorted(t, q).len() ==> p(#[trigger] insert_sorted(t, q)[i]),
        insert_sorted(t, q).len() == t.len() + 1,
    decreases t.len(),
{
    if t.len() == 0 {
    } else if !frac_gt(t.last(), q) {
        assert forall|i: int| 0 <= i < t.push(q).len() implies p(#[trigger] t.push(q)[i]) by {
            if i < t.len() {
                assert(t.push(q)[i] == t[i]);
            }
        }
    } else {
        let d = t.drop_last();
        assert forall|i: int| 0 <= i < d.len() implies p(#[trigger] d[i]) by {
            assert(d[i] == t[i]);
        }
        lemma_insert_keeps(d, q, p);
        let r = insert_sorted(d, q);
        assert(p(t[t.len() - 1]));
        assert forall|i: int| 0 <= i < r.push(t.last()).len() implies p(#[trigger] r.push(t.last())[i]) by {
            if i < r.len() {
                assert(r.push(t.last())[i] == r[i]);
            }
        }
    }
}

proof fn lemma_sort_keeps(s: Seq<(int, int)>, p: spec_fn((int, int)) -> bool)
    requires
        forall|i: int| 0 <= i < s.len() ==> p(#[trigger] s[i]),
    ensures
        forall|i: int| 0 <= i < sort_fracs(s).len() ==> p(#[trigger] sort_fracs(s)[i]),
        sort_fracs(s).len() == s.len(),
    decreases s.len(),
{
    if s.len() > 0 {
        let d = s.drop_last();
        assert forall|i: int| 0 <= i < d.len() implies p(#[trigger] d[i]) by {
            assert(d[i] == s[i]);
        }
        lemma_sort_keeps(d, p);
        assert(p(s[s.len() - 1]));
        lemma_insert_keeps(sort_fracs(d), s.last(), p);
    }
}

proof fn lemma_insert_count(t: Seq<(int, int)>, q: (int, int), x: int)
    ensures
        count_below(insert_sorted(t, q), x) == count_below(t, x) + (if frac_below(q, x) { 1nat } else { 0nat }),
    decreases t.len(),
{
    if t.len() == 0 {
        assert(seq![q].drop_last() =~= Seq::<(int, int)>::empty());
        assert(count_below(Seq::<(int, int)>::empty(), x) == 0);
        assert(insert_sorted(t, q) == seq![q]);
        assert(seq![q].last() == q);
    } else if !frac_gt(t.last(), q) {
        assert(t.push(q).drop_last() =~= t);
        assert(t.push(q).last() == q);
    } else {
        lemma_insert_count(t.drop_last(), q, x);
        let r = insert_sorted(t.drop_last(), q);
        assert(r.push(t.last()).drop_last() =~= r);
        assert(r.push(t.last()).last() == t.last());
    }
}

proof fn lemma_sort_count(s: Seq<(int, int)>, x: int)
    ensures
        count_below(sort_fracs(s), x) == count_below(s, x),
    decreases s.len(),
{
    if s.len() > 0 {
        lemma_sort_count(s.drop_last(), x);
        lemma_insert_count(sort_fracs(s.drop_last()), s.last(), x);
    }
}

proof fn lemma_le_trans(a: (int, int), b: (int, int), c: (int, int))
    requires
        a.1 > 0,
        b.1 > 0,
        c.1 > 0,
        !frac_gt(a, b),
        !frac_gt(b, c),
    ensures
        !frac_gt(a, c),
{
    assert(a.0 * c.1 <= c.0 * a.1) by (nonlinear_arith)
        requires
            a.1 > 0,
            b.1 > 0,
            c.1 > 0,
            a.0 * b.1 <= b.0 * a.1,
            b.0 * c.1 <= c.0 * b.1,
    ;
}

proof fn lemma_insert_sorted_sorted(t: Seq<(int, int)>, q: (int, int))
    requires
        fracs_sorted(t),
        forall|i: int| 0 <= i < t.len() ==> (#[trigger] t[i]).1 > 0,
        q.1 > 0,
    ensures
        fracs_sorted(insert_sorted(t, q)),
    decreases t.len(),
{
    if t.len() == 0 {
    } else if !frac_gt(t.last(), q) {
        let r = t.push(q);
        assert forall|i: int, j: int| 0 <= i < j < r.len() implies !frac_gt(#[trigger] r[i], #[trigger] r[j]) by {
            if j < t.len() {
                assert(r[i] == t[i] && r[j] == t[j]);
            } else {
                assert(r[i] == t[i]);
                if i < t.len() - 1 {
                    lemma_le_trans(t[i], t[t.len() - 1], q);
                }
            }
        }
    } else {
        let d = t.drop_last();
        let l = t.last();
        assert forall|i: int, j: int| 0 <= i < j < d.len() implies !frac_gt(#[trigger] d[i], #[trigger] d[j]) by {
            assert(d[i] == t[i] && d[j] == t[j]);
        }
        lemma_insert_sorted_sorted(d, q);
        let below_l = |e: (int, int)| !frac_gt(e, l);
        assert forall|i: int| 0 <= i < d.len() implies below_l(#[trigger] d[i]) by {
            assert(d[i] == t[i]);
            assert(!frac_gt(t[i], t[t.len() - 1]));
        }
        assert(below_l(q)) by {
            assert(frac_gt(l, q));
            assert(!frac_gt(q, l)) by (nonlinear_arith)
                requires
                    l.0 * q.1 > q.0 * l.1,
            ;
        }
        lemma_insert_keeps(d, q, below_l);
        let r = insert_sorted(d, q);
        let rr = r.push(l);
        assert forall|i: int, j: int| 0 <= i < j < rr.len() implies !frac_gt(#[trigger] rr[i], #[trigger] rr[j]) by {
            if j < r.len() {
                assert(rr[i] == r[i] && rr[j] == r[j]);
            } else {
                assert(rr[i] == r[i]);
                assert(below_l(r[i]));
            }
        }
    }
}

proof fn lemma_sort_sorted(s: Seq<(int, int)>)
    requires
        forall|i: int| 0 <= i < s.len() ==> (#[trigger] s[i]).1 > 0,
    ensures
        fracs_sorted(sort_fracs(s)),
    decreases s.len(),
{
    if s.len() > 0 {
        let d = s.drop_last();
        assert forall|i: int| 0 <= i < d.len() implies (#[trigger] d[i]).1 > 0 by {
            assert(d[i] == s[i]);
        }
        lemma_sort_sorted(d);
        let pos = |e: (int, int)| e.1 > 0;
        lemma_sort_keeps(d, pos);
        assert(s[s.len() - 1].1 > 0);
        lemma_insert_sorted_sorted(sort_fracs(d), s.last());
    }
}

/// When the first `m` fractions lie left of `x` and the rest do not, `m`
/// of them lie left of `x`.
proof fn lemma_count_exact(s: Seq<(int, int)>, x: int, m: int)
    requires
        0 <= m <= s.len(),
        forall|i: int| 0 <= i < m ==> frac_below(#[trigger] s[i], x),
        forall|i: int| m <= i < s.len() ==> !frac_below(#[trigger] s[i], x),
    ensures
        count_below(s, x) == m,
    decreases s.len(),
{
    if s.len() > 0 {
        let d = s.drop_last();
        if m == s.len() {
            assert forall|i: int| 0 <= i < m - 1 implies frac_below(#[trigger] d[i], x) by {
                assert(d[i] == s[i]);
            }
            lemma_count_exact(d, x, m - 1);
            assert(frac_below(s[s.len() - 1], x));
        } else {
            assert forall|i: int| 0 <= i < m implies frac_below(#[trigger] d[i], x) by {
                assert(d[i] == s[i]);
            }
            assert forall|i: int| m <= i < d.len() implies !frac_below(#[trigger] d[i], x) by {
                assert(d[i] == s[i]);
            }
            lemma_count_exact(d, x, m);
            assert(!frac_below(s[s.len() - 1], x));
        }
    }
}

/// A cell of the `j`-th pair of sorted crossings, none of which passes
/// through the cell, has `2 j + 1` crossings left of it.
proof fn lemma_pair_count(s: Seq<(int, int)>, x: int, j: int)
    requires
        0 <= j,
        2 * j + 1 < s.len(),
        fracs_sorted(s),
        forall|i: int| 0 <= i < s.len() ==> (#[trigger] s[i]).1 > 0 && s[i].0 != x * s[i].1,
        frac_ceil(s[2 * j]) <= x <= frac_floor(s[2 * j + 1]),
    ensures
        count_below(s, x) == 2 * j + 1,
{
    let a = s[2 * j];
    let b = s[2 * j + 1];
    assert(a.0 <= x * a.1) by (nonlinear_arith)
        requires
            a.1 > 0,
            -((-a.0) / a.1) <= x,
    ;
    assert(x * b.1 <= b.0) by (nonlinear_arith)
        requires
            b.1 > 0,
            x <= b.0 / b.1,
    ;
    assert forall|i: int| 0 <= i < 2 * j + 1 implies frac_below(#[trigger] s[i], x) by {
        let c = s[i];
        if i < 2 * j {
            assert(!frac_gt(s[i], s[2 * j]));
        }
        assert(c.0 * a.1 <= a.0 * c.1);
        assert(c.0 < x * c.1) by (nonlinear_arith)
            requires
                c.1 > 0,
                a.1 > 0,
                c.0 * a.1 <= a.0 * c.1,
                a.0 < x * a.1,
        ;
    }
    assert forall|i: int| 2 * j + 1 <= i < s.len() implies !frac_below(#[trigger] s[i], x) by {
        let c = s[i];
        if i > 2 * j + 1 {
            assert(!frac_gt(s[2 * j + 1], s[i]));
        }
        assert(b.0 * c.1 <= c.0 * b.1);
        assert(x * c.1 <= c.0) by (nonlinear_arith)
            requires
                c.1 > 0,
                b.1 > 0,
                b.0 * c.1 <= c.0 * b.1,
                x * b.1 < b.0,
        ;
    }
    lemma_count_exact(s, x, 2 * j + 1);
}

/// A cell of the spans of the first `m` pairs lies in one of them.
proof fn lemma_in_pair_spans(s: Seq<(int, int)>, z: int, m: int, c: (i32, i32))
    requires
        0 <= m,
        pair_spans(s, z, m).contains(c),
    ensures
        exists|j: int| 0 <= j < m && #[trigger] span(frac_ceil(s[2 * j]), frac_floor(s[2 * j + 1]), z).contains(c),
    decreases m,
{
    if m > 0 {
        let a = pair_spans(s, z, m - 1);
        let b = span(frac_ceil(s[2 * m - 2]), frac_floor(s[2 * m - 1]), z);
        let k = choose|k: int| 0 <= k < (a + b).len() && (a + b)[k] == c;
        if k < a.len() {
            assert(a[k] == c);
            lemma_in_pair_spans(s, z, m - 1, c);
        } else {
            assert(b[k - a.len()] == c);
            assert(span(frac_ceil(s[2 * (m - 1)]), frac_floor(s[2 * (m - 1) + 1]), z).contains(c));
        }
    }
}

/// A cell of the rows `from .. to` lies in one of them.
proof fn lemma_in_rows(edges: Seq<Edge>, from: int, to: int, c: (i32, i32))
    requires
        rows_fill(edges, from, to).contains(c),
    ensures
        exists|r: int| from <= r < to && #[trigger] row_fill(edges, r).contains(c),
    decreases to - from,
{
    if to > from {
        let a = rows_fill(edges, from, to - 1);
        let b = row_fill(edges, to - 1);
        assert(rows_fill(edges, from, to) == a + b);
        let k = choose|k: int| 0 <= k < (a + b).len() && (a + b)[k] == c;
        if k < a.len() {
            assert(a[k] == c);
            lemma_in_rows(edges, from, to - 1, c);
        } else {
            assert(b[k - a.len()] == c);
            assert(row_fill(edges, to - 1).contains(c));
        }
    }
}

/// How many crossings of row `z` by the first `k` holes lie left of `x`.
pub open spec fn holes_count_below(inners: Seq<Vec<(i32, i32)>>, k: int, x: int, z: int) -> nat
    decreases k,
{
    if k <= 0 {
        0
    } else {
        holes_count_below(inners, k - 1, x, z) + count_below(ring_row_crossings(inners[k - 1]@, z), x)
    }
}

/// The crossings of a row by the outer ring and the first `k` holes: how
/// many lie left of `x`, that all are good fractions, and that none
/// passes through `x` when no ring's does.
proof fn lemma_polygon_crossings(outer: Seq<(i32, i32)>, inners: Seq<Vec<(i32, i32)>>, k: int, x: int, z: int)
    requires
        0 <= k <= inners.len(),
    ensures
        ({
            let e = polygon_edges_upto(outer, inners, k);
            let s = row_crossings(e, z, e.len() as int);
            &&& count_below(s, x) == count_below(ring_row_crossings(outer, z), x) + holes_count_below(inners, k, x, z)
            &&& (clear_of(outer, x, z) && (forall|j: int| 0 <= j < k ==> clear_of(#[trigger] inners[j]@, x, z)))
                ==> forall|i: int| 0 <= i < s.len() ==> (#[trigger] s[i]).0 != x * s[i].1
        }),
    decreases k,
{
    if k > 0 {
        lemma_polygon_crossings(outer, inners, k - 1, x, z);
        let a = polygon_edges_upto(outer, inners, k - 1);
        let b = all_ring_edges(inners[k - 1]@);
        lemma_row_crossings_concat(a, b, z, b.len() as int);
        let sa = row_crossings(a, z, a.len() as int);
        let sb = row_crossings(b, z, b.len() as int);
        assert(polygon_edges_upto(outer, inners, k) == a + b);
        assert((a + b).len() == a.len() + b.len());
        lemma_count_concat(sa, sb, x);
        if clear_of(outer, x, z) && (forall|j: int| 0 <= j < k ==> clear_of(#[trigger] inners[j]@, x, z)) {
            assert(clear_of(inners[k - 1]@, x, z));
            assert forall|j: int| 0 <= j < k - 1 implies clear_of(#[trigger] inners[j]@, x, z) by {}
            assert forall|i: int| 0 <= i < (sa + sb).len() implies (#[trigger] (sa + sb)[i]).0 != x * (sa + sb)[i].1 by {
                if i < sa.len() {
                    assert((sa + sb)[i] == sa[i]);
                } else {
                    assert((sa + sb)[i] == sb[i - sa.len()]);
                }
            }
        }
    }
}

/// With hole `k` the only one of the first `n` holes that holds the cell,
/// the crossings of those holes left of the cell are odd in number exactly
/// when hole `k` is among them.
proof fn lemma_holes_parity(inners: Seq<Vec<(i32, i32)>>, n: int, k: int, x: int, z: int)
    requires
        0 <= n <= inners.len(),
        0 <= k < inners.len(),
        count_below(ring_row_crossings(inners[k]@, z), x) % 2 == 1,
        forall|j: int| 0 <= j < inners.len() && j != k ==> count_below(ring_row_crossings(#[trigger] inners[j]@, z), x) % 2 == 0,
    ensures
        holes_count_below(inners, n, x, z) % 2 == (if k < n { 1int } else { 0int }),
    decreases n,
{
    if n > 0 {
        lemma_holes_parity(inners, n - 1, k, x, z);
        if n - 1 != k {
            assert(count_below(ring_row_crossings(inners[n - 1]@, z), x) % 2 == 0);
        }
    }
}

/// The holes of a polygon are cut out of its fill: a cell that its row's
/// crossings place strictly inside the outer ring and strictly inside one
/// hole, and strictly outside every other hole, is not filled, whichever
/// hole it is in and however many holes there are.
pub proof fn lemma_holes_are_cut_out(p: &ComplexPolygon, k: int, x: int, z: int)
    requires
        0 <= k < p.inners@.len(),
        i32::MIN <= x <= i32::MAX,
        i32::MIN <= z <= i32::MAX,
        strictly_inside(p.outer@, x, z),
        strictly_inside(p.inners@[k]@, x, z),
        forall|j: int| 0 <= j < p.inners@.len() && j != k ==> strictly_outside(#[trigger] p.inners@[j]@, x, z),
    ensures
        !complete_fill(p).contains((x as i32, z as i32)),
{
    let outer = p.outer@;
    let inners = p.inners@;
    let n = inners.len() as int;
    let e = polygon_edges(p);
    let c = (x as i32, z as i32);
    if outer.len() >= 3 && crate::floodfill::outer_bbox_area(outer) <= crate::floodfill::MAX_FLOOD_FILL_AREA
        && complete_fill(p).contains(c) {
        let from = ring_min_z(outer);
        let to = ring_max_z(outer) + 1;
        assert(complete_fill(p) == rows_fill(e, from, to));
        lemma_in_rows(e, from, to, c);
        let r = choose|r: int| from <= r < to && #[trigger] row_fill(e, r).contains(c);
        crate::floodfill::lemma_seq_min_max_bounds(outer, false, outer.len() as int);
        let cr = row_crossings(e, r, e.len() as int);
        let s = sort_fracs(cr);
        let m = s.len() / 2;
        lemma_in_pair_spans(s, r, m as int, c);
        let j = choose|j: int| 0 <= j < m && #[trigger] span(frac_ceil(s[2 * j]), frac_floor(s[2 * j + 1]), r).contains(c);
        // The cell is on row `r`, so `r` is `z`.
        let lo = frac_ceil(s[2 * j]);
        let hi = frac_floor(s[2 * j + 1]);
        let sp = span(lo, hi, r);
        let i = choose|i: int| 0 <= i < sp.len() && sp[i] == c;
        assert(r as i32 == z as i32);
        assert(r == z);
        // Crossings are good fractions, and none passes through the cell.
        lemma_polygon_edges_proper(outer, inners, n);
        lemma_crossings_good(e, z, e.len() as int);
        lemma_polygon_crossings(outer, inners, n, x, z);
        assert forall|jj: int| 0 <= jj < n implies clear_of(#[trigger] inners[jj]@, x, z) by {
            if jj != k {
                assert(strictly_outside(inners[jj]@, x, z));
            }
        }
        let good_clear = |q: (int, int)| good_frac(q) && q.0 != x * q.1;
        assert forall|ii: int| 0 <= ii < cr.len() implies good_clear(#[trigger] cr[ii]) by {
            assert(good_frac(cr[ii]));
        }
        lemma_sort_keeps(cr, good_clear);
        let pos = |q: (int, int)| q.1 > 0;
        assert forall|ii: int| 0 <= ii < cr.len() implies pos(#[trigger] cr[ii]) by {
            assert(good_clear(cr[ii]));
        }
        lemma_sort_sorted(cr);
        assert(2 * j + 1 < s.len());
        assert(good_clear(s[2 * j]) && good_clear(s[2 * j + 1]));
        assert(i32::MIN <= lo && hi <= i32::MAX);
        assert(lo + i == x) by {
            assert(sp[i] == ((lo + i) as i32, r as i32));
        }
        assert forall|ii: int| 0 <= ii < s.len() implies (#[trigger] s[ii]).1 > 0 && s[ii].0 != x * s[ii].1 by {
            assert(good_clear(s[ii]));
        }
        lemma_pair_count(s, x, j);
        lemma_sort_count(cr, x);
        // Left of the cell: an odd number of outer crossings plus an odd
        // number of hole crossings, an even count; yet the sorted
        // crossings put an odd number there.
        lemma_holes_parity(inners, n, k, x, z);
        assert(count_below(ring_row_crossings(outer, z), x) % 2 == 1);
        assert(false);
    }
}

} // verus!
