//! A one-bit-per-block coordinate set over the world's bounding box, and the
//! cache of polygon fills that the element processors share.

use vstd::prelude::*;
use vstd::relations::injective_on;
use vstd::set_lib::{lemma_map_size, lemma_set_disjoint_lens};
use crate::coordinate_system::XZBBox;
use crate::floodfill::{
    all_ring_edges, complete_fill_of, flood_fill_area, outer_extent_fits, way_ring, copy_points,
};
use crate::osm_parser::{ProcessedElement, ProcessedMember, ProcessedMemberRole, ProcessedWay};
use crate::tags::Tags;
use fnv::FnvHasher;
use std::collections::HashMap;
use std::hash::BuildHasherDefault;
use std::time::Duration;

verus! {

/// Bit `k` (0 = least significant) of a byte.
pub open spec fn byte_bit(b: u8, k: int) -> bool {
    (b >> (k as u8)) & 1u8 == 1u8
}

/// Bit `idx` of a byte string, bit 0 being the lowest bit of byte 0.
pub open spec fn bit_at(bits: Seq<u8>, idx: int) -> bool {
    byte_bit(bits[idx / 8], idx % 8)
}

/// Number of set bits with index in `lo .. hi`.
pub open spec fn count_set(bits: Seq<u8>, lo: int, hi: int) -> int
    decreases hi - lo,
{
    if hi <= lo {
        0
    } else {
        count_set(bits, lo, hi - 1) + (if bit_at(bits, hi - 1) { 1int } else { 0int })
    }
}

proof fn lemma_count_set_bounds(bits: Seq<u8>, lo: int, hi: int)
    requires
        lo <= hi,
    ensures
        0 <= count_set(bits, lo, hi) <= hi - lo,
    decreases hi - lo,
{
    if lo < hi {
        lemma_count_set_bounds(bits, lo, hi - 1);
    }
}

/// Two byte strings that agree on the bits of `lo .. hi` count the same there.
proof fn lemma_count_set_agree(a: Seq<u8>, b: Seq<u8>, lo: int, hi: int)
    requires
        forall|i: int| lo <= i < hi ==> bit_at(a, i) == bit_at(b, i),
    ensures
        count_set(a, lo, hi) == count_set(b, lo, hi),
    decreases hi - lo,
{
    if lo < hi {
        lemma_count_set_agree(a, b, lo, hi - 1);
    }
}

/// Turning one clear bit on adds one to every count over a range holding it.
proof fn lemma_count_set_one_more(a: Seq<u8>, b: Seq<u8>, lo: int, hi: int, idx: int)
    requires
        lo <= idx < hi,
        !bit_at(a, idx),
        bit_at(b, idx),
        forall|i: int| lo <= i < hi && i != idx ==> bit_at(a, i) == bit_at(b, i),
    ensures
        count_set(b, lo, hi) == count_set(a, lo, hi) + 1,
    decreases hi - lo,
{
    if hi - 1 == idx {
        lemma_count_set_agree(a, b, lo, hi - 1);
    } else {
        lemma_count_set_one_more(a, b, lo, hi - 1, idx);
    }
}

/// No set bit in a range means a zero count, and conversely.
/// The indices in `lo .. hi` whose bit is set.
pub open spec fn bit_index_set(bits: Seq<u8>, lo: int, hi: int) -> Set<int> {
    Set::new(|i: int| lo <= i < hi && bit_at(bits, i))
}

proof fn lemma_count_set_card(bits: Seq<u8>, lo: int, hi: int)
    requires
        lo <= hi,
    ensures
        bit_index_set(bits, lo, hi).finite(),
        count_set(bits, lo, hi) == bit_index_set(bits, lo, hi).len(),
    decreases hi - lo,
{
    if lo == hi {
        assert(bit_index_set(bits, lo, hi) =~= Set::<int>::empty());
    } else {
        lemma_count_set_card(bits, lo, hi - 1);
        let s0 = bit_index_set(bits, lo, hi - 1);
        if bit_at(bits, hi - 1) {
            assert(bit_index_set(bits, lo, hi) =~= s0.insert(hi - 1));
            assert(!s0.contains(hi - 1));
        } else {
            assert(bit_index_set(bits, lo, hi) =~= s0);
        }
    }
}

proof fn lemma_count_set_zero(bits: Seq<u8>, lo: int, hi: int)
    requires
        lo <= hi,
    ensures
        (count_set(bits, lo, hi) == 0) <==> (forall|i: int| lo <= i < hi ==> !bit_at(bits, i)),
    decreases hi - lo,
{
    if lo < hi {
        lemma_count_set_zero(bits, lo, hi - 1);
        lemma_count_set_bounds(bits, lo, hi - 1);
    }
}

proof fn lemma_set_bit(b: u8, k: u8)
    requires
        k < 8,
    ensures
        ((b | (1u8 << k)) >> k) & 1u8 == 1u8,
        forall|j: u8| j < 8 && j != k ==> ((b | (1u8 << k)) >> j) & 1u8 == (b >> j) & 1u8,
        ((b & (1u8 << k)) == 0u8) == ((b >> k) & 1u8 != 1u8),
{
    assert(((b | (1u8 << k)) >> k) & 1u8 == 1u8) by (bit_vector)
        requires
            k < 8,
    ;
    assert forall|j: u8| j < 8 && j != k implies ((b | (1u8 << k)) >> j) & 1u8 == (b >> j) & 1u8 by {
        assert(((b | (1u8 << k)) >> j) & 1u8 == (b >> j) & 1u8) by (bit_vector)
            requires
                j < 8,
                k < 8,
                j != k,
        ;
    }
    assert(((b & (1u8 << k)) == 0u8) == ((b >> k) & 1u8 != 1u8)) by (bit_vector)
        requires
            k < 8,
    ;
}

/// Row-major indices of distinct cells differ.
proof fn lemma_index_injective(a: int, b: int, c: int, d: int, w: int)
    requires
        0 <= a < w,
        0 <= c < w,
        0 <= b,
        0 <= d,
        b * w + a == d * w + c,
    ensures
        a == c,
        b == d,
{
    if b < d {
        assert(b * w + w <= d * w) by (nonlinear_arith)
            requires
                b < d,
                w > 0,
        ;
    } else if b > d {
        assert(d * w + w <= b * w) by (nonlinear_arith)
            requires
                d < b,
                w > 0,
        ;
    }
}

/// A set of block coordinates inside a bounding box, one bit per block, row
/// by row (`index = (z - min_z) * width + (x - min_x)`), with the number of
/// members kept alongside.
pub struct CoordinateBitmap {
    bits: Vec<u8>,
    min_x: i32,
    min_z: i32,
    width: usize,
    height: usize,
    count: usize,
}

/// The same bitmap, used for building footprints.
pub type BuildingFootprintBitmap = CoordinateBitmap;

impl CoordinateBitmap {
    /// Enough bytes for every block, and `count` is the number of set bits.
    pub closed spec fn wf(self) -> bool {
        &&& self.width >= 1
        &&& self.height >= 1
        &&& self.width * self.height <= usize::MAX
        &&& self.bits@.len() * 8 >= self.width * self.height
        &&& self.bits@.len() <= usize::MAX
        &&& self.min_x + self.width - 1 <= i32::MAX
        &&& self.min_z + self.height - 1 <= i32::MAX
        &&& self.count == count_set(self.bits@, 0, self.width * self.height)
    }

    pub closed spec fn spec_min_x(self) -> int {
        self.min_x as int
    }

    pub closed spec fn spec_min_z(self) -> int {
        self.min_z as int
    }

    pub closed spec fn spec_width(self) -> int {
        self.width as int
    }

    pub closed spec fn spec_height(self) -> int {
        self.height as int
    }

    /// Whether `(x, z)` lies in the covered box.
    pub open spec fn in_box(self, x: int, z: int) -> bool {
        &&& self.spec_min_x() <= x < self.spec_min_x() + self.spec_width()
        &&& self.spec_min_z() <= z < self.spec_min_z() + self.spec_height()
    }

    /// The bit that stands for a block of the box.
    pub open spec fn spec_index(self, x: int, z: int) -> int {
        (z - self.spec_min_z()) * self.spec_width() + (x - self.spec_min_x())
    }

    pub closed spec fn spec_bit(self, idx: int) -> bool {
        bit_at(self.bits@, idx)
    }

    /// Whether `(x, z)` is a member.
    pub open spec fn spec_contains(self, x: int, z: int) -> bool {
        self.in_box(x, z) && self.spec_bit(self.spec_index(x, z))
    }

    /// Number of members.
    pub closed spec fn spec_count(self) -> int {
        count_set(self.bits@, 0, self.width * self.height)
    }

    /// Number of members in the bits `lo .. hi` of the box.
    pub closed spec fn spec_count_bits(self, lo: int, hi: int) -> int {
        count_set(self.bits@, lo, hi)
    }

    /// An empty set over the box's blocks. The box must have at most
    /// `usize::MAX` blocks.
    pub fn new(xzbbox: &XZBBox) -> (r: CoordinateBitmap)
        requires
            (xzbbox.spec_max_x() - xzbbox.spec_min_x() + 1) * (xzbbox.spec_max_z()
                - xzbbox.spec_min_z() + 1) <= usize::MAX,
        ensures
            r.wf(),
            r.spec_min_x() == xzbbox.spec_min_x(),
            r.spec_min_z() == xzbbox.spec_min_z(),
            r.spec_width() == xzbbox.spec_max_x() - xzbbox.spec_min_x() + 1,
            r.spec_height() == xzbbox.spec_max_z() - xzbbox.spec_min_z() + 1,
            forall|x: int, z: int| !r.spec_contains(x, z),
            r.spec_count() == 0,
    {
        let min_x = xzbbox.min_x();
        let min_z = xzbbox.min_z();
        let ghost sw = xzbbox.spec_max_x() - xzbbox.spec_min_x() + 1;
        let ghost sh = xzbbox.spec_max_z() - xzbbox.spec_min_z() + 1;
        assert(sw <= usize::MAX && sh <= usize::MAX) by (nonlinear_arith)
            requires
                sw >= 1,
                sh >= 1,
                sw * sh <= usize::MAX,
        ;
        let width: usize = (xzbbox.max_x() as i64 - min_x as i64 + 1) as usize;
        let height: usize = (xzbbox.max_z() as i64 - min_z as i64 + 1) as usize;
        assert(width == xzbbox.spec_max_x() - xzbbox.spec_min_x() + 1);
        assert(height == xzbbox.spec_max_z() - xzbbox.spec_min_z() + 1);
        let total_bits: usize = width * height;
        let num_bytes: usize = total_bits / 8 + if total_bits % 8 == 0 { 0 } else { 1 };
        let bits: Vec<u8> = vec![0u8; num_bytes];
        proof {
            assert forall|i: int| 0 <= i < total_bits implies !bit_at(bits@, i) by {
                assert(bits@[i / 8] == 0u8);
                let k = (i % 8) as u8;
                assert((0u8 >> k) & 1u8 == 0u8) by (bit_vector);
            }
            lemma_count_set_zero(bits@, 0, total_bits as int);
            assert(num_bytes * 8 >= total_bits);
        }
        let r = CoordinateBitmap { bits, min_x, min_z, width, height, count: 0 };
        proof {
            assert forall|x: int, z: int| !r.spec_contains(x, z) by {
                if r.in_box(x, z) {
                    let idx = r.spec_index(x, z);
                    assert(0 <= idx < total_bits) by (nonlinear_arith)
                        requires
                            idx == (z - min_z) * width + (x - min_x),
                            0 <= x - min_x < width,
                            0 <= z - min_z < height,
                            total_bits == width * height,
                    ;
                }
            }
        }
        r
    }

    /// The bit of `(x, z)`, or `None` outside the box.
    fn coord_to_index(&self, x: i32, z: i32) -> (r: Option<usize>)
        requires
            self.wf(),
        ensures
            match r {
                Some(i) => self.in_box(x as int, z as int) && i == self.spec_index(x as int, z as int)
                    && i < self.spec_width() * self.spec_height(),
                None => !self.in_box(x as int, z as int),
            },
    {
        let local_x: i64 = x as i64 - self.min_x as i64;
        let local_z: i64 = z as i64 - self.min_z as i64;
        if local_x < 0 || local_z < 0 {
            return None;
        }
        let local_x = local_x as usize;
        let local_z = local_z as usize;
        if local_x >= self.width || local_z >= self.height {
            return None;
        }
        assert(local_z * self.width + local_x < self.width * self.height) by (nonlinear_arith)
            requires
                local_x < self.width,
                local_z < self.height,
        ;
        Some(local_z * self.width + local_x)
    }

    /// Adds `(x, z)`; points outside the box are ignored.
    pub fn set(&mut self, x: i32, z: i32)
        requires
            old(self).wf(),
        ensures
            final(self).wf(),
            final(self).spec_min_x() == old(self).spec_min_x(),
            final(self).spec_min_z() == old(self).spec_min_z(),
            final(self).spec_width() == old(self).spec_width(),
            final(self).spec_height() == old(self).spec_height(),
            forall|px: int, pz: int|
                #[trigger] final(self).spec_contains(px, pz) == (old(self).spec_contains(px, pz) || (
                px == x && pz == z && old(self).in_box(px, pz))),
            final(self).spec_count() == old(self).spec_count() + (if old(self).in_box(
                x as int,
                z as int,
            ) && !old(self).spec_contains(x as int, z as int) {
                1int
            } else {
                0int
            }),
    {
        if let Some(bit_index) = self.coord_to_index(x, z) {
            let byte_index = bit_index / 8;
            let bit_offset: u8 = (bit_index % 8) as u8;
            let mask: u8 = 1u8 << bit_offset;
            let byte = self.bits[byte_index];
            proof {
                lemma_set_bit(byte, bit_offset);
            }
            if byte & mask == 0 {
                let ghost old_bits = self.bits@;
                self.bits.set(byte_index, byte | mask);
                let ghost bits = self.bits;
                proof {
                    let total = self.width * self.height;
                    assert forall|i: int| 0 <= i < bits@.len() * 8 && i != bit_index implies bit_at(
                        bits@,
                        i,
                    ) == bit_at(old_bits, i) by {
                        if i / 8 != byte_index {
                            assert(bits@[i / 8] == old_bits[i / 8]);
                        } else {
                            assert((i % 8) as u8 != bit_offset);
                        }
                    }
                    assert(bit_at(bits@, bit_index as int));
                    lemma_count_set_one_more(old_bits, bits@, 0, total as int, bit_index as int);
                    lemma_count_set_bounds(bits@, 0, total as int);
                }
                self.count = self.count + 1;
                proof {
                    assert forall|px: int, pz: int| #[trigger]
                        self.spec_contains(px, pz) == (old(self).spec_contains(px, pz) || (px == x
                            && pz == z && old(self).in_box(px, pz))) by {
                        if self.in_box(px, pz) {
                            let idx = self.spec_index(px, pz);
                            assert(0 <= idx < self.width * self.height) by (nonlinear_arith)
                                requires
                                    idx == (pz - self.min_z) * self.width + (px - self.min_x),
                                    0 <= px - self.min_x < self.width,
                                    0 <= pz - self.min_z < self.height,
                            ;
                            if idx == bit_index {
                                lemma_index_injective(
                                    px - self.min_x,
                                    pz - self.min_z,
                                    x - self.min_x,
                                    z - self.min_z,
                                    self.width as int,
                                );
                            }
                        }
                    }
                }
            } else {
                assert(bit_at(self.bits@, bit_index as int));
            }
        }
    }

    /// Whether `(x, z)` is a member; always false outside the box.
    pub fn contains(&self, x: i32, z: i32) -> (b: bool)
        requires
            self.wf(),
        ensures
            b == self.spec_contains(x as int, z as int),
    {
        if let Some(bit_index) = self.coord_to_index(x, z) {
            let byte_index = bit_index / 8;
            let bit_offset: u8 = (bit_index % 8) as u8;
            return (self.bits[byte_index] >> bit_offset) & 1 == 1;
        }
        false
    }

    /// Whether there is no member.
    pub fn is_empty(&self) -> (b: bool)
        requires
            self.wf(),
        ensures
            b == (self.spec_count() == 0),
            b == (forall|x: int, z: int| !self.spec_contains(x, z)),
    {
        proof {
            self.lemma_empty_iff_no_member();
        }
        self.count == 0
    }

    /// The members of the set.
    pub open spec fn members(self) -> Set<(int, int)> {
        Set::new(|p: (int, int)| self.spec_contains(p.0, p.1))
    }

    /// The count of a set is the number of its members: after any sequence
    /// of `set` calls from an empty set, the count is the number of distinct
    /// points of the sequence that lie in the box (each `set` adds its point
    /// exactly when it lies in the box).
    pub proof fn lemma_count_is_members(self)
        requires
            self.wf(),
        ensures
            self.members().finite(),
            self.spec_count() == self.members().len(),
    {
        let w = self.width as int;
        let h = self.height as int;
        let mx = self.min_x as int;
        let mz = self.min_z as int;
        let total = w * h;
        assert(total >= 0) by (nonlinear_arith)
            requires
                w >= 1,
                h >= 1,
                total == w * h,
        ;
        let ind = bit_index_set(self.bits@, 0, total);
        lemma_count_set_card(self.bits@, 0, total);
        let f = |i: int| (mx + i % w, mz + i / w);
        assert(injective_on(f, ind)) by {
            assert forall|a: int, b: int|
                ind.contains(a) && ind.contains(b) && #[trigger] f(a) == #[trigger] f(b) implies a
                == b by {
                assert(a == w * (a / w) + a % w) by (nonlinear_arith)
                    requires
                        w >= 1,
                ;
                assert(b == w * (b / w) + b % w) by (nonlinear_arith)
                    requires
                        w >= 1,
                ;
            }
        }
        assert(ind.map(f) =~= self.members()) by {
            assert forall|p: (int, int)| self.members().contains(p) implies ind.map(f).contains(
                p,
            ) by {
                let lx = p.0 - mx;
                let lz = p.1 - mz;
                let i = lz * w + lx;
                assert(0 <= i < total && i % w == lx && i / w == lz) by (nonlinear_arith)
                    requires
                        0 <= lx < w,
                        0 <= lz < h,
                        i == lz * w + lx,
                        total == w * h,
                ;
                assert(i == self.spec_index(p.0, p.1));
                assert(ind.contains(i));
                assert(f(i) == p);
            }
            assert forall|p: (int, int)| ind.map(f).contains(p) implies self.members().contains(
                p,
            ) by {
                let i = choose|i: int| ind.contains(i) && p == f(i);
                let lx = i % w;
                let lz = i / w;
                assert(0 <= lx < w && 0 <= lz < h && lz * w + lx == i) by (nonlinear_arith)
                    requires
                        0 <= i < total,
                        total == w * h,
                        w >= 1,
                        lx == i % w,
                        lz == i / w,
                ;
                assert(self.spec_index(p.0, p.1) == i);
            }
        }
        lemma_map_size(ind, self.members(), f);
    }

    /// One `set` of point `p` taking `before` to `after`, as its contract
    /// states: the same box, and `p` added where it lies in the box.
    pub open spec fn set_step(before: CoordinateBitmap, after: CoordinateBitmap, p: (i32, i32)) -> bool {
        &&& after.wf()
        &&& after.spec_min_x() == before.spec_min_x()
        &&& after.spec_min_z() == before.spec_min_z()
        &&& after.spec_width() == before.spec_width()
        &&& after.spec_height() == before.spec_height()
        &&& forall|px: int, pz: int|
            #[trigger] after.spec_contains(px, pz) == (before.spec_contains(px, pz) || (px == p.0
                && pz == p.1 && before.in_box(px, pz)))
    }

    /// The points of `points` that lie in the box of `self`.
    pub open spec fn points_in_box(self, points: Seq<(i32, i32)>) -> Set<(int, int)> {
        Set::new(
            |q: (int, int)|
                self.in_box(q.0, q.1) && exists|k: int|
                    0 <= k < points.len() && points[k].0 == q.0 && points[k].1 == q.1,
        )
    }

    /// Setting a sequence of points in an empty set: a point is a member
    /// exactly when it is one of the points and lies in the box, and the
    /// count is the number of distinct such points. `states[k]` is the set
    /// after the first `k` points.
    pub proof fn lemma_sets_accumulate(states: Seq<CoordinateBitmap>, points: Seq<(i32, i32)>)
        requires
            states.len() == points.len() + 1,
            states[0].wf(),
            forall|x: int, z: int| !states[0].spec_contains(x, z),
            forall|k: int|
                0 <= k < points.len() ==> #[trigger] Self::set_step(states[k], states[k + 1], points[k]),
        ensures
            states.last().members() == states[0].points_in_box(points),
            states.last().spec_count() == states[0].points_in_box(points).len(),
        decreases points.len(),
    {
        let n = points.len() as int;
        if n == 0 {
            assert(states.last().members() =~= states[0].points_in_box(points));
            states.last().lemma_count_is_members();
        } else {
            let ps = points.drop_last();
            let ss = states.drop_last();
            assert forall|k: int| 0 <= k < ps.len() implies #[trigger] Self::set_step(
                ss[k],
                ss[k + 1],
                ps[k],
            ) by {
                assert(Self::set_step(states[k], states[k + 1], points[k]));
            }
            Self::lemma_sets_accumulate(ss, ps);
            assert(Self::set_step(states[n - 1], states[n], points[n - 1]));
            assert(ss.last() == states[n - 1]);
            assert forall|k: int| 0 <= k <= n implies (#[trigger] states[k]).spec_min_x()
                == states[0].spec_min_x() && states[k].spec_min_z() == states[0].spec_min_z()
                && states[k].spec_width() == states[0].spec_width() && states[k].spec_height()
                == states[0].spec_height() by {
                Self::lemma_same_box(states, points, k);
            }
            assert(states.last().members() =~= states[0].points_in_box(points)) by {
                assert forall|q: (int, int)| states.last().members().contains(q) implies states[
                    0
                ].points_in_box(points).contains(q) by {
                    if states[n - 1].spec_contains(q.0, q.1) {
                        assert(ss.last().members().contains(q));
                        let k = choose|k: int|
                            0 <= k < ps.len() && ps[k].0 == q.0 && ps[k].1 == q.1;
                        assert(points[k] == ps[k]);
                    } else {
                        assert(points[n - 1].0 == q.0 && points[n - 1].1 == q.1);
                    }
                }
                assert forall|q: (int, int)| states[0].points_in_box(points).contains(q) implies states.last().members().contains(q) by {
                    let k = choose|k: int|
                        0 <= k < points.len() && points[k].0 == q.0 && points[k].1 == q.1;
                    if k < n - 1 {
                        assert(ps[k] == points[k]);
                        assert(ss[0].points_in_box(ps).contains(q));
                        assert(ss.last().members().contains(q));
                    }
                }
            }
            states.last().lemma_count_is_members();
        }
    }

    proof fn lemma_same_box(states: Seq<CoordinateBitmap>, points: Seq<(i32, i32)>, k: int)
        requires
            states.len() == points.len() + 1,
            0 <= k <= points.len(),
            forall|j: int|
                0 <= j < points.len() ==> #[trigger] Self::set_step(states[j], states[j + 1], points[j]),
        ensures
            states[k].spec_min_x() == states[0].spec_min_x(),
            states[k].spec_min_z() == states[0].spec_min_z(),
            states[k].spec_width() == states[0].spec_width(),
            states[k].spec_height() == states[0].spec_height(),
        decreases k,
    {
        if k > 0 {
            Self::lemma_same_box(states, points, k - 1);
            let j = k - 1;
            assert(Self::set_step(states[j], states[j + 1], points[j]));
        }
    }

    proof fn lemma_empty_iff_no_member(self)
        requires
            self.wf(),
        ensures
            (self.spec_count() == 0) == (forall|x: int, z: int| !self.spec_contains(x, z)),
    {
        let total = self.width * self.height;
        lemma_count_set_zero(self.bits@, 0, total as int);
        if self.spec_count() != 0 {
            let i = choose|i: int| 0 <= i < total && bit_at(self.bits@, i);
            let lx = i % (self.width as int);
            let lz = i / (self.width as int);
            assert(0 <= lx < self.width && 0 <= lz < self.height && lz * self.width + lx == i)
                by (nonlinear_arith)
                requires
                    0 <= i < total,
                    total == self.width * self.height,
                    self.width >= 1,
                    lx == i % (self.width as int),
                    lz == i / (self.width as int),
            ;
            assert(self.spec_contains(self.min_x + lx, self.min_z + lz));
        } else {
            assert forall|x: int, z: int| !self.spec_contains(x, z) by {
                if self.in_box(x, z) {
                    let idx = self.spec_index(x, z);
                    assert(0 <= idx < total) by (nonlinear_arith)
                        requires
                            idx == (z - self.min_z) * self.width + (x - self.min_x),
                            0 <= x - self.min_x < self.width,
                            0 <= z - self.min_z < self.height,
                            total == self.width * self.height,
                    ;
                }
            }
        }
    }

    /// Number of members.
    pub fn count(&self) -> (n: usize)
        requires
            self.wf(),
        ensures
            n == self.spec_count(),
    {
        self.count
    }

    /// How many of the given coordinates are members, counting repeats.
    pub fn count_contained(&self, coords: &[(i32, i32)]) -> (n: usize)
        requires
            self.wf(),
        ensures
            n == count_members(*self, coords@, coords@.len() as int),
    {
        let mut n: usize = 0;
        let mut i: usize = 0;
        while i < coords.len()
            invariant
                self.wf(),
                0 <= i <= coords@.len(),
                n == count_members(*self, coords@, i as int),
                n <= i,
            decreases coords@.len() - i,
        {
            let (x, z) = coords[i];
            if self.contains(x, z) {
                n = n + 1;
            }
            i = i + 1;
        }
        n
    }
}

impl CoordinateBitmap {
    /// Members and blocks that one row `z` of the query contributes, as the
    /// query counts them: a row outside the box counts its `max_x - min_x + 1`
    /// blocks and no member; inside, the query clamps its columns to the box
    /// (`lo ..= hi` in box columns), counts the blocks that fall left or right
    /// of the box, and counts members and blocks of the clamped columns. A
    /// query that lies wholly left of the box clamps to all of the box's
    /// columns.
    pub open spec fn row_counts(self, min_x: int, max_x: int, z: int) -> (int, int) {
        let w = self.spec_width();
        let lz = z - self.spec_min_z();
        if lz < 0 || lz >= self.spec_height() {
            (0, max_x - min_x + 1)
        } else {
            let lo = if min_x - self.spec_min_x() > 0 { min_x - self.spec_min_x() } else { 0 };
            let hi = if max_x - self.spec_min_x() < 0 {
                w - 1
            } else if max_x - self.spec_min_x() < w - 1 {
                max_x - self.spec_min_x()
            } else {
                w - 1
            };
            let left = if self.spec_min_x() - min_x > 0 { self.spec_min_x() - min_x } else { 0 };
            let right = if max_x - self.spec_min_x() - (w - 1) > 0 {
                max_x - self.spec_min_x() - (w - 1)
            } else {
                0
            };
            if lo > hi {
                (0, left + right)
            } else {
                (
                    self.spec_count_bits(lz * w + lo, lz * w + hi + 1),
                    left + right + hi - lo + 1,
                )
            }
        }
    }

    /// The counts of rows `min_z .. z_end`, added up.
    pub open spec fn range_counts(self, min_x: int, max_x: int, min_z: int, z_end: int) -> (
        int,
        int,
    )
        decreases z_end - min_z,
    {
        if z_end <= min_z {
            (0, 0)
        } else {
            let a = self.range_counts(min_x, max_x, min_z, z_end - 1);
            let b = self.row_counts(min_x, max_x, z_end - 1);
            (a.0 + b.0, a.1 + b.1)
        }
    }

    /// The members in the columns `min_x ..= max_x` and rows `min_z .. z_end`.
    pub open spec fn members_in(self, min_x: int, max_x: int, min_z: int, z_end: int) -> Set<
        (int, int),
    > {
        self.members().filter(|p: (int, int)| min_x <= p.0 <= max_x && min_z <= p.1 < z_end)
    }

    proof fn lemma_row_counts_direct(self, min_x: int, max_x: int, z: int)
        requires
            self.wf(),
            min_x <= max_x,
            min_x <= self.spec_min_x() + self.spec_width() - 1,
            max_x >= self.spec_min_x(),
        ensures
            self.members_in(min_x, max_x, z, z + 1).finite(),
            self.row_counts(min_x, max_x, z).0 == self.members_in(min_x, max_x, z, z + 1).len(),
            self.row_counts(min_x, max_x, z).1 == max_x - min_x + 1,
    {
        let w = self.spec_width();
        let mx = self.spec_min_x();
        let lz = z - self.spec_min_z();
        let row = self.members_in(min_x, max_x, z, z + 1);
        if lz < 0 || lz >= self.spec_height() {
            assert(row =~= Set::<(int, int)>::empty());
        } else {
            let lo = if min_x - mx > 0 { min_x - mx } else { 0 };
            let hi = if max_x - mx < w - 1 { max_x - mx } else { w - 1 };
            let base = lz * w;
            let ind = bit_index_set(self.bits@, base + lo, base + hi + 1);
            lemma_count_set_card(self.bits@, base + lo, base + hi + 1);
            let f = |i: int| (mx + (i - base), z);
            assert(injective_on(f, ind));
            assert(ind.map(f) =~= row) by {
                assert forall|p: (int, int)| row.contains(p) implies ind.map(f).contains(p) by {
                    let i = base + (p.0 - mx);
                    assert(i == self.spec_index(p.0, p.1));
                    assert(ind.contains(i));
                    assert(f(i) == p);
                }
                assert forall|p: (int, int)| ind.map(f).contains(p) implies row.contains(p) by {
                    let i = choose|i: int| ind.contains(i) && p == f(i);
                    assert(self.spec_index(p.0, p.1) == i);
                }
            }
            lemma_map_size(ind, row, f);
        }
    }

    /// Where the query overlaps the box's columns, a range count is the
    /// number of members in the rectangle and the rectangle's area.
    pub proof fn lemma_range_counts_direct(self, min_x: int, max_x: int, min_z: int, z_end: int)
        requires
            self.wf(),
            min_x <= max_x,
            min_z <= z_end,
            min_x <= self.spec_min_x() + self.spec_width() - 1,
            max_x >= self.spec_min_x(),
        ensures
            self.members_in(min_x, max_x, min_z, z_end).finite(),
            self.range_counts(min_x, max_x, min_z, z_end).0 == self.members_in(
                min_x,
                max_x,
                min_z,
                z_end,
            ).len(),
            self.range_counts(min_x, max_x, min_z, z_end).1 == (max_x - min_x + 1) * (z_end
                - min_z),
        decreases z_end - min_z,
    {
        if z_end == min_z {
            assert(self.members_in(min_x, max_x, min_z, z_end) =~= Set::<(int, int)>::empty());
        } else {
            self.lemma_range_counts_direct(min_x, max_x, min_z, z_end - 1);
            self.lemma_row_counts_direct(min_x, max_x, z_end - 1);
            let a = self.members_in(min_x, max_x, min_z, z_end - 1);
            let b = self.members_in(min_x, max_x, z_end - 1, z_end);
            assert(self.members_in(min_x, max_x, min_z, z_end) =~= a + b);
            assert(a.disjoint(b));
            lemma_set_disjoint_lens(a, b);
            assert((max_x - min_x + 1) * (z_end - 1 - min_z) + (max_x - min_x + 1) == (max_x
                - min_x + 1) * (z_end - min_z)) by (nonlinear_arith);
        }
    }

    /// Counts, over the block rectangle `min_x ..= max_x` by `min_z ..= max_z`,
    /// the members and the blocks (see `row_counts` for how each row counts).
    pub fn count_in_range(&self, min_x: i32, min_z: i32, max_x: i32, max_z: i32) -> (r: (
        usize,
        usize,
    ))
        requires
            self.wf(),
            min_x <= max_x,
            self.range_counts(min_x as int, max_x as int, min_z as int, max_z + 1).1 <= usize::MAX,
        ensures
            r.0 == self.range_counts(min_x as int, max_x as int, min_z as int, max_z + 1).0,
            r.1 == self.range_counts(min_x as int, max_x as int, min_z as int, max_z + 1).1,
    {
        let mut urban_count: usize = 0;
        let mut total_count: usize = 0;
        if min_z > max_z {
            return (0, 0);
        }
        let mut z: i64 = min_z as i64;
        proof {
            self.lemma_range_counts_mono(min_x as int, max_x as int, min_z as int, max_z + 1);
        }
        while z <= max_z as i64
            invariant
                self.wf(),
                min_x <= max_x,
                min_z <= z <= max_z + 1,
                self.range_counts(min_x as int, max_x as int, min_z as int, max_z + 1).1
                    <= usize::MAX,
                forall|k: int|
                    #![trigger self.range_counts(min_x as int, max_x as int, min_z as int, k)]
                    min_z <= k <= max_z + 1 ==> 0 <= self.range_counts(
                        min_x as int,
                        max_x as int,
                        min_z as int,
                        k,
                    ).0 <= self.range_counts(min_x as int, max_x as int, min_z as int, k).1
                        <= self.range_counts(min_x as int, max_x as int, min_z as int, max_z + 1).1,
                urban_count == self.range_counts(min_x as int, max_x as int, min_z as int, z as int).0,
                total_count == self.range_counts(min_x as int, max_x as int, min_z as int, z as int).1,
            decreases max_z + 1 - z,
        {
            proof {
                let prev = self.range_counts(min_x as int, max_x as int, min_z as int, z as int);
                let next = self.range_counts(min_x as int, max_x as int, min_z as int, z + 1);
                let row = self.row_counts(min_x as int, max_x as int, z as int);
                assert(next == (prev.0 + row.0, prev.1 + row.1));
                assert(0 <= prev.0 <= prev.1);
                assert(next.1 <= self.range_counts(min_x as int, max_x as int, min_z as int, max_z + 1).1);
                self.lemma_row_counts_bounds(min_x as int, max_x as int, z as int);
            }
            let (u, t) = self.row_counts_exec(min_x, max_x, z as i32);
            urban_count = urban_count + u;
            total_count = total_count + t;
            z = z + 1;
        }
        (urban_count, total_count)
    }

    proof fn lemma_row_counts_bounds(self, min_x: int, max_x: int, z: int)
        requires
            self.wf(),
            min_x <= max_x,
        ensures
            0 <= self.row_counts(min_x, max_x, z).0 <= self.row_counts(min_x, max_x, z).1,
    {
        let w = self.spec_width();
        let lz = z - self.spec_min_z();
        if !(lz < 0 || lz >= self.spec_height()) {
            let lo = if min_x - self.spec_min_x() > 0 { min_x - self.spec_min_x() } else { 0 };
            let hi = if max_x - self.spec_min_x() < 0 {
                w - 1
            } else if max_x - self.spec_min_x() < w - 1 {
                max_x - self.spec_min_x()
            } else {
                w - 1
            };
            if lo <= hi {
                lemma_count_set_bounds(self.bits@, lz * w + lo, lz * w + hi + 1);
            }
        }
    }

    proof fn lemma_range_counts_mono(self, min_x: int, max_x: int, min_z: int, z_end: int)
        requires
            self.wf(),
            min_x <= max_x,
        ensures
            forall|k: int|
                #![trigger self.range_counts(min_x, max_x, min_z, k)]
                min_z <= k <= z_end ==> 0 <= self.range_counts(min_x, max_x, min_z, k).0
                    <= self.range_counts(min_x, max_x, min_z, k).1 <= self.range_counts(
                    min_x,
                    max_x,
                    min_z,
                    z_end,
                ).1,
        decreases z_end - min_z,
    {
        if z_end > min_z {
            self.lemma_range_counts_mono(min_x, max_x, min_z, z_end - 1);
            self.lemma_row_counts_bounds(min_x, max_x, z_end - 1);
            let prev = self.range_counts(min_x, max_x, min_z, z_end - 1);
            let row = self.row_counts(min_x, max_x, z_end - 1);
            assert(0 <= prev.0 <= prev.1);
            assert(self.range_counts(min_x, max_x, min_z, z_end) == (prev.0 + row.0, prev.1 + row.1));
            assert forall|k: int|
                #![trigger self.range_counts(min_x, max_x, min_z, k)]
                min_z <= k <= z_end implies 0 <= self.range_counts(
                min_x,
                max_x,
                min_z,
                k,
            ).0 <= self.range_counts(min_x, max_x, min_z, k).1 <= self.range_counts(
                min_x,
                max_x,
                min_z,
                z_end,
            ).1 by {
                if k < z_end {
                    assert(self.range_counts(min_x, max_x, min_z, k).1 <= prev.1);
                }
            }
        }
    }

    /// The counts of one row.
    fn row_counts_exec(&self, min_x: i32, max_x: i32, z: i32) -> (r: (usize, usize))
        requires
            self.wf(),
            min_x <= max_x,
            self.row_counts(min_x as int, max_x as int, z as int).1 <= usize::MAX,
        ensures
            r.0 == self.row_counts(min_x as int, max_x as int, z as int).0,
            r.1 == self.row_counts(min_x as int, max_x as int, z as int).1,
    {
        proof {
            self.lemma_row_counts_bounds(min_x as int, max_x as int, z as int);
        }
        let local_z: i64 = z as i64 - self.min_z as i64;
        if local_z < 0 || local_z >= self.height as i64 {
            return (0, (max_x as i64 - min_x as i64 + 1) as usize);
        }
        let local_z = local_z as usize;
        let w = self.width;
        let local_min_x: usize = if min_x as i64 - self.min_x as i64 > 0 {
            (min_x as i64 - self.min_x as i64) as usize
        } else {
            0
        };
        let local_max_x: usize = if (max_x as i64 - self.min_x as i64) < 0 {
            w - 1
        } else if ((max_x as i64 - self.min_x as i64) as u64) < (w - 1) as u64 {
            (max_x as i64 - self.min_x as i64) as usize
        } else {
            w - 1
        };
        let left: i64 = if self.min_x as i64 - min_x as i64 > 0 {
            self.min_x as i64 - min_x as i64
        } else {
            0
        };
        let right_raw: i128 = max_x as i128 - self.min_x as i128 - (w as i128 - 1);
        let right: i128 = if right_raw > 0 { right_raw } else { 0 };
        if local_min_x > local_max_x {
            return (0, (left as i128 + right) as usize);
        }
        assert(local_z * w + local_max_x < w * self.height) by (nonlinear_arith)
            requires
                local_z < self.height,
                local_max_x < w,
        ;
        let row_start: usize = local_z * w;
        let lo_bit: usize = row_start + local_min_x;
        let hi_bit: usize = row_start + local_max_x;
        let mut urban: usize = 0;
        let mut idx: usize = lo_bit;
        while idx <= hi_bit
            invariant
                self.wf(),
                lo_bit <= idx <= hi_bit + 1,
                hi_bit < self.spec_width() * self.spec_height(),
                urban == count_set(self.bits@, lo_bit as int, idx as int),
                urban <= idx - lo_bit,
            decreases hi_bit + 1 - idx,
        {
            let byte = self.bits[idx / 8];
            let off: u8 = (idx % 8) as u8;
            if (byte >> off) & 1 == 1 {
                urban = urban + 1;
            }
            idx = idx + 1;
        }
        let total = (left as i128 + right + (local_max_x - local_min_x) as i128 + 1) as usize;
        (urban, total)
    }
}

/// How many of the first `k` coordinates are members of `b`.
pub open spec fn count_members(b: CoordinateBitmap, coords: Seq<(i32, i32)>, k: int) -> int
    decreases k,
{
    if k <= 0 {
        0
    } else {
        count_members(b, coords, k - 1) + (if b.spec_contains(
            coords[k - 1].0 as int,
            coords[k - 1].1 as int,
        ) {
            1int
        } else {
            0int
        })
    }
}


// ---------------------------------------------------------------------------
// The cache of polygon fills
// ---------------------------------------------------------------------------

#[verifier::external_type_specification]
#[verifier::external_body]
pub struct ExFnvHasher(FnvHasher);

#[verifier::external_type_specification]
#[verifier::external_body]
#[verifier::reject_recursive_types(H)]
pub struct ExBuildHasherDefault<H>(BuildHasherDefault<H>);

/// Fills keyed by way id, hashed with FNV (`fnv::FnvHashMap`).
pub type FillMap = HashMap<u64, Vec<(i32, i32)>, BuildHasherDefault<FnvHasher>>;

/// `HashMap::get` on an FNV-hashed map: the value stored under `k`, if any.
/// The claim rests on `FnvHasher` hashing deterministically.
#[verifier::external_body]
fn fill_map_get(m: &FillMap, k: u64) -> (r: Option<&Vec<(i32, i32)>>)
    ensures
        match r {
            Some(v) => m@.contains_key(k) && m@[k] == *v,
            None => !m@.contains_key(k),
        },
{
    m.get(&k)
}

/// `HashMap::insert` on an FNV-hashed map: `k` now maps to `v`.
/// The claim rests on `FnvHasher` hashing deterministically.
#[verifier::external_body]
fn fill_map_insert(m: &mut FillMap, k: u64, v: Vec<(i32, i32)>)
    ensures
        final(m)@ == old(m)@.insert(k, v),
{
    m.insert(k, v);
}

/// `HashMap::remove` on an FNV-hashed map: `k` no longer maps to anything.
/// The claim rests on `FnvHasher` hashing deterministically.
#[verifier::external_body]
fn fill_map_remove(m: &mut FillMap, k: u64)
    ensures
        final(m)@ == old(m)@.remove(k),
{
    m.remove(&k);
}

/// `HashMap::shrink_to_fit`: releases spare capacity, contents unchanged.
#[verifier::external_body]
fn fill_map_shrink(m: &mut FillMap)
    ensures
        final(m)@ == old(m)@,
{
    m.shrink_to_fit();
}

/// The fill of a way's outline without a timeout.
pub open spec fn way_fill(ring: Seq<(i32, i32)>) -> Seq<(i32, i32)> {
    complete_fill_of(ring, all_ring_edges(ring))
}

/// The rasteriser can measure the outline.
pub open spec fn ring_fits(ring: Seq<(i32, i32)>) -> bool {
    ring.len() >= 3 ==> outer_extent_fits(ring)
}

/// Tags of a building way.
pub open spec fn spec_is_building(t: Map<Seq<char>, Seq<char>>) -> bool {
    t.contains_key("building"@) || t.contains_key("building:part"@)
}

/// Tags of a building relation.
pub open spec fn spec_is_building_relation(t: Map<Seq<char>, Seq<char>>) -> bool {
    spec_is_building(t) || (t.contains_key("type"@) && t["type"@] == "building"@)
}

fn is_building(t: &Tags) -> (b: bool)
    ensures
        b == spec_is_building(t@),
{
    t.contains_key("building") || t.contains_key("building:part")
}

fn is_building_relation(t: &Tags) -> (b: bool)
    ensures
        b == spec_is_building_relation(t@),
{
    is_building(t) || t.has_value("type", "building")
}

/// The outer members of the first `k` members, as (way id, outline).
pub open spec fn outer_jobs(m: Seq<ProcessedMember>, k: int) -> Seq<(u64, Seq<(i32, i32)>)>
    decreases k,
{
    if k <= 0 {
        Seq::empty()
    } else if m[k - 1].role == ProcessedMemberRole::Outer {
        outer_jobs(m, k - 1).push((m[k - 1].way.id, way_ring(&*m[k - 1].way)))
    } else {
        outer_jobs(m, k - 1)
    }
}

/// The building outlines of an element, as (way id, outline), in order.
pub open spec fn element_jobs(e: ProcessedElement) -> Seq<(u64, Seq<(i32, i32)>)> {
    match e {
        ProcessedElement::Way(w) => if spec_is_building(w.tags@) {
            seq![(w.id, way_ring(&*w))]
        } else {
            Seq::empty()
        },
        ProcessedElement::Relation(r) => if spec_is_building_relation(r.tags@) {
            outer_jobs(r.members@, r.members@.len() as int)
        } else {
            Seq::empty()
        },
        ProcessedElement::Node(_) => Seq::empty(),
    }
}

/// The building outlines of the first `k` elements, in order.
pub open spec fn building_jobs(es: Seq<ProcessedElement>, k: int) -> Seq<(u64, Seq<(i32, i32)>)>
    decreases k,
{
    if k <= 0 {
        Seq::empty()
    } else {
        building_jobs(es, k - 1) + element_jobs(es[k - 1])
    }
}

/// Every building outline can be measured by the rasteriser.
pub open spec fn building_outlines_fit(es: Seq<ProcessedElement>) -> bool {
    let jobs = building_jobs(es, es.len() as int);
    forall|j: int| 0 <= j < jobs.len() ==> ring_fits(#[trigger] jobs[j].1)
}

/// The cache after storing the fill of each outline under its way id.
pub open spec fn store_fills(
    c: Map<u64, Seq<(i32, i32)>>,
    jobs: Seq<(u64, Seq<(i32, i32)>)>,
) -> Map<u64, Seq<(i32, i32)>>
    decreases jobs.len(),
{
    if jobs.len() == 0 {
        c
    } else {
        store_fills(c, jobs.drop_last()).insert(jobs.last().0, way_fill(jobs.last().1))
    }
}

/// The block is in the fill of some outline.
pub open spec fn covered(jobs: Seq<(u64, Seq<(i32, i32)>)>, x: int, z: int) -> bool {
    exists|j: int, t: int|
        0 <= j < jobs.len() && 0 <= t < way_fill(jobs[j].1).len() && #[trigger] way_fill(
            jobs[j].1,
        )[t] == (x as i32, z as i32) && i32::MIN <= x <= i32::MAX && i32::MIN <= z <= i32::MAX
}

/// The map without the given keys, removed in order.
pub open spec fn remove_all(m: Map<u64, Seq<(i32, i32)>>, ids: Seq<u64>) -> Map<u64, Seq<(i32, i32)>>
    decreases ids.len(),
{
    if ids.len() == 0 {
        m
    } else {
        remove_all(m, ids.drop_last()).remove(ids.last())
    }
}

/// Fill results shared by the element processors, keyed by way id.
pub struct FloodFillCache {
    way_cache: FillMap,
}

impl View for FloodFillCache {
    type V = Map<u64, Seq<(i32, i32)>>;

    closed spec fn view(&self) -> Map<u64, Seq<(i32, i32)>> {
        Map::new(
            |k: u64| self.way_cache@.contains_key(k),
            |k: u64| self.way_cache@[k]@,
        )
    }
}

proof fn lemma_store_fills_step(
    c: Map<u64, Seq<(i32, i32)>>,
    jobs: Seq<(u64, Seq<(i32, i32)>)>,
    job: (u64, Seq<(i32, i32)>),
)
    ensures
        store_fills(c, jobs.push(job)) == store_fills(c, jobs).insert(job.0, way_fill(job.1)),
{
    assert(jobs.push(job).drop_last() =~= jobs);
}

impl FloodFillCache {
    /// An empty cache.
    pub fn new() -> (c: FloodFillCache)
        ensures
            c@ == Map::<u64, Seq<(i32, i32)>>::empty(),
    {
        let c = FloodFillCache { way_cache: HashMap::default() };
        assert(c@ =~= Map::<u64, Seq<(i32, i32)>>::empty());
        c
    }

    /// Forgets every stored fill.
    pub fn clear_cache(&mut self)
        ensures
            final(self)@ == Map::<u64, Seq<(i32, i32)>>::empty(),
    {
        self.way_cache.clear();
        fill_map_shrink(&mut self.way_cache);
        assert(self@ =~= Map::<u64, Seq<(i32, i32)>>::empty());
    }

    /// The stored fill of the way, or else its fill computed now (which is
    /// not stored).
    pub fn get_or_compute(&self, way: &ProcessedWay, timeout: Option<&Duration>) -> (r: Vec<
        (i32, i32),
    >)
        requires
            ring_fits(way_ring(way)),
        ensures
            self@.contains_key(way.id) ==> r@ == self@[way.id],
            !self@.contains_key(way.id) && timeout is None ==> r@ == way_fill(way_ring(way)),
            !self@.contains_key(way.id) && timeout is Some ==> (r@ == way_fill(way_ring(way))
                || crate::floodfill::is_row_prefix_of(
                way_ring(way),
                all_ring_edges(way_ring(way)),
                r@,
            )),
    {
        if let Some(cached) = fill_map_get(&self.way_cache, way.id) {
            return copy_points(cached);
        }
        let polygon_coords = crate::floodfill::way_points_of(way);
        flood_fill_area(&polygon_coords, timeout)
    }

    /// `get_or_compute` for a way element; nothing for other elements.
    pub fn get_or_compute_element(&self, element: &ProcessedElement, timeout: Option<&Duration>) -> (r: Vec<(i32, i32)>)
        requires
            element matches ProcessedElement::Way(w) ==> ring_fits(way_ring(&*w)),
        ensures
            match element {
                ProcessedElement::Way(way) => {
                    &&& self@.contains_key(way.id) ==> r@ == self@[way.id]
                    &&& !self@.contains_key(way.id) && timeout is None ==> r@ == way_fill(
                        way_ring(&*way),
                    )
                    &&& !self@.contains_key(way.id) && timeout is Some ==> (r@ == way_fill(
                        way_ring(&*way),
                    ) || crate::floodfill::is_row_prefix_of(
                        way_ring(&*way),
                        all_ring_edges(way_ring(&*way)),
                        r@,
                    ))
                },
                _ => r@.len() == 0,
            },
    {
        match element {
            ProcessedElement::Way(way) => self.get_or_compute(way, timeout),
            _ => Vec::new(),
        }
    }

    /// Fills one outline, marks its blocks in `footprints` and stores the fill.
    fn add_footprint(&mut self, footprints: &mut CoordinateBitmap, way: &ProcessedWay)
        requires
            old(footprints).wf(),
            ring_fits(way_ring(way)),
        ensures
            final(footprints).wf(),
            final(self)@ == old(self)@.insert(way.id, way_fill(way_ring(way))),
            final(footprints).spec_min_x() == old(footprints).spec_min_x(),
            final(footprints).spec_min_z() == old(footprints).spec_min_z(),
            final(footprints).spec_width() == old(footprints).spec_width(),
            final(footprints).spec_height() == old(footprints).spec_height(),
            forall|x: int, z: int|
                #[trigger] final(footprints).spec_contains(x, z) == (old(footprints).spec_contains(
                    x,
                    z,
                ) || (old(footprints).in_box(x, z) && exists|t: int|
                    0 <= t < way_fill(way_ring(way)).len() && #[trigger] way_fill(way_ring(way))[t]
                        == (x as i32, z as i32) && i32::MIN <= x <= i32::MAX && i32::MIN <= z
                        <= i32::MAX)),
    {
        let polygon_coords = crate::floodfill::way_points_of(way);
        let filled = flood_fill_area(&polygon_coords, None);
        let ghost f = filled@;
        let ghost start = *footprints;
        let mut i: usize = 0;
        while i < filled.len()
            invariant
                f == filled@,
                0 <= i <= f.len(),
                footprints.wf(),
                footprints.spec_min_x() == start.spec_min_x(),
                footprints.spec_min_z() == start.spec_min_z(),
                footprints.spec_width() == start.spec_width(),
                footprints.spec_height() == start.spec_height(),
                forall|x: int, z: int|
                    #[trigger] footprints.spec_contains(x, z) == (start.spec_contains(x, z) || (
                    start.in_box(x, z) && exists|t: int|
                        0 <= t < i && #[trigger] f[t] == (x as i32, z as i32) && i32::MIN <= x
                            <= i32::MAX && i32::MIN <= z <= i32::MAX)),
            decreases f.len() - i,
        {
            let (x, z) = filled[i];
            let ghost before = *footprints;
            footprints.set(x, z);
            proof {
                assert forall|px: int, pz: int| #[trigger]
                    footprints.spec_contains(px, pz) == (start.spec_contains(px, pz) || (
                    start.in_box(px, pz) && exists|t: int|
                        0 <= t < i + 1 && #[trigger] f[t] == (px as i32, pz as i32) && i32::MIN
                            <= px <= i32::MAX && i32::MIN <= pz <= i32::MAX)) by {
                    assert(footprints.spec_contains(px, pz) == (before.spec_contains(px, pz) || (
                    px == x && pz == z && before.in_box(px, pz))));
                    if px == x && pz == z {
                        assert(f[i as int] == (px as i32, pz as i32));
                    }
                    if exists|t: int|
                        0 <= t < i + 1 && #[trigger] f[t] == (px as i32, pz as i32) && i32::MIN
                            <= px <= i32::MAX && i32::MIN <= pz <= i32::MAX {
                        let t = choose|t: int|
                            0 <= t < i + 1 && #[trigger] f[t] == (px as i32, pz as i32) && i32::MIN
                                <= px <= i32::MAX && i32::MIN <= pz <= i32::MAX;
                        if t == i {
                            assert(px == x && pz == z);
                        }
                    }
                }
            }
            i = i + 1;
        }
        let ghost before_map = self.way_cache@;
        fill_map_insert(&mut self.way_cache, way.id, filled);
        proof {
            assert(self@ =~= old(self)@.insert(way.id, way_fill(way_ring(way))));
        }
    }

    /// Fills the outline of every building way, and of every outer member of
    /// every building relation, marks the filled blocks that fall inside the
    /// box in a new bitmap, stores each fill under its way id, and returns the
    /// bitmap.
    pub fn collect_building_footprints(
        &mut self,
        elements: &[ProcessedElement],
        xzbbox: &XZBBox,
    ) -> (r: BuildingFootprintBitmap)
        requires
            (xzbbox.spec_max_x() - xzbbox.spec_min_x() + 1) * (xzbbox.spec_max_z()
                - xzbbox.spec_min_z() + 1) <= usize::MAX,
            building_outlines_fit(elements@),
        ensures
            r.wf(),
            r.spec_min_x() == xzbbox.spec_min_x(),
            r.spec_min_z() == xzbbox.spec_min_z(),
            r.spec_width() == xzbbox.spec_max_x() - xzbbox.spec_min_x() + 1,
            r.spec_height() == xzbbox.spec_max_z() - xzbbox.spec_min_z() + 1,
            forall|x: int, z: int|
                #[trigger] r.spec_contains(x, z) == (r.in_box(x, z) && covered(
                    building_jobs(elements@, elements@.len() as int),
                    x,
                    z,
                )),
            final(self)@ == store_fills(old(self)@, building_jobs(elements@, elements@.len() as int)),
    {
        let mut footprints = CoordinateBitmap::new(xzbbox);
        let ghost es = elements@;
        let ghost all = building_jobs(es, es.len() as int);
        let mut i: usize = 0;
        while i < elements.len()
            invariant
                es == elements@,
                all == building_jobs(es, es.len() as int),
                building_outlines_fit(es),
                0 <= i <= es.len(),
                footprints.wf(),
                footprints.spec_min_x() == xzbbox.spec_min_x(),
                footprints.spec_min_z() == xzbbox.spec_min_z(),
                footprints.spec_width() == xzbbox.spec_max_x() - xzbbox.spec_min_x() + 1,
                footprints.spec_height() == xzbbox.spec_max_z() - xzbbox.spec_min_z() + 1,
                forall|x: int, z: int|
                    #[trigger] footprints.spec_contains(x, z) == (footprints.in_box(x, z) && covered(
                        building_jobs(es, i as int),
                        x,
                        z,
                    )),
                self@ == store_fills(old(self)@, building_jobs(es, i as int)),
            decreases es.len() - i,
        {
            proof {
                lemma_building_jobs_prefix(es, i as int + 1);
            }
            match &elements[i] {
                ProcessedElement::Way(way) => {
                    if is_building(&way.tags) {
                        proof {
                            assert(element_jobs(es[i as int]) == seq![(way.id, way_ring(&**way))]);
                            assert(building_jobs(es, i + 1) == building_jobs(es, i as int).push(
                                (way.id, way_ring(&**way)),
                            ));
                            let b = building_jobs(es, i + 1);
                            let idx = building_jobs(es, i as int).len() as int;
                            assert(b[idx] == (way.id, way_ring(&**way)));
                            assert(b[idx] == all.subrange(0, b.len() as int)[idx]);
                            assert(all[idx] == (way.id, way_ring(&**way)));
                            assert(ring_fits(all[idx].1));
                        }
                        let ghost before = footprints;
                        self.add_footprint(&mut footprints, way);
                        proof {
                            lemma_store_fills_step(
                                old(self)@,
                                building_jobs(es, i as int),
                                (way.id, way_ring(&**way)),
                            );
                            lemma_covered_push(
                                building_jobs(es, i as int),
                                (way.id, way_ring(&**way)),
                            );
                        }
                    } else {
                        assert(building_jobs(es, i + 1) =~= building_jobs(es, i as int));
                    }
                },
                ProcessedElement::Relation(rel) => {
                    if is_building_relation(&rel.tags) {
                        let mut j: usize = 0;
                        let ghost base = building_jobs(es, i as int);
                        while j < rel.members.len()
                            invariant
                                es == elements@,
                                all == building_jobs(es, es.len() as int),
                                building_outlines_fit(es),
                                0 <= i < es.len(),
                                es[i as int] == ProcessedElement::Relation(*rel),
                                spec_is_building_relation(rel.tags@),
                                base == building_jobs(es, i as int),
                                base + outer_jobs(rel.members@, rel.members@.len() as int)
                                    == building_jobs(es, i + 1),
                                building_jobs(es, i + 1).len() <= all.len(),
                                building_jobs(es, i + 1) == all.subrange(0, building_jobs(es, i + 1).len() as int),
                                0 <= j <= rel.members@.len(),
                                footprints.wf(),
                                footprints.spec_min_x() == xzbbox.spec_min_x(),
                                footprints.spec_min_z() == xzbbox.spec_min_z(),
                                footprints.spec_width() == xzbbox.spec_max_x() - xzbbox.spec_min_x() + 1,
                                footprints.spec_height() == xzbbox.spec_max_z() - xzbbox.spec_min_z() + 1,
                                forall|x: int, z: int|
                                    #[trigger] footprints.spec_contains(x, z) == (footprints.in_box(x, z)
                                        && covered(base + outer_jobs(rel.members@, j as int), x, z)),
                                self@ == store_fills(old(self)@, base + outer_jobs(rel.members@, j as int)),
                            decreases rel.members@.len() - j,
                        {
                            let member = &rel.members[j];
                            if member.role == ProcessedMemberRole::Outer {
                                let ghost job = (member.way.id, way_ring(&*member.way));
                                proof {
                                    assert(outer_jobs(rel.members@, j + 1) == outer_jobs(
                                        rel.members@,
                                        j as int,
                                    ).push(job));
                                    lemma_outer_jobs_prefix(rel.members@, j + 1, rel.members@.len() as int);
                                    let pre = base + outer_jobs(rel.members@, j as int);
                                    let oj = outer_jobs(rel.members@, j as int);
                                    let oj1 = outer_jobs(rel.members@, j + 1);
                                    let ojf = outer_jobs(rel.members@, rel.members@.len() as int);
                                    assert(oj1[oj.len() as int] == job);
                                    assert(oj1[oj.len() as int] == ojf.subrange(0, oj1.len() as int)[oj.len() as int]);
                                    assert(ojf[oj.len() as int] == job);
                                    let b = building_jobs(es, i + 1);
                                    assert(b[pre.len() as int] == ojf[oj.len() as int]);
                                    assert(b[pre.len() as int] == all.subrange(0, b.len() as int)[pre.len() as int]);
                                    assert(all[pre.len() as int] == job);
                                    assert(ring_fits(all[pre.len() as int].1));
                                }
                                self.add_footprint(&mut footprints, &member.way);
                                proof {
                                    let pre = base + outer_jobs(rel.members@, j as int);
                                    assert(base + outer_jobs(rel.members@, j + 1) =~= pre.push(job));
                                    lemma_store_fills_step(old(self)@, pre, job);
                                    lemma_covered_push(pre, job);
                                }
                            } else {
                                assert(outer_jobs(rel.members@, j + 1) == outer_jobs(
                                    rel.members@,
                                    j as int,
                                ));
                            }
                            j = j + 1;
                        }
                    } else {
                        assert(building_jobs(es, i + 1) =~= building_jobs(es, i as int));
                    }
                },
                ProcessedElement::Node(_) => {
                    assert(building_jobs(es, i + 1) =~= building_jobs(es, i as int));
                },
            }
            i = i + 1;
        }
        footprints
    }

    /// Forgets the fill stored for a way.
    pub fn remove_way(&mut self, way_id: u64)
        ensures
            final(self)@ == old(self)@.remove(way_id),
    {
        fill_map_remove(&mut self.way_cache, way_id);
        assert(self@ =~= old(self)@.remove(way_id));
    }

    /// Forgets the fills stored for the given ways.
    pub fn remove_relation_ways(&mut self, way_ids: &[u64])
        ensures
            final(self)@ == remove_all(old(self)@, way_ids@),
    {
        let mut i: usize = 0;
        while i < way_ids.len()
            invariant
                0 <= i <= way_ids@.len(),
                self@ == remove_all(old(self)@, way_ids@.subrange(0, i as int)),
            decreases way_ids@.len() - i,
        {
            self.remove_way(way_ids[i]);
            proof {
                assert(way_ids@.subrange(0, i + 1).drop_last() =~= way_ids@.subrange(0, i as int));
            }
            i = i + 1;
        }
        assert(way_ids@.subrange(0, way_ids@.len() as int) =~= way_ids@);
    }
}

proof fn lemma_building_jobs_prefix(es: Seq<ProcessedElement>, k: int)
    requires
        0 <= k <= es.len(),
    ensures
        building_jobs(es, k).len() <= building_jobs(es, es.len() as int).len(),
        building_jobs(es, k) == building_jobs(es, es.len() as int).subrange(0, building_jobs(es, k).len() as int),
    decreases es.len() - k,
{
    if k < es.len() {
        lemma_building_jobs_prefix(es, k + 1);
        let a = building_jobs(es, k);
        let b = building_jobs(es, k + 1);
        let all = building_jobs(es, es.len() as int);
        assert(b == a + element_jobs(es[k]));
        assert(a =~= all.subrange(0, a.len() as int)) by {
            assert forall|i: int| 0 <= i < a.len() implies a[i] == all[i] by {
                assert(a[i] == b[i]);
                assert(b[i] == all.subrange(0, b.len() as int)[i]);
            }
        }
    } else {
        let a = building_jobs(es, k);
        assert(a =~= a.subrange(0, a.len() as int));
    }
}

proof fn lemma_outer_jobs_prefix(m: Seq<ProcessedMember>, j: int, n: int)
    requires
        0 <= j <= n <= m.len(),
    ensures
        outer_jobs(m, j).len() <= outer_jobs(m, n).len(),
        outer_jobs(m, j) == outer_jobs(m, n).subrange(0, outer_jobs(m, j).len() as int),
    decreases n - j,
{
    if j < n {
        lemma_outer_jobs_prefix(m, j + 1, n);
        let a = outer_jobs(m, j);
        let b = outer_jobs(m, j + 1);
        let all = outer_jobs(m, n);
        assert(a.len() <= b.len());
        assert(a =~= all.subrange(0, a.len() as int)) by {
            assert forall|i: int| 0 <= i < a.len() implies a[i] == all[i] by {
                assert(a[i] == b[i]);
                assert(b[i] == all.subrange(0, b.len() as int)[i]);
            }
        }
    } else {
        let a = outer_jobs(m, j);
        assert(a =~= a.subrange(0, a.len() as int));
    }
}

proof fn lemma_covered_push(jobs: Seq<(u64, Seq<(i32, i32)>)>, job: (u64, Seq<(i32, i32)>))
    ensures
        forall|x: int, z: int|
            #[trigger] covered(jobs.push(job), x, z) == (covered(jobs, x, z) || exists|t: int|
                0 <= t < way_fill(job.1).len() && #[trigger] way_fill(job.1)[t] == (x as i32, z as i32)
                    && i32::MIN <= x <= i32::MAX && i32::MIN <= z <= i32::MAX),
{
    let js = jobs.push(job);
    assert forall|x: int, z: int|
        #[trigger] covered(js, x, z) == (covered(jobs, x, z) || exists|t: int|
            0 <= t < way_fill(job.1).len() && #[trigger] way_fill(job.1)[t] == (x as i32, z as i32)
                && i32::MIN <= x <= i32::MAX && i32::MIN <= z <= i32::MAX) by {
        if covered(js, x, z) {
            let (j, t) = choose|j: int, t: int|
                0 <= j < js.len() && 0 <= t < way_fill(js[j].1).len() && #[trigger] way_fill(
                    js[j].1,
                )[t] == (x as i32, z as i32) && i32::MIN <= x <= i32::MAX && i32::MIN <= z <= i32::MAX;
            if j < jobs.len() {
                assert(js[j] == jobs[j]);
            }
        }
        if covered(jobs, x, z) {
            let (j, t) = choose|j: int, t: int|
                0 <= j < jobs.len() && 0 <= t < way_fill(jobs[j].1).len() && #[trigger] way_fill(
                    jobs[j].1,
                )[t] == (x as i32, z as i32) && i32::MIN <= x <= i32::MAX && i32::MIN <= z <= i32::MAX;
            assert(js[j] == jobs[j]);
        }
        if exists|t: int|
            0 <= t < way_fill(job.1).len() && #[trigger] way_fill(job.1)[t] == (x as i32, z as i32)
                && i32::MIN <= x <= i32::MAX && i32::MIN <= z <= i32::MAX {
            let t = choose|t: int|
                0 <= t < way_fill(job.1).len() && #[trigger] way_fill(job.1)[t] == (x as i32, z as i32)
                    && i32::MIN <= x <= i32::MAX && i32::MIN <= z <= i32::MAX;
            assert(js[jobs.len() as int] == job);
        }
    }
}


/// Sum of the x (when `axis_x`) or z coordinates of the first `k` points.
pub open spec fn coord_sum(s: Seq<(i32, i32)>, axis_x: bool, k: int) -> int
    decreases k,
{
    if k <= 0 {
        0
    } else {
        coord_sum(s, axis_x, k - 1) + (if axis_x { s[k - 1].0 as int } else { s[k - 1].1 as int })
    }
}

/// Integer division rounding toward zero (`b > 0`), as Rust's `/` does.
pub open spec fn trunc_div(a: int, b: int) -> int {
    if a >= 0 {
        a / b
    } else {
        -((-a) / b)
    }
}

/// The average position of a list of points, each coordinate rounded toward
/// zero; `None` for no point.
pub open spec fn spec_centroid(s: Seq<(i32, i32)>) -> Option<(i32, i32)> {
    if s.len() == 0 {
        None
    } else {
        Some(
            (
                trunc_div(coord_sum(s, true, s.len() as int), s.len() as int) as i32,
                trunc_div(coord_sum(s, false, s.len() as int), s.len() as int) as i32,
            ),
        )
    }
}

proof fn lemma_trunc_div_range(a: int, n: int)
    requires
        n >= 1,
        n * i32::MIN <= a <= n * i32::MAX,
    ensures
        i32::MIN <= trunc_div(a, n) <= i32::MAX,
{
    if a >= 0 {
        assert(a / n <= i32::MAX) by (nonlinear_arith)
            requires
                n >= 1,
                0 <= a <= n * i32::MAX,
        ;
        assert(a / n >= 0) by (nonlinear_arith)
            requires
                n >= 1,
                0 <= a,
        ;
    } else {
        assert((-a) / n <= -(i32::MIN as int)) by (nonlinear_arith)
            requires
                n >= 1,
                0 < -a <= n * (-(i32::MIN as int)),
        ;
        assert((-a) / n >= 0) by (nonlinear_arith)
            requires
                n >= 1,
                0 < -a,
        ;
    }
}

/// Rust's `/` on an `i128` by a positive divisor.
fn trunc_div_exec(a: i128, n: u64) -> (r: i128)
    requires
        n >= 1,
        -0x1_0000_0000_0000_0000_0000_0000 < a < 0x1_0000_0000_0000_0000_0000_0000,
    ensures
        r == trunc_div(a as int, n as int),
{
    if a >= 0 {
        (a as u128 / n as u128) as i128
    } else {
        let m: u128 = (-a) as u128;
        let q: u128 = m / n as u128;
        assert(q <= m) by (nonlinear_arith)
            requires
                n >= 1,
                q == m / (n as u128),
        ;
        -(q as i128)
    }
}

/// The average position of the points, rounded toward zero; `None` for none.
pub(crate) fn compute_centroid(coords: &[(i32, i32)]) -> (r: Option<(i32, i32)>)
    ensures
        r == spec_centroid(coords@),
{
    let n = coords.len();
    if n == 0 {
        return None;
    }
    let mut sum_x: i128 = 0;
    let mut sum_z: i128 = 0;
    let mut i: usize = 0;
    while i < n
        invariant
            n == coords@.len(),
            0 <= i <= n,
            sum_x == coord_sum(coords@, true, i as int),
            sum_z == coord_sum(coords@, false, i as int),
            i * (i32::MIN as int) <= sum_x <= i * (i32::MAX as int),
            i * (i32::MIN as int) <= sum_z <= i * (i32::MAX as int),
        decreases n - i,
    {
        let (x, z) = coords[i];
        sum_x = sum_x + x as i128;
        sum_z = sum_z + z as i128;
        i = i + 1;
    }
    proof {
        lemma_trunc_div_range(sum_x as int, n as int);
        lemma_trunc_div_range(sum_z as int, n as int);
        assert(n * (i32::MIN as int) > -0x1_0000_0000_0000_0000_0000_0000) by (nonlinear_arith)
            requires
                n <= usize::MAX,
        ;
        assert(n * (i32::MAX as int) < 0x1_0000_0000_0000_0000_0000_0000) by (nonlinear_arith)
            requires
                n <= usize::MAX,
        ;
    }
    let cx = trunc_div_exec(sum_x, n as u64);
    let cz = trunc_div_exec(sum_z, n as u64);
    Some((cx as i32, cz as i32))
}

/// The stored fills of the outer members among the first `k`, joined.
pub open spec fn relation_cached_coords(
    c: Map<u64, Seq<(i32, i32)>>,
    m: Seq<ProcessedMember>,
    k: int,
) -> Seq<(i32, i32)>
    decreases k,
{
    if k <= 0 {
        Seq::empty()
    } else if m[k - 1].role == ProcessedMemberRole::Outer && c.contains_key(m[k - 1].way.id) {
        relation_cached_coords(c, m, k - 1) + c[m[k - 1].way.id]
    } else {
        relation_cached_coords(c, m, k - 1)
    }
}

/// The centroid an element contributes, if any: that of a building way's
/// stored fill, or that of the joined stored fills of a building
/// relation's outer members.
pub open spec fn element_centroid(c: Map<u64, Seq<(i32, i32)>>, e: ProcessedElement) -> Option<(i32, i32)> {
    match e {
        ProcessedElement::Way(w) => if spec_is_building(w.tags@) && c.contains_key(w.id) {
            spec_centroid(c[w.id])
        } else {
            None
        },
        ProcessedElement::Relation(r) => if spec_is_building_relation(r.tags@) {
            spec_centroid(relation_cached_coords(c, r.members@, r.members@.len() as int))
        } else {
            None
        },
        ProcessedElement::Node(_) => None,
    }
}

/// The centroids contributed by the first `k` elements, in order.
pub open spec fn centroids_upto(
    c: Map<u64, Seq<(i32, i32)>>,
    es: Seq<ProcessedElement>,
    k: int,
) -> Seq<(i32, i32)>
    decreases k,
{
    if k <= 0 {
        Seq::empty()
    } else {
        match element_centroid(c, es[k - 1]) {
            Some(p) => centroids_upto(c, es, k - 1).push(p),
            None => centroids_upto(c, es, k - 1),
        }
    }
}

impl FloodFillCache {
    /// The centroid of every building whose fill is stored: one per building
    /// way, one per building relation (over its outer members' stored fills),
    /// in element order.
    pub fn collect_building_centroids(&self, elements: &[ProcessedElement]) -> (r: Vec<(i32, i32)>)
        ensures
            r@ == centroids_upto(self@, elements@, elements@.len() as int),
    {
        let mut centroids: Vec<(i32, i32)> = Vec::new();
        let mut i: usize = 0;
        while i < elements.len()
            invariant
                0 <= i <= elements@.len(),
                centroids@ == centroids_upto(self@, elements@, i as int),
            decreases elements@.len() - i,
        {
            match &elements[i] {
                ProcessedElement::Way(way) => {
                    if is_building(&way.tags) {
                        if let Some(cached) = fill_map_get(&self.way_cache, way.id) {
                            if let Some(c) = compute_centroid(cached.as_slice()) {
                                centroids.push(c);
                            }
                        }
                    }
                },
                ProcessedElement::Relation(rel) => {
                    if is_building_relation(&rel.tags) {
                        let mut all_coords: Vec<(i32, i32)> = Vec::new();
                        let mut j: usize = 0;
                        while j < rel.members.len()
                            invariant
                                0 <= j <= rel.members@.len(),
                                all_coords@ == relation_cached_coords(self@, rel.members@, j as int),
                            decreases rel.members@.len() - j,
                        {
                            let member = &rel.members[j];
                            if member.role == ProcessedMemberRole::Outer {
                                if let Some(cached) = fill_map_get(&self.way_cache, member.way.id) {
                                    let mut more = copy_points(cached);
                                    all_coords.append(&mut more);
                                }
                            }
                            j = j + 1;
                        }
                        if let Some(c) = compute_centroid(all_coords.as_slice()) {
                            centroids.push(c);
                        }
                    }
                },
                ProcessedElement::Node(_) => {},
            }
            i = i + 1;
        }
        centroids
    }
}

impl Default for FloodFillCache {
    fn default() -> (c: FloodFillCache)
        ensures
            c@ == Map::<u64, Seq<(i32, i32)>>::empty(),
    {
        FloodFillCache::new()
    }
}

/// What a read gives back of a write: after storing the fills of a list of
/// outlines, the fill stored under a way id is the fill of the last outline
/// in the list with that id.
pub proof fn lemma_stored_fill_is_last_write(
    c: Map<u64, Seq<(i32, i32)>>,
    jobs: Seq<(u64, Seq<(i32, i32)>)>,
    k: int,
)
    requires
        0 <= k < jobs.len(),
        forall|j: int| k < j < jobs.len() ==> (#[trigger] jobs[j]).0 != jobs[k].0,
    ensures
        store_fills(c, jobs).contains_key(jobs[k].0),
        store_fills(c, jobs)[jobs[k].0] == way_fill(jobs[k].1),
    decreases jobs.len(),
{
    if k < jobs.len() - 1 {
        let t = jobs.drop_last();
        assert forall|j: int| k < j < t.len() implies (#[trigger] t[j]).0 != t[k].0 by {
            assert(t[j] == jobs[j]);
        }
        lemma_stored_fill_is_last_write(c, t, k);
        assert(jobs[jobs.len() - 1].0 != jobs[k].0);
    }
}

/// Outlines not in the list leave the stored fills untouched.
pub proof fn lemma_store_fills_other_keys(
    c: Map<u64, Seq<(i32, i32)>>,
    jobs: Seq<(u64, Seq<(i32, i32)>)>,
    id: u64,
)
    requires
        forall|j: int| 0 <= j < jobs.len() ==> (#[trigger] jobs[j]).0 != id,
    ensures
        store_fills(c, jobs).contains_key(id) == c.contains_key(id),
        c.contains_key(id) ==> store_fills(c, jobs)[id] == c[id],
    decreases jobs.len(),
{
    if jobs.len() > 0 {
        let t = jobs.drop_last();
        assert forall|j: int| 0 <= j < t.len() implies (#[trigger] t[j]).0 != id by {
            assert(t[j] == jobs[j]);
        }
        lemma_store_fills_other_keys(c, t, id);
        assert(jobs[jobs.len() - 1].0 != id);
    }
}

} // verus!
