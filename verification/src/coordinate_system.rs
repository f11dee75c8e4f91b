//! Points, vectors and bounding boxes in Minecraft XZ space.

use vstd::prelude::*;

verus! {

/// A block position in the XZ plane.
#[derive(Clone, Copy, Debug, PartialEq, Eq, Structural)]
pub struct XZPoint {
    pub x: i32,
    pub z: i32,
}

/// A displacement in the XZ plane.
#[derive(Clone, Copy, Debug, PartialEq, Eq, Structural)]
pub struct XZVector {
    pub dx: i32,
    pub dz: i32,
}

impl XZPoint {
    pub fn new(x: i32, z: i32) -> (p: XZPoint)
        ensures
            p.x == x,
            p.z == z,
    {
        XZPoint { x, z }
    }
}

/// An axis-aligned rectangle of blocks; both corners are covered.
#[derive(Clone, Copy, Debug)]
pub struct XZBBoxRect {
    min: XZPoint,
    max: XZPoint,
}

impl XZBBoxRect {
    /// Corners are ordered on both axes.
    #[verifier::type_invariant]
    pub closed spec fn wf(self) -> bool {
        self.min.x <= self.max.x && self.min.z <= self.max.z
    }

    pub closed spec fn spec_min(self) -> XZPoint {
        self.min
    }

    pub closed spec fn spec_max(self) -> XZPoint {
        self.max
    }

    /// The rectangle spanned by `min` and `max`; an error when a coordinate of
    /// `min` exceeds that of `max`.
    pub fn new(min: XZPoint, max: XZPoint) -> (r: Result<XZBBoxRect, String>)
        ensures
            r is Ok <==> (min.x <= max.x && min.z <= max.z),
            r matches Ok(rect) ==> rect.spec_min() == min && rect.spec_max() == max,
    {
        if min.x <= max.x && min.z <= max.z {
            Ok(XZBBoxRect { min, max })
        } else {
            Err(String::new())
        }
    }

    pub fn min(&self) -> (p: XZPoint)
        ensures
            p == self.spec_min(),
            p.x <= self.spec_max().x && p.z <= self.spec_max().z,
    {
        proof {
            use_type_invariant(self);
        }
        self.min
    }

    pub fn max(&self) -> (p: XZPoint)
        ensures
            p == self.spec_max(),
            self.spec_min().x <= p.x && self.spec_min().z <= p.z,
    {
        proof {
            use_type_invariant(self);
        }
        self.max
    }

    pub open spec fn spec_contains(self, p: XZPoint) -> bool {
        &&& self.spec_min().x <= p.x <= self.spec_max().x
        &&& self.spec_min().z <= p.z <= self.spec_max().z
    }

    /// Whether the point lies in the rectangle, borders included.
    pub fn contains(&self, p: &XZPoint) -> (b: bool)
        ensures
            b == self.spec_contains(*p),
    {
        self.min.x <= p.x && p.x <= self.max.x && self.min.z <= p.z && p.z <= self.max.z
    }

    /// Number of block columns along X.
    pub fn total_blocks_x(&self) -> (n: u64)
        ensures
            n == self.spec_max().x - self.spec_min().x + 1,
    {
        proof {
            use_type_invariant(self);
        }
        (self.max.x as i64 - self.min.x as i64 + 1) as u64
    }

    /// Number of block rows along Z.
    pub fn total_blocks_z(&self) -> (n: u64)
        ensures
            n == self.spec_max().z - self.spec_min().z + 1,
    {
        proof {
            use_type_invariant(self);
        }
        (self.max.z as i64 - self.min.z as i64 + 1) as u64
    }

    /// Number of blocks covered.
    pub fn total_blocks(&self) -> (n: u128)
        ensures
            n == (self.spec_max().x - self.spec_min().x + 1) * (self.spec_max().z
                - self.spec_min().z + 1),
    {
        let a = self.total_blocks_x();
        let b = self.total_blocks_z();
        assert(a <= 0x1_0000_0000 && b <= 0x1_0000_0000);
        assert(a * b <= 0x1_0000_0000 * 0x1_0000_0000) by (nonlinear_arith)
            requires
                a <= 0x1_0000_0000,
                b <= 0x1_0000_0000,
        ;
        a as u128 * b as u128
    }

    /// The rectangle moved by `v`.
    pub fn translated(&self, v: XZVector) -> (r: XZBBoxRect)
        requires
            i32::MIN <= self.spec_min().x + v.dx <= i32::MAX,
            i32::MIN <= self.spec_min().z + v.dz <= i32::MAX,
            i32::MIN <= self.spec_max().x + v.dx <= i32::MAX,
            i32::MIN <= self.spec_max().z + v.dz <= i32::MAX,
        ensures
            r.spec_min().x == self.spec_min().x + v.dx,
            r.spec_min().z == self.spec_min().z + v.dz,
            r.spec_max().x == self.spec_max().x + v.dx,
            r.spec_max().z == self.spec_max().z + v.dz,
    {
        proof {
            use_type_invariant(self);
        }
        XZBBoxRect {
            min: XZPoint { x: self.min.x + v.dx, z: self.min.z + v.dz },
            max: XZPoint { x: self.max.x + v.dx, z: self.max.z + v.dz },
        }
    }
}

/// Bounding box in Minecraft XZ space with varied shapes.
#[derive(Clone, Copy, Debug)]
pub enum XZBBox {
    Rect(XZBBoxRect),
}

impl XZBBox {
    pub open spec fn rect(self) -> XZBBoxRect {
        match self {
            XZBBox::Rect(r) => r,
        }
    }

    pub open spec fn spec_min_x(self) -> int {
        self.rect().spec_min().x as int
    }

    pub open spec fn spec_max_x(self) -> int {
        self.rect().spec_max().x as int
    }

    pub open spec fn spec_min_z(self) -> int {
        self.rect().spec_min().z as int
    }

    pub open spec fn spec_max_z(self) -> int {
        self.rect().spec_max().z as int
    }

    /// A rectangular box from absolute bounds; the bounds must be ordered.
    pub fn new(min_x: i32, max_x: i32, min_z: i32, max_z: i32) -> (b: XZBBox)
        requires
            min_x <= max_x,
            min_z <= max_z,
        ensures
            b.spec_min_x() == min_x,
            b.spec_max_x() == max_x,
            b.spec_min_z() == min_z,
            b.spec_max_z() == max_z,
    {
        XZBBox::Rect(
            XZBBoxRect { min: XZPoint { x: min_x, z: min_z }, max: XZPoint { x: max_x, z: max_z } },
        )
    }

    /// Same as `new`, for call sites that want the bounds spelled out.
    pub fn explicit(min_x: i32, max_x: i32, min_z: i32, max_z: i32) -> (b: XZBBox)
        requires
            min_x <= max_x,
            min_z <= max_z,
        ensures
            b.spec_min_x() == min_x,
            b.spec_max_x() == max_x,
            b.spec_min_z() == min_z,
            b.spec_max_z() == max_z,
    {
        Self::new(min_x, max_x, min_z, max_z)
    }

    pub open spec fn spec_contains(self, p: XZPoint) -> bool {
        &&& self.spec_min_x() <= p.x <= self.spec_max_x()
        &&& self.spec_min_z() <= p.z <= self.spec_max_z()
    }

    /// Whether a point is covered.
    pub fn contains(&self, xzpoint: &XZPoint) -> (b: bool)
        ensures
            b == self.spec_contains(*xzpoint),
    {
        match self {
            XZBBox::Rect(r) => r.contains(xzpoint),
        }
    }

    /// The circumscribed rectangle of the shape.
    pub fn bounding_rect(&self) -> (r: XZBBoxRect)
        ensures
            r == self.rect(),
    {
        match self {
            XZBBox::Rect(r) => *r,
        }
    }

    /// The smallest covered x.
    pub fn min_x(&self) -> (v: i32)
        ensures
            v == self.spec_min_x(),
            v <= self.spec_max_x(),
    {
        self.bounding_rect().min().x
    }

    /// The largest covered x.
    pub fn max_x(&self) -> (v: i32)
        ensures
            v == self.spec_max_x(),
            self.spec_min_x() <= v,
    {
        self.bounding_rect().max().x
    }

    /// The smallest covered z.
    pub fn min_z(&self) -> (v: i32)
        ensures
            v == self.spec_min_z(),
            v <= self.spec_max_z(),
    {
        self.bounding_rect().min().z
    }

    /// The largest covered z.
    pub fn max_z(&self) -> (v: i32)
        ensures
            v == self.spec_max_z(),
            self.spec_min_z() <= v,
    {
        self.bounding_rect().max().z
    }

    /// The box moved by `v`.
    pub fn add(self, v: XZVector) -> (b: XZBBox)
        requires
            i32::MIN <= self.spec_min_x() + v.dx <= i32::MAX,
            i32::MIN <= self.spec_min_z() + v.dz <= i32::MAX,
            i32::MIN <= self.spec_max_x() + v.dx <= i32::MAX,
            i32::MIN <= self.spec_max_z() + v.dz <= i32::MAX,
        ensures
            b.spec_min_x() == self.spec_min_x() + v.dx,
            b.spec_min_z() == self.spec_min_z() + v.dz,
            b.spec_max_x() == self.spec_max_x() + v.dx,
            b.spec_max_z() == self.spec_max_z() + v.dz,
    {
        match self {
            XZBBox::Rect(r) => XZBBox::Rect(r.translated(v)),
        }
    }

    /// Moves the box by `v` in place.
    pub fn add_assign(&mut self, v: XZVector)
        requires
            i32::MIN <= old(self).spec_min_x() + v.dx <= i32::MAX,
            i32::MIN <= old(self).spec_min_z() + v.dz <= i32::MAX,
            i32::MIN <= old(self).spec_max_x() + v.dx <= i32::MAX,
            i32::MIN <= old(self).spec_max_z() + v.dz <= i32::MAX,
        ensures
            final(self).spec_min_x() == old(self).spec_min_x() + v.dx,
            final(self).spec_min_z() == old(self).spec_min_z() + v.dz,
            final(self).spec_max_x() == old(self).spec_max_x() + v.dx,
            final(self).spec_max_z() == old(self).spec_max_z() + v.dz,
    {
        let moved = (*self).add(v);
        *self = moved;
    }

    /// The box moved by the opposite of `v`.
    pub fn sub(self, v: XZVector) -> (b: XZBBox)
        requires
            i32::MIN <= self.spec_min_x() - v.dx <= i32::MAX,
            i32::MIN <= self.spec_min_z() - v.dz <= i32::MAX,
            i32::MIN <= self.spec_max_x() - v.dx <= i32::MAX,
            i32::MIN <= self.spec_max_z() - v.dz <= i32::MAX,
            v.dx != i32::MIN,
            v.dz != i32::MIN,
        ensures
            b.spec_min_x() == self.spec_min_x() - v.dx,
            b.spec_min_z() == self.spec_min_z() - v.dz,
            b.spec_max_x() == self.spec_max_x() - v.dx,
            b.spec_max_z() == self.spec_max_z() - v.dz,
    {
        self.add(XZVector { dx: -v.dx, dz: -v.dz })
    }

    /// Moves the box by the opposite of `v` in place.
    pub fn sub_assign(&mut self, v: XZVector)
        requires
            i32::MIN <= old(self).spec_min_x() - v.dx <= i32::MAX,
            i32::MIN <= old(self).spec_min_z() - v.dz <= i32::MAX,
            i32::MIN <= old(self).spec_max_x() - v.dx <= i32::MAX,
            i32::MIN <= old(self).spec_max_z() - v.dz <= i32::MAX,
            v.dx != i32::MIN,
            v.dz != i32::MIN,
        ensures
            final(self).spec_min_x() == old(self).spec_min_x() - v.dx,
            final(self).spec_min_z() == old(self).spec_min_z() - v.dz,
            final(self).spec_max_x() == old(self).spec_max_x() - v.dx,
            final(self).spec_max_z() == old(self).spec_max_z() - v.dz,
    {
        let moved = (*self).sub(v);
        *self = moved;
    }
}

} // verus!
