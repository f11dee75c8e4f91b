//! Savanna vegetation along water: the blocks it is made of and the shape of
//! a twisted tree's side branch.

use vstd::prelude::*;

verus! {

/// The blocks of the savanna vegetation.
#[derive(Clone, Copy, PartialEq, Eq, Structural, Debug)]
pub enum Block {
    Air,
    Log,
    Leaf,
    LeafDense,
    Shrub,
    Grass,
    Litter,
    BurnMark,
    DeadBush,
}

/// The three logs of a side branch leaving `(x, y, z)` towards `(dx, dz)`:
/// step `i` of 3 is `i` blocks up and `i / 3` of the way across, rounded
/// toward zero.
pub open spec fn spec_branch(x: int, y: int, z: int, dx: int, dz: int) -> Seq<(int, int, int)> {
    Seq::new(
        3,
        |k: int|
            (
                x + crate::data_processing::div_toward_zero(dx * (k + 1), 3),
                y + k + 1,
                z + crate::data_processing::div_toward_zero(dz * (k + 1), 3),
            ),
    )
}

fn third_toward_zero(v: i32) -> (r: i32)
    requires
        -100 <= v <= 100,
    ensures
        r == crate::data_processing::div_toward_zero(v as int, 3),
{
    if v >= 0 {
        v / 3
    } else {
        -((-v) / 3)
    }
}

/// The logs of a side branch, for a direction within two blocks either way.
pub fn branch_positions(x: i32, y: i32, z: i32, dx: i32, dz: i32) -> (v: Vec<(i32, i32, i32)>)
    requires
        -2 <= dx <= 2,
        -2 <= dz <= 2,
        x - 2 >= i32::MIN,
        x + 2 <= i32::MAX,
        y + 3 <= i32::MAX,
        z - 2 >= i32::MIN,
        z + 2 <= i32::MAX,
    ensures
        v@.len() == 3,
        forall|k: int|
            0 <= k < 3 ==> (#[trigger] v@[k]).0 == spec_branch(x as int, y as int, z as int, dx as int, dz as int)[k].0
                && v@[k].1 == spec_branch(x as int, y as int, z as int, dx as int, dz as int)[k].1
                && v@[k].2 == spec_branch(x as int, y as int, z as int, dx as int, dz as int)[k].2,
{
    let mut v: Vec<(i32, i32, i32)> = Vec::new();
    let mut i: i32 = 1;
    while i <= 3
        invariant
            1 <= i <= 4,
            -2 <= dx <= 2,
            -2 <= dz <= 2,
            x - 2 >= i32::MIN,
            x + 2 <= i32::MAX,
            y + 3 <= i32::MAX,
            z - 2 >= i32::MIN,
            z + 2 <= i32::MAX,
            v@.len() == i - 1,
            forall|k: int|
                0 <= k < i - 1 ==> (#[trigger] v@[k]).0 == spec_branch(x as int, y as int, z as int, dx as int, dz as int)[k].0
                    && v@[k].1 == spec_branch(x as int, y as int, z as int, dx as int, dz as int)[k].1
                    && v@[k].2 == spec_branch(x as int, y as int, z as int, dx as int, dz as int)[k].2,
        decreases 4 - i,
    {
        assert(-6 <= dx * i <= 6 && -6 <= dz * i <= 6) by (nonlinear_arith)
            requires
                -2 <= dx <= 2,
                -2 <= dz <= 2,
                1 <= i <= 3,
        ;
        let ox = third_toward_zero(dx * i);
        let oz = third_toward_zero(dz * i);
        assert(-2 <= ox <= 2 && -2 <= oz <= 2);
        v.push((x + ox, y + i, z + oz));
        i = i + 1;
    }
    v
}

} // verus!
